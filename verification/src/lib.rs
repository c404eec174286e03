//! A router over two endpoints: each tagged item goes to the end its tag
//! names, and completion and failure of both ends are reported as one.

pub mod endpoint;
pub mod error;
pub mod poll;
pub mod routed;
pub mod router_sink;
pub mod run;

pub use endpoint::Endpoint;
pub use error::RouterSinkError;
pub use poll::{Async, AsyncSink, Poll, StartSend};
pub use router_sink::{join, tag_left, tag_right, Route, RouterSink};
