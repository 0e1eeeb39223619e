pub mod access;
pub mod dispatch;
pub mod error;
pub mod framing;
pub mod opts;
pub mod rsp;
pub mod session;
pub mod utils;
