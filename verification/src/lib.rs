//! MQTT 5 client library: a verified packet codec, the client's protocol
//! bookkeeping and the option builders used to form requests.
#![allow(unused_imports)]
#![allow(dead_code)]

pub mod buffer;
pub mod client;
pub mod codec;
pub mod time;
pub mod types;
