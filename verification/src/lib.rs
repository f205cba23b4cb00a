//! Publish-subscribe forwarding bookkeeping: the completion entries that a
//! subscriber hands back to a publisher, the per-bucket reference counts and
//! forwarding bitmaps of a publisher, the declared forwarding topology of a
//! service and the per-sample forwarding decisions.
#![allow(non_camel_case_types)]
pub mod completion_entry;
pub mod segment_state;
pub mod publisher_mode;
pub mod service_name;
pub mod static_config;
pub mod completion_channel;
pub mod sample;
pub mod c_api;
