//! Core rules of an encrypted peer-to-peer tunnel: which destinations the relay may reach, how
//! much unacknowledged data one stream may have in flight, when an idle stream is cancelled, and
//! which configurations a tunnel starts from.
//!
//! Everything here is free of I/O. Name lookups, sockets, timers and tasks are driven from
//! outside and hand their outcomes in as plain values.

pub mod authority;
pub mod egress;
pub mod flow;
pub mod frame;
pub mod idle;
pub mod ip_ranges;
pub mod net;
pub mod options;
pub mod service;
pub mod special_use;
pub mod subnet;
