//! A traffic-shadowing ingress core: each inbound POST body is duplicated to
//! a stable and a dev backend, and the caller sees a status derived from the
//! stable backend's outcome alone.
//!
//! The modules hold the decision logic of that pipeline; the surrounding
//! binary performs the actual HTTP transport and hands plain values in and
//! out.

pub mod dispatch;
pub mod exchange;
pub mod outcome;
pub mod targets;
