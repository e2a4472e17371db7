//! A verified core for a frame-to-bus bridge service.
//!
//! The service accepts a fixed-size binary payload over the network and
//! writes it verbatim to a serial peripheral bus. This crate holds the
//! decision logic of that service, with machine-checked contracts:
//!
//! - [`bridge`]: validating a payload's length and shaping the response
//!   returned to the transport layer;
//! - [`decimal`]: rendering numbers as decimal text for diagnostics;
//! - [`bufsiz`]: parsing the driver's buffer-size parameter from its
//!   textual form;
//! - [`modlist`]: deciding from a module listing whether the driver is
//!   loaded;
//! - [`controller`]: the startup protocol that reconciles the kernel
//!   driver's transfer-buffer capacity with the frame size, expressed as
//!   a state machine over observed events.
//!
//! Everything that touches the outside world (processes, files, the bus
//! device, the HTTP listener) lives in the surrounding application, which
//! performs the actions this crate decides on and feeds the outcomes back.

pub mod bridge;
pub mod bufsiz;
pub mod controller;
pub mod decimal;
pub mod modlist;
