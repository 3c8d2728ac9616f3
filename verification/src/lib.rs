//! Session manager of a Bluetooth Low Energy peripheral used as a device
//! under test: the control-word decoder, the two periodic stream engines with
//! their command queues, and the advertise / connect / serve / disconnect
//! cycle, each as verified step functions that a thin asynchronous shell drives.

pub mod config;
pub mod controller;
pub mod queue;
pub mod session;
pub mod stream;
