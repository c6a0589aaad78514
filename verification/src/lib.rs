//! A bridge between a block-device driver and a multiqueue block layer.
//!
//! A driver implements [`Operations`]. The block layer reaches it through
//! the trampolines of [`OperationsVTable`], which hold the block layer to
//! the contract of each entry point: a request is submitted only while its
//! payload is live and somebody refers to it, a hardware context is used
//! only between its construction and its teardown, and the driver's
//! reference to a request is dropped exactly once for each submission that
//! it accepted. A call that breaks the contract changes nothing, reaches no
//! driver code and returns a [`Violation`].
//!
//! - [`operations`]: the driver's operations, the dispatch table and the
//!   trampolines.
//! - [`request`]: the reference-counted request and its payload.
//! - [`hctx`]: the slot of a hardware context, the request queue and the
//!   tag set.
//! - [`lifecycle`]: what holds of every history of a request and of a
//!   hardware context.
//! - [`error`]: error numbers, the status of a submission, and violations.
//! - [`atr`]: the address translation tables of the T7xx modem, a device
//!   that registers with the bridge.

pub mod atr;
pub mod error;
pub mod hctx;
pub mod lifecycle;
pub mod operations;
pub mod request;

pub use crate::error::{BlkStatus, Error, Violation};
pub use crate::hctx::{HwContext, RequestQueue, SlotState, TagSet};
pub use crate::operations::{DispatchTable, Operation, Operations, OperationsVTable};
pub use crate::request::{PayloadPhase, Request};
