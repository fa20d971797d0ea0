//! # A safe, typed layer over a Rendezvous-style message middleware
//!
//! The library models the middleware's data plane on plain values and
//! proves its behaviour:
//!
//! - [`field`] holds the typed field codec: encoding native values into
//!   tagged message fields and decoding them back, with strict
//!   discriminant and scalar/array checking.
//! - [`message`] holds the [`message::Msg`] container of tagged fields,
//!   with add/get/remove by name, id or position, iteration and byte-size
//!   accounting.
//! - [`event`] holds the dispatch queue and the per-subject
//!   [`event::Subscription`] with its FIFO hand-off buffer.
//! - [`asyncq`] bridges a subscription to a reactor: a readiness flag plus
//!   a non-blocking poll that never loses or reorders messages.
//! - [`context`] holds the runtime handle, the transport configuration
//!   builder and the transport-level operations that can be stated on
//!   plain values.
//! - [`errors`] defines the closed set of error kinds every fallible
//!   operation reports.
//! - [`laws`] states and proves, once for every input, the laws the
//!   codec and the container obey: round trips, tag mismatch safety,
//!   scalar-versus-array safety and byte-size monotonicity.

pub mod asyncq;
pub mod context;
pub mod errors;
pub mod event;
pub mod laws;
pub mod field;
pub mod message;
