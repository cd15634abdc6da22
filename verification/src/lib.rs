//! A timed gate that enforces a minimum spacing between events.
//!
//! A [`Fence`] is armed with an interval. It opens once the interval has
//! passed on its monotonic clock, and closes again for one more interval each
//! time an event is let through. Time is counted in nanoseconds from the
//! moment the fence was made.
//!
//! * [`gate`] is the mathematical model: a watermark and an interval.
//! * [`clock`] is the boundary to the host's monotonic clock.
//! * [`fence`] is the executable fence, with contracts over the model.
//! * [`laws`] states what the model guarantees to a loop paced by a fence.

pub mod clock;
pub mod fence;
pub mod gate;
pub mod laws;

pub use clock::{span_from_nanos, span_nanos, MAX_SPAN_NANOS, NANOS_PER_MILLI, NANOS_PER_SEC};
pub use fence::Fence;
pub use gate::{Gate, Nap};
