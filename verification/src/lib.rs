//! A multi-pointer gesture recognition engine.
//!
//! The engine consumes a stream of pointer lifecycle events (over, enter,
//! down, move, up, cancel, out, leave) for one UI target and recognizes
//! three gestures: hover (presence based, any number of pointers), drag
//! (one pressed pointer, threshold gated) and pinch (exactly two pressed
//! pointers, threshold gated). Every state transition is specified by a
//! mathematical step function and the executable trackers are proved to
//! follow it; the events they report are exactly the events of the model.

pub mod down_pointer;
pub mod drag;
pub mod events;
pub mod geometry;
pub mod hover;
pub mod options;
pub mod pinch;
pub mod pointer;
pub mod sample;
pub mod state;

pub use sample::Point;
pub use sample::PointerId;
pub use sample::PointerSample;
