//! Building blocks for the Rust side of callback-based foreign interfaces.
//!
//! The functions are sequential: each is one critical section, or one step, on
//! state that it has to itself. What is to happen outside of it is part of its
//! result. Proof functions whose names begin with `law_` state what holds over
//! more than one call.
pub mod callback_context;
pub mod completion;
pub mod four_char_code;
pub mod panic_safe;
pub mod poll;
pub mod ring_queue;
pub mod spsc;
pub mod spsc_effects;
pub mod spsc_laws;
pub mod stream;
pub mod stream_effects;
pub mod stream_laws;
pub mod time_span;
pub mod waker;

pub use four_char_code::FourCharCode;
