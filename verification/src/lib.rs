//! Marshalling layer between typed native values and the tagged dynamic
//! values exchanged with a dynamically typed host runtime, together with
//! the error-channel composition rule that every boundary call follows,
//! the option builders that lower to fixed-shape argument records, and
//! the polymorphic range-literal codec.

pub mod object;
pub mod error;
pub mod convert;
pub mod channel;
pub mod handles;
pub mod range;
pub mod keymap;
pub mod registry;
