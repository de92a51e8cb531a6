//! Core value representation for a dynamically-typed interpreter runtime:
//! a tagged-word codec, variant dispatch with typed handles over a model
//! heap, three equality relations, forwarding descriptors for native
//! variable storage, and a multi-limb time value with carry-correct
//! arithmetic.

pub mod codec;
pub mod dispatch;
pub mod equality;
pub mod forward;
pub mod heap;
pub mod object;
pub mod ptr;
pub mod render;
pub mod subr;
pub mod time;
