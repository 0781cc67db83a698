//! Runtime-checked single-slot cells.
//!
//! A family of cells around a single value that detect, at the point of
//! violation, unsafe aliasing between shared and exclusive access and access
//! from a foreign thread. The core is [`cell::SafetyCell`], a dynamic
//! borrow/thread-affinity state machine; the singleton types layer
//! initialization tracking, optional storage and lazy computation on top of
//! its two primitives, acquire-shared and acquire-exclusive.

pub mod cell;
pub mod error;
pub mod lazy;
pub mod option;
pub mod singleton;
pub mod uninit;

pub use cell::BorrowState;
pub use cell::Mode;
pub use cell::SafetyCell;
pub use error::AccessError;
pub use lazy::SingletonLazy;
pub use option::SingletonOption;
pub use singleton::Singleton;
pub use uninit::SingletonUninit;
