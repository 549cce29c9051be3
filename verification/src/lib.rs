//! Safe core of an Ecore-style event-loop and windowing binding.
//!
//! The native toolkit registers callbacks as an untyped function/pointer
//! pair and owns every window and registration behind opaque handles.  This
//! crate keeps that adaptation layer in safe, verified code:
//!
//! - [`bridge`] carries a strongly-typed callback and its context through a
//!   registration, and proves the renew/cancel continuation protocol;
//! - [`lifecycle`] models the reference-counted `init`/`shutdown` discipline
//!   of the toolkit's subsystems;
//! - [`ecore`] offers the typed registration entry points and a window
//!   object that owns its geometry and user data;
//! - [`eo`] holds the opaque object type of the underlying object system.
//!
//! The native event loop itself, and every call that crosses into the
//! toolkit's C interface, stays outside this crate; the types here hand it
//! nothing but plain values.

pub mod bridge;
pub mod ecore;
pub mod eo;
pub mod lifecycle;
