//! Cross-platform document printing subsystem.
//!
//! The library models a print job request (paper size, orientation, page
//! range, margins, copies, duplex, color, scale-to-fit), a closed taxonomy
//! of printing failures, and a capability contract that every platform
//! backend satisfies. Platforms without a native integration are served by
//! a stub backend that fails every operation; the native-object-model
//! backend is driven through a verified session state machine that
//! guarantees the construct/check/release discipline for the transient
//! native objects it manages.

pub mod i18n;
pub mod platform;
pub mod print;
