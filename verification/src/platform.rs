//! Platform backends for the printer capability contract, and the static
//! selection of the one backend the rest of the system talks to.

pub mod macos;
pub mod stub;

/// The backend selected for this build. This crate carries no native
/// printing integration of its own, so the total-failure stub is the one
/// wired up; a build with a live native object model drives
/// [`macos::DialogSession`] from its platform glue instead.
pub use stub::StubPrinter as PlatformPrinter;
