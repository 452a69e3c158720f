//! The stub backend: the backend for every platform without a native
//! printing integration. All three capability operations fail
//! unconditionally with `PlatformError`; none ever returns `Ok`.

use vstd::prelude::*;

use crate::print::{PrintError, PrintSettings, Printer, PrinterInfo, spec_platform_unsupported};

verus! {

/// Total-failure backend for platforms with no native integration.
pub struct StubPrinter;

impl Printer for StubPrinter {
    /// Always fails with `PlatformError`; no printer is ever enumerated.
    fn get_printers() -> (r: Result<Vec<PrinterInfo>, PrintError>)
        ensures
            spec_platform_unsupported(r),
    {
        Err(PrintError::PlatformError(
            "Printing not supported on this platform".to_owned(),
        ))
    }

    /// Always fails with `PlatformError`, whatever the path, settings and
    /// printer name.
    fn print_pdf(
        _pdf_path: &str,
        _settings: &PrintSettings,
        _printer_name: Option<&str>,
    ) -> (r: Result<(), PrintError>)
        ensures
            spec_platform_unsupported(r),
    {
        Err(PrintError::PlatformError(
            "Printing not supported on this platform".to_owned(),
        ))
    }

    /// Always fails with `PlatformError`, whatever the path.
    fn show_print_dialog(_pdf_path: &str) -> (r: Result<(), PrintError>)
        ensures
            spec_platform_unsupported(r),
    {
        Err(PrintError::PlatformError(
            "Printing not supported on this platform".to_owned(),
        ))
    }
}

} // verus!
