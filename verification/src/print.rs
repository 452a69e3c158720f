//! Settings model and error taxonomy for print job requests, the printer
//! capability contract, and the backend selector.

use vstd::prelude::*;
use vstd::string::StringExecFns;

pub use crate::platform::PlatformPrinter;

verus! {

/// Failure outcome of a printing operation: a closed taxonomy shared by
/// every platform backend.
#[derive(Debug, Clone, PartialEq, Eq)]
pub enum PrintError {
    /// A job-level failure, with a free-text diagnostic.
    PrintError(String),
    /// The requested capability is not wired up for the active platform.
    PlatformError(String),
    /// The platform's native printing subsystem could not be initialized.
    InitError(String),
    /// Enumeration succeeded but no printer could be selected.
    NoPrinter,
}

impl PrintError {
    /// The single human-readable description of the failure.
    pub open spec fn spec_message(self) -> Seq<char> {
        match self {
            PrintError::PrintError(m) => "Failed to print: "@ + m@,
            PrintError::PlatformError(m) => "Platform error: "@ + m@,
            PrintError::InitError(m) => "Initialization error: "@ + m@,
            PrintError::NoPrinter => "No printer available"@,
        }
    }

    /// Renders the failure as one human-readable message.
    pub fn message(&self) -> (r: String)
        ensures
            r@ == self.spec_message(),
    {
        match self {
            PrintError::PrintError(m) => "Failed to print: ".to_owned().concat(m.as_str()),
            PrintError::PlatformError(m) => "Platform error: ".to_owned().concat(m.as_str()),
            PrintError::InitError(m) => "Initialization error: ".to_owned().concat(m.as_str()),
            PrintError::NoPrinter => "No printer available".to_owned(),
        }
    }
}

/// Read-only snapshot of one enumerated printer.
#[derive(Debug, Clone)]
pub struct PrinterInfo {
    pub name: String,
    pub is_default: bool,
    pub supports_color: bool,
    pub supports_duplex: bool,
}

/// Named physical sheet format.
#[derive(Debug, Clone, Copy, PartialEq, Eq, Structural)]
pub enum PaperSize {
    A4,
    A3,
    A5,
    Letter,
    Legal,
    Tabloid,
}

/// The fixed (width, height) of each sheet format, in whole millimetres.
pub open spec fn spec_dimensions_mm(size: PaperSize) -> (u32, u32) {
    match size {
        PaperSize::A4 => (210, 297),
        PaperSize::A3 => (297, 420),
        PaperSize::A5 => (148, 210),
        PaperSize::Letter => (216, 279),
        PaperSize::Legal => (216, 356),
        PaperSize::Tabloid => (279, 432),
    }
}

impl PaperSize {
    /// The physical (width, height) of the sheet in millimetres: a fixed,
    /// immutable table, a function of the variant alone.
    pub fn dimensions_mm(&self) -> (d: (u32, u32))
        ensures
            d == spec_dimensions_mm(*self),
    {
        match self {
            PaperSize::A4 => (210, 297),
            PaperSize::A3 => (297, 420),
            PaperSize::A5 => (148, 210),
            PaperSize::Letter => (216, 279),
            PaperSize::Legal => (216, 356),
            PaperSize::Tabloid => (279, 432),
        }
    }
}

/// Two calls of `dimensions_mm` on the same variant return identical
/// values: the dimensions are a pure function of the variant, with no
/// hidden state.
pub proof fn lemma_dimensions_mm_stable(a: PaperSize, b: PaperSize)
    requires
        a == b,
    ensures
        spec_dimensions_mm(a) == spec_dimensions_mm(b),
{
}

/// Page orientation; the two variants are mutually exclusive.
#[derive(Debug, Clone, Copy, PartialEq, Eq, Structural)]
pub enum Orientation {
    Portrait,
    Landscape,
}

/// Inclusive span of 0-based page indices to print.
#[derive(Debug, Clone, PartialEq, Eq, Structural)]
pub struct PageRange {
    pub start: usize,
    pub end: usize,
}

impl PageRange {
    /// A range over the given endpoints, both inclusive.
    pub fn new(start: usize, end: usize) -> (r: Self)
        requires
            start <= end,
        ensures
            r.start == start,
            r.end == end,
    {
        Self { start, end }
    }

    /// The range covering a whole document of `page_count` pages:
    /// `[0, page_count - 1]`. A count of zero yields the degenerate
    /// single-page range `[0, 0]`, as the subtraction saturates.
    pub fn all(page_count: usize) -> (r: Self)
        ensures
            r.start == 0,
            page_count == 0 ==> r.end == 0,
            page_count > 0 ==> r.end == page_count - 1,
    {
        Self { start: 0, end: page_count.saturating_sub(1) }
    }
}

/// Page margins in whole length units.
///
/// Negative margins are not rejected at construction; validating them is
/// the caller's responsibility.
#[derive(Debug, Clone, Copy, PartialEq, Eq, Structural)]
pub struct Margins {
    pub top: i32,
    pub right: i32,
    pub bottom: i32,
    pub left: i32,
}

impl Default for Margins {
    /// Ten units on every side.
    fn default() -> (r: Self)
        ensures
            r.top == 10,
            r.right == 10,
            r.bottom == 10,
            r.left == 10,
    {
        Self { top: 10, right: 10, bottom: 10, left: 10 }
    }
}

/// Full configuration of one print job request. `page_range == None`
/// means "print everything"; the backend resolves it against the
/// document's actual page count.
#[derive(Debug, Clone)]
pub struct PrintSettings {
    pub paper_size: PaperSize,
    pub orientation: Orientation,
    pub page_range: Option<PageRange>,
    pub copies: u32,
    pub duplex: bool,
    pub color: bool,
    pub scale_to_fit: bool,
    pub margins: Margins,
}

impl Default for PrintSettings {
    /// A4 portrait, every page, one copy, simplex, color, scaled to fit,
    /// default margins.
    fn default() -> (r: Self)
        ensures
            r.paper_size == PaperSize::A4,
            r.orientation == Orientation::Portrait,
            r.page_range is None,
            r.copies == 1,
            !r.duplex,
            r.color,
            r.scale_to_fit,
            r.margins == (Margins { top: 10, right: 10, bottom: 10, left: 10 }),
    {
        Self {
            paper_size: PaperSize::A4,
            orientation: Orientation::Portrait,
            page_range: None,
            copies: 1,
            duplex: false,
            color: true,
            scale_to_fit: true,
            margins: Margins::default(),
        }
    }
}

/// Holds exactly when `r` is the failure that a backend without native
/// printing integration reports for every operation.
pub open spec fn spec_platform_unsupported<T>(r: Result<T, PrintError>) -> bool {
    &&& r matches Err(e)
    &&& e matches PrintError::PlatformError(m)
    &&& m@ == "Printing not supported on this platform"@
}

/// The printer capability contract: the three operations every platform
/// backend must satisfy. A platform either carries a real backend or a
/// total-failure stub, never a partial implementation.
pub trait Printer {
    /// Enumerates the system-registered printers. The ordering of the
    /// result is not meaningful; treat it as a set with one default flag.
    fn get_printers() -> Result<Vec<PrinterInfo>, PrintError>;

    /// Prints the document at `pdf_path` with the given settings.
    /// `printer_name == None` means "use the default printer".
    fn print_pdf(
        pdf_path: &str,
        settings: &PrintSettings,
        printer_name: Option<&str>,
    ) -> Result<(), PrintError>;

    /// Hands control to the OS's interactive print UI, blocking until the
    /// native dialog session completes or is dismissed.
    fn show_print_dialog(pdf_path: &str) -> Result<(), PrintError>;
}

/// Invokes the native print dialog through the backend selected for this
/// build, forwarding the backend's outcome untouched. The stub backend is
/// the one wired up here, so the call always reports the platform as
/// unsupported, whatever the input.
pub fn show_print_dialog(pdf_path: &str) -> (r: Result<(), PrintError>)
    ensures
        spec_platform_unsupported(r),
{
    PlatformPrinter::show_print_dialog(pdf_path)
}

} // verus!
