use pdf_print::platform::macos::MacOSPrinter;
use pdf_print::platform::stub::StubPrinter;
use pdf_print::print::{PrintError, PrintSettings, Printer, show_print_dialog};

fn is_platform_unsupported(e: &PrintError) -> bool {
    matches!(e, PrintError::PlatformError(m) if m == "Printing not supported on this platform")
}

#[test]
fn stub_get_printers_always_fails() {
    let r = StubPrinter::get_printers();
    match r {
        Err(e) => assert!(is_platform_unsupported(&e)),
        Ok(_) => panic!("the stub backend must never succeed"),
    }
}

#[test]
fn stub_print_pdf_always_fails() {
    let settings = PrintSettings::default();
    let r = StubPrinter::print_pdf("/tmp/sample.pdf", &settings, None);
    match r {
        Err(e) => assert!(is_platform_unsupported(&e)),
        Ok(()) => panic!("the stub backend must never succeed"),
    }

    let r = StubPrinter::print_pdf("/tmp/sample.pdf", &settings, Some("Office"));
    assert!(matches!(r, Err(ref e) if is_platform_unsupported(e)));
}

#[test]
fn stub_show_print_dialog_always_fails() {
    let r = StubPrinter::show_print_dialog("/tmp/sample.pdf");
    assert!(matches!(r, Err(ref e) if is_platform_unsupported(e)));

    let r = StubPrinter::show_print_dialog("");
    assert!(matches!(r, Err(ref e) if is_platform_unsupported(e)));
}

#[test]
fn top_level_dialog_reports_unsupported_platform() {
    // The build with no native backend wired reports PlatformError for
    // every input, valid or not.
    for path in ["/tmp/sample.pdf", "", "not a path", "/tmp/\u{0}.pdf"] {
        let r = show_print_dialog(path);
        match r {
            Err(e) => {
                assert!(is_platform_unsupported(&e));
                assert_eq!(
                    e.message(),
                    "Platform error: Printing not supported on this platform"
                );
            }
            Ok(()) => panic!("no native backend is wired into this build"),
        }
    }
}

#[test]
fn native_backend_portable_entry_point_fails() {
    let r = MacOSPrinter::show_print_dialog("/tmp/sample.pdf");
    assert_eq!(
        r,
        Err(PrintError::PrintError(
            "Native print dialog not supported on this platform".to_string()
        ))
    );
}
