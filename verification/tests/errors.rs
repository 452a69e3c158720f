use pdf_print::print::PrintError;

#[test]
fn print_error_message_carries_diagnostic() {
    let e = PrintError::PrintError("spooler gone".to_string());
    assert_eq!(e.message(), "Failed to print: spooler gone");
}

#[test]
fn platform_error_message_carries_diagnostic() {
    let e = PrintError::PlatformError("no backend".to_string());
    assert_eq!(e.message(), "Platform error: no backend");
}

#[test]
fn init_error_message_carries_diagnostic() {
    let e = PrintError::InitError("service down".to_string());
    assert_eq!(e.message(), "Initialization error: service down");
}

#[test]
fn no_printer_message_is_fixed() {
    assert_eq!(PrintError::NoPrinter.message(), "No printer available");
}
