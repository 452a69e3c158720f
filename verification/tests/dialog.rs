//! Drives the native dialog session against an instrumented runtime
//! double that counts every construction and release per object.

use pdf_print::platform::macos::{DialogAction, DialogSession, NativeObject};
use pdf_print::print::PrintError;

const OBJECT_COUNT: usize = 5;

fn object_index(o: NativeObject) -> usize {
    match o {
        NativeObject::PathString => 0,
        NativeObject::FileUrl => 1,
        NativeObject::Document => 2,
        NativeObject::View => 3,
        NativeObject::PrintOperation => 4,
    }
}

struct RuntimeDouble {
    fail_at: Option<NativeObject>,
    constructed: [u32; OBJECT_COUNT],
    released: [u32; OBJECT_COUNT],
    runs: u32,
}

impl RuntimeDouble {
    fn new(fail_at: Option<NativeObject>) -> Self {
        Self { fail_at, constructed: [0; OBJECT_COUNT], released: [0; OBJECT_COUNT], runs: 0 }
    }
}

fn drive(
    path: Option<&str>,
    fail_at: Option<NativeObject>,
) -> (RuntimeDouble, Result<(), PrintError>) {
    let mut runtime = RuntimeDouble::new(fail_at);
    let mut session = DialogSession::new(path);
    loop {
        match session.next_action() {
            DialogAction::Construct(o) => {
                let created = runtime.fail_at != Some(o);
                if created {
                    runtime.constructed[object_index(o)] += 1;
                }
                session.note_construct_outcome(created);
            }
            DialogAction::Release(o) => {
                runtime.released[object_index(o)] += 1;
                session.note_released();
            }
            DialogAction::RunOperation => {
                runtime.runs += 1;
                session.note_ran();
            }
            DialogAction::Finish => {
                return (runtime, session.outcome().expect("a finished session has an outcome"));
            }
        }
    }
}

fn expect_print_error(outcome: Result<(), PrintError>, diagnostic: &str) {
    match outcome {
        Err(PrintError::PrintError(m)) => assert_eq!(m, diagnostic),
        other => panic!("expected a job-level print error, got {:?}", other),
    }
}

#[test]
fn dialog_missing_path_constructs_nothing() {
    let (runtime, outcome) = drive(None, None);
    expect_print_error(outcome, "Invalid PDF path");
    assert_eq!(runtime.constructed, [0; OBJECT_COUNT]);
    assert_eq!(runtime.released, [0; OBJECT_COUNT]);
    assert_eq!(runtime.runs, 0);
}

#[test]
fn dialog_unrepresentable_path_constructs_nothing() {
    let (runtime, outcome) = drive(Some("/tmp/sam\u{0}ple.pdf"), None);
    expect_print_error(outcome, "Invalid path encoding");
    assert_eq!(runtime.constructed, [0; OBJECT_COUNT]);
    assert_eq!(runtime.released, [0; OBJECT_COUNT]);
    assert_eq!(runtime.runs, 0);
}

#[test]
fn dialog_string_failure_releases_nothing() {
    let (runtime, outcome) = drive(Some("/tmp/sample.pdf"), Some(NativeObject::PathString));
    expect_print_error(outcome, "Failed to create NSString");
    assert_eq!(runtime.constructed, [0, 0, 0, 0, 0]);
    assert_eq!(runtime.released, [0; OBJECT_COUNT]);
    assert_eq!(runtime.runs, 0);
}

#[test]
fn dialog_url_failure_releases_nothing_owned() {
    let (runtime, outcome) = drive(Some("/tmp/sample.pdf"), Some(NativeObject::FileUrl));
    expect_print_error(outcome, "Failed to create NSURL");
    assert_eq!(runtime.constructed, [1, 0, 0, 0, 0]);
    assert_eq!(runtime.released, [0; OBJECT_COUNT]);
    assert_eq!(runtime.runs, 0);
}

#[test]
fn dialog_document_failure_releases_nothing_owned() {
    let (runtime, outcome) = drive(Some("/tmp/sample.pdf"), Some(NativeObject::Document));
    expect_print_error(outcome, "Failed to create PDFDocument");
    assert_eq!(runtime.constructed, [1, 1, 0, 0, 0]);
    assert_eq!(runtime.released, [0; OBJECT_COUNT]);
    assert_eq!(runtime.runs, 0);
}

#[test]
fn dialog_view_failure_releases_document_once() {
    let (runtime, outcome) = drive(Some("/tmp/sample.pdf"), Some(NativeObject::View));
    expect_print_error(outcome, "Failed to create PDFView");
    assert_eq!(runtime.constructed, [1, 1, 1, 0, 0]);
    // The document, the only owned object constructed so far, is
    // released exactly once; nothing else is released at all.
    assert_eq!(runtime.released, [0, 0, 1, 0, 0]);
    assert_eq!(runtime.runs, 0);
}

#[test]
fn dialog_operation_failure_releases_view_and_document_once() {
    let (runtime, outcome) = drive(Some("/tmp/sample.pdf"), Some(NativeObject::PrintOperation));
    expect_print_error(outcome, "Failed to create NSPrintOperation");
    assert_eq!(runtime.constructed, [1, 1, 1, 1, 0]);
    assert_eq!(runtime.released, [0, 0, 1, 1, 0]);
    assert_eq!(runtime.runs, 0);
}

#[test]
fn dialog_cooperative_run_completes() {
    let (runtime, outcome) = drive(Some("/tmp/sample.pdf"), None);
    assert_eq!(outcome, Ok(()));
    assert_eq!(runtime.constructed, [1, 1, 1, 1, 1]);
    // On success the session runs the operation once and releases the
    // view and the document exactly once each; the string, the URL and
    // the operation are not owned and are never released.
    assert_eq!(runtime.released, [0, 0, 1, 1, 0]);
    assert_eq!(runtime.runs, 1);
}

#[test]
fn dialog_outcome_is_none_while_under_way() {
    let session = DialogSession::new(Some("/tmp/sample.pdf"));
    assert!(session.outcome().is_none());
    assert!(!session.is_finished());
}
