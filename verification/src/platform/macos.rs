//! The native-object-model backend: bridges the print dialog onto a
//! retained, message-dispatch-based document framework reached through a
//! foreign-function boundary.
//!
//! Verified code cannot speak to that runtime directly, so the bridge is
//! split in two. The decisions — which native object to construct next,
//! what to release on each failure, and what the call returns — live here
//! in [`DialogSession`], a state machine whose contracts guarantee the
//! ordered construct/check/release discipline: no partially-constructed
//! object graph ever leaks a native reference, on any exit path. Platform
//! glue outside the library performs each [`DialogAction`] against the
//! native runtime and reports what happened back to the session.

use vstd::prelude::*;
use vstd::string::StrSliceExecFns;

use crate::print::PrintError;

verus! {

/// The native-object-model backend.
pub struct MacOSPrinter;

impl MacOSPrinter {
    /// The portable entry point of this backend. A build of this library
    /// has no native object model wired into verified code, so the call
    /// fails the way the backend does wherever that runtime is absent;
    /// platform glue with a live runtime drives [`DialogSession`] instead.
    pub fn show_print_dialog(_pdf_path: &str) -> (r: Result<(), PrintError>)
        ensures
            r matches Err(e),
            r matches Err(e) ==> e matches PrintError::PrintError(m)
                && m@ == "Native print dialog not supported on this platform"@,
    {
        Err(PrintError::PrintError(
            "Native print dialog not supported on this platform".to_owned(),
        ))
    }
}

/// One of the transient native objects a dialog session touches.
///
/// The session owns the document and the view, which it obtains from the
/// runtime's alloc/init path and must release itself. The path string and
/// the file URL come from factory methods and the print operation is a
/// one-shot object bound to the shared print configuration; none of those
/// three is owned by the call, and none is ever released by it.
#[derive(Debug, Clone, Copy, PartialEq, Eq, Structural)]
pub enum NativeObject {
    /// The native string wrapper around the document path.
    PathString,
    /// The file URL built from the path string.
    FileUrl,
    /// The document object initialized from the URL; owned by the call.
    Document,
    /// The view object bound to the document; owned by the call.
    View,
    /// The one-shot print operation bound to the view.
    PrintOperation,
}

/// Whether a constructed `o` belongs to the session until the session
/// explicitly releases it.
pub open spec fn is_owned_object(o: NativeObject) -> bool {
    o is Document || o is View
}

/// What the platform glue must do next against the native runtime.
#[derive(Debug, Clone, Copy, PartialEq, Eq, Structural)]
pub enum DialogAction {
    /// Attempt to construct the given object; report whether the runtime
    /// returned an object or null.
    Construct(NativeObject),
    /// Send one release message to the given object.
    Release(NativeObject),
    /// Execute the print operation synchronously.
    RunOperation,
    /// The session is over; read its outcome.
    Finish,
}

/// The step at which a failed session gave up.
#[derive(Debug, Clone, Copy, PartialEq, Eq, Structural)]
pub enum FailedStep {
    /// The path could not be read as text at all.
    InvalidPath,
    /// The path is not representable in the native string encoding.
    InvalidPathEncoding,
    /// The native string wrapper came back null.
    StringNull,
    /// The file URL came back null.
    UrlNull,
    /// The document object came back null.
    DocumentNull,
    /// The view object came back null.
    ViewNull,
    /// The print operation came back null.
    OperationNull,
}

impl FailedStep {
    /// The diagnostic carried by the `PrintError` that the session
    /// reports for this step.
    pub open spec fn spec_diagnostic(self) -> Seq<char> {
        match self {
            FailedStep::InvalidPath => "Invalid PDF path"@,
            FailedStep::InvalidPathEncoding => "Invalid path encoding"@,
            FailedStep::StringNull => "Failed to create NSString"@,
            FailedStep::UrlNull => "Failed to create NSURL"@,
            FailedStep::DocumentNull => "Failed to create PDFDocument"@,
            FailedStep::ViewNull => "Failed to create PDFView"@,
            FailedStep::OperationNull => "Failed to create NSPrintOperation"@,
        }
    }

    /// Renders the diagnostic for this step.
    pub fn diagnostic(&self) -> (r: String)
        ensures
            r@ == self.spec_diagnostic(),
    {
        match self {
            FailedStep::InvalidPath => "Invalid PDF path".to_owned(),
            FailedStep::InvalidPathEncoding => "Invalid path encoding".to_owned(),
            FailedStep::StringNull => "Failed to create NSString".to_owned(),
            FailedStep::UrlNull => "Failed to create NSURL".to_owned(),
            FailedStep::DocumentNull => "Failed to create PDFDocument".to_owned(),
            FailedStep::ViewNull => "Failed to create PDFView".to_owned(),
            FailedStep::OperationNull => "Failed to create NSPrintOperation".to_owned(),
        }
    }
}

/// One native print dialog session, as a state machine over the ordered
/// construct/check/release protocol.
///
/// Each state names the next native step. The glue asks for the next
/// [`DialogAction`], performs it, reports the result, and repeats until
/// the action is [`DialogAction::Finish`]; the session then holds no
/// native object, whichever path it took.
#[derive(Debug, Clone, Copy, PartialEq, Eq, Structural)]
pub enum DialogSession {
    /// About to construct the native string wrapper for the path.
    BuildString,
    /// About to construct the file URL from the string.
    BuildUrl,
    /// About to construct the document from the URL.
    BuildDocument,
    /// About to construct the view and bind it to the document.
    BuildView,
    /// About to obtain the shared print configuration and construct the
    /// one-shot print operation bound to the view.
    BuildOperation,
    /// About to execute the print operation synchronously.
    Running,
    /// The operation ran; about to release the view.
    ReleaseViewAfterRun,
    /// The operation ran and the view is released; about to release the
    /// document.
    ReleaseDocumentAfterRun,
    /// The view came back null; about to release the document before
    /// giving up.
    ReleaseDocumentAfterViewFailure,
    /// The print operation came back null; about to release the view
    /// before the document.
    ReleaseViewAfterOperationFailure,
    /// The print operation came back null and the view is released;
    /// about to release the document before giving up.
    ReleaseDocumentAfterOperationFailure,
    /// The session succeeded and holds nothing.
    Completed,
    /// The session failed at the given step and holds nothing.
    Failed(FailedStep),
}

/// The view of an optional borrowed path.
pub open spec fn spec_opt_path(path: Option<&str>) -> Option<Seq<char>> {
    match path {
        Some(p) => Some(p@),
        None => None,
    }
}

impl DialogSession {
    /// The state a session starts in for the given path: `None` stands
    /// for a path that was not text in the first place; a path holding a
    /// NUL character is not representable in the native string encoding.
    /// Both are refused before any native object is touched.
    pub open spec fn start_for(path: Option<Seq<char>>) -> DialogSession {
        match path {
            None => DialogSession::Failed(FailedStep::InvalidPath),
            Some(p) => if p.contains('\u{0}') {
                DialogSession::Failed(FailedStep::InvalidPathEncoding)
            } else {
                DialogSession::BuildString
            },
        }
    }

    /// What the platform glue must do next.
    pub open spec fn action(self) -> DialogAction {
        match self {
            DialogSession::BuildString => DialogAction::Construct(NativeObject::PathString),
            DialogSession::BuildUrl => DialogAction::Construct(NativeObject::FileUrl),
            DialogSession::BuildDocument => DialogAction::Construct(NativeObject::Document),
            DialogSession::BuildView => DialogAction::Construct(NativeObject::View),
            DialogSession::BuildOperation => DialogAction::Construct(NativeObject::PrintOperation),
            DialogSession::Running => DialogAction::RunOperation,
            DialogSession::ReleaseViewAfterRun => DialogAction::Release(NativeObject::View),
            DialogSession::ReleaseDocumentAfterRun => DialogAction::Release(NativeObject::Document),
            DialogSession::ReleaseDocumentAfterViewFailure => DialogAction::Release(NativeObject::Document),
            DialogSession::ReleaseViewAfterOperationFailure => DialogAction::Release(NativeObject::View),
            DialogSession::ReleaseDocumentAfterOperationFailure => DialogAction::Release(NativeObject::Document),
            DialogSession::Completed => DialogAction::Finish,
            DialogSession::Failed(_) => DialogAction::Finish,
        }
    }

    /// How many of the five objects, in construction order, this session
    /// has seen the runtime hand out.
    pub open spec fn constructed_count(self) -> int {
        match self {
            DialogSession::BuildString => 0,
            DialogSession::BuildUrl => 1,
            DialogSession::BuildDocument => 2,
            DialogSession::BuildView => 3,
            DialogSession::BuildOperation => 4,
            DialogSession::Running => 5,
            DialogSession::ReleaseViewAfterRun => 5,
            DialogSession::ReleaseDocumentAfterRun => 5,
            DialogSession::ReleaseDocumentAfterViewFailure => 3,
            DialogSession::ReleaseViewAfterOperationFailure => 4,
            DialogSession::ReleaseDocumentAfterOperationFailure => 4,
            DialogSession::Completed => 5,
            DialogSession::Failed(step) => match step {
                FailedStep::InvalidPath => 0,
                FailedStep::InvalidPathEncoding => 0,
                FailedStep::StringNull => 0,
                FailedStep::UrlNull => 1,
                FailedStep::DocumentNull => 2,
                FailedStep::ViewNull => 3,
                FailedStep::OperationNull => 4,
            },
        }
    }

    /// The position of each object in the fixed construction order.
    pub open spec fn construction_rank(o: NativeObject) -> int {
        match o {
            NativeObject::PathString => 0,
            NativeObject::FileUrl => 1,
            NativeObject::Document => 2,
            NativeObject::View => 3,
            NativeObject::PrintOperation => 4,
        }
    }

    /// Whether this session has constructed `o`: construction follows the
    /// fixed order, so exactly the first `constructed_count` objects
    /// exist.
    pub open spec fn has_constructed(self, o: NativeObject) -> bool {
        Self::construction_rank(o) < self.constructed_count()
    }

    /// Whether this session has sent a release to the view.
    pub open spec fn view_released(self) -> bool {
        match self {
            DialogSession::ReleaseDocumentAfterRun => true,
            DialogSession::ReleaseDocumentAfterOperationFailure => true,
            DialogSession::Completed => true,
            DialogSession::Failed(step) => step is OperationNull,
            _ => false,
        }
    }

    /// Whether this session has sent a release to the document.
    pub open spec fn document_released(self) -> bool {
        match self {
            DialogSession::Completed => true,
            DialogSession::Failed(step) => step is ViewNull || step is OperationNull,
            _ => false,
        }
    }

    /// Whether this session has sent a release to `o`.
    pub open spec fn has_released(self, o: NativeObject) -> bool {
        match o {
            NativeObject::Document => self.document_released(),
            NativeObject::View => self.view_released(),
            _ => false,
        }
    }

    /// Whether the session currently holds `o`: an owned object that was
    /// constructed and not yet released. A session must not finish while
    /// it holds anything.
    pub open spec fn owns_object(self, o: NativeObject) -> bool {
        is_owned_object(o) && self.has_constructed(o) && !self.has_released(o)
    }

    /// Whether the session is over.
    pub open spec fn finished(self) -> bool {
        self is Completed || self is Failed
    }

    /// The step a finished session failed at, if it failed.
    pub open spec fn failure(self) -> Option<FailedStep> {
        match self {
            DialogSession::Failed(step) => Some(step),
            _ => None,
        }
    }

    /// The state after the runtime answered a construction attempt:
    /// `created` says whether an object came back or null.
    pub open spec fn step_construct(self, created: bool) -> DialogSession {
        match self {
            DialogSession::BuildString => if created {
                DialogSession::BuildUrl
            } else {
                DialogSession::Failed(FailedStep::StringNull)
            },
            DialogSession::BuildUrl => if created {
                DialogSession::BuildDocument
            } else {
                DialogSession::Failed(FailedStep::UrlNull)
            },
            DialogSession::BuildDocument => if created {
                DialogSession::BuildView
            } else {
                DialogSession::Failed(FailedStep::DocumentNull)
            },
            DialogSession::BuildView => if created {
                DialogSession::BuildOperation
            } else {
                DialogSession::ReleaseDocumentAfterViewFailure
            },
            DialogSession::BuildOperation => if created {
                DialogSession::Running
            } else {
                DialogSession::ReleaseViewAfterOperationFailure
            },
            _ => self,
        }
    }

    /// The state after the print operation ran.
    pub open spec fn step_run(self) -> DialogSession {
        match self {
            DialogSession::Running => DialogSession::ReleaseViewAfterRun,
            _ => self,
        }
    }

    /// The state after the requested release was sent.
    pub open spec fn step_release(self) -> DialogSession {
        match self {
            DialogSession::ReleaseViewAfterRun => DialogSession::ReleaseDocumentAfterRun,
            DialogSession::ReleaseDocumentAfterRun => DialogSession::Completed,
            DialogSession::ReleaseDocumentAfterViewFailure => DialogSession::Failed(FailedStep::ViewNull),
            DialogSession::ReleaseViewAfterOperationFailure => DialogSession::ReleaseDocumentAfterOperationFailure,
            DialogSession::ReleaseDocumentAfterOperationFailure => DialogSession::Failed(FailedStep::OperationNull),
            _ => self,
        }
    }

    /// Opens a session for the given path; `None` stands for a path that
    /// could not be read as text. A path that is not representable in the
    /// native string encoding is refused here, before any native object
    /// is constructed.
    pub fn new(pdf_path: Option<&str>) -> (s: DialogSession)
        ensures
            s == DialogSession::start_for(spec_opt_path(pdf_path)),
    {
        match pdf_path {
            None => DialogSession::Failed(FailedStep::InvalidPath),
            Some(p) => {
                if contains_nul(p) {
                    DialogSession::Failed(FailedStep::InvalidPathEncoding)
                } else {
                    DialogSession::BuildString
                }
            },
        }
    }

    /// What the platform glue must do next.
    pub fn next_action(&self) -> (a: DialogAction)
        ensures
            a == self.action(),
    {
        match self {
            DialogSession::BuildString => DialogAction::Construct(NativeObject::PathString),
            DialogSession::BuildUrl => DialogAction::Construct(NativeObject::FileUrl),
            DialogSession::BuildDocument => DialogAction::Construct(NativeObject::Document),
            DialogSession::BuildView => DialogAction::Construct(NativeObject::View),
            DialogSession::BuildOperation => DialogAction::Construct(NativeObject::PrintOperation),
            DialogSession::Running => DialogAction::RunOperation,
            DialogSession::ReleaseViewAfterRun => DialogAction::Release(NativeObject::View),
            DialogSession::ReleaseDocumentAfterRun => DialogAction::Release(NativeObject::Document),
            DialogSession::ReleaseDocumentAfterViewFailure => DialogAction::Release(NativeObject::Document),
            DialogSession::ReleaseViewAfterOperationFailure => DialogAction::Release(NativeObject::View),
            DialogSession::ReleaseDocumentAfterOperationFailure => DialogAction::Release(NativeObject::Document),
            DialogSession::Completed => DialogAction::Finish,
            DialogSession::Failed(_) => DialogAction::Finish,
        }
    }

    /// Records the runtime's answer to the pending construction attempt.
    /// On any other state the session is left as it stands.
    pub fn note_construct_outcome(&mut self, created: bool)
        ensures
            *final(self) == old(self).step_construct(created),
    {
        *self = self.step_construct_exec(created);
    }

    /// Records that the print operation was executed. On any other state
    /// the session is left as it stands.
    pub fn note_ran(&mut self)
        ensures
            *final(self) == old(self).step_run(),
    {
        if let DialogSession::Running = self {
            *self = DialogSession::ReleaseViewAfterRun;
        }
    }

    /// Records that the requested release was sent. On any other state
    /// the session is left as it stands.
    pub fn note_released(&mut self)
        ensures
            *final(self) == old(self).step_release(),
    {
        *self = match *self {
            DialogSession::ReleaseViewAfterRun => DialogSession::ReleaseDocumentAfterRun,
            DialogSession::ReleaseDocumentAfterRun => DialogSession::Completed,
            DialogSession::ReleaseDocumentAfterViewFailure => DialogSession::Failed(FailedStep::ViewNull),
            DialogSession::ReleaseViewAfterOperationFailure => DialogSession::ReleaseDocumentAfterOperationFailure,
            DialogSession::ReleaseDocumentAfterOperationFailure => DialogSession::Failed(FailedStep::OperationNull),
            other => other,
        };
    }

    /// Whether the session is over.
    pub fn is_finished(&self) -> (b: bool)
        ensures
            b == self.finished(),
    {
        match self {
            DialogSession::Completed => true,
            DialogSession::Failed(_) => true,
            _ => false,
        }
    }

    /// The outcome of a finished session: success after a completed
    /// native print session, or the job-level `PrintError` naming the
    /// step that failed. A session that is still under way has none.
    pub fn outcome(&self) -> (r: Option<Result<(), PrintError>>)
        ensures
            r is Some <==> self.finished(),
            *self is Completed ==> (r matches Some(out) && out is Ok),
            *self matches DialogSession::Failed(step) ==> (r matches Some(out)
                && out matches Err(e)
                && e matches PrintError::PrintError(m)
                && m@ == step.spec_diagnostic()),
    {
        match self {
            DialogSession::Completed => Some(Ok(())),
            DialogSession::Failed(step) => Some(Err(PrintError::PrintError(step.diagnostic()))),
            _ => None,
        }
    }

    /// Exec twin of [`Self::step_construct`].
    fn step_construct_exec(&self, created: bool) -> (s: DialogSession)
        ensures
            s == self.step_construct(created),
    {
        match self {
            DialogSession::BuildString => if created {
                DialogSession::BuildUrl
            } else {
                DialogSession::Failed(FailedStep::StringNull)
            },
            DialogSession::BuildUrl => if created {
                DialogSession::BuildDocument
            } else {
                DialogSession::Failed(FailedStep::UrlNull)
            },
            DialogSession::BuildDocument => if created {
                DialogSession::BuildView
            } else {
                DialogSession::Failed(FailedStep::DocumentNull)
            },
            DialogSession::BuildView => if created {
                DialogSession::BuildOperation
            } else {
                DialogSession::ReleaseDocumentAfterViewFailure
            },
            DialogSession::BuildOperation => if created {
                DialogSession::Running
            } else {
                DialogSession::ReleaseViewAfterOperationFailure
            },
            other => *other,
        }
    }
}

/// A session asks for a release only of an object it currently holds:
/// one of the owned kinds, already constructed in this same call, and not
/// released before. No object is ever released twice, and no object the
/// call does not own is ever released at all.
pub proof fn lemma_release_action_only_held(s: DialogSession, o: NativeObject)
    ensures
        s.action() == DialogAction::Release(o) ==> s.owns_object(o),
{
}

/// A finished session leaks nothing: it holds no native object, it has
/// released exactly the owned objects it constructed in this call, and it
/// has released nothing else.
pub proof fn lemma_finished_no_leak(s: DialogSession, o: NativeObject)
    requires
        s.finished(),
    ensures
        !s.owns_object(o),
        s.has_released(o) <==> s.has_constructed(o) && is_owned_object(o),
{
}

/// Accounting across one construction step: a successful attempt adds
/// exactly the requested object, a null answer adds nothing, and neither
/// releases anything.
pub proof fn lemma_construct_step_accounting(
    s: DialogSession,
    created: bool,
    o: NativeObject,
    p: NativeObject,
)
    requires
        s.action() == DialogAction::Construct(o),
    ensures
        s.step_construct(created).has_constructed(p) <==> s.has_constructed(p) || (created
            && p == o),
        s.step_construct(created).has_released(p) == s.has_released(p),
{
}

/// Accounting across one release step: exactly the requested object,
/// which the session held, moves to released; nothing is constructed.
pub proof fn lemma_release_step_accounting(s: DialogSession, o: NativeObject, p: NativeObject)
    requires
        s.action() == DialogAction::Release(o),
    ensures
        s.step_release().has_released(p) <==> s.has_released(p) || p == o,
        s.step_release().has_constructed(p) == s.has_constructed(p),
        !s.has_released(o),
{
}

/// Running the print operation neither constructs nor releases anything.
pub proof fn lemma_run_step_accounting(s: DialogSession, p: NativeObject)
    requires
        s.action() == DialogAction::RunOperation,
    ensures
        s.step_run().has_constructed(p) == s.has_constructed(p),
        s.step_run().has_released(p) == s.has_released(p),
{
}

/// A path that is missing or not representable in the native string
/// encoding is refused outright: the session opens already finished, with
/// a job-level failure, and constructs no native object at all.
pub proof fn lemma_rejected_path_constructs_nothing(path: Option<Seq<char>>, o: NativeObject)
    requires
        path matches Some(p) ==> p.contains('\u{0}'),
    ensures
        DialogSession::start_for(path).finished(),
        DialogSession::start_for(path).failure() is Some,
        !DialogSession::start_for(path).has_constructed(o),
        !DialogSession::start_for(path).has_released(o),
{
}

/// When the path is representable and the native runtime cooperates —
/// every construction hands back an object — the session constructs all
/// five objects in order, runs the operation, releases first the view and
/// then the document, and completes successfully.
pub proof fn lemma_cooperative_run_completes(path: Option<Seq<char>>)
    requires
        path matches Some(p) && !p.contains('\u{0}'),
    ensures
        ({
            let s = DialogSession::start_for(path)
                .step_construct(true)  // the path string
                .step_construct(true)  // the file URL
                .step_construct(true)  // the document
                .step_construct(true)  // the view
                .step_construct(true)  // the print operation
                .step_run()
                .step_release()  // the view
                .step_release();  // the document
            &&& s == DialogSession::Completed
            &&& s.finished()
            &&& s.failure() is None
        }),
{
}

/// Whether `s` holds the NUL character, the one character that the native
/// string encoding cannot carry.
fn contains_nul(s: &str) -> (b: bool)
    ensures
        b == s@.contains('\u{0}'),
{
    let n = s.unicode_len();
    let mut i: usize = 0;
    while i < n
        invariant
            n == s@.len(),
            0 <= i <= n,
            forall|j: int| 0 <= j < i ==> s@[j] != '\u{0}',
        decreases n - i,
    {
        if s.get_char(i) == '\u{0}' {
            return true;
        }
        i += 1;
    }
    false
}

} // verus!
