use pignote::cancel::{checkpoint, proceed_unless};
use pignote::error::ExportError;
use pignote::session::{ExportSession, ProcessId, RenderOutcome};

#[test]
fn new_session_is_idle() {
    let session = ExportSession::new();
    assert!(!session.is_cancel_requested());
    assert_eq!(session.active, None);
}

#[test]
fn second_start_terminates_the_first() {
    let mut session = ExportSession::new();
    assert_eq!(session.begin_start(), None);
    assert_eq!(session.register(ProcessId(1)), None);
    assert_eq!(session.active, Some(ProcessId(1)));

    assert_eq!(session.begin_start(), Some(ProcessId(1)));
    assert_eq!(session.active, None);
    assert_eq!(session.register(ProcessId(2)), None);
    assert_eq!(session.active, Some(ProcessId(2)));

    session.finish_wait();
    assert_eq!(session.active, None);
    session.finish_wait();
    assert_eq!(session.active, None);
}

#[test]
fn register_hands_out_a_process_that_got_in_between() {
    let mut session = ExportSession::new();
    session.begin_start();
    session.register(ProcessId(7));
    assert_eq!(session.register(ProcessId(8)), Some(ProcessId(7)));
    assert_eq!(session.active, Some(ProcessId(8)));
}

#[test]
fn start_takes_back_a_request() {
    let mut session = ExportSession::new();
    session.cancel();
    assert!(session.is_cancel_requested());
    session.begin_start();
    assert!(!session.is_cancel_requested());
}

#[test]
fn cancel_sets_the_flag_and_hands_out_the_process() {
    let mut session = ExportSession::new();
    assert_eq!(session.cancel(), None);
    assert!(session.is_cancel_requested());
    let mut session = ExportSession::new();
    session.begin_start();
    session.register(ProcessId(3));
    assert_eq!(session.cancel(), Some(ProcessId(3)));
    assert_eq!(session.cancel(), Some(ProcessId(3)));
    assert!(session.is_cancel_requested());
    assert_eq!(session.active, Some(ProcessId(3)));
    session.finish_wait();
    assert_eq!(session.active, None);
    assert!(session.is_cancel_requested());
}

#[test]
fn cancelled_run_is_reported_once() {
    let mut session = ExportSession::new();
    session.begin_start();
    session.register(ProcessId(3));
    session.cancel();
    session.finish_wait();
    assert_eq!(session.conclude(true, true), RenderOutcome::Cancelled { remove_output: true });
    assert!(!session.is_cancel_requested());
    assert_eq!(session.conclude(true, true), RenderOutcome::Completed);
}

#[test]
fn cancelled_run_without_output_has_nothing_to_remove() {
    let mut session = ExportSession::new();
    session.cancel();
    assert_eq!(session.conclude(false, false), RenderOutcome::Cancelled { remove_output: false });
}

#[test]
fn run_is_judged_by_status_and_output() {
    let mut session = ExportSession::new();
    assert_eq!(session.conclude(true, true), RenderOutcome::Completed);
    assert_eq!(session.conclude(true, false), RenderOutcome::Failed);
    assert_eq!(session.conclude(false, true), RenderOutcome::Failed);
    assert_eq!(session.conclude(false, false), RenderOutcome::Failed);
    assert!(!session.is_cancel_requested());
}

#[test]
fn outcomes_become_results() {
    assert_eq!(RenderOutcome::Completed.into_result(), Ok(()));
    assert_eq!(RenderOutcome::Failed.into_result(), Err(ExportError::ExternalProcessFailure));
    assert_eq!(
        RenderOutcome::Cancelled { remove_output: false }.into_result(),
        Err(ExportError::CancellationRequested)
    );
}

#[test]
fn one_answer_of_the_probe_decides() {
    assert_eq!(proceed_unless(false), Ok(()));
    assert_eq!(proceed_unless(true), Err(ExportError::CancellationRequested));
    assert_eq!(checkpoint(&|| false), Ok(()));
    assert_eq!(checkpoint(&|| true), Err(ExportError::CancellationRequested));
}

#[test]
fn errors_have_their_messages() {
    assert_eq!(ExportError::CancellationRequested.message(), "İşlem iptal edildi");
    assert_eq!(
        ExportError::RenderingEngineNotFound.message(),
        "PDF oluşturulamadı: Headless modda çalışacak Chrome/Edge bulunamadı."
    );
    assert_eq!(ExportError::ExternalProcessFailure.message(), "PDF oluşturulamadı");
    assert_eq!(ExportError::Io("disk full".to_string()).message(), "disk full");
    assert_eq!(ExportError::PdfStructure("bad xref".to_string()).message(), "bad xref");
}
