use rustsend::models::{
    ClientMessage, DeviceInfo, FileInfo, FileType, ReceiveSession, ReceiveStatus, SendRequest,
};
use rustsend::session::{CancelOutcome, ChunkOutcome, SessionCoordinator};

fn file(id: &str, size: usize) -> FileInfo {
    FileInfo {
        id: id.to_string(),
        size,
        file_name: format!("{}.bin", id),
        file_type: FileType::Other,
    }
}

fn request_a100_b50() -> SendRequest {
    SendRequest {
        device_info: DeviceInfo::default(),
        files: vec![file("A", 100), file("B", 50)],
    }
}

fn allowed_ids(msg: &ClientMessage) -> Vec<String> {
    match msg {
        ClientMessage::Allow(ids) => ids.clone(),
        ClientMessage::Decline => panic!("expected Allow"),
    }
}

#[test]
fn full_selection_completes_when_all_counters_reach_totals() {
    let mut c = SessionCoordinator::new();
    let req = request_a100_b50();
    let decision = c
        .handle_send_request(&req, &vec![0, 1], "downloads".to_string())
        .expect("an idle coordinator answers");
    assert_eq!(allowed_ids(&decision), vec!["A".to_string(), "B".to_string()]);

    let a = "A".to_string();
    let b = "B".to_string();
    assert!(matches!(c.handle_file_chunk(&a, 60), ChunkOutcome::Progress));
    assert!(matches!(c.handle_file_chunk(&a, 40), ChunkOutcome::FileFinished));
    match c.handle_file_chunk(&b, 50) {
        ChunkOutcome::SessionFinished(s) => {
            assert_eq!(s.status, ReceiveStatus::Finished);
            assert_eq!(s.file_status, vec![ReceiveStatus::Finished, ReceiveStatus::Finished]);
            assert_eq!(s.received, vec![100, 50]);
        }
        other => panic!("expected SessionFinished, got {:?}", variant_name(&other)),
    }
    assert!(c.session.is_none(), "a finished session leaves the slot");
}

fn variant_name(o: &ChunkOutcome) -> &'static str {
    match o {
        ChunkOutcome::NoSession => "NoSession",
        ChunkOutcome::UnknownFile => "UnknownFile",
        ChunkOutcome::Progress => "Progress",
        ChunkOutcome::Flagged => "Flagged",
        ChunkOutcome::FileFinished => "FileFinished",
        ChunkOutcome::SessionFinished(_) => "SessionFinished",
    }
}

#[test]
fn partial_selection_excludes_the_other_file() {
    let mut c = SessionCoordinator::new();
    let req = request_a100_b50();
    let decision = c
        .handle_send_request(&req, &vec![0], "downloads".to_string())
        .expect("an idle coordinator answers");
    assert_eq!(allowed_ids(&decision), vec!["A".to_string()]);

    let session = c.session.as_ref().expect("a session was created");
    assert_eq!(session.files.len(), 1);
    assert!(session.files.iter().all(|f| f.id != "B"), "B never appears in the session");

    // Completion depends on A's counter alone.
    let a = "A".to_string();
    match c.handle_file_chunk(&a, 100) {
        ChunkOutcome::SessionFinished(s) => {
            assert_eq!(s.status, ReceiveStatus::Finished);
            assert_eq!(s.file_status, vec![ReceiveStatus::Finished]);
        }
        other => panic!("expected SessionFinished, got {:?}", variant_name(&other)),
    }
}

#[test]
fn empty_selection_declines_and_creates_no_session() {
    let mut c = SessionCoordinator::new();
    let req = request_a100_b50();
    let decision = c.handle_send_request(&req, &Vec::new(), "downloads".to_string());
    assert!(matches!(decision, Some(ClientMessage::Decline)));
    assert!(c.session.is_none(), "state remains idle");
}

#[test]
fn cancel_marks_unfinished_files_as_errors() {
    let mut c = SessionCoordinator::new();
    let req = request_a100_b50();
    c.handle_send_request(&req, &vec![0, 1], "downloads".to_string()).unwrap();
    let a = "A".to_string();
    let b = "B".to_string();
    assert!(matches!(c.handle_file_chunk(&a, 60), ChunkOutcome::Progress));
    assert!(matches!(c.handle_file_chunk(&b, 50), ChunkOutcome::FileFinished));

    match c.handle_cancel() {
        CancelOutcome::Cancelled(s) => {
            assert_eq!(s.status, ReceiveStatus::FinishedWithErrors);
            assert_eq!(
                s.file_status,
                vec![ReceiveStatus::FinishedWithErrors, ReceiveStatus::Finished]
            );
            assert_eq!(s.received, vec![60, 50]);
        }
        CancelOutcome::NoSession => panic!("a session was active"),
    }
    assert!(c.session.is_none());
}

#[test]
fn second_request_is_rejected_while_a_session_is_active() {
    let mut c = SessionCoordinator::new();
    let req = request_a100_b50();
    c.handle_send_request(&req, &vec![0, 1], "downloads".to_string()).unwrap();
    let again = c.handle_send_request(&req, &vec![0], "elsewhere".to_string());
    assert!(again.is_none(), "a new request is rejected, not queued");
    let s = c.session.as_ref().unwrap();
    assert_eq!(s.files.len(), 2, "the active session is untouched");
    assert_eq!(s.destination_directory, "downloads");
}

#[test]
fn over_total_increment_is_flagged_and_not_applied() {
    let mut c = SessionCoordinator::new();
    let req = request_a100_b50();
    c.handle_send_request(&req, &vec![0, 1], "downloads".to_string()).unwrap();
    let a = "A".to_string();
    assert!(matches!(c.handle_file_chunk(&a, 60), ChunkOutcome::Progress));
    assert!(matches!(c.handle_file_chunk(&a, 41), ChunkOutcome::Flagged));
    let s = c.session.as_ref().unwrap();
    assert_eq!(s.received[0], 60, "the flagged increment is not applied");
    assert!(matches!(c.handle_file_chunk(&a, 40), ChunkOutcome::FileFinished));
}

#[test]
fn chunk_for_unknown_file_is_ignored() {
    let mut c = SessionCoordinator::new();
    let req = request_a100_b50();
    c.handle_send_request(&req, &vec![0], "downloads".to_string()).unwrap();
    let b = "B".to_string();
    assert!(matches!(c.handle_file_chunk(&b, 10), ChunkOutcome::UnknownFile));
    assert_eq!(c.session.as_ref().unwrap().received[0], 0);
}

#[test]
fn events_without_a_session_are_ignored_not_a_crash() {
    let mut c = SessionCoordinator::new();
    let a = "A".to_string();
    assert!(matches!(c.handle_file_chunk(&a, 10), ChunkOutcome::NoSession));
    assert!(matches!(c.handle_cancel(), CancelOutcome::NoSession));
    assert!(c.session.is_none());
}

#[test]
fn statuses_move_from_waiting_through_receiving() {
    let mut c = SessionCoordinator::new();
    let req = request_a100_b50();
    c.handle_send_request(&req, &vec![0, 1], "downloads".to_string()).unwrap();
    {
        let s = c.session.as_ref().unwrap();
        assert_eq!(s.status, ReceiveStatus::Waiting);
        assert_eq!(s.file_status, vec![ReceiveStatus::Waiting, ReceiveStatus::Waiting]);
        assert_eq!(s.received, vec![0, 0]);
    }
    let a = "A".to_string();
    c.handle_file_chunk(&a, 1);
    let s = c.session.as_ref().unwrap();
    assert_eq!(s.status, ReceiveStatus::Receiving);
    assert_eq!(s.file_status[0], ReceiveStatus::Receiving);
    assert_eq!(s.file_status[1], ReceiveStatus::Waiting);
}

#[test]
fn fresh_session_record_is_empty_and_waiting() {
    let mut sender = DeviceInfo::default();
    sender.alias = "peer".to_string();
    let s = ReceiveSession::new(sender, "downloads".to_string());
    assert_eq!(s.sender.alias, "peer");
    assert_eq!(s.destination_directory, "downloads");
    assert!(s.files.is_empty());
    assert!(s.file_status.is_empty());
    assert!(s.received.is_empty());
    assert_eq!(s.status, ReceiveStatus::Waiting);
}

#[test]
fn offered_names_keep_the_offer_order() {
    let req = request_a100_b50();
    let names = rustsend::session::offered_file_names(&req);
    assert_eq!(names, vec!["A.bin".to_string(), "B.bin".to_string()]);
}
