use avscan::av::AvError;
use avscan::av_codes::{CL_BREAK, CL_CLEAN, CL_SUCCESS, CL_VIRUS};
use avscan::av_engine::{AvScanResult, Engine};
use avscan::scan_bridge::{direct_scan, drain, on_event, ScanEvent, ScanOutcome, ScanReply, NO_RESULT};

fn compiled_engine() -> Engine {
    let mut engine = Engine::new();
    engine.load_db(CL_SUCCESS, 1).unwrap();
    engine.compile(CL_SUCCESS).unwrap();
    engine
}

fn reply(code: u32, virname: &[u8], message: &str) -> ScanReply {
    ScanReply { code, virname: virname.to_vec(), message: message.to_string() }
}

fn no_result_outcome() -> ScanOutcome {
    ScanOutcome::Error(NO_RESULT, "scan ended without a result".to_string())
}

#[test]
fn normalize_keeps_what_the_engine_found() {
    assert_eq!(
        ScanOutcome::normalize(Ok(AvScanResult::Clean), "unused".to_string()),
        ScanOutcome::Clean
    );
    assert_eq!(
        ScanOutcome::normalize(Ok(AvScanResult::Whitelisted), "unused".to_string()),
        ScanOutcome::Whitelisted
    );
    assert_eq!(
        ScanOutcome::normalize(Ok(AvScanResult::Virus("X.Y".to_string())), "unused".to_string()),
        ScanOutcome::Virus("X.Y".to_string())
    );
}

#[test]
fn normalize_keeps_code_and_message_of_an_error() {
    assert_eq!(
        ScanOutcome::normalize(Err(AvError::new(8)), "Can't open file or directory".to_string()),
        ScanOutcome::Error(8, "Can't open file or directory".to_string())
    );
}

#[test]
fn direct_scan_reads_each_return_code() {
    let engine = compiled_engine();
    assert_eq!(direct_scan(&engine, reply(CL_CLEAN, b"", "No viruses detected")), ScanOutcome::Clean);
    assert_eq!(direct_scan(&engine, reply(CL_BREAK, b"", "")), ScanOutcome::Whitelisted);
    assert_eq!(
        direct_scan(&engine, reply(CL_VIRUS, b"Eicar-Test-Signature", "Virus(es) detected")),
        ScanOutcome::Virus("Eicar-Test-Signature".to_string())
    );
    assert_eq!(
        direct_scan(&engine, reply(20, b"", "Can't allocate memory")),
        ScanOutcome::Error(20, "Can't allocate memory".to_string())
    );
}

#[test]
fn direct_scan_never_swallows_an_error() {
    let engine = compiled_engine();
    for code in [2u32, 3, 4, 8, 12, 21, 23, 24, 25, 100, u32::MAX] {
        assert_eq!(
            direct_scan(&engine, reply(code, b"Name", "text")),
            ScanOutcome::Error(code, "text".to_string())
        );
    }
}

#[test]
fn missing_outcome_is_an_error_with_the_stand_in_code() {
    assert_eq!(ScanOutcome::missing(), no_result_outcome());
    assert_eq!(NO_RESULT, u32::MAX);
}

#[test]
fn duplicate_has_the_same_content() {
    for outcome in [
        ScanOutcome::Clean,
        ScanOutcome::Whitelisted,
        ScanOutcome::Virus("A".to_string()),
        ScanOutcome::Error(5, "five".to_string()),
    ] {
        assert_eq!(outcome.duplicate(), outcome);
    }
}

#[test]
fn progress_asks_for_the_next_event() {
    assert_eq!(on_event(ScanEvent::Progress), None);
}

#[test]
fn result_ends_the_wait() {
    assert_eq!(on_event(ScanEvent::Result(ScanOutcome::Clean)), Some(ScanOutcome::Clean));
    assert_eq!(
        on_event(ScanEvent::Result(ScanOutcome::Error(4, "bad db".to_string()))),
        Some(ScanOutcome::Error(4, "bad db".to_string()))
    );
}

#[test]
fn drain_returns_the_terminal_event_after_progress() {
    let events = vec![
        ScanEvent::Progress,
        ScanEvent::Progress,
        ScanEvent::Result(ScanOutcome::Virus("Found.It".to_string())),
    ];
    assert_eq!(drain(&events), ScanOutcome::Virus("Found.It".to_string()));
}

#[test]
fn drain_returns_on_the_first_terminal_event() {
    let events = vec![
        ScanEvent::Progress,
        ScanEvent::Result(ScanOutcome::Clean),
        ScanEvent::Progress,
        ScanEvent::Result(ScanOutcome::Whitelisted),
    ];
    assert_eq!(drain(&events), ScanOutcome::Clean);
    assert_eq!(drain(&vec![ScanEvent::Result(ScanOutcome::Whitelisted)]), ScanOutcome::Whitelisted);
}

#[test]
fn stream_closed_without_events_is_a_protocol_error() {
    assert_eq!(drain(&Vec::new()), no_result_outcome());
}

#[test]
fn stream_closed_after_progress_only_is_a_protocol_error() {
    let events = vec![ScanEvent::Progress, ScanEvent::Progress, ScanEvent::Progress];
    assert_eq!(drain(&events), no_result_outcome());
}
