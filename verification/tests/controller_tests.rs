use avscan::app_config::AppConfig;
use avscan::av::{load_context, AvContext};
use avscan::av_codes::{CL_BREAK, CL_CLEAN, CL_SUCCESS, CL_VIRUS};
use avscan::av_engine::{DBStats, Engine};
use avscan::av_settings::AvSettings;
use avscan::controller::{
    assemble_result, map_io_error_to_500, map_mp_error_to_400, map_result, AvResult,
    UploadSession, Verdict,
};
use avscan::ingest::{FieldIngest, TempArtifact};
use avscan::scan_bridge::{ScanOutcome, ScanReply, NO_RESULT};

const EICAR: &[u8] = b"X5O!P%@AP[4\\PZX54(P^)7CC)7}$EICAR-STANDARD-ANTIVIRUS-TEST-FILE!$H+H*";

fn context() -> AvContext {
    let mut engine = Engine::new();
    let stats = engine.load_db(CL_SUCCESS, 8_700_000).unwrap();
    engine.compile(CL_SUCCESS).unwrap();
    load_context(
        "1.0.5".to_string(),
        engine,
        stats,
        27_000,
        1_431_648_000,
        AvSettings::new(0, u32::MAX, 0, 0, 0),
    )
}

fn artifact() -> TempArtifact {
    TempArtifact {
        size: 3,
        crc32: "352441c2".to_string(),
        md5: "900150983cd24fb0d6963f7d28e17f72".to_string(),
        sha256: "ba7816bf8f01cfea414140de5dae2223b00361a396177a9cb410ff61f20015ad".to_string(),
    }
}

fn store(name: &str, bytes: &[u8]) -> (Option<String>, TempArtifact) {
    let mut field = FieldIngest::begin(Some(name.to_string()));
    for chunk in bytes.chunks(16) {
        field.accept(chunk);
    }
    field.finish()
}

fn native(code: u32, virname: &[u8], message: &str) -> Option<ScanReply> {
    Some(ScanReply { code, virname: virname.to_vec(), message: message.to_string() })
}

fn assert_field_parts(entry: &AvResult) {
    assert_eq!(entry.name(), &Some("a.txt".to_string()));
    assert_eq!(entry.size(), 3);
    assert_eq!(entry.crc32(), "352441c2");
    assert_eq!(entry.md5(), "900150983cd24fb0d6963f7d28e17f72");
    assert_eq!(
        entry.sha256(),
        "ba7816bf8f01cfea414140de5dae2223b00361a396177a9cb410ff61f20015ad"
    );
    assert_eq!(entry.content_type(), &Some("text/plain".to_string()));
    assert_eq!(entry.date_scanned(), &Some("2024-01-01T00:00:00Z".to_string()));
}

fn assemble(outcome: ScanOutcome) -> AvResult {
    assemble_result(
        Some("a.txt".to_string()),
        artifact(),
        Some("text/plain".to_string()),
        Some("2024-01-01T00:00:00Z".to_string()),
        outcome,
    )
}

#[test]
fn verdict_labels() {
    assert_eq!(Verdict::Clean.label(), "CLEAN");
    assert_eq!(Verdict::Whitelisted.label(), "WHITELISTED");
    assert_eq!(Verdict::Virus.label(), "VIRUS");
    assert_eq!(Verdict::Error.label(), "ERROR");
}

#[test]
fn clean_entry_has_no_signature_and_no_error() {
    let entry = assemble(ScanOutcome::Clean);
    assert_field_parts(&entry);
    assert_eq!(entry.verdict(), Verdict::Clean);
    assert_eq!(entry.result(), "CLEAN");
    assert_eq!(entry.signature(), &None);
    assert_eq!(entry.error_code(), None);
    assert_eq!(entry.error_msg(), &None);
}

#[test]
fn whitelisted_entry_has_no_signature_and_no_error() {
    let entry = assemble(ScanOutcome::Whitelisted);
    assert_field_parts(&entry);
    assert_eq!(entry.verdict(), Verdict::Whitelisted);
    assert_eq!(entry.result(), "WHITELISTED");
    assert_eq!(entry.signature(), &None);
    assert_eq!(entry.error_code(), None);
    assert_eq!(entry.error_msg(), &None);
}

#[test]
fn virus_entry_has_a_signature_and_no_error() {
    let entry = assemble(ScanOutcome::Virus("Eicar-Test-Signature".to_string()));
    assert_field_parts(&entry);
    assert_eq!(entry.verdict(), Verdict::Virus);
    assert_eq!(entry.result(), "VIRUS");
    assert_eq!(entry.signature(), &Some("Eicar-Test-Signature".to_string()));
    assert_eq!(entry.error_code(), None);
    assert_eq!(entry.error_msg(), &None);
}

#[test]
fn error_entry_has_code_and_message_and_no_signature() {
    let entry = assemble(ScanOutcome::Error(8, "Can't open file or directory".to_string()));
    assert_field_parts(&entry);
    assert_eq!(entry.verdict(), Verdict::Error);
    assert_eq!(entry.result(), "ERROR");
    assert_eq!(entry.signature(), &None);
    assert_eq!(entry.error_code(), Some(8));
    assert_eq!(entry.error_msg(), &Some("Can't open file or directory".to_string()));
}

#[test]
fn entry_without_name_type_or_date_keeps_the_rest() {
    let entry = assemble_result(None, artifact(), None, None, ScanOutcome::Clean);
    assert_eq!(entry.name(), &None);
    assert_eq!(entry.content_type(), &None);
    assert_eq!(entry.date_scanned(), &None);
    assert_eq!(entry.size(), 3);
    assert_eq!(entry.crc32(), "352441c2");
}

#[test]
fn map_result_tells_the_content_type_from_the_stored_bytes() {
    let ctx = context();
    let png = [0x89u8, b'P', b'N', b'G', 0x0d, 0x0a, 0x1a, 0x0a, 0, 0, 0, 0x0d];
    let (name, stored) = store("declared.txt", &png);
    let entry = map_result(&ctx, name, stored, &png, 0, native(CL_CLEAN, b"", ""));
    assert_eq!(entry.name(), &Some("declared.txt".to_string()));
    assert_eq!(entry.content_type(), &Some("image/png".to_string()));
    assert_eq!(entry.size(), 12);
    assert_eq!(entry.result(), "CLEAN");
}

#[test]
fn map_result_leaves_the_content_type_empty_for_unknown_bytes() {
    let ctx = context();
    let (name, stored) = store("note", b"just some words");
    let entry = map_result(&ctx, name, stored, b"just some words", 0, native(CL_CLEAN, b"", ""));
    assert_eq!(entry.content_type(), &None);
}

#[test]
fn map_result_writes_the_time_of_the_scan() {
    let ctx = context();
    let (name, stored) = store("f", b"abc");
    let entry = map_result(&ctx, name, stored, b"abc", 1_431_648_000, native(CL_CLEAN, b"", ""));
    assert_eq!(entry.date_scanned(), &Some("2015-05-15T00:00:00Z".to_string()));
    let (name, stored) = store("f", b"abc");
    let entry = map_result(&ctx, name, stored, b"abc", 0, native(CL_CLEAN, b"", ""));
    assert_eq!(entry.date_scanned(), &Some("1970-01-01T00:00:00Z".to_string()));
    let (name, stored) = store("f", b"abc");
    let entry = map_result(&ctx, name, stored, b"abc", -1, native(CL_CLEAN, b"", ""));
    assert_eq!(entry.date_scanned(), &Some("1969-12-31T23:59:59Z".to_string()));
}

#[test]
fn map_result_has_no_date_for_a_time_outside_the_calendar() {
    let ctx = context();
    let (name, stored) = store("f", b"abc");
    let entry = map_result(&ctx, name, stored, b"abc", i64::MAX, native(CL_CLEAN, b"", ""));
    assert_eq!(entry.date_scanned(), &None);
    assert_eq!(entry.result(), "CLEAN");
}

#[test]
fn map_result_reports_the_stored_bytes() {
    let ctx = context();
    let (name, stored) = store("abc.txt", b"abc");
    let entry = map_result(&ctx, name, stored, b"abc", 0, native(CL_BREAK, b"", ""));
    assert_eq!(entry.size(), 3);
    assert_eq!(entry.crc32(), "352441c2");
    assert_eq!(entry.md5(), "900150983cd24fb0d6963f7d28e17f72");
    assert_eq!(
        entry.sha256(),
        "ba7816bf8f01cfea414140de5dae2223b00361a396177a9cb410ff61f20015ad"
    );
    assert_eq!(entry.result(), "WHITELISTED");
}

#[test]
fn map_result_stands_in_for_a_scan_without_result() {
    let ctx = context();
    let (name, stored) = store("f", b"abc");
    let entry = map_result(&ctx, name, stored, b"abc", 0, None);
    assert_eq!(entry.result(), "ERROR");
    assert_eq!(entry.error_code(), Some(NO_RESULT));
    assert_eq!(entry.error_msg(), &Some("scan ended without a result".to_string()));
    assert_eq!(entry.signature(), &None);
    assert_eq!(entry.size(), 3);
}

#[test]
fn benign_and_infected_file_in_one_request() {
    let ctx = context();
    let cfg = AppConfig::default();
    let mut session = UploadSession::begin(&cfg, 500).unwrap();

    let (name, stored) = store("benign.txt", b"nothing to see here");
    session.record(map_result(
        &ctx,
        name,
        stored,
        b"nothing to see here",
        1_700_000_000,
        native(CL_CLEAN, b"", "No viruses detected"),
    ));
    let (name, stored) = store("eicar.com", EICAR);
    session.record(map_result(
        &ctx,
        name,
        stored,
        EICAR,
        1_700_000_001,
        native(CL_VIRUS, b"Eicar-Test-Signature", "Virus(es) detected"),
    ));

    let response = session.finish(&ctx);
    assert_eq!(response.av_version(), "1.0.5");
    assert_eq!(response.db_version(), 27_000);
    assert_eq!(response.db_sig_count(), 8_700_000);
    assert_eq!(response.db_date(), "2015-05-15T00:00:00Z");
    let entries = response.results();
    assert_eq!(entries.len(), 2);
    assert_eq!(entries[0].name(), &Some("benign.txt".to_string()));
    assert_eq!(entries[0].result(), "CLEAN");
    assert_eq!(entries[0].signature(), &None);
    assert_eq!(entries[0].error_code(), None);
    assert_eq!(entries[1].name(), &Some("eicar.com".to_string()));
    assert_eq!(entries[1].result(), "VIRUS");
    assert_eq!(entries[1].signature(), &Some("Eicar-Test-Signature".to_string()));
    assert_eq!(entries[1].error_code(), None);
    assert_eq!(entries[1].size(), 68);
    assert_eq!(entries[1].md5(), "44d88612fea8a8f36de82e1278abb02f");
    assert_eq!(
        entries[1].sha256(),
        "275a021bbfb6489e54d471899f7db9d1663fc695ec2fe2a2c4538aabf651fd0f"
    );
    assert_eq!(entries[1].crc32(), "6851cf3c");
}

#[test]
fn engine_error_on_one_field_leaves_the_others_alone() {
    let ctx = context();
    let mut session = UploadSession::begin(&AppConfig::default(), 100).unwrap();
    let (name, stored) = store("first", b"one");
    session.record(map_result(&ctx, name, stored, b"one", 0, native(CL_CLEAN, b"", "")));
    assert_eq!(session.len(), 1);
    let (name, stored) = store("second", b"two");
    session.record(map_result(
        &ctx,
        name,
        stored,
        b"two",
        0,
        native(12, b"", "Can't read file"),
    ));
    let (name, stored) = store("third", b"three");
    session.record(map_result(&ctx, name, stored, b"three", 0, native(CL_CLEAN, b"", "")));
    assert_eq!(session.len(), 3);

    let response = session.finish(&ctx);
    let entries = response.results();
    assert_eq!(entries[0].name(), &Some("first".to_string()));
    assert_eq!(entries[0].result(), "CLEAN");
    assert_eq!(entries[0].error_code(), None);
    assert_eq!(entries[1].name(), &Some("second".to_string()));
    assert_eq!(entries[1].result(), "ERROR");
    assert_eq!(entries[1].error_code(), Some(12));
    assert_eq!(entries[1].error_msg(), &Some("Can't read file".to_string()));
    assert_eq!(entries[1].signature(), &None);
    assert_eq!(entries[1].size(), 3);
    assert_eq!(entries[2].name(), &Some("third".to_string()));
    assert_eq!(entries[2].result(), "CLEAN");
    assert_eq!(entries[2].error_code(), None);
}

#[test]
fn request_without_fields_has_no_entries() {
    let ctx = context();
    let session = UploadSession::begin(&AppConfig::default(), 0).unwrap();
    assert_eq!(session.len(), 0);
    let response = session.finish(&ctx);
    assert!(response.results().is_empty());
    assert_eq!(response.av_version(), "1.0.5");
}

#[test]
fn zero_limit_refuses_every_body_that_is_not_empty() {
    let cfg = AppConfig { max_file_size: 0, port: 8000, enable_shutdown_endpoint: false };
    for len in [1u64, 2, 68, 1 << 20, u64::MAX] {
        let refused = UploadSession::begin(&cfg, len).unwrap_err();
        assert_eq!(refused, 413);
        assert!((400..500).contains(&refused));
    }
    assert!(UploadSession::begin(&cfg, 0).is_ok());
}

#[test]
fn bodies_up_to_the_limit_are_admitted() {
    let cfg = AppConfig { max_file_size: 1024, port: 8000, enable_shutdown_endpoint: false };
    assert!(UploadSession::begin(&cfg, 0).is_ok());
    assert!(UploadSession::begin(&cfg, 1023).is_ok());
    assert!(UploadSession::begin(&cfg, 1024).is_ok());
    assert_eq!(UploadSession::begin(&cfg, 1025).unwrap_err(), 413);
    assert!(UploadSession::begin(&AppConfig::default(), usize::MAX as u64).is_ok());
}

#[test]
fn malformed_body_is_a_client_error() {
    assert_eq!(
        map_mp_error_to_400("Error parsing `multipart/form-data` request".to_string()),
        (400, "Error parsing `multipart/form-data` request".to_string())
    );
}

#[test]
fn storage_failure_is_a_server_error() {
    assert_eq!(
        map_io_error_to_500("No space left on device".to_string()),
        (500, "No space left on device".to_string())
    );
}
