use rbucket::obj::Status;
use rbucket::upload::{
    file_ending, hash_from_digest_output, stored_file_path, ProcessOutcome, UploadAction,
    UploadEvent, UploadState,
};

const ID: &str = "0f1e2d3c-4b5a-4978-8877-665544332211";
const DIGEST: &str = "e3b0c44298fc1c149afbf4c8996fb92427ae41e4649b934ca495991b7852b855";

fn part(ct: Option<&str>, name: Option<&str>) -> UploadEvent {
    UploadEvent::Part {
        content_type: ct.map(|s| s.to_string()),
        filename: name.map(|s| s.to_string()),
    }
}

fn ran(success: bool, stdout: &[u8], stderr: &[u8]) -> ProcessOutcome {
    ProcessOutcome::Exited { success, stdout: stdout.to_vec(), stderr: stderr.to_vec() }
}

fn go(s: UploadState, e: UploadEvent) -> (UploadState, UploadAction) {
    assert!(s.accepts(&e));
    s.advance(e, ID)
}

fn digest_output() -> Vec<u8> {
    format!("{}  ./files/{}.mp4\n", DIGEST, ID).into_bytes()
}

/// Runs one part of type `ct` named `name` through to its scheduling.
fn store_part(s: UploadState, ct: &str, name: &str) -> (UploadState, UploadAction) {
    let (s, a) = go(s, part(Some(ct), Some(name)));
    assert!(matches!(a, UploadAction::ReadBody));
    let (s, a) = go(s, UploadEvent::BodyRead { data: Some(vec![1, 2, 3]) });
    assert!(matches!(a, UploadAction::WriteFile { .. }));
    let (s, a) = go(s, UploadEvent::FileWritten { ok: true });
    assert!(matches!(a, UploadAction::RunMediaInfo { .. }));
    let (s, a) = go(s, UploadEvent::MediaInfoRan { outcome: ran(true, b"{}", b"") });
    assert!(matches!(a, UploadAction::WriteInfo { .. }));
    let (s, a) = go(s, UploadEvent::InfoWritten);
    assert!(matches!(a, UploadAction::RunHash { .. }));
    go(s, UploadEvent::HashRan { outcome: ran(true, &digest_output(), b"") })
}

#[test]
fn accepted_video_types() {
    let table = [
        ("video/mp4", "mp4"),
        ("video/webm", "webm"),
        ("video/mpeg", "mpeg"),
        ("video/quicktime", "mov"),
        ("video/x-m4v", "m4v"),
        ("video/x-msvideo", "avi"),
        ("video/x-flv", "flv"),
        ("video/x-mng", "mng"),
    ];
    for (ct, ending) in table {
        assert_eq!(file_ending(Some(ct)), Some(ending));
    }
}

#[test]
fn other_types_are_refused() {
    assert_eq!(file_ending(None), None);
    assert_eq!(file_ending(Some("application/octet-stream")), None);
    assert_eq!(file_ending(Some("video/MP4")), None);
    assert_eq!(file_ending(Some("image/png")), None);
    assert_eq!(file_ending(Some("")), None);
}

#[test]
fn stored_path_format() {
    assert_eq!(stored_file_path(ID, "mp4"), format!("./files/{}.mp4", ID));
    assert_eq!(stored_file_path("x", "json"), "./files/x.json");
}

#[test]
fn digest_is_first_64_bytes() {
    assert_eq!(hash_from_digest_output(&digest_output()), Some(DIGEST.to_string()));
    assert_eq!(hash_from_digest_output(DIGEST.as_bytes()), Some(DIGEST.to_string()));
}

#[test]
fn short_digest_output_is_refused() {
    assert_eq!(hash_from_digest_output(&DIGEST.as_bytes()[..63]), None);
    assert_eq!(hash_from_digest_output(b""), None);
}

#[test]
fn non_utf8_digest_output_is_refused() {
    let mut out = vec![0xffu8];
    out.extend_from_slice(&DIGEST.as_bytes()[1..]);
    assert_eq!(hash_from_digest_output(&out), None);
}

#[test]
fn one_part_upload_full_protocol() {
    let s = UploadState::new();
    let (s, a) = go(s, UploadEvent::FormCollected { ok: true });
    assert!(matches!(a, UploadAction::NextPart));
    let (s, a) = go(s, part(Some("video/quicktime"), Some("holiday.mov")));
    assert!(matches!(a, UploadAction::ReadBody));
    let (s, a) = go(s, UploadEvent::BodyRead { data: Some(b"movie".to_vec()) });
    match &a {
        UploadAction::WriteFile { path, data } => {
            assert_eq!(path, &format!("./files/{}.mov", ID));
            assert_eq!(data, b"movie");
        },
        _ => panic!("expected WriteFile"),
    }
    let (s, a) = go(s, UploadEvent::FileWritten { ok: true });
    match &a {
        UploadAction::RunMediaInfo { path } => assert_eq!(path, &format!("./files/{}.mov", ID)),
        _ => panic!("expected RunMediaInfo"),
    }
    let (s, a) = go(s, UploadEvent::MediaInfoRan { outcome: ran(true, b"{\"media\":1}", b"") });
    match &a {
        UploadAction::WriteInfo { path, data } => {
            assert_eq!(path, &format!("./files/{}.json", ID));
            assert_eq!(data, b"{\"media\":1}");
        },
        _ => panic!("expected WriteInfo"),
    }
    let (s, a) = go(s, UploadEvent::InfoWritten);
    match &a {
        UploadAction::RunHash { path } => assert_eq!(path, &format!("./files/{}.mov", ID)),
        _ => panic!("expected RunHash"),
    }
    let (s, a) = go(s, UploadEvent::HashRan { outcome: ran(true, &digest_output(), b"") });
    match &a {
        UploadAction::Schedule { file } => {
            assert_eq!(file.filePath, format!("./files/{}.mov", ID));
            assert_eq!(file.uuid, ID);
            assert_eq!(file.fileName, "holiday.mov");
            assert_eq!(file.hash, DIGEST);
            assert_eq!(file.status, Status::SCHEDULED);
            assert_eq!(file.file_type, "nil");
            assert_eq!(file.dir, "nil");
            assert_eq!(file.download_route, "nil");
        },
        _ => panic!("expected Schedule"),
    }
    let (s, a) = go(s, UploadEvent::PartsExhausted);
    match &a {
        UploadAction::Respond { file } => {
            assert_eq!(file.uuid, ID);
            assert_eq!(file.fileName, "holiday.mov");
            assert_eq!(file.status, Status::SCHEDULED);
        },
        _ => panic!("expected Respond"),
    }
    assert!(matches!(s, UploadState::Responded));
    assert!(!s.accepts(&UploadEvent::PartsExhausted));
}

#[test]
fn answer_reports_last_part() {
    let (s, _) = go(UploadState::new(), UploadEvent::FormCollected { ok: true });
    let (s, _) = store_part(s, "video/mp4", "first.mp4");
    let (s, _) = store_part(s, "video/webm", "second.webm");
    let (_, a) = go(s, UploadEvent::PartsExhausted);
    match a {
        UploadAction::Respond { file } => {
            assert_eq!(file.fileName, "second.webm");
            assert_eq!(file.filePath, format!("./files/{}.webm", ID));
        },
        _ => panic!("expected Respond"),
    }
}

#[test]
fn empty_form_answers_blank_record() {
    let (s, _) = go(UploadState::new(), UploadEvent::FormCollected { ok: true });
    let (s, a) = go(s, UploadEvent::PartsExhausted);
    assert!(matches!(s, UploadState::Responded));
    match a {
        UploadAction::Respond { file } => {
            assert_eq!(file.uuid, "nil");
            assert_eq!(file.fileName, "nil");
            assert_eq!(file.status, Status::DONE);
        },
        _ => panic!("expected Respond"),
    }
}

#[test]
fn unreadable_form_is_rejected() {
    let (s, a) = go(UploadState::new(), UploadEvent::FormCollected { ok: false });
    assert!(matches!(a, UploadAction::Reject));
    assert!(matches!(s, UploadState::Rejected));
}

#[test]
fn wrong_content_type_is_rejected() {
    let (s, _) = go(UploadState::new(), UploadEvent::FormCollected { ok: true });
    let (s, a) = go(s, part(Some("text/plain"), Some("notes.txt")));
    assert!(matches!(a, UploadAction::Reject));
    assert!(matches!(s, UploadState::Rejected));
}

#[test]
fn missing_content_type_is_rejected() {
    let (s, _) = go(UploadState::new(), UploadEvent::FormCollected { ok: true });
    let (_, a) = go(s, part(None, Some("x.mp4")));
    assert!(matches!(a, UploadAction::Reject));
}

#[test]
fn missing_file_name_aborts() {
    let (s, _) = go(UploadState::new(), UploadEvent::FormCollected { ok: true });
    let (s, a) = go(s, part(Some("video/mp4"), None));
    assert!(matches!(a, UploadAction::Abort));
    assert!(matches!(s, UploadState::Aborted));
}

#[test]
fn body_and_write_failures_are_rejected() {
    let (s, _) = go(UploadState::new(), UploadEvent::FormCollected { ok: true });
    let (s2, _) = go(s, part(Some("video/mp4"), Some("a.mp4")));
    let (_, a) = go(s2, UploadEvent::BodyRead { data: None });
    assert!(matches!(a, UploadAction::Reject));

    let (s, _) = go(UploadState::new(), UploadEvent::FormCollected { ok: true });
    let (s, _) = go(s, part(Some("video/mp4"), Some("a.mp4")));
    let (s, _) = go(s, UploadEvent::BodyRead { data: Some(vec![]) });
    let (_, a) = go(s, UploadEvent::FileWritten { ok: false });
    assert!(matches!(a, UploadAction::Reject));
}

fn at_mediainfo() -> UploadState {
    let (s, _) = go(UploadState::new(), UploadEvent::FormCollected { ok: true });
    let (s, _) = go(s, part(Some("video/mp4"), Some("a.mp4")));
    let (s, _) = go(s, UploadEvent::BodyRead { data: Some(vec![0]) });
    let (s, _) = go(s, UploadEvent::FileWritten { ok: true });
    s
}

#[test]
fn mediainfo_failures() {
    let (_, a) = go(at_mediainfo(), UploadEvent::MediaInfoRan { outcome: ProcessOutcome::SpawnFailed });
    assert!(matches!(a, UploadAction::Reject));
    let (_, a) = go(at_mediainfo(), UploadEvent::MediaInfoRan { outcome: ran(false, b"", b"bad file") });
    assert!(matches!(a, UploadAction::Reject));
    let (_, a) = go(at_mediainfo(), UploadEvent::MediaInfoRan { outcome: ran(false, b"", &[0xff, 0xfe]) });
    assert!(matches!(a, UploadAction::Abort));
}

fn at_hash() -> UploadState {
    let (s, _) = go(at_mediainfo(), UploadEvent::MediaInfoRan { outcome: ran(true, b"{}", b"") });
    let (s, _) = go(s, UploadEvent::InfoWritten);
    s
}

#[test]
fn hash_failures() {
    let (_, a) = go(at_hash(), UploadEvent::HashRan { outcome: ProcessOutcome::SpawnFailed });
    assert!(matches!(a, UploadAction::Reject));
    let (_, a) = go(at_hash(), UploadEvent::HashRan { outcome: ran(false, b"", b"no such file") });
    assert!(matches!(a, UploadAction::Reject));
    let (_, a) = go(at_hash(), UploadEvent::HashRan { outcome: ran(false, b"", &[0xc3]) });
    assert!(matches!(a, UploadAction::Abort));
    let (_, a) = go(at_hash(), UploadEvent::HashRan { outcome: ran(true, b"short", b"") });
    assert!(matches!(a, UploadAction::Abort));
}

#[test]
fn step_gives_parts_fresh_ids() {
    let (s, _) = UploadState::new().step(UploadEvent::FormCollected { ok: true });
    let (s, _) = s.step(part(Some("video/x-flv"), Some("clip.flv")));
    match s {
        UploadState::Reading { job } => {
            let id = job.id.clone();
            assert_eq!(id.len(), 36);
            for (i, c) in id.chars().enumerate() {
                if [8, 13, 18, 23].contains(&i) {
                    assert_eq!(c, '-');
                } else {
                    assert!(c.is_ascii_hexdigit() && !c.is_ascii_uppercase());
                }
            }
            assert_eq!(id.as_bytes()[14], b'4');
            assert!(b"89ab".contains(&id.as_bytes()[19]));
            assert_eq!(job.path, format!("./files/{}.flv", id));
            assert_eq!(job.name, "clip.flv");
        },
        _ => panic!("expected Reading"),
    }
}

#[test]
fn step_ids_differ_between_parts() {
    let (s, _) = UploadState::new().step(UploadEvent::FormCollected { ok: true });
    let (a, _) = UploadState::Between { last: rbucket::obj::FileData::new() }
        .step(part(Some("video/mp4"), Some("a.mp4")));
    let (b, _) = s.step(part(Some("video/mp4"), Some("b.mp4")));
    match (a, b) {
        (UploadState::Reading { job: ja }, UploadState::Reading { job: jb }) => assert_ne!(ja.id, jb.id),
        _ => panic!("expected Reading"),
    }
}
