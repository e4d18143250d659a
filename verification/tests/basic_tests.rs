use rbucket::basic::{
    basic_file_ending, BasicAction, BasicState, BasicWorker, BasicWorkerAction, BasicWorkerEvent,
    BasicWorkerPhase, FileData,
};
use rbucket::upload::{ProcessOutcome, UploadEvent};

const ID: &str = "0f1e2d3c-4b5a-4978-8877-665544332211";

fn part(ct: Option<&str>) -> UploadEvent {
    UploadEvent::Part { content_type: ct.map(|s| s.to_string()), filename: None }
}

fn go(s: BasicState, e: UploadEvent) -> (BasicState, BasicAction) {
    assert!(s.accepts(&e));
    s.advance(e, ID)
}

#[test]
fn basic_file_data_new() {
    let f = FileData::new();
    assert_eq!(f.filePath, "nil");
    assert_eq!(f.uuid, "nil");
}

#[test]
fn basic_file_data_stored_at() {
    let f = FileData::stored_at("./files/a.mp4".to_string());
    assert_eq!(f.filePath, "./files/a.mp4");
    assert_eq!(f.uuid, "nil");
}

#[test]
fn basic_accepted_types() {
    assert_eq!(basic_file_ending(Some("application/octet-stream")), Some("mp4"));
    assert_eq!(basic_file_ending(Some("video/mp4")), Some("mp4"));
    assert_eq!(basic_file_ending(Some("video/webm")), None);
    assert_eq!(basic_file_ending(None), None);
}

#[test]
fn basic_upload_protocol() {
    let (s, a) = go(BasicState::new(), UploadEvent::FormCollected { ok: true });
    assert!(matches!(a, BasicAction::NextPart));
    let (s, a) = go(s, part(Some("application/octet-stream")));
    assert!(matches!(a, BasicAction::ReadBody));
    let (s, a) = go(s, UploadEvent::BodyRead { data: Some(vec![7, 8]) });
    match &a {
        BasicAction::WriteFile { path, data } => {
            assert_eq!(path, &format!("./files/{}.mp4", ID));
            assert_eq!(data, &vec![7u8, 8]);
        },
        _ => panic!("expected WriteFile"),
    }
    let (s, a) = go(s, UploadEvent::FileWritten { ok: true });
    match &a {
        BasicAction::Schedule { file } => {
            assert_eq!(file.filePath, format!("./files/{}.mp4", ID));
            assert_eq!(file.uuid, "nil");
        },
        _ => panic!("expected Schedule"),
    }
    let (s, a) = go(s, UploadEvent::PartsExhausted);
    assert!(matches!(a, BasicAction::RespondOk));
    assert!(matches!(s, BasicState::Responded));
}

#[test]
fn basic_upload_refusals() {
    let (s, _) = go(BasicState::new(), UploadEvent::FormCollected { ok: true });
    let (_, a) = go(s, part(Some("video/webm")));
    assert!(matches!(a, BasicAction::Reject));
    let (_, a) = go(BasicState::new(), UploadEvent::FormCollected { ok: false });
    assert!(matches!(a, BasicAction::Reject));
    let (s, _) = go(BasicState::new(), UploadEvent::FormCollected { ok: true });
    let (s, _) = go(s, part(Some("video/mp4")));
    let (_, a) = go(s, UploadEvent::BodyRead { data: None });
    assert!(matches!(a, BasicAction::Reject));
}

#[test]
fn basic_worker_protocol() {
    let mut w = BasicWorker::new();
    assert_eq!(w.status, "init");
    let a = w.advance(BasicWorkerEvent::Received { file: FileData::stored_at("./files/a.mp4".to_string()) }, ID);
    match a {
        BasicWorkerAction::Convert { status, input, output } => {
            assert_eq!(output, format!("./output/{}.webm", ID));
            assert_eq!(status, output);
            assert_eq!(input, "./files/a.mp4");
        },
        _ => panic!("expected Convert"),
    }
    let a = w.advance(
        BasicWorkerEvent::Converted {
            outcome: ProcessOutcome::Exited { success: false, stdout: vec![0xff], stderr: vec![] },
        },
        ID,
    );
    match a {
        BasicWorkerAction::Report { stdout, status } => {
            assert_eq!(stdout, vec![0xff]);
            assert_eq!(status, "NULL");
        },
        _ => panic!("expected Report"),
    }
    assert_eq!(w.status, "NULL");
}

#[test]
fn basic_worker_stops_when_ffmpeg_cannot_start() {
    let mut w = BasicWorker::new();
    w.step(BasicWorkerEvent::Received { file: FileData::new() });
    assert!(w.status.starts_with("./output/") && w.status.ends_with(".webm"));
    assert_eq!(w.status.len(), "./output/".len() + 36 + ".webm".len());
    let a = w.step(BasicWorkerEvent::Converted { outcome: ProcessOutcome::SpawnFailed });
    assert!(matches!(a, BasicWorkerAction::Abort));
    assert!(matches!(w.phase, BasicWorkerPhase::Stopped));
}
