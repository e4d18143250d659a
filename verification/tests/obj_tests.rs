use rbucket::obj::{Claims, FileData, Status, UploadFileResponse};

fn assert_blank_texts(f: &FileData) {
    for field in [&f.filePath, &f.uuid, &f.file_type, &f.hash, &f.dir, &f.fileName, &f.download_route] {
        assert_eq!(field, "nil");
    }
}

#[test]
fn file_data_new_is_blank_and_done() {
    let f = FileData::new();
    assert_blank_texts(&f);
    assert_eq!(f.status, Status::DONE);
}

#[test]
fn status_codes_map_to_stages() {
    let mut f = FileData::new();
    f.status(1);
    assert_eq!(f.status, Status::SCHEDULED);
    f.status(2);
    assert_eq!(f.status, Status::PROCESSING);
    f.status(3);
    assert_eq!(f.status, Status::DONE);
    f.status(4);
    assert_eq!(f.status, Status::FAILED);
}

#[test]
fn unknown_status_codes_mean_failed() {
    for code in [0u8, 5, 42, 255] {
        let mut f = FileData::new();
        f.status(code);
        assert_eq!(f.status, Status::FAILED);
    }
}

#[test]
fn status_change_leaves_other_fields() {
    let mut f = FileData::new();
    f.uuid = "abc".to_string();
    f.hash = "h".to_string();
    f.status(1);
    assert_eq!(f.uuid, "abc");
    assert_eq!(f.hash, "h");
    assert_eq!(f.filePath, "nil");
}

#[test]
fn cloned_copies_every_field() {
    let mut f = FileData::new();
    f.filePath = "./files/x.mp4".to_string();
    f.fileName = "movie.mp4".to_string();
    f.status(2);
    let g = f.cloned();
    assert_eq!(g.filePath, "./files/x.mp4");
    assert_eq!(g.fileName, "movie.mp4");
    assert_eq!(g.status, Status::PROCESSING);
    assert_eq!(g.uuid, "nil");
}

#[test]
fn upload_file_response_new_is_blank() {
    let r = UploadFileResponse::new();
    assert_eq!(r.fileId, "nil");
    assert_eq!(r.fileName, "nil");
    assert_eq!(r.downloading_route, "nil");
    assert_blank_texts(&r.file_obj);
    assert_eq!(r.file_obj.status, Status::DONE);
}

#[test]
fn claims_keep_subject_and_expiry() {
    let c = Claims::new("user-1".to_string(), 1_700_000_000);
    assert_eq!(c.sub(), "user-1");
    assert_eq!(c.exp(), 1_700_000_000);
}
