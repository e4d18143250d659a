use vstd::prelude::*;

verus! {

/// Processing stage of an uploaded file.
#[allow(non_camel_case_types, non_snake_case)]
#[derive(Clone, Copy, Debug, PartialEq, Eq, Structural)]
pub enum Status {
    SCHEDULED,
    PROCESSING,
    DONE,
    FAILED,
}

/// The status that a numeric stage code stands for: 1 scheduled,
/// 2 processing, 3 done, 4 failed; any other code means failed.
pub open spec fn status_for_code(code: u8) -> Status {
    if code == 1 {
        Status::SCHEDULED
    } else if code == 2 {
        Status::PROCESSING
    } else if code == 3 {
        Status::DONE
    } else {
        Status::FAILED
    }
}

/// Each of the codes 1 to 4 names its own stage, in the order scheduled,
/// processing, done, failed; every other code means failed.
pub proof fn lemma_status_codes(code: u8)
    ensures
        status_for_code(code) == Status::SCHEDULED <==> code == 1,
        status_for_code(code) == Status::PROCESSING <==> code == 2,
        status_for_code(code) == Status::DONE <==> code == 3,
        status_for_code(code) == Status::FAILED <==> (code == 0 || code >= 4),
{
}

/// Everything the service records about one uploaded file.
#[allow(non_snake_case)]
#[derive(Debug, Clone)]
pub struct FileData {
    pub filePath: String,
    pub uuid: String,
    pub file_type: String,
    pub hash: String,
    pub dir: String,
    pub fileName: String,
    pub download_route: String,
    pub status: Status,
}

/// Mathematical model of [`FileData`]: each text field as its characters.
pub struct FileDataView {
    pub file_path: Seq<char>,
    pub uuid: Seq<char>,
    pub file_type: Seq<char>,
    pub hash: Seq<char>,
    pub dir: Seq<char>,
    pub file_name: Seq<char>,
    pub download_route: Seq<char>,
    pub status: Status,
}

impl View for FileData {
    type V = FileDataView;

    open spec fn view(&self) -> FileDataView {
        FileDataView {
            file_path: self.filePath@,
            uuid: self.uuid@,
            file_type: self.file_type@,
            hash: self.hash@,
            dir: self.dir@,
            file_name: self.fileName@,
            download_route: self.download_route@,
            status: self.status,
        }
    }
}

/// The record of a file about which nothing is known yet: every text field
/// is "nil" and the status is done.
pub open spec fn blank_file_data() -> FileDataView {
    FileDataView {
        file_path: "nil"@,
        uuid: "nil"@,
        file_type: "nil"@,
        hash: "nil"@,
        dir: "nil"@,
        file_name: "nil"@,
        download_route: "nil"@,
        status: Status::DONE,
    }
}

/// A fresh record knows nothing yet: every text field reads "nil" and the
/// status is done.
pub proof fn lemma_blank_file_data()
    ensures
        blank_file_data().file_path == "nil"@ && blank_file_data().uuid == "nil"@
            && blank_file_data().file_type == "nil"@ && blank_file_data().hash == "nil"@
            && blank_file_data().dir == "nil"@ && blank_file_data().file_name == "nil"@
            && blank_file_data().download_route == "nil"@,
        blank_file_data().status == Status::DONE,
{
}

impl FileData {
    pub fn new() -> (r: Self)
        ensures
            r@ == blank_file_data(),
    {
        FileData {
            filePath: String::from_str("nil"),
            uuid: String::from_str("nil"),
            file_type: String::from_str("nil"),
            hash: String::from_str("nil"),
            dir: String::from_str("nil"),
            fileName: String::from_str("nil"),
            download_route: String::from_str("nil"),
            status: Status::DONE,
        }
    }

    /// Sets the status from its numeric code; see [`status_for_code`].
    pub fn status(&mut self, s: u8)
        ensures
            final(self)@ == (FileDataView { status: status_for_code(s), ..old(self)@ }),
    {
        match s {
            1 => self.status = Status::SCHEDULED,
            2 => self.status = Status::PROCESSING,
            3 => self.status = Status::DONE,
            4 => self.status = Status::FAILED,
            _ => self.status = Status::FAILED,
        };
    }

    /// A field-by-field copy of this record.
    pub fn cloned(&self) -> (r: Self)
        ensures
            r@ == self@,
    {
        FileData {
            filePath: self.filePath.clone(),
            uuid: self.uuid.clone(),
            file_type: self.file_type.clone(),
            hash: self.hash.clone(),
            dir: self.dir.clone(),
            fileName: self.fileName.clone(),
            download_route: self.download_route.clone(),
            status: self.status,
        }
    }
}

/// The identity carried by an access token: its subject and its expiry time.
#[derive(Clone, Debug)]
pub struct Claims {
    sub: String,
    exp: usize,
}

/// Mathematical model of [`Claims`].
pub struct ClaimsView {
    pub sub: Seq<char>,
    pub exp: nat,
}

impl View for Claims {
    type V = ClaimsView;

    closed spec fn view(&self) -> ClaimsView {
        ClaimsView { sub: self.sub@, exp: self.exp as nat }
    }
}

impl Claims {
    pub fn new(sub: String, exp: usize) -> (r: Self)
        ensures
            r@ == (ClaimsView { sub: sub@, exp: exp as nat }),
    {
        Claims { sub, exp }
    }

    /// The subject the token was issued to.
    pub fn sub(&self) -> (r: &String)
        ensures
            r@ == self@.sub,
    {
        &self.sub
    }

    /// The expiry time of the token.
    pub fn exp(&self) -> (r: usize)
        ensures
            r as nat == self@.exp,
    {
        self.exp
    }
}

/// What an upload answers: the id and names of the stored file, and its record.
#[allow(non_snake_case)]
#[derive(Clone, Debug)]
pub struct UploadFileResponse {
    pub fileId: String,
    pub fileName: String,
    pub downloading_route: String,
    pub file_obj: FileData,
}

impl UploadFileResponse {
    pub fn new() -> (r: Self)
        ensures
            r.fileId@ == "nil"@,
            r.fileName@ == "nil"@,
            r.downloading_route@ == "nil"@,
            r.file_obj@ == blank_file_data(),
    {
        UploadFileResponse {
            fileId: String::from_str("nil"),
            fileName: String::from_str("nil"),
            downloading_route: String::from_str("nil"),
            file_obj: FileData::new(),
        }
    }
}

} // verus!
