use vstd::prelude::*;
use vstd::string::StringExecFns;
use vstd::utf8::{
    decode_utf8, encode_utf8, encode_utf8_decode_utf8, encode_utf8_valid_utf8, is_ascii_chars,
    is_ascii_chars_encode_utf8, valid_utf8,
};
use crate::obj::{blank_file_data, FileData, FileDataView, Status};
use crate::text::{same_text, utf8_text};

verus! {

// ---------------------------------------------------------------------------
// Accepted uploads and the names they are stored under
// ---------------------------------------------------------------------------

/// The file extension that an accepted video content type is stored with;
/// none for any other content type.
pub open spec fn video_ending(ct: Seq<char>) -> Option<Seq<char>> {
    if ct == "video/mp4"@ {
        Some("mp4"@)
    } else if ct == "video/webm"@ {
        Some("webm"@)
    } else if ct == "video/mpeg"@ {
        Some("mpeg"@)
    } else if ct == "video/quicktime"@ {
        Some("mov"@)
    } else if ct == "video/x-m4v"@ {
        Some("m4v"@)
    } else if ct == "video/x-msvideo"@ {
        Some("avi"@)
    } else if ct == "video/x-flv"@ {
        Some("flv"@)
    } else if ct == "video/x-mng"@ {
        Some("mng"@)
    } else {
        None
    }
}

/// The extension for a part's content type, when the part has one and it is
/// an accepted video type.
pub open spec fn accepted_ending(ct: Option<Seq<char>>) -> Option<Seq<char>> {
    match ct {
        Some(c) => video_ending(c),
        None => None,
    }
}

/// An optional text as characters.
pub open spec fn opt_text(o: Option<&str>) -> Option<Seq<char>> {
    match o {
        Some(s) => Some(s@),
        None => None,
    }
}

/// An optional owned text as characters.
pub open spec fn opt_string(o: Option<String>) -> Option<Seq<char>> {
    match o {
        Some(s) => Some(s@),
        None => None,
    }
}

/// The extension that an upload part with this content type is stored with,
/// or `None` when the part must be refused.
pub fn file_ending(content_type: Option<&str>) -> (r: Option<&'static str>)
    ensures
        opt_text(r) == accepted_ending(opt_text(content_type)),
{
    match content_type {
        None => None,
        Some(ct) => {
            if same_text(ct, "video/mp4") {
                Some("mp4")
            } else if same_text(ct, "video/webm") {
                Some("webm")
            } else if same_text(ct, "video/mpeg") {
                Some("mpeg")
            } else if same_text(ct, "video/quicktime") {
                Some("mov")
            } else if same_text(ct, "video/x-m4v") {
                Some("m4v")
            } else if same_text(ct, "video/x-msvideo") {
                Some("avi")
            } else if same_text(ct, "video/x-flv") {
                Some("flv")
            } else if same_text(ct, "video/x-mng") {
                Some("mng")
            } else {
                None
            }
        },
    }
}

/// Where an upload with this id and extension is stored.
pub open spec fn stored_path(id: Seq<char>, ending: Seq<char>) -> Seq<char> {
    "./files/"@ + id + "."@ + ending
}

/// The path under which an upload with this id and extension is stored.
pub fn stored_file_path(id: &str, ending: &str) -> (r: String)
    ensures
        r@ == stored_path(id@, ending@),
{
    let mut p = String::from_str("./files/");
    p.append(id);
    p.append(".");
    p.append(ending);
    p
}

/// Whether a character is a lower-case hexadecimal digit.
pub open spec fn is_lower_hex(c: char) -> bool {
    (48 <= (c as u32) && (c as u32) <= 57) || (97 <= (c as u32) && (c as u32) <= 102)
}

/// The shape of a random (version 4) identifier written in hyphenated
/// lower-case form: 36 characters, hyphens at positions 8, 13, 18 and 23,
/// lower-case hex digits elsewhere, the version digit `4` at 14 and the
/// variant digit (one of 8, 9, a, b) at 19.
pub open spec fn uuid_shape(s: Seq<char>) -> bool {
    &&& s.len() == 36
    &&& forall|i: int|
        0 <= i < 36 ==> if i == 8 || i == 13 || i == 18 || i == 23 {
            #[trigger] s[i] == '-'
        } else {
            is_lower_hex(s[i])
        }
    &&& s[14] == '4'
    &&& (s[19] == '8' || s[19] == '9' || s[19] == 'a' || s[19] == 'b')
}

/// A fresh random identifier for an upload.
///
/// Wraps `uuid::Uuid::new_v4` and writes it with
/// `to_hyphenated().to_string()`. The contract claims only the shape of the
/// text, which the uuid source fixes: the version and variant bits that
/// `new_v4` sets, and the lower-case hyphenated encoding. Which identifier
/// comes back is left unstated (it is random), and so is the panic that
/// `new_v4` raises when the system's random source fails.
#[verifier::external_body]
pub(crate) fn new_upload_id() -> (r: String)
    ensures
        uuid_shape(r@),
{
    uuid::Uuid::new_v4().to_hyphenated().to_string()
}

/// The hash text that `sha256sum` printed: the first 64 bytes of its output,
/// as UTF-8 text. None when the output is shorter or those bytes are not
/// UTF-8.
pub open spec fn digest_text(out: Seq<u8>) -> Option<Seq<char>> {
    if out.len() < 64 {
        None
    } else if valid_utf8(out.take(64)) {
        Some(decode_utf8(out.take(64)))
    } else {
        None
    }
}

/// Reads the hash from the output of `sha256sum`.
pub fn hash_from_digest_output(stdout: &[u8]) -> (r: Option<String>)
    ensures
        opt_string(r) == digest_text(stdout@),
{
    if stdout.len() < 64 {
        return None;
    }
    let (head, _) = stdout.split_at(64);
    assert(head@ =~= stdout@.take(64));
    utf8_text(head)
}

// ---------------------------------------------------------------------------
// The upload protocol
// ---------------------------------------------------------------------------

/// How an external program ended.
pub enum ProcessOutcome {
    /// The program could not be started.
    SpawnFailed,
    /// The program ran; `success` tells whether it exited with success.
    Exited { success: bool, stdout: Vec<u8>, stderr: Vec<u8> },
}

pub enum ProcessOutcomeView {
    SpawnFailed,
    Exited { success: bool, stdout: Seq<u8>, stderr: Seq<u8> },
}

impl View for ProcessOutcome {
    type V = ProcessOutcomeView;

    open spec fn view(&self) -> ProcessOutcomeView {
        match self {
            ProcessOutcome::SpawnFailed => ProcessOutcomeView::SpawnFailed,
            ProcessOutcome::Exited { success, stdout, stderr } => ProcessOutcomeView::Exited {
                success: *success,
                stdout: stdout@,
                stderr: stderr@,
            },
        }
    }
}

/// The part being stored: its id, where it goes, and the name it was sent with.
pub struct UploadJob {
    pub id: String,
    pub path: String,
    pub name: String,
}

pub struct UploadJobView {
    pub id: Seq<char>,
    pub path: Seq<char>,
    pub name: Seq<char>,
}

impl View for UploadJob {
    type V = UploadJobView;

    open spec fn view(&self) -> UploadJobView {
        UploadJobView { id: self.id@, path: self.path@, name: self.name@ }
    }
}

/// What happened since the last action: the result of the work it asked for.
pub enum UploadEvent {
    /// The multipart form was read into its parts (or could not be).
    FormCollected { ok: bool },
    /// The next part of the form, with its content type and file name.
    Part { content_type: Option<String>, filename: Option<String> },
    /// The form has no more parts.
    PartsExhausted,
    /// The part's body was read (or reading it failed).
    BodyRead { data: Option<Vec<u8>> },
    /// The part's body was written to its path (or writing failed).
    FileWritten { ok: bool },
    /// `mediainfo` was run on the stored file.
    MediaInfoRan { outcome: ProcessOutcome },
    /// The media description was written (its success does not matter).
    InfoWritten,
    /// `sha256sum` was run on the stored file.
    HashRan { outcome: ProcessOutcome },
}

pub enum UploadEventView {
    FormCollected { ok: bool },
    Part { content_type: Option<Seq<char>>, filename: Option<Seq<char>> },
    PartsExhausted,
    BodyRead { data: Option<Seq<u8>> },
    FileWritten { ok: bool },
    MediaInfoRan { outcome: ProcessOutcomeView },
    InfoWritten,
    HashRan { outcome: ProcessOutcomeView },
}

impl View for UploadEvent {
    type V = UploadEventView;

    open spec fn view(&self) -> UploadEventView {
        match self {
            UploadEvent::FormCollected { ok } => UploadEventView::FormCollected { ok: *ok },
            UploadEvent::Part { content_type, filename } => UploadEventView::Part {
                content_type: opt_string(*content_type),
                filename: opt_string(*filename),
            },
            UploadEvent::PartsExhausted => UploadEventView::PartsExhausted,
            UploadEvent::BodyRead { data } => UploadEventView::BodyRead {
                data: match data {
                    Some(d) => Some(d@),
                    None => None,
                },
            },
            UploadEvent::FileWritten { ok } => UploadEventView::FileWritten { ok: *ok },
            UploadEvent::MediaInfoRan { outcome } => UploadEventView::MediaInfoRan {
                outcome: outcome@,
            },
            UploadEvent::InfoWritten => UploadEventView::InfoWritten,
            UploadEvent::HashRan { outcome } => UploadEventView::HashRan { outcome: outcome@ },
        }
    }
}

/// The work the request handler must do next.
pub enum UploadAction {
    /// Take the next part of the form, or report that there is none.
    NextPart,
    /// Read the current part's body.
    ReadBody,
    /// Write the body to the given path.
    WriteFile { path: String, data: Vec<u8> },
    /// Run `mediainfo --output=JSON` on the stored file.
    RunMediaInfo { path: String },
    /// Write the media description to the given path.
    WriteInfo { path: String, data: Vec<u8> },
    /// Run `sha256sum` on the stored file.
    RunHash { path: String },
    /// Hand the record to the conversion queue, then take the next part.
    Schedule { file: FileData },
    /// Answer the request with this record.
    Respond { file: FileData },
    /// Refuse the request.
    Reject,
    /// Give up the request handler: the input broke an assumption the
    /// service makes (a part without a file name, unreadable tool output).
    Abort,
}

pub enum UploadActionView {
    NextPart,
    ReadBody,
    WriteFile { path: Seq<char>, data: Seq<u8> },
    RunMediaInfo { path: Seq<char> },
    WriteInfo { path: Seq<char>, data: Seq<u8> },
    RunHash { path: Seq<char> },
    Schedule { file: FileDataView },
    Respond { file: FileDataView },
    Reject,
    Abort,
}

impl View for UploadAction {
    type V = UploadActionView;

    open spec fn view(&self) -> UploadActionView {
        match self {
            UploadAction::NextPart => UploadActionView::NextPart,
            UploadAction::ReadBody => UploadActionView::ReadBody,
            UploadAction::WriteFile { path, data } => UploadActionView::WriteFile {
                path: path@,
                data: data@,
            },
            UploadAction::RunMediaInfo { path } => UploadActionView::RunMediaInfo { path: path@ },
            UploadAction::WriteInfo { path, data } => UploadActionView::WriteInfo {
                path: path@,
                data: data@,
            },
            UploadAction::RunHash { path } => UploadActionView::RunHash { path: path@ },
            UploadAction::Schedule { file } => UploadActionView::Schedule { file: file@ },
            UploadAction::Respond { file } => UploadActionView::Respond { file: file@ },
            UploadAction::Reject => UploadActionView::Reject,
            UploadAction::Abort => UploadActionView::Abort,
        }
    }
}

/// Where the handling of one upload request stands.
pub enum UploadState {
    /// Waiting for the form to be read.
    Collecting,
    /// Between parts; `last` is the record of the last stored part (a blank
    /// record before the first).
    Between { last: FileData },
    /// Waiting for the body of the current part.
    Reading { job: UploadJob },
    /// Waiting for the body to be written.
    Writing { job: UploadJob },
    /// Waiting for `mediainfo`.
    Inspecting { job: UploadJob },
    /// Waiting for the media description to be written.
    RecordingInfo { job: UploadJob },
    /// Waiting for `sha256sum`.
    Hashing { job: UploadJob },
    /// The request was answered.
    Responded,
    /// The request was refused.
    Rejected,
    /// The request handler gave up.
    Aborted,
}

pub enum UploadStateView {
    Collecting,
    Between { last: FileDataView },
    Reading { job: UploadJobView },
    Writing { job: UploadJobView },
    Inspecting { job: UploadJobView },
    RecordingInfo { job: UploadJobView },
    Hashing { job: UploadJobView },
    Responded,
    Rejected,
    Aborted,
}

impl View for UploadState {
    type V = UploadStateView;

    open spec fn view(&self) -> UploadStateView {
        match self {
            UploadState::Collecting => UploadStateView::Collecting,
            UploadState::Between { last } => UploadStateView::Between { last: last@ },
            UploadState::Reading { job } => UploadStateView::Reading { job: job@ },
            UploadState::Writing { job } => UploadStateView::Writing { job: job@ },
            UploadState::Inspecting { job } => UploadStateView::Inspecting { job: job@ },
            UploadState::RecordingInfo { job } => UploadStateView::RecordingInfo { job: job@ },
            UploadState::Hashing { job } => UploadStateView::Hashing { job: job@ },
            UploadState::Responded => UploadStateView::Responded,
            UploadState::Rejected => UploadStateView::Rejected,
            UploadState::Aborted => UploadStateView::Aborted,
        }
    }
}

/// Whether an event is the answer to the action that led to this state.
pub open spec fn upload_accepts(s: UploadStateView, e: UploadEventView) -> bool {
    match s {
        UploadStateView::Collecting => e is FormCollected,
        UploadStateView::Between { .. } => e is Part || e is PartsExhausted,
        UploadStateView::Reading { .. } => e is BodyRead,
        UploadStateView::Writing { .. } => e is FileWritten,
        UploadStateView::Inspecting { .. } => e is MediaInfoRan,
        UploadStateView::RecordingInfo { .. } => e is InfoWritten,
        UploadStateView::Hashing { .. } => e is HashRan,
        _ => false,
    }
}

/// Whether the handling of the request is over.
pub open spec fn upload_finished(s: UploadStateView) -> bool {
    s is Responded || s is Rejected || s is Aborted
}

/// The record of a stored, hashed part: scheduled for conversion, under the
/// job's id, path and name, with the given hash; every other field blank.
pub open spec fn scheduled_record(job: UploadJobView, hash: Seq<char>) -> FileDataView {
    FileDataView {
        file_path: job.path,
        uuid: job.id,
        file_name: job.name,
        hash: hash,
        status: Status::SCHEDULED,
        ..blank_file_data()
    }
}

/// What a tool's failure leads to: a refusal, or giving up when its error
/// output is not UTF-8 text.
pub open spec fn tool_failure(stderr: Seq<u8>) -> (UploadStateView, UploadActionView) {
    if valid_utf8(stderr) {
        (UploadStateView::Rejected, UploadActionView::Reject)
    } else {
        (UploadStateView::Aborted, UploadActionView::Abort)
    }
}

/// One step of the upload protocol: the next state and action, given the
/// current state, the event, and the id that a new part receives.
pub open spec fn upload_step(s: UploadStateView, e: UploadEventView, id: Seq<char>) -> (
    UploadStateView,
    UploadActionView,
) {
    match s {
        UploadStateView::Collecting => match e {
            UploadEventView::FormCollected { ok } => if ok {
                (UploadStateView::Between { last: blank_file_data() }, UploadActionView::NextPart)
            } else {
                (UploadStateView::Rejected, UploadActionView::Reject)
            },
            _ => (s, UploadActionView::Reject),
        },
        UploadStateView::Between { last } => match e {
            UploadEventView::Part { content_type, filename } => match accepted_ending(
                content_type,
            ) {
                None => (UploadStateView::Rejected, UploadActionView::Reject),
                Some(ending) => match filename {
                    None => (UploadStateView::Aborted, UploadActionView::Abort),
                    Some(name) => (
                        UploadStateView::Reading {
                            job: UploadJobView { id, path: stored_path(id, ending), name },
                        },
                        UploadActionView::ReadBody,
                    ),
                },
            },
            UploadEventView::PartsExhausted => (
                UploadStateView::Responded,
                UploadActionView::Respond { file: last },
            ),
            _ => (s, UploadActionView::Reject),
        },
        UploadStateView::Reading { job } => match e {
            UploadEventView::BodyRead { data } => match data {
                None => (UploadStateView::Rejected, UploadActionView::Reject),
                Some(d) => (
                    UploadStateView::Writing { job },
                    UploadActionView::WriteFile { path: job.path, data: d },
                ),
            },
            _ => (s, UploadActionView::Reject),
        },
        UploadStateView::Writing { job } => match e {
            UploadEventView::FileWritten { ok } => if ok {
                (UploadStateView::Inspecting { job }, UploadActionView::RunMediaInfo { path: job.path })
            } else {
                (UploadStateView::Rejected, UploadActionView::Reject)
            },
            _ => (s, UploadActionView::Reject),
        },
        UploadStateView::Inspecting { job } => match e {
            UploadEventView::MediaInfoRan { outcome } => match outcome {
                ProcessOutcomeView::SpawnFailed => (
                    UploadStateView::Rejected,
                    UploadActionView::Reject,
                ),
                ProcessOutcomeView::Exited { success, stdout, stderr } => if success {
                    (
                        UploadStateView::RecordingInfo { job },
                        UploadActionView::WriteInfo {
                            path: stored_path(job.id, "json"@),
                            data: stdout,
                        },
                    )
                } else {
                    tool_failure(stderr)
                },
            },
            _ => (s, UploadActionView::Reject),
        },
        UploadStateView::RecordingInfo { job } => match e {
            UploadEventView::InfoWritten => (
                UploadStateView::Hashing { job },
                UploadActionView::RunHash { path: job.path },
            ),
            _ => (s, UploadActionView::Reject),
        },
        UploadStateView::Hashing { job } => match e {
            UploadEventView::HashRan { outcome } => match outcome {
                ProcessOutcomeView::SpawnFailed => (
                    UploadStateView::Rejected,
                    UploadActionView::Reject,
                ),
                ProcessOutcomeView::Exited { success, stdout, stderr } => if success {
                    match digest_text(stdout) {
                        None => (UploadStateView::Aborted, UploadActionView::Abort),
                        Some(hash) => (
                            UploadStateView::Between { last: scheduled_record(job, hash) },
                            UploadActionView::Schedule { file: scheduled_record(job, hash) },
                        ),
                    }
                } else {
                    tool_failure(stderr)
                },
            },
            _ => (s, UploadActionView::Reject),
        },
        _ => (s, UploadActionView::Reject),
    }
}

/// The refusal or give-up that a failed tool leads to.
fn tool_failure_step(stderr: &[u8]) -> (r: (UploadState, UploadAction))
    ensures
        (r.0@, r.1@) == tool_failure(stderr@),
{
    match utf8_text(stderr) {
        Some(_) => (UploadState::Rejected, UploadAction::Reject),
        None => (UploadState::Aborted, UploadAction::Abort),
    }
}

/// The record of a stored part once its hash is known.
fn scheduled_file_data(job: &UploadJob, hash: String) -> (r: FileData)
    ensures
        r@ == scheduled_record(job@, hash@),
{
    let mut file_data = FileData::new();
    file_data.filePath = job.path.clone();
    file_data.uuid = job.id.clone();
    file_data.fileName = job.name.clone();
    file_data.hash = hash;
    file_data.status(1);
    file_data
}

impl UploadState {
    /// The state in which the handling of an upload request begins.
    pub fn new() -> (r: Self)
        ensures
            r@ == UploadStateView::Collecting,
    {
        UploadState::Collecting
    }

    /// Whether `event` is the answer to the action that led to this state.
    pub fn accepts(&self, event: &UploadEvent) -> (r: bool)
        ensures
            r == upload_accepts(self@, event@),
    {
        match self {
            UploadState::Collecting => matches!(event, UploadEvent::FormCollected { .. }),
            UploadState::Between { .. } => matches!(event, UploadEvent::Part { .. })
                || matches!(event, UploadEvent::PartsExhausted),
            UploadState::Reading { .. } => matches!(event, UploadEvent::BodyRead { .. }),
            UploadState::Writing { .. } => matches!(event, UploadEvent::FileWritten { .. }),
            UploadState::Inspecting { .. } => matches!(event, UploadEvent::MediaInfoRan { .. }),
            UploadState::RecordingInfo { .. } => matches!(event, UploadEvent::InfoWritten),
            UploadState::Hashing { .. } => matches!(event, UploadEvent::HashRan { .. }),
            _ => false,
        }
    }

    /// One step of the upload protocol, with `id` as the id that a new part
    /// receives.
    pub fn advance(self, event: UploadEvent, id: &str) -> (r: (UploadState, UploadAction))
        requires
            upload_accepts(self@, event@),
        ensures
            (r.0@, r.1@) == upload_step(self@, event@, id@),
    {
        match self {
            UploadState::Collecting => match event {
                UploadEvent::FormCollected { ok } => if ok {
                    (UploadState::Between { last: FileData::new() }, UploadAction::NextPart)
                } else {
                    (UploadState::Rejected, UploadAction::Reject)
                },
                _ => vstd::pervasive::unreached(),
            },
            UploadState::Between { last } => match event {
                UploadEvent::Part { content_type, filename } => {
                    let ending = match &content_type {
                        Some(ct) => file_ending(Some(ct.as_str())),
                        None => file_ending(None),
                    };
                    match ending {
                        None => (UploadState::Rejected, UploadAction::Reject),
                        Some(ending) => match filename {
                            None => (UploadState::Aborted, UploadAction::Abort),
                            Some(name) => {
                                let path = stored_file_path(id, ending);
                                let job = UploadJob { id: id.to_owned(), path, name };
                                (UploadState::Reading { job }, UploadAction::ReadBody)
                            },
                        },
                    }
                },
                UploadEvent::PartsExhausted => (
                    UploadState::Responded,
                    UploadAction::Respond { file: last },
                ),
                _ => vstd::pervasive::unreached(),
            },
            UploadState::Reading { job } => match event {
                UploadEvent::BodyRead { data } => match data {
                    None => (UploadState::Rejected, UploadAction::Reject),
                    Some(d) => {
                        let path = job.path.clone();
                        (UploadState::Writing { job }, UploadAction::WriteFile { path, data: d })
                    },
                },
                _ => vstd::pervasive::unreached(),
            },
            UploadState::Writing { job } => match event {
                UploadEvent::FileWritten { ok } => if ok {
                    let path = job.path.clone();
                    (UploadState::Inspecting { job }, UploadAction::RunMediaInfo { path })
                } else {
                    (UploadState::Rejected, UploadAction::Reject)
                },
                _ => vstd::pervasive::unreached(),
            },
            UploadState::Inspecting { job } => match event {
                UploadEvent::MediaInfoRan { outcome } => match outcome {
                    ProcessOutcome::SpawnFailed => (UploadState::Rejected, UploadAction::Reject),
                    ProcessOutcome::Exited { success, stdout, stderr } => if success {
                        let path = stored_file_path(job.id.as_str(), "json");
                        (
                            UploadState::RecordingInfo { job },
                            UploadAction::WriteInfo { path, data: stdout },
                        )
                    } else {
                        tool_failure_step(stderr.as_slice())
                    },
                },
                _ => vstd::pervasive::unreached(),
            },
            UploadState::RecordingInfo { job } => match event {
                UploadEvent::InfoWritten => {
                    let path = job.path.clone();
                    (UploadState::Hashing { job }, UploadAction::RunHash { path })
                },
                _ => vstd::pervasive::unreached(),
            },
            UploadState::Hashing { job } => match event {
                UploadEvent::HashRan { outcome } => match outcome {
                    ProcessOutcome::SpawnFailed => (UploadState::Rejected, UploadAction::Reject),
                    ProcessOutcome::Exited { success, stdout, stderr } => if success {
                        match hash_from_digest_output(stdout.as_slice()) {
                            None => (UploadState::Aborted, UploadAction::Abort),
                            Some(hash) => {
                                let file = scheduled_file_data(&job, hash);
                                let last = file.cloned();
                                (UploadState::Between { last }, UploadAction::Schedule { file })
                            },
                        }
                    } else {
                        tool_failure_step(stderr.as_slice())
                    },
                },
                _ => vstd::pervasive::unreached(),
            },
            _ => vstd::pervasive::unreached(),
        }
    }

    /// One step of the upload protocol; a new part receives a fresh random id.
    pub fn step(self, event: UploadEvent) -> (r: (UploadState, UploadAction))
        requires
            upload_accepts(self@, event@),
        ensures
            !(event@ is Part) ==> (r.0@, r.1@) == upload_step(self@, event@, Seq::empty()),
            event@ is Part ==> exists|id: Seq<char>|
                #[trigger] uuid_shape(id) && (r.0@, r.1@) == upload_step(self@, event@, id),
    {
        if matches!(event, UploadEvent::Part { .. }) {
            let id = new_upload_id();
            let r = self.advance(event, id.as_str());
            assert(uuid_shape(id@));
            r
        } else {
            self.advance(event, "")
        }
    }
}

// ---------------------------------------------------------------------------
// Laws on what is accepted and where it is stored
// ---------------------------------------------------------------------------

/// The accepted content types and their extensions: the eight video types
/// below, each stored under its own extension, and nothing else.
pub proof fn lemma_video_ending_table(c: Seq<char>)
    ensures
        c == "video/mp4"@ ==> video_ending(c) == Some("mp4"@),
        c == "video/webm"@ ==> video_ending(c) == Some("webm"@),
        c == "video/mpeg"@ ==> video_ending(c) == Some("mpeg"@),
        c == "video/quicktime"@ ==> video_ending(c) == Some("mov"@),
        c == "video/x-m4v"@ ==> video_ending(c) == Some("m4v"@),
        c == "video/x-msvideo"@ ==> video_ending(c) == Some("avi"@),
        c == "video/x-flv"@ ==> video_ending(c) == Some("flv"@),
        c == "video/x-mng"@ ==> video_ending(c) == Some("mng"@),
        (c != "video/mp4"@ && c != "video/webm"@ && c != "video/mpeg"@ && c != "video/quicktime"@ && c != "video/x-m4v"@ && c != "video/x-msvideo"@ && c != "video/x-flv"@ && c != "video/x-mng"@) ==> video_ending(c) is None,
{
    reveal_strlit("video/mp4");
    reveal_strlit("video/webm");
    reveal_strlit("video/mpeg");
    reveal_strlit("video/quicktime");
    reveal_strlit("video/x-m4v");
    reveal_strlit("video/x-msvideo");
    reveal_strlit("video/x-flv");
    reveal_strlit("video/x-mng");
    assert("video/mp4"@.len() != "video/webm"@.len());
    assert("video/mp4"@.len() != "video/mpeg"@.len());
    assert("video/mp4"@.len() != "video/quicktime"@.len());
    assert("video/mp4"@.len() != "video/x-m4v"@.len());
    assert("video/mp4"@.len() != "video/x-msvideo"@.len());
    assert("video/mp4"@.len() != "video/x-flv"@.len());
    assert("video/mp4"@.len() != "video/x-mng"@.len());
    assert("video/webm"@[6] != "video/mpeg"@[6]);
    assert("video/webm"@.len() != "video/quicktime"@.len());
    assert("video/webm"@.len() != "video/x-m4v"@.len());
    assert("video/webm"@.len() != "video/x-msvideo"@.len());
    assert("video/webm"@.len() != "video/x-flv"@.len());
    assert("video/webm"@.len() != "video/x-mng"@.len());
    assert("video/mpeg"@.len() != "video/quicktime"@.len());
    assert("video/mpeg"@.len() != "video/x-m4v"@.len());
    assert("video/mpeg"@.len() != "video/x-msvideo"@.len());
    assert("video/mpeg"@.len() != "video/x-flv"@.len());
    assert("video/mpeg"@.len() != "video/x-mng"@.len());
    assert("video/quicktime"@.len() != "video/x-m4v"@.len());
    assert("video/quicktime"@[6] != "video/x-msvideo"@[6]);
    assert("video/quicktime"@.len() != "video/x-flv"@.len());
    assert("video/quicktime"@.len() != "video/x-mng"@.len());
    assert("video/x-m4v"@.len() != "video/x-msvideo"@.len());
    assert("video/x-m4v"@[8] != "video/x-flv"@[8]);
    assert("video/x-m4v"@[9] != "video/x-mng"@[9]);
    assert("video/x-msvideo"@.len() != "video/x-flv"@.len());
    assert("video/x-msvideo"@.len() != "video/x-mng"@.len());
    assert("video/x-flv"@[8] != "video/x-mng"@[8]);
}

/// The hash is read from the first 64 bytes of `sha256sum`'s output: when
/// the output begins with the UTF-8 encoding of a 64-character ASCII hash,
/// that hash is read, whatever follows; the answer depends on those 64
/// bytes alone, and shorter output gives none.
pub proof fn lemma_digest_reads_hash(h: Seq<char>, rest: Seq<u8>, out: Seq<u8>, other: Seq<u8>)
    requires
        h.len() == 64,
        is_ascii_chars(h),
    ensures
        digest_text(encode_utf8(h) + rest) == Some(h),
        out.len() < 64 ==> digest_text(out) is None,
        (out.len() >= 64 && other.len() >= 64 && out.take(64) == other.take(64)) ==> digest_text(out)
            == digest_text(other),
{
    is_ascii_chars_encode_utf8(h);
    encode_utf8_valid_utf8(h);
    encode_utf8_decode_utf8(h);
    assert((encode_utf8(h) + rest).take(64) =~= encode_utf8(h));
}

/// An upload is stored in `./files/`, named by its id, a dot and its
/// extension; so the stored name ends with the extension, preceded by a dot.
pub proof fn lemma_stored_path_layout(id: Seq<char>, e: Seq<char>)
    ensures
        stored_path(id, e) == "./files/"@ + id + "."@ + e,
        stored_path(id, e).len() == 9 + id.len() + e.len(),
        stored_path(id, e).take(8) == "./files/"@,
        stored_path(id, e).subrange(8, 8 + id.len() as int) == id,
        stored_path(id, e)[8 + id.len() as int] == '.',
        stored_path(id, e).skip(9 + id.len() as int) == e,
{
    reveal_strlit("./files/");
    reveal_strlit(".");
    let p = stored_path(id, e);
    assert(p.take(8) =~= "./files/"@);
    assert(p.subrange(8, 8 + id.len() as int) =~= id);
    assert(p.skip(9 + id.len() as int) =~= e);
}

/// Two uploads with well-formed ids are stored at the same path only when
/// they have the same id and the same extension: the stored name tells both
/// the id and the type the upload was sent as.
pub proof fn lemma_stored_path_injective(a: Seq<char>, b: Seq<char>, e1: Seq<char>, e2: Seq<char>)
    requires
        uuid_shape(a),
        uuid_shape(b),
        stored_path(a, e1) == stored_path(b, e2),
    ensures
        a == b,
        e1 == e2,
{
    lemma_stored_path_layout(a, e1);
    lemma_stored_path_layout(b, e2);
}

/// A part accepted as the video type `c` is written, after its body is read,
/// at `./files/<id>.<extension of c>`, with exactly the body that was read.
pub proof fn lemma_part_written_under_its_type(
    last: FileDataView,
    c: Seq<char>,
    name: Seq<char>,
    id: Seq<char>,
    data: Seq<u8>,
)
    requires
        video_ending(c) is Some,
    ensures
        ({
            let (s1, a1) = upload_step(
                UploadStateView::Between { last },
                UploadEventView::Part { content_type: Some(c), filename: Some(name) },
                id,
            );
            let (s2, a2) = upload_step(s1, UploadEventView::BodyRead { data: Some(data) }, id);
            &&& a1 == UploadActionView::ReadBody
            &&& a2 == UploadActionView::WriteFile {
                path: "./files/"@ + id + "."@ + video_ending(c)->0,
                data,
            }
        }),
{
}

/// The tools run on the file that was written: `mediainfo` and `sha256sum`
/// on the part's stored path, and the media description is written next to
/// it as `./files/<id>.json`, with `mediainfo`'s output.
pub proof fn lemma_tools_run_on_stored_file(job: UploadJobView, id: Seq<char>, out: Seq<u8>, err: Seq<u8>)
    ensures
        upload_step(UploadStateView::Writing { job }, UploadEventView::FileWritten { ok: true }, id)
            == (UploadStateView::Inspecting { job }, UploadActionView::RunMediaInfo { path: job.path }),
        upload_step(
            UploadStateView::Inspecting { job },
            UploadEventView::MediaInfoRan {
                outcome: ProcessOutcomeView::Exited { success: true, stdout: out, stderr: err },
            },
            id,
        ) == (
            UploadStateView::RecordingInfo { job },
            UploadActionView::WriteInfo { path: "./files/"@ + job.id + "."@ + "json"@, data: out },
        ),
        upload_step(UploadStateView::RecordingInfo { job }, UploadEventView::InfoWritten, id) == (
            UploadStateView::Hashing { job },
            UploadActionView::RunHash { path: job.path },
        ),
{
}

/// Failures refuse the request: a body that cannot be read or written, or
/// tools that fail with readable error output, lead to a refusal; and a
/// record is handed to the conversion queue only after `sha256sum` ran and
/// succeeded, as the record of the file that was written.
pub proof fn lemma_upload_failures_refuse(s: UploadStateView, e: UploadEventView, id: Seq<char>)
    requires
        upload_accepts(s, e),
    ensures
        e == (UploadEventView::BodyRead { data: None }) ==> upload_step(s, e, id) == (
            UploadStateView::Rejected,
            UploadActionView::Reject,
        ),
        e == (UploadEventView::FileWritten { ok: false }) ==> upload_step(s, e, id) == (
            UploadStateView::Rejected,
            UploadActionView::Reject,
        ),
        e matches UploadEventView::MediaInfoRan { outcome: ProcessOutcomeView::SpawnFailed }
            ==> upload_step(s, e, id).1 == UploadActionView::Reject,
        e matches UploadEventView::HashRan { outcome: ProcessOutcomeView::SpawnFailed }
            ==> upload_step(s, e, id).1 == UploadActionView::Reject,
        upload_step(s, e, id).1 matches UploadActionView::Schedule { file } ==> {
            &&& s matches UploadStateView::Hashing { job } && file.file_path == job.path
                && file.uuid == job.id && file.file_name == job.name
            &&& e matches UploadEventView::HashRan {
                outcome: ProcessOutcomeView::Exited { success: true, .. },
            }
        },
        upload_step(s, e, id).1 matches UploadActionView::WriteFile { path, .. } ==> (
            s matches UploadStateView::Reading { job } && path == job.path),
{
}

// ---------------------------------------------------------------------------
// Laws of the upload protocol
// ---------------------------------------------------------------------------

/// The extensions under which uploads are stored.
pub open spec fn accepted_extension(e: Seq<char>) -> bool {
    e == "mp4"@ || e == "webm"@ || e == "mpeg"@ || e == "mov"@ || e == "m4v"@ || e == "avi"@
        || e == "flv"@ || e == "mng"@
}

/// A part's job: stored under its own id with an accepted extension.
pub open spec fn job_ok(job: UploadJobView) -> bool {
    exists|e: Seq<char>| accepted_extension(e) && job.path == #[trigger] stored_path(job.id, e)
}

/// The record of a stored part: scheduled, stored under its own id with an
/// accepted extension, with the text fields that no step fills left "nil".
pub open spec fn scheduled_ok(f: FileDataView) -> bool {
    &&& f.status == Status::SCHEDULED
    &&& exists|e: Seq<char>| accepted_extension(e) && f.file_path == #[trigger] stored_path(f.uuid, e)
    &&& f.file_type == "nil"@
    &&& f.dir == "nil"@
    &&& f.download_route == "nil"@
}

/// What holds in every state the protocol reaches.
pub open spec fn upload_inv(s: UploadStateView) -> bool {
    match s {
        UploadStateView::Between { last } => last == blank_file_data() || scheduled_ok(last),
        UploadStateView::Reading { job } => job_ok(job),
        UploadStateView::Writing { job } => job_ok(job),
        UploadStateView::Inspecting { job } => job_ok(job),
        UploadStateView::RecordingInfo { job } => job_ok(job),
        UploadStateView::Hashing { job } => job_ok(job),
        _ => true,
    }
}

/// Distinct accepted content types are stored under distinct extensions, so
/// the extension of a stored upload tells which type it was sent as.
pub proof fn lemma_video_ending_injective(a: Seq<char>, b: Seq<char>)
    requires
        video_ending(a) is Some,
        video_ending(a) == video_ending(b),
    ensures
        a == b,
{
    reveal_strlit("mp4");
    reveal_strlit("webm");
    reveal_strlit("mpeg");
    reveal_strlit("mov");
    reveal_strlit("m4v");
    reveal_strlit("avi");
    reveal_strlit("flv");
    reveal_strlit("mng");
    assert("mp4"@.len() != "webm"@.len());
    assert("mp4"@.len() != "mpeg"@.len());
    assert("mp4"@[1] != "mov"@[1]);
    assert("mp4"@[1] != "m4v"@[1]);
    assert("mp4"@[0] != "avi"@[0]);
    assert("mp4"@[0] != "flv"@[0]);
    assert("mp4"@[1] != "mng"@[1]);
    assert("webm"@[0] != "mpeg"@[0]);
    assert("webm"@.len() != "mov"@.len());
    assert("webm"@.len() != "m4v"@.len());
    assert("webm"@.len() != "avi"@.len());
    assert("webm"@.len() != "flv"@.len());
    assert("webm"@.len() != "mng"@.len());
    assert("mpeg"@.len() != "mov"@.len());
    assert("mpeg"@.len() != "m4v"@.len());
    assert("mpeg"@.len() != "avi"@.len());
    assert("mpeg"@.len() != "flv"@.len());
    assert("mpeg"@.len() != "mng"@.len());
    assert("mov"@[1] != "m4v"@[1]);
    assert("mov"@[0] != "avi"@[0]);
    assert("mov"@[0] != "flv"@[0]);
    assert("mov"@[1] != "mng"@[1]);
    assert("m4v"@[0] != "avi"@[0]);
    assert("m4v"@[0] != "flv"@[0]);
    assert("m4v"@[1] != "mng"@[1]);
    assert("avi"@[0] != "flv"@[0]);
    assert("avi"@[0] != "mng"@[0]);
    assert("flv"@[0] != "mng"@[0]);
}

proof fn lemma_video_ending_accepted(ct: Seq<char>)
    ensures
        video_ending(ct) matches Some(e) ==> accepted_extension(e),
{
}

/// Every step of the upload protocol keeps its invariant: a part in progress
/// is stored under its own id with an accepted extension, and the record
/// kept between parts is blank or that of a stored, scheduled part.
pub proof fn lemma_upload_step_keeps_inv(s: UploadStateView, e: UploadEventView, id: Seq<char>)
    requires
        upload_inv(s),
        upload_accepts(s, e),
    ensures
        upload_inv(upload_step(s, e, id).0),
{
    match (s, e) {
        (UploadStateView::Between { .. }, UploadEventView::Part { content_type, filename }) => {
            if let Some(c) = content_type {
                lemma_video_ending_accepted(c);
            }
            if let Some(ending) = accepted_ending(content_type) {
                if let Some(name) = filename {
                    assert(accepted_extension(ending));
                    let job = UploadJobView { id, path: stored_path(id, ending), name };
                    assert(upload_step(s, e, id).0 == UploadStateView::Reading { job });
                    assert(job.path == stored_path(job.id, ending));
                    assert(job_ok(job));
                }
            }
        },
        (UploadStateView::Hashing { job }, UploadEventView::HashRan { outcome }) => {
            if let ProcessOutcomeView::Exited { success, stdout, .. } = outcome {
                if success {
                    if let Some(hash) = digest_text(stdout) {
                        let f = scheduled_record(job, hash);
                        let w = choose|x: Seq<char>|
                            accepted_extension(x) && job.path == #[trigger] stored_path(job.id, x);
                        assert(accepted_extension(w) && f.file_path == stored_path(f.uuid, w));
                        assert(scheduled_ok(f));
                    }
                }
            }
        },
        _ => {},
    }
}

/// The protocol begins in a state that satisfies its invariant.
pub proof fn lemma_upload_initial_inv()
    ensures
        upload_inv(UploadStateView::Collecting),
{
}

/// An answer, a refusal or giving up ends the handling of the request, and a
/// finished request takes no further event; every other action leaves it
/// open.
pub proof fn lemma_upload_end_is_final(s: UploadStateView, e: UploadEventView, id: Seq<char>, next: UploadEventView)
    requires
        upload_accepts(s, e),
    ensures
        ({
            let (s1, a) = upload_step(s, e, id);
            (a is Respond || a is Reject || a is Abort) <==> upload_finished(s1)
        }),
        upload_finished(upload_step(s, e, id).0) ==> !upload_accepts(upload_step(s, e, id).0, next),
{
}

/// Every record handed to the conversion queue is that of a stored,
/// scheduled part, and it is the record the protocol keeps from then on.
pub proof fn lemma_schedule_keeps_record(s: UploadStateView, e: UploadEventView, id: Seq<char>)
    requires
        upload_inv(s),
        upload_accepts(s, e),
    ensures
        upload_step(s, e, id).1 matches UploadActionView::Schedule { file } ==> {
            &&& scheduled_ok(file)
            &&& upload_step(s, e, id).0 == UploadStateView::Between { last: file }
        },
{
    lemma_upload_step_keeps_inv(s, e, id);
}

/// Only accepted video types reach the disk: every file the protocol asks
/// to write is named by an id and one of the accepted video extensions.
pub proof fn lemma_only_videos_are_stored(s: UploadStateView, e: UploadEventView, id: Seq<char>)
    requires
        upload_inv(s),
        upload_accepts(s, e),
    ensures
        upload_step(s, e, id).1 matches UploadActionView::WriteFile { path, .. } ==> exists|
            u: Seq<char>,
            x: Seq<char>,
        | accepted_extension(x) && path == #[trigger] stored_path(u, x),
{
    if let UploadStateView::Reading { job } = s {
        let x = choose|x: Seq<char>| accepted_extension(x) && job.path == #[trigger] stored_path(job.id, x);
        assert(accepted_extension(x) && job.path == stored_path(job.id, x));
    }
}

/// The states and actions that a sequence of events leads to, the i-th
/// event being handled with the i-th id.
pub open spec fn upload_run(s: UploadStateView, events: Seq<UploadEventView>, ids: Seq<Seq<char>>) -> (
    UploadStateView,
    Seq<UploadActionView>,
)
    decreases events.len(),
{
    if events.len() == 0 {
        (s, Seq::empty())
    } else {
        let (s1, a1) = upload_step(s, events[0], ids[0]);
        let (sn, rest) = upload_run(s1, events.drop_first(), ids.drop_first());
        (sn, seq![a1] + rest)
    }
}

/// Whether each event of the sequence is accepted in turn.
pub open spec fn run_accepted(s: UploadStateView, events: Seq<UploadEventView>, ids: Seq<Seq<char>>) -> bool
    decreases events.len(),
{
    if events.len() == 0 {
        true
    } else {
        upload_accepts(s, events[0]) && run_accepted(
            upload_step(s, events[0], ids[0]).0,
            events.drop_first(),
            ids.drop_first(),
        )
    }
}

/// The record of the last `Schedule` action, or `current` when there is none.
pub open spec fn last_scheduled(actions: Seq<UploadActionView>, current: FileDataView) -> FileDataView
    decreases actions.len(),
{
    if actions.len() == 0 {
        current
    } else {
        match actions[0] {
            UploadActionView::Schedule { file } => last_scheduled(actions.drop_first(), file),
            _ => last_scheduled(actions.drop_first(), current),
        }
    }
}

/// The record that the protocol would answer with from this state.
pub open spec fn kept_record(s: UploadStateView) -> FileDataView {
    match s {
        UploadStateView::Between { last } => last,
        _ => blank_file_data(),
    }
}

/// Whether a part is in progress.
pub open spec fn part_in_progress(s: UploadStateView) -> bool {
    s is Reading || s is Writing || s is Inspecting || s is RecordingInfo || s is Hashing
}

proof fn lemma_run_answer(s: UploadStateView, events: Seq<UploadEventView>, ids: Seq<Seq<char>>)
    requires
        events.len() > 0,
        ids.len() == events.len(),
        run_accepted(s, events, ids),
    ensures
        ({
            let acts = upload_run(s, events, ids).1;
            acts.last() matches UploadActionView::Respond { file } ==> {
                &&& (s is Collecting || s is Between) ==> file == last_scheduled(acts, kept_record(s))
                &&& part_in_progress(s) ==> forall|x: FileDataView|
                    file == #[trigger] last_scheduled(acts, x)
            }
        }),
    decreases events.len(),
{
    let (s1, a1) = upload_step(s, events[0], ids[0]);
    let rest_e = events.drop_first();
    let rest_i = ids.drop_first();
    let acts = upload_run(s, events, ids).1;
    let rest = upload_run(s1, rest_e, rest_i).1;
    assert(acts == seq![a1] + rest);
    assert(acts.drop_first() =~= rest);
    assert(acts[0] == a1);
    if rest_e.len() == 0 {
        assert(rest.len() == 0);
        assert(acts.last() == a1);
        if a1 is Respond {
            assert(s is Between);
            reveal_with_fuel(last_scheduled, 2);
            assert(last_scheduled(acts, kept_record(s)) == kept_record(s));
        }
    } else {
        lemma_run_answer(s1, rest_e, rest_i);
        assert(acts.last() == rest.last());
        if acts.last() is Respond {
            let file = acts.last()->Respond_file;
            // the request is still open after the first step
            assert(run_accepted(s1, rest_e, rest_i));
            assert(upload_accepts(s1, rest_e[0]));
            assert(!upload_finished(s1));
            if let UploadActionView::Schedule { file: g } = a1 {
                assert(s1 == UploadStateView::Between { last: g });
                assert forall|x: FileDataView| #[trigger] last_scheduled(acts, x)
                    == last_scheduled(rest, g) by {}
                assert(file == last_scheduled(rest, g));
            } else {
                assert forall|x: FileDataView| #[trigger] last_scheduled(acts, x)
                    == last_scheduled(rest, x) by {}
                if s is Collecting {
                    assert(s1 == UploadStateView::Between { last: blank_file_data() });
                } else if s is Between {
                    assert(part_in_progress(s1));
                    assert(file == last_scheduled(rest, kept_record(s)));
                } else if part_in_progress(s) {
                    assert(part_in_progress(s1));
                }
            }
        }
    }
}

/// The answer to an upload request reports the record of the last part that
/// was stored and handed to the conversion queue, or a blank record when
/// the form had no parts.
pub proof fn lemma_upload_answers_last_record(events: Seq<UploadEventView>, ids: Seq<Seq<char>>)
    requires
        events.len() > 0,
        ids.len() == events.len(),
        run_accepted(UploadStateView::Collecting, events, ids),
    ensures
        ({
            let acts = upload_run(UploadStateView::Collecting, events, ids).1;
            acts.last() matches UploadActionView::Respond { file } ==> file == last_scheduled(
                acts,
                blank_file_data(),
            )
        }),
{
    lemma_run_answer(UploadStateView::Collecting, events, ids);
}

} // verus!
