//! The simpler service variant: it accepts MP4 uploads (declared as MP4 or as
//! raw bytes), records only where each upload is stored, and converts each
//! into an output named by a fresh id.
use vstd::prelude::*;
use vstd::string::StringExecFns;
use crate::text::same_text;
use crate::upload::{
    new_upload_id, opt_text, stored_file_path, stored_path, uuid_shape, ProcessOutcome,
    ProcessOutcomeView, UploadEvent, UploadEventView,
};
use crate::worker::{conversion_output_path, conversion_path, finished_status, initial_status};

verus! {

/// Processing stage of an upload in the simpler variant.
#[allow(non_camel_case_types)]
#[derive(Clone, Copy, Debug, PartialEq, Eq, Structural)]
pub enum Status {
    DONE,
    FAILED,
}

/// What the simpler variant records about an upload.
#[allow(non_snake_case)]
#[derive(Debug, Clone)]
pub struct FileData {
    pub filePath: String,
    pub uuid: String,
    pub file_type: String,
    pub status: Status,
    pub hash: String,
}

/// Mathematical model of [`FileData`].
pub struct FileDataView {
    pub file_path: Seq<char>,
    pub uuid: Seq<char>,
    pub file_type: Seq<char>,
    pub status: Status,
    pub hash: Seq<char>,
}

impl View for FileData {
    type V = FileDataView;

    open spec fn view(&self) -> FileDataView {
        FileDataView {
            file_path: self.filePath@,
            uuid: self.uuid@,
            file_type: self.file_type@,
            status: self.status,
            hash: self.hash@,
        }
    }
}

/// A record with every text field "nil" and the status done.
pub open spec fn blank_record() -> FileDataView {
    FileDataView {
        file_path: "nil"@,
        uuid: "nil"@,
        file_type: "nil"@,
        status: Status::DONE,
        hash: "nil"@,
    }
}

/// A blank record whose file path is `path`.
pub open spec fn stored_record(path: Seq<char>) -> FileDataView {
    FileDataView { file_path: path, ..blank_record() }
}

impl FileData {
    pub fn new() -> (r: Self)
        ensures
            r@ == blank_record(),
    {
        FileData {
            filePath: String::from_str("nil"),
            uuid: String::from_str("nil"),
            file_type: String::from_str("nil"),
            hash: String::from_str("nil"),
            status: Status::DONE,
        }
    }

    /// The record of an upload stored at `path`.
    pub fn stored_at(path: String) -> (r: Self)
        ensures
            r@ == stored_record(path@),
    {
        let mut file_data = FileData::new();
        file_data.filePath = path;
        file_data
    }

}

/// A fresh record of the simpler variant reads "nil" in every text field and
/// is done; the record of a stored upload differs from it only in its path.
pub proof fn lemma_basic_records(path: Seq<char>)
    ensures
        blank_record().file_path == "nil"@ && blank_record().uuid == "nil"@
            && blank_record().file_type == "nil"@ && blank_record().hash == "nil"@,
        blank_record().status == Status::DONE,
        stored_record(path).file_path == path,
        stored_record(path).uuid == "nil"@ && stored_record(path).file_type == "nil"@
            && stored_record(path).hash == "nil"@ && stored_record(path).status == Status::DONE,
{
}

/// The extension the simpler variant stores a part with: MP4 for parts
/// declared as MP4 or as raw bytes, none for anything else.
pub open spec fn basic_ending(ct: Option<Seq<char>>) -> Option<Seq<char>> {
    match ct {
        Some(c) => if c == "application/octet-stream"@ || c == "video/mp4"@ {
            Some("mp4"@)
        } else {
            None
        },
        None => None,
    }
}

/// The extension a part is stored with, or `None` when it must be refused.
pub fn basic_file_ending(content_type: Option<&str>) -> (r: Option<&'static str>)
    ensures
        opt_text(r) == basic_ending(opt_text(content_type)),
{
    match content_type {
        None => None,
        Some(ct) => if same_text(ct, "application/octet-stream") || same_text(ct, "video/mp4") {
            Some("mp4")
        } else {
            None
        },
    }
}

// ---------------------------------------------------------------------------
// The upload protocol of the simpler variant
// ---------------------------------------------------------------------------

/// Where the handling of one upload request stands.
pub enum BasicState {
    Collecting,
    Between,
    Reading { path: String },
    Writing { path: String },
    Responded,
    Rejected,
}

pub enum BasicStateView {
    Collecting,
    Between,
    Reading { path: Seq<char> },
    Writing { path: Seq<char> },
    Responded,
    Rejected,
}

impl View for BasicState {
    type V = BasicStateView;

    open spec fn view(&self) -> BasicStateView {
        match self {
            BasicState::Collecting => BasicStateView::Collecting,
            BasicState::Between => BasicStateView::Between,
            BasicState::Reading { path } => BasicStateView::Reading { path: path@ },
            BasicState::Writing { path } => BasicStateView::Writing { path: path@ },
            BasicState::Responded => BasicStateView::Responded,
            BasicState::Rejected => BasicStateView::Rejected,
        }
    }
}

/// The work the request handler must do next.
pub enum BasicAction {
    /// Take the next part of the form, or report that there is none.
    NextPart,
    /// Read the current part's body.
    ReadBody,
    /// Write the body to the given path.
    WriteFile { path: String, data: Vec<u8> },
    /// Hand the record to the conversion queue, then take the next part.
    Schedule { file: FileData },
    /// Answer the request with the text "ok".
    RespondOk,
    /// Refuse the request.
    Reject,
}

pub enum BasicActionView {
    NextPart,
    ReadBody,
    WriteFile { path: Seq<char>, data: Seq<u8> },
    Schedule { file: FileDataView },
    RespondOk,
    Reject,
}

impl View for BasicAction {
    type V = BasicActionView;

    open spec fn view(&self) -> BasicActionView {
        match self {
            BasicAction::NextPart => BasicActionView::NextPart,
            BasicAction::ReadBody => BasicActionView::ReadBody,
            BasicAction::WriteFile { path, data } => BasicActionView::WriteFile {
                path: path@,
                data: data@,
            },
            BasicAction::Schedule { file } => BasicActionView::Schedule { file: file@ },
            BasicAction::RespondOk => BasicActionView::RespondOk,
            BasicAction::Reject => BasicActionView::Reject,
        }
    }
}

/// Whether an event is the answer to the action that led to this state.
pub open spec fn basic_accepts(s: BasicStateView, e: UploadEventView) -> bool {
    match s {
        BasicStateView::Collecting => e is FormCollected,
        BasicStateView::Between => e is Part || e is PartsExhausted,
        BasicStateView::Reading { .. } => e is BodyRead,
        BasicStateView::Writing { .. } => e is FileWritten,
        _ => false,
    }
}

/// One step of the simpler upload protocol, with `id` as the id a new part
/// receives.
pub open spec fn basic_step(s: BasicStateView, e: UploadEventView, id: Seq<char>) -> (
    BasicStateView,
    BasicActionView,
) {
    match (s, e) {
        (BasicStateView::Collecting, UploadEventView::FormCollected { ok }) => if ok {
            (BasicStateView::Between, BasicActionView::NextPart)
        } else {
            (BasicStateView::Rejected, BasicActionView::Reject)
        },
        (BasicStateView::Between, UploadEventView::Part { content_type, .. }) => match basic_ending(
            content_type,
        ) {
            None => (BasicStateView::Rejected, BasicActionView::Reject),
            Some(ending) => (
                BasicStateView::Reading { path: stored_path(id, ending) },
                BasicActionView::ReadBody,
            ),
        },
        (BasicStateView::Between, UploadEventView::PartsExhausted) => (
            BasicStateView::Responded,
            BasicActionView::RespondOk,
        ),
        (BasicStateView::Reading { path }, UploadEventView::BodyRead { data }) => match data {
            None => (BasicStateView::Rejected, BasicActionView::Reject),
            Some(d) => (
                BasicStateView::Writing { path },
                BasicActionView::WriteFile { path, data: d },
            ),
        },
        (BasicStateView::Writing { path }, UploadEventView::FileWritten { ok }) => if ok {
            (BasicStateView::Between, BasicActionView::Schedule { file: stored_record(path) })
        } else {
            (BasicStateView::Rejected, BasicActionView::Reject)
        },
        _ => (s, BasicActionView::Reject),
    }
}

/// What holds in every state the simpler protocol reaches: a part in
/// progress is stored as an MP4 file named by an id.
pub open spec fn basic_inv(s: BasicStateView) -> bool {
    match s {
        BasicStateView::Reading { path } => exists|u: Seq<char>| path == #[trigger] stored_path(u, "mp4"@),
        BasicStateView::Writing { path } => exists|u: Seq<char>| path == #[trigger] stored_path(u, "mp4"@),
        _ => true,
    }
}

/// Every step of the simpler protocol keeps its invariant; every file it
/// writes, and every record it hands to the conversion queue, is an MP4 file
/// named by an id; and the record names the file that was written.
pub proof fn lemma_basic_step(s: BasicStateView, e: UploadEventView, id: Seq<char>)
    requires
        basic_inv(s),
        basic_accepts(s, e),
    ensures
        basic_inv(basic_step(s, e, id).0),
        basic_step(s, e, id).1 matches BasicActionView::WriteFile { path, .. } ==> exists|u: Seq<char>|
            path == #[trigger] stored_path(u, "mp4"@),
        basic_step(s, e, id).1 matches BasicActionView::Schedule { file } ==> {
            &&& s matches BasicStateView::Writing { path } && file == stored_record(path)
            &&& exists|u: Seq<char>| file.file_path == #[trigger] stored_path(u, "mp4"@)
        },
{
    if let (BasicStateView::Between, UploadEventView::Part { content_type, .. }) = (s, e) {
        if basic_ending(content_type) is Some {
            assert(stored_path(id, "mp4"@) == stored_path(id, "mp4"@));
        }
    }
}

/// The simpler variant accepts a part exactly when it is declared as
/// `application/octet-stream` or `video/mp4`, and stores it as MP4.
pub proof fn lemma_basic_accepted_types(ct: Option<Seq<char>>)
    ensures
        basic_ending(ct) is Some <==> (ct == Some("application/octet-stream"@) || ct == Some(
            "video/mp4"@,
        )),
        basic_ending(ct) is Some ==> basic_ending(ct) == Some("mp4"@),
{
}

/// An accepted part is written at `./files/<id>.mp4` with the body read; a
/// body that cannot be read or written refuses the request; and a record is
/// queued only after the body was written, as the record of that file.
pub proof fn lemma_basic_store_and_refuse(s: BasicStateView, e: UploadEventView, id: Seq<char>)
    requires
        basic_accepts(s, e),
    ensures
        s is Between ==> (e matches UploadEventView::Part { content_type, .. } ==> (basic_ending(
            content_type,
        ) is Some ==> basic_step(s, e, id) == (
            BasicStateView::Reading { path: "./files/"@ + id + "."@ + "mp4"@ },
            BasicActionView::ReadBody,
        ))),
        e == (UploadEventView::BodyRead { data: None }) ==> basic_step(s, e, id) == (
            BasicStateView::Rejected,
            BasicActionView::Reject,
        ),
        e == (UploadEventView::FileWritten { ok: false }) ==> basic_step(s, e, id) == (
            BasicStateView::Rejected,
            BasicActionView::Reject,
        ),
        basic_step(s, e, id).1 matches BasicActionView::Schedule { file } ==> {
            &&& e == (UploadEventView::FileWritten { ok: true })
            &&& s matches BasicStateView::Writing { path } && file.file_path == path
            &&& file.uuid == "nil"@
        },
        basic_step(s, e, id).1 matches BasicActionView::WriteFile { path, data } ==> {
            &&& s matches BasicStateView::Reading { path: p } && path == p
            &&& e == (UploadEventView::BodyRead { data: Some(data) })
        },
{
}

impl BasicState {
    /// The state in which the handling of an upload request begins.
    pub fn new() -> (r: Self)
        ensures
            r@ == BasicStateView::Collecting,
    {
        BasicState::Collecting
    }

    /// Whether `event` is the answer to the action that led to this state.
    pub fn accepts(&self, event: &UploadEvent) -> (r: bool)
        ensures
            r == basic_accepts(self@, event@),
    {
        match self {
            BasicState::Collecting => matches!(event, UploadEvent::FormCollected { .. }),
            BasicState::Between => matches!(event, UploadEvent::Part { .. })
                || matches!(event, UploadEvent::PartsExhausted),
            BasicState::Reading { .. } => matches!(event, UploadEvent::BodyRead { .. }),
            BasicState::Writing { .. } => matches!(event, UploadEvent::FileWritten { .. }),
            _ => false,
        }
    }

    /// One step of the simpler upload protocol, with `id` as the id that a
    /// new part receives.
    pub fn advance(self, event: UploadEvent, id: &str) -> (r: (BasicState, BasicAction))
        requires
            basic_accepts(self@, event@),
        ensures
            (r.0@, r.1@) == basic_step(self@, event@, id@),
    {
        match self {
            BasicState::Collecting => match event {
                UploadEvent::FormCollected { ok } => if ok {
                    (BasicState::Between, BasicAction::NextPart)
                } else {
                    (BasicState::Rejected, BasicAction::Reject)
                },
                _ => vstd::pervasive::unreached(),
            },
            BasicState::Between => match event {
                UploadEvent::Part { content_type, .. } => {
                    let ending = match &content_type {
                        Some(ct) => basic_file_ending(Some(ct.as_str())),
                        None => basic_file_ending(None),
                    };
                    match ending {
                        None => (BasicState::Rejected, BasicAction::Reject),
                        Some(ending) => {
                            let path = stored_file_path(id, ending);
                            (BasicState::Reading { path }, BasicAction::ReadBody)
                        },
                    }
                },
                UploadEvent::PartsExhausted => (BasicState::Responded, BasicAction::RespondOk),
                _ => vstd::pervasive::unreached(),
            },
            BasicState::Reading { path } => match event {
                UploadEvent::BodyRead { data } => match data {
                    None => (BasicState::Rejected, BasicAction::Reject),
                    Some(d) => {
                        let target = path.clone();
                        (BasicState::Writing { path }, BasicAction::WriteFile { path: target, data: d })
                    },
                },
                _ => vstd::pervasive::unreached(),
            },
            BasicState::Writing { path } => match event {
                UploadEvent::FileWritten { ok } => if ok {
                    (BasicState::Between, BasicAction::Schedule { file: FileData::stored_at(path) })
                } else {
                    (BasicState::Rejected, BasicAction::Reject)
                },
                _ => vstd::pervasive::unreached(),
            },
            _ => vstd::pervasive::unreached(),
        }
    }

    /// One step of the simpler upload protocol; a new part receives a fresh
    /// random id.
    pub fn step(self, event: UploadEvent) -> (r: (BasicState, BasicAction))
        requires
            basic_accepts(self@, event@),
        ensures
            !(event@ is Part) ==> (r.0@, r.1@) == basic_step(self@, event@, Seq::empty()),
            event@ is Part ==> exists|id: Seq<char>|
                #[trigger] uuid_shape(id) && (r.0@, r.1@) == basic_step(self@, event@, id),
    {
        if matches!(event, UploadEvent::Part { .. }) {
            let id = new_upload_id();
            let r = self.advance(event, id.as_str());
            assert(uuid_shape(id@));
            r
        } else {
            self.advance(event, "")
        }
    }
}

// ---------------------------------------------------------------------------
// The conversion worker of the simpler variant
// ---------------------------------------------------------------------------

/// What the simpler worker is doing.
pub enum BasicWorkerPhase {
    Idle,
    Converting,
    Stopped,
}

/// The simpler conversion worker: the status it publishes and its phase.
pub struct BasicWorker {
    /// "init" before any work, the output path of the conversion under way,
    /// or "NULL" once a conversion ended.
    pub status: String,
    pub phase: BasicWorkerPhase,
}

pub struct BasicWorkerView {
    pub status: Seq<char>,
    pub phase: BasicWorkerPhase,
}

impl View for BasicWorker {
    type V = BasicWorkerView;

    open spec fn view(&self) -> BasicWorkerView {
        BasicWorkerView { status: self.status@, phase: self.phase }
    }
}

/// What happened since the simpler worker's last action.
pub enum BasicWorkerEvent {
    /// A stored upload arrived from the queue.
    Received { file: FileData },
    /// `ffmpeg` was run for the current upload.
    Converted { outcome: ProcessOutcome },
}

pub enum BasicWorkerEventView {
    Received { file: FileDataView },
    Converted { outcome: ProcessOutcomeView },
}

impl View for BasicWorkerEvent {
    type V = BasicWorkerEventView;

    open spec fn view(&self) -> BasicWorkerEventView {
        match self {
            BasicWorkerEvent::Received { file } => BasicWorkerEventView::Received { file: file@ },
            BasicWorkerEvent::Converted { outcome } => BasicWorkerEventView::Converted {
                outcome: outcome@,
            },
        }
    }
}

/// The work the simpler worker loop must do next.
pub enum BasicWorkerAction {
    /// Publish `status`, then run `ffmpeg -i input output`.
    Convert { status: String, input: String, output: String },
    /// Print the program's standard output, then publish `status`.
    Report { stdout: Vec<u8>, status: String },
    /// Stop the worker: `ffmpeg` could not be started.
    Abort,
}

pub enum BasicWorkerActionView {
    Convert { status: Seq<char>, input: Seq<char>, output: Seq<char> },
    Report { stdout: Seq<u8>, status: Seq<char> },
    Abort,
}

impl View for BasicWorkerAction {
    type V = BasicWorkerActionView;

    open spec fn view(&self) -> BasicWorkerActionView {
        match self {
            BasicWorkerAction::Convert { status, input, output } => BasicWorkerActionView::Convert {
                status: status@,
                input: input@,
                output: output@,
            },
            BasicWorkerAction::Report { stdout, status } => BasicWorkerActionView::Report {
                stdout: stdout@,
                status: status@,
            },
            BasicWorkerAction::Abort => BasicWorkerActionView::Abort,
        }
    }
}

/// Whether an event is the answer to what the simpler worker last asked for.
pub open spec fn basic_worker_accepts(w: BasicWorkerView, e: BasicWorkerEventView) -> bool {
    match w.phase {
        BasicWorkerPhase::Idle => e is Received,
        BasicWorkerPhase::Converting => e is Converted,
        BasicWorkerPhase::Stopped => false,
    }
}

/// One step of the simpler worker, with `id` naming the output of a new
/// conversion.
pub open spec fn basic_worker_step(w: BasicWorkerView, e: BasicWorkerEventView, id: Seq<char>) -> (
    BasicWorkerView,
    BasicWorkerActionView,
) {
    match (w.phase, e) {
        (BasicWorkerPhase::Idle, BasicWorkerEventView::Received { file }) => (
            BasicWorkerView { status: conversion_path(id), phase: BasicWorkerPhase::Converting },
            BasicWorkerActionView::Convert {
                status: conversion_path(id),
                input: file.file_path,
                output: conversion_path(id),
            },
        ),
        (BasicWorkerPhase::Converting, BasicWorkerEventView::Converted { outcome }) => match outcome {
            ProcessOutcomeView::SpawnFailed => (
                BasicWorkerView { status: w.status, phase: BasicWorkerPhase::Stopped },
                BasicWorkerActionView::Abort,
            ),
            ProcessOutcomeView::Exited { stdout, .. } => (
                BasicWorkerView { status: finished_status(), phase: BasicWorkerPhase::Idle },
                BasicWorkerActionView::Report { stdout, status: finished_status() },
            ),
        },
        _ => (w, BasicWorkerActionView::Abort),
    }
}

/// While the simpler worker converts, it publishes the output path of the
/// conversion; once a conversion has run it publishes "NULL"; when ffmpeg
/// cannot be started it stops for good.
pub proof fn lemma_basic_worker_step(w: BasicWorkerView, e: BasicWorkerEventView, id: Seq<char>, next: BasicWorkerEventView)
    requires
        basic_worker_accepts(w, e),
    ensures
        basic_worker_step(w, e, id).0.phase is Converting ==> basic_worker_step(w, e, id).0.status
            == conversion_path(id),
        basic_worker_step(w, e, id).1 is Report ==> basic_worker_step(w, e, id).0.status
            == finished_status(),
        basic_worker_step(w, e, id).1 is Abort <==> basic_worker_step(w, e, id).0.phase is Stopped,
        basic_worker_step(w, e, id).0.phase is Stopped ==> !basic_worker_accepts(
            basic_worker_step(w, e, id).0,
            next,
        ),
{
}

/// The simpler worker names each conversion `./output/<id>.webm`, publishes
/// that path while it converts and "NULL" once ffmpeg has run, reports
/// ffmpeg's standard output as it is, and stops when ffmpeg cannot start.
pub proof fn lemma_basic_worker_actions(w: BasicWorkerView, file: FileDataView, outcome: ProcessOutcomeView, id: Seq<char>)
    ensures
        w.phase is Idle ==> basic_worker_step(w, BasicWorkerEventView::Received { file }, id) == (
            BasicWorkerView { status: "./output/"@ + id + "."@ + "webm"@, phase: BasicWorkerPhase::Converting },
            BasicWorkerActionView::Convert {
                status: "./output/"@ + id + "."@ + "webm"@,
                input: file.file_path,
                output: "./output/"@ + id + "."@ + "webm"@,
            },
        ),
        w.phase is Converting ==> (outcome matches ProcessOutcomeView::Exited { stdout, .. }
            ==> basic_worker_step(w, BasicWorkerEventView::Converted { outcome }, id) == (
            BasicWorkerView { status: "NULL"@, phase: BasicWorkerPhase::Idle },
            BasicWorkerActionView::Report { stdout, status: "NULL"@ },
        )),
        w.phase is Converting ==> (outcome is SpawnFailed ==> basic_worker_step(
            w,
            BasicWorkerEventView::Converted { outcome },
            id,
        ) == (
            BasicWorkerView { status: w.status, phase: BasicWorkerPhase::Stopped },
            BasicWorkerActionView::Abort,
        )),
{
}

impl BasicWorker {
    /// A worker waiting for its first upload.
    pub fn new() -> (r: Self)
        ensures
            r@ == (BasicWorkerView { status: initial_status(), phase: BasicWorkerPhase::Idle }),
    {
        BasicWorker { status: String::from_str("init"), phase: BasicWorkerPhase::Idle }
    }

    /// Whether `event` is the answer to what the worker last asked for.
    pub fn accepts(&self, event: &BasicWorkerEvent) -> (r: bool)
        ensures
            r == basic_worker_accepts(self@, event@),
    {
        match self.phase {
            BasicWorkerPhase::Idle => matches!(event, BasicWorkerEvent::Received { .. }),
            BasicWorkerPhase::Converting => matches!(event, BasicWorkerEvent::Converted { .. }),
            BasicWorkerPhase::Stopped => false,
        }
    }

    /// One step of the simpler worker, with `id` naming the output of a new
    /// conversion.
    pub fn advance(&mut self, event: BasicWorkerEvent, id: &str) -> (r: BasicWorkerAction)
        requires
            basic_worker_accepts(old(self)@, event@),
        ensures
            (final(self)@, r@) == basic_worker_step(old(self)@, event@, id@),
    {
        match event {
            BasicWorkerEvent::Received { file } => {
                let output = conversion_output_path(id);
                self.status = output.clone();
                self.phase = BasicWorkerPhase::Converting;
                BasicWorkerAction::Convert { status: output.clone(), input: file.filePath, output }
            },
            BasicWorkerEvent::Converted { outcome } => match outcome {
                ProcessOutcome::SpawnFailed => {
                    self.phase = BasicWorkerPhase::Stopped;
                    BasicWorkerAction::Abort
                },
                ProcessOutcome::Exited { stdout, .. } => {
                    self.status = String::from_str("NULL");
                    self.phase = BasicWorkerPhase::Idle;
                    BasicWorkerAction::Report { stdout, status: String::from_str("NULL") }
                },
            },
        }
    }

    /// One step of the simpler worker; a new conversion is named by a fresh
    /// random id.
    pub fn step(&mut self, event: BasicWorkerEvent) -> (r: BasicWorkerAction)
        requires
            basic_worker_accepts(old(self)@, event@),
        ensures
            !(event@ is Received) ==> (final(self)@, r@) == basic_worker_step(old(self)@, event@, Seq::empty()),
            event@ is Received ==> exists|id: Seq<char>|
                #[trigger] uuid_shape(id) && (final(self)@, r@) == basic_worker_step(old(self)@, event@, id),
    {
        if matches!(event, BasicWorkerEvent::Received { .. }) {
            let id = new_upload_id();
            let r = self.advance(event, id.as_str());
            assert(uuid_shape(id@));
            r
        } else {
            self.advance(event, "")
        }
    }
}

} // verus!
