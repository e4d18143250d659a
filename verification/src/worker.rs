use vstd::prelude::*;
use vstd::string::StringExecFns;
use vstd::utf8::{decode_utf8, valid_utf8};
use crate::obj::{FileData, FileDataView};
use crate::text::utf8_text;
use crate::upload::{
    upload_step, ProcessOutcome, ProcessOutcomeView, UploadEventView, UploadJobView,
    UploadStateView,
};

verus! {

// ---------------------------------------------------------------------------
// The conversion worker
// ---------------------------------------------------------------------------

/// Where the conversion of the upload with this id is written.
pub open spec fn conversion_path(id: Seq<char>) -> Seq<char> {
    "./output/"@ + id + "."@ + "webm"@
}

/// The path the conversion of an upload is written to.
pub fn conversion_output_path(id: &str) -> (r: String)
    ensures
        r@ == conversion_path(id@),
{
    let mut p = String::from_str("./output/");
    p.append(id);
    p.append(".");
    p.append("webm");
    p
}

/// What the worker is doing.
pub enum WorkerPhase {
    /// Waiting for the next scheduled upload.
    Idle,
    /// Converting an upload into the file at `output`.
    Converting { output: String },
    /// The worker gave up; it takes no more work.
    Stopped,
}

pub enum WorkerPhaseView {
    Idle,
    Converting { output: Seq<char> },
    Stopped,
}

impl View for WorkerPhase {
    type V = WorkerPhaseView;

    open spec fn view(&self) -> WorkerPhaseView {
        match self {
            WorkerPhase::Idle => WorkerPhaseView::Idle,
            WorkerPhase::Converting { output } => WorkerPhaseView::Converting { output: output@ },
            WorkerPhase::Stopped => WorkerPhaseView::Stopped,
        }
    }
}

/// The conversion worker: the status it publishes and what it is doing.
pub struct Worker {
    /// The text published to the status route: "init" before any work, the
    /// id of the upload being converted, or "NULL" once a conversion ended.
    pub status: String,
    pub phase: WorkerPhase,
}

pub struct WorkerView {
    pub status: Seq<char>,
    pub phase: WorkerPhaseView,
}

impl View for Worker {
    type V = WorkerView;

    open spec fn view(&self) -> WorkerView {
        WorkerView { status: self.status@, phase: self.phase@ }
    }
}

/// What happened since the worker's last action.
pub enum WorkerEvent {
    /// A scheduled upload arrived from the queue.
    Received { file: FileData },
    /// `ffmpeg` was run for the current upload.
    Converted { outcome: ProcessOutcome },
}

pub enum WorkerEventView {
    Received { file: FileDataView },
    Converted { outcome: ProcessOutcomeView },
}

impl View for WorkerEvent {
    type V = WorkerEventView;

    open spec fn view(&self) -> WorkerEventView {
        match self {
            WorkerEvent::Received { file } => WorkerEventView::Received { file: file@ },
            WorkerEvent::Converted { outcome } => WorkerEventView::Converted { outcome: outcome@ },
        }
    }
}

/// The work the worker loop must do next.
pub enum WorkerAction {
    /// Publish `status`, then run `ffmpeg -i input output`.
    Convert { status: String, input: String, output: String },
    /// `ffmpeg` could not be started: log it and wait for the next upload.
    Skip,
    /// Report the program's output text, then publish `status`.
    Report { output: String, text: String, status: String },
    /// Stop the worker: the program's output was not UTF-8 text.
    Abort,
}

pub enum WorkerActionView {
    Convert { status: Seq<char>, input: Seq<char>, output: Seq<char> },
    Skip,
    Report { output: Seq<char>, text: Seq<char>, status: Seq<char> },
    Abort,
}

impl View for WorkerAction {
    type V = WorkerActionView;

    open spec fn view(&self) -> WorkerActionView {
        match self {
            WorkerAction::Convert { status, input, output } => WorkerActionView::Convert {
                status: status@,
                input: input@,
                output: output@,
            },
            WorkerAction::Skip => WorkerActionView::Skip,
            WorkerAction::Report { output, text, status } => WorkerActionView::Report {
                output: output@,
                text: text@,
                status: status@,
            },
            WorkerAction::Abort => WorkerActionView::Abort,
        }
    }
}

/// The status the worker starts with.
pub open spec fn initial_status() -> Seq<char> {
    "init"@
}

/// The status the worker publishes once a conversion has ended.
pub open spec fn finished_status() -> Seq<char> {
    "NULL"@
}

/// Whether an event is the answer to what the worker last asked for.
pub open spec fn worker_accepts(w: WorkerView, e: WorkerEventView) -> bool {
    match w.phase {
        WorkerPhaseView::Idle => e is Received,
        WorkerPhaseView::Converting { .. } => e is Converted,
        WorkerPhaseView::Stopped => false,
    }
}

/// One step of the worker.
pub open spec fn worker_step(w: WorkerView, e: WorkerEventView) -> (WorkerView, WorkerActionView) {
    match (w.phase, e) {
        (WorkerPhaseView::Idle, WorkerEventView::Received { file }) => (
            WorkerView {
                status: file.uuid,
                phase: WorkerPhaseView::Converting { output: conversion_path(file.uuid) },
            },
            WorkerActionView::Convert {
                status: file.uuid,
                input: file.file_path,
                output: conversion_path(file.uuid),
            },
        ),
        (WorkerPhaseView::Converting { output }, WorkerEventView::Converted { outcome }) => match outcome {
            ProcessOutcomeView::SpawnFailed => (
                WorkerView { status: w.status, phase: WorkerPhaseView::Idle },
                WorkerActionView::Skip,
            ),
            ProcessOutcomeView::Exited { success, stdout, stderr } => {
                let text = if success {
                    stdout
                } else {
                    stderr
                };
                if valid_utf8(text) {
                    (
                        WorkerView { status: finished_status(), phase: WorkerPhaseView::Idle },
                        WorkerActionView::Report {
                            output,
                            text: decode_utf8(text),
                            status: finished_status(),
                        },
                    )
                } else {
                    (
                        WorkerView { status: w.status, phase: WorkerPhaseView::Stopped },
                        WorkerActionView::Abort,
                    )
                }
            },
        },
        _ => (w, WorkerActionView::Abort),
    }
}

impl Worker {
    /// The model of a worker waiting for its first upload.
    pub open spec fn initial_view() -> WorkerView {
        WorkerView { status: initial_status(), phase: WorkerPhaseView::Idle }
    }

    /// A worker waiting for its first upload.
    pub fn new() -> (r: Self)
        ensures
            r@ == (WorkerView { status: initial_status(), phase: WorkerPhaseView::Idle }),
    {
        Worker { status: String::from_str("init"), phase: WorkerPhase::Idle }
    }

    /// Whether `event` is the answer to what the worker last asked for.
    pub fn accepts(&self, event: &WorkerEvent) -> (r: bool)
        ensures
            r == worker_accepts(self@, event@),
    {
        match self.phase {
            WorkerPhase::Idle => matches!(event, WorkerEvent::Received { .. }),
            WorkerPhase::Converting { .. } => matches!(event, WorkerEvent::Converted { .. }),
            WorkerPhase::Stopped => false,
        }
    }

    /// One step of the worker.
    pub fn step(&mut self, event: WorkerEvent) -> (r: WorkerAction)
        requires
            worker_accepts(old(self)@, event@),
        ensures
            (final(self)@, r@) == worker_step(old(self)@, event@),
    {
        match event {
            WorkerEvent::Received { file } => {
                let output = conversion_output_path(file.uuid.as_str());
                self.status = file.uuid.clone();
                self.phase = WorkerPhase::Converting { output: output.clone() };
                WorkerAction::Convert { status: file.uuid, input: file.filePath, output }
            },
            WorkerEvent::Converted { outcome } => {
                let output = match &self.phase {
                    WorkerPhase::Converting { output } => output.clone(),
                    _ => vstd::pervasive::unreached(),
                };
                match outcome {
                    ProcessOutcome::SpawnFailed => {
                        self.phase = WorkerPhase::Idle;
                        WorkerAction::Skip
                    },
                    ProcessOutcome::Exited { success, stdout, stderr } => {
                        let bytes = if success {
                            stdout
                        } else {
                            stderr
                        };
                        match utf8_text(bytes.as_slice()) {
                            Some(text) => {
                                self.status = String::from_str("NULL");
                                self.phase = WorkerPhase::Idle;
                                WorkerAction::Report {
                                    output,
                                    text,
                                    status: String::from_str("NULL"),
                                }
                            },
                            None => {
                                self.phase = WorkerPhase::Stopped;
                                WorkerAction::Abort
                            },
                        }
                    },
                }
            },
        }
    }
}

/// A received record is converted from the file it names: the worker
/// publishes the record's id, runs ffmpeg on the record's file path, and
/// writes `./output/<id>.webm`.
pub proof fn lemma_worker_converts_received_file(w: WorkerView, file: FileDataView)
    requires
        w.phase is Idle,
    ensures
        worker_step(w, WorkerEventView::Received { file }) == (
            WorkerView {
                status: file.uuid,
                phase: WorkerPhaseView::Converting { output: "./output/"@ + file.uuid + "."@ + "webm"@ },
            },
            WorkerActionView::Convert {
                status: file.uuid,
                input: file.file_path,
                output: "./output/"@ + file.uuid + "."@ + "webm"@,
            },
        ),
{
}

/// The file the worker converts is the file the upload protocol wrote: when
/// the protocol hands a record to the queue, an idle worker that receives it
/// runs ffmpeg on the path the part's body was written to, under the part's id.
pub proof fn lemma_converts_the_written_file(
    job: UploadJobView,
    e: UploadEventView,
    id: Seq<char>,
    w: WorkerView,
)
    requires
        w.phase is Idle,
        upload_step(UploadStateView::Hashing { job }, e, id).1 is Schedule,
    ensures
        ({
            let file = upload_step(UploadStateView::Hashing { job }, e, id).1->Schedule_file;
            worker_step(w, WorkerEventView::Received { file }).1 == WorkerActionView::Convert {
                status: job.id,
                input: job.path,
                output: "./output/"@ + job.id + "."@ + "webm"@,
            }
        }),
{
}

/// The worker starts by publishing "init". When ffmpeg has run, it reports
/// the text of ffmpeg's standard output on success and of its error output
/// on failure, and publishes "NULL"; output that is not UTF-8 stops it with
/// its status unchanged; a ffmpeg that cannot be started leaves the status
/// and lets the worker wait for the next upload.
pub proof fn lemma_worker_conversion_end(w: WorkerView, outcome: ProcessOutcomeView)
    requires
        w.phase is Converting,
    ensures
        Worker::initial_view().status == "init"@,
        outcome matches ProcessOutcomeView::Exited { success, stdout, stderr } ==> {
            let text = if success { stdout } else { stderr };
            &&& valid_utf8(text) ==> worker_step(w, WorkerEventView::Converted { outcome }) == (
                WorkerView { status: "NULL"@, phase: WorkerPhaseView::Idle },
                WorkerActionView::Report {
                    output: w.phase->output,
                    text: decode_utf8(text),
                    status: "NULL"@,
                },
            )
            &&& !valid_utf8(text) ==> worker_step(w, WorkerEventView::Converted { outcome }) == (
                WorkerView { status: w.status, phase: WorkerPhaseView::Stopped },
                WorkerActionView::Abort,
            )
        },
        outcome is SpawnFailed ==> worker_step(w, WorkerEventView::Converted { outcome }) == (
            WorkerView { status: w.status, phase: WorkerPhaseView::Idle },
            WorkerActionView::Skip,
        ),
{
}

/// The conversion of an upload is written where the download route serves
/// it: `./output/<id>.webm` is the download path of `<id>.webm`.
pub proof fn lemma_conversion_is_downloadable(id: Seq<char>)
    ensures
        conversion_path(id) == "./output/"@ + id + "."@ + "webm"@,
        conversion_path(id) == crate::handler::output_path(id + "."@ + "webm"@),
{
    assert(("./output/"@ + id + "."@ + "webm"@) =~= ("./output/"@ + (id + "."@ + "webm"@)));
}

/// What holds of every state the worker reaches: while it converts, the
/// published status is the id of the upload being converted, and the output
/// is written where that id's conversion belongs.
pub open spec fn worker_inv(w: WorkerView) -> bool {
    w.phase matches WorkerPhaseView::Converting { output } ==> output == conversion_path(w.status)
}

/// The worker begins in a state that satisfies its invariant.
pub proof fn lemma_worker_initial_inv()
    ensures
        worker_inv(WorkerView { status: initial_status(), phase: WorkerPhaseView::Idle }),
{
}

/// Every step of the worker keeps its invariant.
pub proof fn lemma_worker_step_keeps_inv(w: WorkerView, e: WorkerEventView)
    requires
        worker_inv(w),
        worker_accepts(w, e),
    ensures
        worker_inv(worker_step(w, e).0),
{
}

/// Once the worker has given up it takes no more work, and giving up is the
/// only way it stops.
pub proof fn lemma_worker_stop_is_final(w: WorkerView, e: WorkerEventView, next: WorkerEventView)
    requires
        worker_accepts(w, e),
    ensures
        (worker_step(w, e).1 is Abort) <==> (worker_step(w, e).0.phase is Stopped),
        worker_step(w, e).0.phase is Stopped ==> !worker_accepts(worker_step(w, e).0, next),
{
}

/// A conversion that ran to its end, with readable output, resets the
/// published status to "NULL"; one that could not be started leaves the
/// upload's id published.
pub proof fn lemma_worker_status_after_conversion(w: WorkerView, e: WorkerEventView)
    requires
        worker_accepts(w, e),
        w.phase is Converting,
    ensures
        worker_step(w, e).1 is Report ==> worker_step(w, e).0.status == finished_status(),
        worker_step(w, e).1 is Skip ==> worker_step(w, e).0.status == w.status,
        !(worker_step(w, e).1 is Convert),
{
}

// ---------------------------------------------------------------------------
// The status route
// ---------------------------------------------------------------------------

/// The debug rendering of a text (`format!("{:?}", s)` on a `str`).
pub uninterp spec fn str_debug(s: Seq<char>) -> Seq<char>;

/// Whether every character is printable ASCII that debug rendering leaves as
/// it is: 0x20 to 0x7e, other than a quote, an apostrophe or a backslash.
pub open spec fn plain_ascii(s: Seq<char>) -> bool {
    forall|i: int|
        0 <= i < s.len() ==> {
            let c = #[trigger] s[i] as u32;
            0x20 <= c <= 0x7e && c != 0x22 && c != 0x27 && c != 0x5c
        }
}

/// Renders a text as `Debug` does.
///
/// Wraps `format!("{:?}", s)`. The contract names the result (it is a
/// function of the text alone) and states the one case the standard
/// library documents plainly: printable ASCII other than quote, apostrophe
/// and backslash is not escaped, so such a text comes back between double
/// quotes as it is.
#[verifier::external_body]
fn debug_text(s: &str) -> (r: String)
    ensures
        r@ == str_debug(s@),
        plain_ascii(s@) ==> r@ == seq!['"'] + s@ + seq!['"'],
{
    format!("{:?}", s)
}

/// The text of the status route for a published worker status.
pub open spec fn status_line(status: Seq<char>) -> Seq<char> {
    "This process is in exec: "@ + str_debug(status)
}

/// The body of the status route.
pub fn status_message(status: &str) -> (r: String)
    ensures
        r@ == status_line(status@),
        plain_ascii(status@) ==> r@ == "This process is in exec: "@ + seq!['"'] + status@ + seq!['"'],
{
    let d = debug_text(status);
    let mut m = String::from_str("This process is in exec: ");
    m.append(d.as_str());
    m
}

} // verus!
