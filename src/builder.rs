use vstd::prelude::*;

use crate::command::{command_result, run_command, CommandOutput, CommandSpec, TaskError};
use crate::store::{strings_view, StoredCrate};
use crate::tasks::{doc_command, doc_output, download_url, DocTask, DownloadTask, ExpandTask};
use crate::workspace::{archive_path, temp_path, TempCrate};

verus! {

/// The observable state of one build.
#[derive(Debug)]
pub enum Status {
    Pending,
    Running,
    /// Succeeded, with the path of the placed documentation
    Succeeded(String),
    /// Failed, with what went wrong
    Failed(TaskError),
}

/// The step a build is at.
#[derive(PartialEq, Eq, Structural, Clone, Copy, Debug)]
pub enum Stage {
    NotStarted,
    Download,
    MakeDir,
    Extract,
    Document,
    MakeDest,
    Copy,
    Cleanup,
    Done,
}

/// What the build asks its runner to do next.
pub enum Action {
    /// Fetch `url` into the file `dest`.
    Download { url: String, dest: String },
    /// Run a command and report what it gave.
    Run(CommandSpec),
    /// The build has reached its terminal status.
    Finished,
}

/// Handles compiling a crate's documentation: one build attempt, driven one
/// step at a time by a runner that performs each action and reports back.
pub struct Builder {
    pub temp_crate: TempCrate,
    pub status: Status,
    /// Destination where the documentation will end up
    pub dest: StoredCrate,
    pub stage: Stage,
    /// The first failure of the pipeline, kept until cleanup has run
    pub failure: Option<TaskError>,
}

pub open spec fn is_terminal(s: Status) -> bool {
    s is Succeeded || s is Failed
}

/// The transitions a status may take in one step: none, `Pending` to
/// `Running`, or `Running` to a terminal status.
pub open spec fn status_step(a: Status, b: Status) -> bool {
    a == b || (a is Pending && b is Running) || (a is Running && is_terminal(b))
}

/// A terminal status is never left: the only step from it keeps it.
pub proof fn lemma_terminal_status_is_kept(a: Status, b: Status)
    requires
        is_terminal(a),
        status_step(a, b),
    ensures
        b == a,
{
}

/// No step skips `Running`: a pending build is never terminal one step later.
pub proof fn lemma_no_skip_of_running(a: Status, b: Status)
    requires
        a is Pending,
        status_step(a, b),
    ensures
        b is Pending || b is Running,
{
}

/// The stage after `s` when its step succeeded.
pub open spec fn next_stage(s: Stage) -> Stage {
    match s {
        Stage::NotStarted => Stage::Download,
        Stage::Download => Stage::MakeDir,
        Stage::MakeDir => Stage::Extract,
        Stage::Extract => Stage::Document,
        Stage::Document => Stage::MakeDest,
        Stage::MakeDest => Stage::Copy,
        Stage::Copy => Stage::Cleanup,
        _ => Stage::Done,
    }
}

/// A command as its program and arguments.
pub open spec fn command_view(c: CommandSpec) -> (Seq<char>, Seq<Seq<char>>) {
    (c.program@, strings_view(c.args@))
}

/// The command run at each command stage of a build of `t` into `dest`.
pub open spec fn stage_command(t: TempCrate, dest: Seq<char>, s: Stage) -> (Seq<char>, Seq<Seq<char>>) {
    match s {
        Stage::MakeDir => ("mkdir"@, seq!["-p"@, t.path@]),
        Stage::Extract => (
            "tar"@,
            seq!["xf"@, t.crate_path@, "-C"@, t.path@, "--strip-components"@, "1"@],
        ),
        Stage::Document => ("/bin/sh"@, seq!["-c"@, doc_command(t.path@)]),
        Stage::MakeDest => ("mkdir"@, seq!["-p"@, dest]),
        Stage::Copy => ("cp"@, seq!["-r"@, doc_output(t.path@) + "/"@, dest]),
        _ => ("rm"@, seq!["-rf"@, t.path@, t.crate_path@]),
    }
}

/// The action that belongs to the stage a build has reached.
pub open spec fn action_for(b: Builder, a: Action) -> bool {
    match b.stage {
        Stage::NotStarted => false,
        Stage::Download => a matches Action::Download { url, dest } && url@ == download_url(
            b.temp_crate.name@,
            b.temp_crate.version@,
        ) && dest@ == b.temp_crate.crate_path@,
        Stage::Done => a is Finished,
        _ => a matches Action::Run(c) && command_view(c) == stage_command(
            b.temp_crate,
            b.dest@,
            b.stage,
        ),
    }
}

/// The terminal status once cleanup has run.
pub open spec fn final_status(b: Builder) -> Status {
    match b.failure {
        Some(e) => Status::Failed(e),
        None => Status::Succeeded(b.dest.0),
    }
}

/// The text without leading and trailing whitespace, as std's `str::trim`
/// gives it.
pub uninterp spec fn trimmed(s: Seq<char>) -> Seq<char>;

/// Relies on std's `str::trim`: the result depends on the text alone.
#[verifier::external_body]
fn trim_text(s: &str) -> (r: String)
    ensures
        r@ == trimmed(s@),
{
    s.trim().to_owned()
}

impl Builder {
    /// Status and stage agree: not started while pending, running while
    /// a step is under way, terminal once done.
    pub open spec fn wf(&self) -> bool {
        match self.stage {
            Stage::NotStarted => self.status is Pending && self.failure is None,
            Stage::Done => is_terminal(self.status),
            Stage::Cleanup => self.status is Running,
            _ => self.status is Running && self.failure is None,
        }
    }

    pub fn new(name: &str, version: &str, dest: StoredCrate) -> (r: Builder)
        ensures
            r.wf(),
            r.status is Pending,
            r.stage == Stage::NotStarted,
            r.temp_crate.name@ == name@,
            r.temp_crate.version@ == version@,
            exists|disc: Seq<char>| r.temp_crate.path@ == temp_path(name@, version@, disc),
            r.temp_crate.crate_path@ == archive_path(r.temp_crate.path@),
            r.dest@ == dest@,
    {
        Builder {
            temp_crate: TempCrate::new(name, version),
            status: Status::Pending,
            dest,
            stage: Stage::NotStarted,
            failure: None,
        }
    }

    fn command_for(&self, stage: Stage) -> (r: CommandSpec)
        ensures
            command_view(r) == stage_command(self.temp_crate, self.dest@, stage),
    {
        let t = &self.temp_crate;
        let ghost want = stage_command(self.temp_crate, self.dest@, stage);
        match stage {
            Stage::MakeDir => {
                let r = ExpandTask::new(t).make_dir();
                assert(strings_view(r.args@) =~= want.1);
                r
            },
            Stage::Extract => {
                let r = ExpandTask::new(t).extract();
                assert(strings_view(r.args@) =~= want.1);
                r
            },
            Stage::Document => {
                let r = DocTask::new(t).command();
                assert(strings_view(r.args@) =~= want.1);
                r
            },
            Stage::MakeDest => {
                let r = CommandSpec {
                    program: String::from_str("mkdir"),
                    args: vec![String::from_str("-p"), self.dest.0.clone()],
                };
                assert(strings_view(r.args@) =~= want.1);
                r
            },
            Stage::Copy => {
                let mut from = DocTask::new(t).doc_path();
                from.append("/");
                let r = CommandSpec {
                    program: String::from_str("cp"),
                    args: vec![String::from_str("-r"), from, self.dest.0.clone()],
                };
                assert(strings_view(r.args@) =~= want.1);
                r
            },
            _ => {
                let r = t.cleanup();
                assert(strings_view(r.args@) =~= want.1);
                r
            },
        }
    }

    /// Starts the build: the status becomes `Running` and the archive is fetched.
    pub fn start(&mut self) -> (r: Action)
        requires
            old(self).wf(),
            old(self).stage == Stage::NotStarted,
        ensures
            final(self).wf(),
            final(self).status is Running,
            final(self).stage == Stage::Download,
            status_step(old(self).status, final(self).status),
            final(self).temp_crate == old(self).temp_crate,
            final(self).dest == old(self).dest,
            action_for(*final(self), r),
    {
        self.status = Status::Running;
        self.stage = Stage::Download;
        let task = DownloadTask::new(&self.temp_crate);
        Action::Download { url: task.url(), dest: task.destination() }
    }

    /// Takes the result of the fetch: on success the archive is expanded
    /// next, on failure the workspace is cleaned up.
    pub fn on_download(&mut self, result: Result<(), TaskError>) -> (r: Action)
        requires
            old(self).wf(),
            old(self).stage == Stage::Download,
        ensures
            final(self).wf(),
            final(self).status is Running,
            status_step(old(self).status, final(self).status),
            final(self).temp_crate == old(self).temp_crate,
            final(self).dest == old(self).dest,
            match result {
                Ok(_) => final(self).stage == Stage::MakeDir && final(self).failure is None,
                Err(e) => final(self).stage == Stage::Cleanup && final(self).failure == Some(e),
            },
            action_for(*final(self), r),
    {
        match result {
            Ok(_) => {
                self.stage = Stage::MakeDir;
            },
            Err(e) => {
                self.failure = Some(e);
                self.stage = Stage::Cleanup;
            },
        }
        Action::Run(self.command_for(self.stage))
    }

    /// Takes what the last command gave. A failed stage skips the rest of the
    /// pipeline and goes to cleanup; after cleanup, whose own result is
    /// ignored, the build takes its terminal status.
    pub fn on_command(&mut self, outcome: Result<CommandOutput, String>) -> (r: Action)
        requires
            old(self).wf(),
            old(self).stage != Stage::NotStarted,
            old(self).stage != Stage::Download,
            old(self).stage != Stage::Done,
        ensures
            final(self).wf(),
            status_step(old(self).status, final(self).status),
            final(self).temp_crate == old(self).temp_crate,
            final(self).dest == old(self).dest,
            old(self).stage == Stage::Cleanup ==> final(self).stage == Stage::Done
                && final(self).failure == old(self).failure
                && final(self).status == final_status(*old(self)),
            old(self).stage != Stage::Cleanup ==> match command_result(outcome) {
                Ok(_) => final(self).stage == next_stage(old(self).stage)
                    && final(self).failure == old(self).failure,
                Err(e) => final(self).stage == Stage::Cleanup && final(self).failure == Some(e),
            },
            action_for(*final(self), r),
    {
        if self.stage == Stage::Cleanup {
            self.stage = Stage::Done;
            let status = match &self.failure {
                Some(e) => Status::Failed(e.duplicate()),
                None => Status::Succeeded(self.dest.0.clone()),
            };
            self.status = status;
            return Action::Finished;
        }
        match run_command(outcome) {
            Ok(_) => {
                self.stage = match self.stage {
                    Stage::MakeDir => Stage::Extract,
                    Stage::Extract => Stage::Document,
                    Stage::Document => Stage::MakeDest,
                    Stage::MakeDest => Stage::Copy,
                    _ => Stage::Cleanup,
                };
            },
            Err(e) => {
                self.failure = Some(e);
                self.stage = Stage::Cleanup;
            },
        }
        Action::Run(self.command_for(self.stage))
    }
}

/// The record kept of a failed build: the exit code (`-1` when there is none)
/// and what the command wrote.
pub struct FailedModel {
    pub code: i32,
    pub message: String,
}

/// `{stdout}\n{stderr}`, trimmed, for a failed command; a fixed text otherwise.
pub open spec fn failure_of(e: TaskError) -> (i32, Seq<char>) {
    match e {
        TaskError::Command(code, out, err) => (
            code.unwrap_or(-1i32),
            trimmed(out@ + seq!['\n'] + err@),
        ),
        _ => (-1i32, "Unknown reason"@),
    }
}

impl View for FailedModel {
    type V = (i32, Seq<char>);

    open spec fn view(&self) -> (i32, Seq<char>) {
        (self.code, self.message@)
    }
}

impl FailedModel {
    /// A copy holding the same code and message.
    pub fn duplicate(&self) -> (r: FailedModel)
        ensures
            r == *self,
    {
        FailedModel { code: self.code, message: self.message.clone() }
    }
}

/// The failure record of a failed build.
pub fn failure_record(e: &TaskError) -> (r: FailedModel)
    ensures
        r@ == failure_of(*e),
{
    match e {
        TaskError::Command(code, out, err) => {
            let mut text = out.clone();
            text.append("\n");
            text.append(err.as_str());
            proof {
                reveal_strlit("\n");
            }
            let c = match code {
                Some(c) => *c,
                None => -1i32,
            };
            assert(c == code.unwrap_or(-1i32));
            assert(text@ == out@ + seq!['\n'] + err@);
            FailedModel { code: c, message: trim_text(text.as_str()) }
        },
        _ => FailedModel { code: -1i32, message: String::from_str("Unknown reason") },
    }
}

} // verus!
