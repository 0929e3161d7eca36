//! The generic backend: a backend that drives a batch system through shell
//! command templates, one to submit a job, one to check on it and one to kill
//! it.

use std::sync::Arc;
use vstd::prelude::*;
use vstd::string::StringExecFns;
use nonempty::NonEmpty;
use crate::engine::non_empty::{optional_text, texts};
use crate::engine::service::runner::backend::config::{
    expand, references_unbound, substitute, BackendType, Bindings,
};
use crate::engine::service::runner::backend::{
    decode, BackendError, BackendErrorView, CommandOutput, Config, ExecutionResult,
    ExecutionResultView, TemplateError,
};
use crate::engine::task::execution::{Execution, ExecutionView};
use crate::text::{decimal, decimal_string, extend_chars, join, string_of};

verus! {

/// The number of seconds between two checks on a job where the configuration
/// gives none.
pub const DEFAULT_MONITOR_FREQUENCY: u32 = 5;

/// A generic backend.
#[derive(Debug)]
pub struct GenericBackend {
    /// The runtime attributes: the bindings that every command starts from.
    pub runtime_attributes: Option<Bindings>,
    /// The default cpu count.
    pub default_cpu: Option<u32>,
    /// The default amount of ram in megabytes.
    pub default_ram_mb: Option<u32>,
    /// The command template that is run on submit.
    pub submit: String,
    /// The regex that extracts the job id from the standard output of the
    /// submit command. It has one capture group.
    pub job_id_regex: Option<String>,
    /// The command template that checks whether a job is alive.
    pub monitor: Option<String>,
    /// The number of seconds between two checks.
    pub monitor_frequency: Option<u32>,
    /// The command template that kills a job.
    pub kill: Option<String>,
}

/// What applying a regex to a text gave.
#[derive(Debug)]
pub enum Capture {
    /// The regex is not valid.
    Invalid,
    /// The regex did not match, or the group took no part in the match.
    NoMatch,
    /// The text that the group matched.
    Text(String),
}

impl Capture {
    /// The capture as nested options: none for an invalid regex, and none
    /// within for no match.
    pub open spec fn view(&self) -> Option<Option<Seq<char>>> {
        match self {
            Capture::Invalid => None,
            Capture::NoMatch => Some(None),
            Capture::Text(text) => Some(Some(text@)),
        }
    }
}

/// What the `regex` crate finds for a group of a pattern in a text: the text
/// that the group matched in the leftmost match of the pattern, none within
/// where there is no match or the group took no part in it, and none where
/// the pattern is no valid regex.
pub uninterp spec fn regex_capture(pattern: Seq<char>, text: Seq<char>, group: usize) -> Option<
    Option<Seq<char>>,
>;

/// `Regex::new` of the `regex` crate, and `Regex::captures` and
/// `Captures::get` of what it gives: the text that the group `group` of
/// `pattern` matched in `text`.
#[verifier::external_body]
fn capture(pattern: &str, text: &str, group: usize) -> (r: Capture)
    ensures
        r@ == regex_capture(pattern@, text@, group),
{
    match regex::Regex::new(pattern) {
        Ok(re) => match re.captures(text) {
            Some(found) => match found.get(group) {
                Some(part) => Capture::Text(part.as_str().to_string()),
                None => Capture::NoMatch,
            },
            None => Capture::NoMatch,
        },
        Err(_) => Capture::Invalid,
    }
}

/// What the backend decided to have done next.
#[derive(Debug)]
pub enum Action {
    /// Run the command with `sh -c` now, and hand back what it left.
    Run(String),
    /// Sleep for the number of seconds, then run the command with `sh -c`,
    /// and hand back what it left.
    SleepThenRun(u32, String),
    /// The execution is done, with this result.
    Finish(ExecutionResult),
    /// The execution failed.
    Fail(BackendError),
}

/// What an action holds.
pub enum ActionView {
    /// A command to run now.
    Run(Seq<char>),
    /// A number of seconds to sleep, and a command to run then.
    SleepThenRun(u32, Seq<char>),
    /// The result of the execution.
    Finish(ExecutionResultView),
    /// The failure of the execution.
    Fail(BackendErrorView),
}

impl View for Action {
    type V = ActionView;

    open spec fn view(&self) -> ActionView {
        match self {
            Action::Run(command) => ActionView::Run(command@),
            Action::SleepThenRun(seconds, command) => ActionView::SleepThenRun(*seconds, command@),
            Action::Finish(result) => ActionView::Finish(result@),
            Action::Fail(error) => ActionView::Fail(error@),
        }
    }
}

/// A job of a generic backend: one execution on its way through the batch
/// system.
#[derive(Debug)]
pub enum GenericJob {
    /// The submit command runs.
    Submitted {
        /// The bindings of the execution.
        bindings: Bindings,
    },
    /// The job is in the batch system and is checked on.
    Monitoring {
        /// The bindings of the execution, with the job id.
        bindings: Bindings,
        /// The command that checks on the job.
        command: String,
        /// What the submit command left: the result of the execution.
        result: ExecutionResult,
    },
    /// The job is over.
    Terminal,
}

/// What a job holds.
pub enum JobView {
    /// The submit command runs.
    Submitted { bindings: Map<Seq<char>, Seq<char>> },
    /// The job is checked on.
    Monitoring { bindings: Map<Seq<char>, Seq<char>>, command: Seq<char>, result: ExecutionResultView },
    /// The job is over.
    Terminal,
}

impl View for GenericJob {
    type V = JobView;

    open spec fn view(&self) -> JobView {
        match self {
            GenericJob::Submitted { bindings } => JobView::Submitted { bindings: bindings@ },
            GenericJob::Monitoring { bindings, command, result } => JobView::Monitoring {
                bindings: bindings@,
                command: command@,
                result: result@,
            },
            GenericJob::Terminal => JobView::Terminal,
        }
    }
}

/// `m` with `value` under `key`, unless `m` has something under `key`.
pub open spec fn or_insert(m: Map<Seq<char>, Seq<char>>, key: Seq<char>, value: Seq<char>) -> Map<
    Seq<char>,
    Seq<char>,
> {
    if m.dom().contains(key) {
        m
    } else {
        m.insert(key, value)
    }
}

/// What rendering a command template with bindings gives: the template with
/// its placeholders substituted, or a failure where it refers to a
/// placeholder that is not bound.
pub open spec fn rendered(template: Seq<char>, bindings: Map<Seq<char>, Seq<char>>) -> Result<
    Seq<char>,
    TemplateError,
> {
    if references_unbound(template, bindings) {
        Err(TemplateError::UnboundPlaceholder)
    } else {
        Ok(substitute(template, bindings))
    }
}

/// Renders a command template with the bindings. A template that refers to a
/// placeholder that is not bound is refused.
pub fn render(template: &str, bindings: &Bindings) -> (r: Result<String, TemplateError>)
    ensures
        match r {
            Ok(command) => rendered(template@, bindings@) == Ok::<Seq<char>, TemplateError>(
                command@,
            ),
            Err(e) => rendered(template@, bindings@) == Err::<Seq<char>, TemplateError>(e),
        },
{
    let (command, unbound) = expand(template, bindings);
    if unbound {
        Err(TemplateError::UnboundPlaceholder)
    } else {
        Ok(command)
    }
}

/// The arguments of a command joined by single spaces.
pub fn join_args(args: &NonEmpty<String>) -> (r: String)
    ensures
        r@ == join(texts(*args), seq![' ']),
{
    let mut out: Vec<char> = Vec::new();
    extend_chars(&mut out, args.head.as_str());
    let ghost all = texts(*args);
    assert(all.take(1) =~= seq![args.head@]);
    let mut i: usize = 0;
    while i < args.tail.len()
        invariant
            i <= args.tail.len(),
            all == texts(*args),
            out@ == join(all.take(i + 1), seq![' ']),
        decreases args.tail.len() - i,
    {
        out.push(' ');
        extend_chars(&mut out, args.tail[i].as_str());
        proof {
            assert(all.take(i + 2).drop_last() =~= all.take(i + 1));
            assert(all.take(i + 2).last() == args.tail@[i as int]@);
            assert(out@ =~= join(all.take(i + 1), seq![' ']) + seq![' '] + args.tail@[i as int]@);
        }
        i += 1;
    }
    assert(all.take(args.tail.len() + 1) =~= all);
    string_of(&out)
}

impl GenericBackend {
    /// Makes a generic backend from its configuration. A configuration of
    /// another kind gives none.
    pub fn from_config(conf: Config) -> (r: Option<Self>)
        ensures
            match conf.kind {
                BackendType::Generic(generic) => r == Some(
                    GenericBackend {
                        runtime_attributes: conf.runtime_attrs,
                        default_cpu: conf.default_cpu,
                        default_ram_mb: conf.default_ram,
                        submit: generic.submit,
                        job_id_regex: generic.job_id_regex,
                        monitor: generic.monitor,
                        monitor_frequency: generic.monitor_frequency,
                        kill: generic.kill,
                    },
                ),
                BackendType::Docker(_) => r is None,
            },
    {
        match conf.kind {
            BackendType::Generic(generic) => Some(
                GenericBackend {
                    runtime_attributes: conf.runtime_attrs,
                    default_cpu: conf.default_cpu,
                    default_ram_mb: conf.default_ram,
                    submit: generic.submit,
                    job_id_regex: generic.job_id_regex,
                    monitor: generic.monitor,
                    monitor_frequency: generic.monitor_frequency,
                    kill: generic.kill,
                },
            ),
            BackendType::Docker(_) => None,
        }
    }

    /// Wraps the backend in a runner.
    pub fn to_runner(self) -> (r: GenericRunner)
        ensures
            *r.client == self,
    {
        GenericRunner { client: Arc::new(self) }
    }

    /// The number of seconds between two checks on a job.
    pub open spec fn frequency(&self) -> u32 {
        match self.monitor_frequency {
            Some(seconds) => seconds,
            None => DEFAULT_MONITOR_FREQUENCY,
        }
    }

    /// The bindings for an execution: the runtime attributes; over them the
    /// command of the execution as `script` and its working directory, if it
    /// has one, as `cwd`; the memory that the task asks for, in megabytes, as
    /// `memory_mb` unless that is bound; and the defaults of the backend for
    /// `cpu` and `memory_mb` unless these are bound.
    pub open spec fn bindings_for(&self, execution: ExecutionView, memory_mb: Option<u64>) -> Map<
        Seq<char>,
        Seq<char>,
    > {
        let base = match self.runtime_attributes {
            Some(attributes) => attributes@,
            None => Map::empty(),
        };
        let with_script = base.insert("script"@, join(execution.args, seq![' ']));
        let with_cwd = match execution.workdir {
            Some(workdir) => with_script.insert("cwd"@, workdir),
            None => with_script,
        };
        let with_memory = match memory_mb {
            Some(mb) => or_insert(with_cwd, "memory_mb"@, decimal(mb as nat)),
            None => with_cwd,
        };
        let with_cpu = match self.default_cpu {
            Some(cpu) => or_insert(with_memory, "cpu"@, decimal(cpu as nat)),
            None => with_memory,
        };
        match self.default_ram_mb {
            Some(ram) => or_insert(with_cpu, "memory_mb"@, decimal(ram as nat)),
            None => with_cpu,
        }
    }

    /// Makes the bindings for an execution. `memory_mb` is the memory that
    /// the task asks for, in megabytes, if it asks for any.
    pub fn bindings(&self, execution: &Execution, memory_mb: Option<u64>) -> (r: Bindings)
        ensures
            r@ == self.bindings_for(execution@, memory_mb),
    {
        let mut bindings = match &self.runtime_attributes {
            Some(attributes) => attributes.duplicate(),
            None => Bindings::new(),
        };
        bindings.insert(String::from_str("script"), join_args(execution.args()));
        if let Some(workdir) = execution.workdir() {
            bindings.insert(String::from_str("cwd"), workdir.clone());
        }
        if let Some(mb) = memory_mb {
            bindings.or_insert(String::from_str("memory_mb"), decimal_string(mb as u128));
        }
        if let Some(cpu) = self.default_cpu {
            bindings.or_insert(String::from_str("cpu"), decimal_string(cpu as u128));
        }
        if let Some(ram) = self.default_ram_mb {
            bindings.or_insert(String::from_str("memory_mb"), decimal_string(ram as u128));
        }
        bindings
    }

    /// What submitting with `bindings` leads to: the submit command to run,
    /// or a failure where the submit template cannot be rendered.
    pub open spec fn submitting(&self, bindings: Map<Seq<char>, Seq<char>>) -> (JobView, ActionView) {
        match rendered(self.submit@, bindings) {
            Ok(command) => (JobView::Submitted { bindings }, ActionView::Run(command)),
            Err(e) => (JobView::Terminal, ActionView::Fail(BackendErrorView::Template(e))),
        }
    }

    /// Starts a job: renders the submit command with the bindings.
    pub fn submit(&self, bindings: Bindings) -> (r: (GenericJob, Action))
        ensures
            (r.0@, r.1@) == self.submitting(bindings@),
    {
        match render(self.submit.as_str(), &bindings) {
            Ok(command) => (GenericJob::Submitted { bindings }, Action::Run(command)),
            Err(e) => (GenericJob::Terminal, Action::Fail(BackendError::Template(e))),
        }
    }

    /// What the end of the submit command leads to, given what the command
    /// left and what the regex for the job id found in its standard output.
    ///
    /// The standard output must be text. Where the backend has a regex for
    /// the job id, the regex must be valid and must find an id in it, which
    /// is bound as `job_id`; a regex that finds none fails the execution
    /// whatever else the command left. Then the standard error must be text
    /// and the command must have exited. Where the backend has a monitor
    /// template, the job is checked on with the command rendered from it,
    /// for the first time after the backend's number of seconds; where it
    /// has none, the execution is done. The result of the execution is what
    /// the submit command left.
    pub open spec fn submitted(
        &self,
        bindings: Map<Seq<char>, Seq<char>>,
        code: Option<i32>,
        stdout: Option<Seq<char>>,
        stderr: Option<Seq<char>>,
        captured: Option<Option<Seq<char>>>,
    ) -> (JobView, ActionView) {
        if stdout is None {
            (JobView::Terminal, ActionView::Fail(BackendErrorView::Exec(NOT_TEXT@)))
        } else if self.job_id_regex is Some && captured is None {
            (
                JobView::Terminal,
                ActionView::Fail(BackendErrorView::Template(TemplateError::InvalidRegex)),
            )
        } else if self.job_id_regex is Some && captured->0 is None {
            (JobView::Terminal, ActionView::Fail(BackendErrorView::Template(TemplateError::NoJobId)))
        } else if stderr is None {
            (JobView::Terminal, ActionView::Fail(BackendErrorView::Exec(NOT_TEXT@)))
        } else if code is None {
            (JobView::Terminal, ActionView::Fail(BackendErrorView::Exec(NO_EXIT_CODE@)))
        } else {
            let bound = if self.job_id_regex is Some {
                bindings.insert("job_id"@, captured->0->0)
            } else {
                bindings
            };
            let result = ExecutionResultView {
                status: code->0 as i64,
                stdout: stdout->0,
                stderr: stderr->0,
            };
            match self.monitor {
                None => (JobView::Terminal, ActionView::Finish(result)),
                Some(template) => match rendered(template@, bound) {
                    Ok(command) => (
                        JobView::Monitoring { bindings: bound, command, result },
                        ActionView::SleepThenRun(self.frequency(), command),
                    ),
                    Err(e) => (
                        JobView::Terminal,
                        ActionView::Fail(BackendErrorView::Template(e)),
                    ),
                },
            }
        }
    }

    /// Decides what the end of the submit command leads to, as `submitted`
    /// says. `captured` is looked at only where the backend has a regex for
    /// the job id.
    pub fn after_submit(
        &self,
        bindings: Bindings,
        code: Option<i32>,
        stdout: Option<String>,
        stderr: Option<String>,
        captured: Capture,
    ) -> (r: (GenericJob, Action))
        ensures
            (r.0@, r.1@) == self.submitted(
                bindings@,
                code,
                optional_text(stdout),
                optional_text(stderr),
                captured@,
            ),
    {
        let mut bindings = bindings;
        let stdout = match stdout {
            Some(stdout) => stdout,
            None => {
                return (
                    GenericJob::Terminal,
                    Action::Fail(BackendError::Exec(String::from_str(NOT_TEXT))),
                );
            },
        };
        if self.job_id_regex.is_some() {
            match captured {
                Capture::Invalid => {
                    return (
                        GenericJob::Terminal,
                        Action::Fail(BackendError::Template(TemplateError::InvalidRegex)),
                    );
                },
                Capture::NoMatch => {
                    return (
                        GenericJob::Terminal,
                        Action::Fail(BackendError::Template(TemplateError::NoJobId)),
                    );
                },
                Capture::Text(id) => {
                    bindings.insert(String::from_str("job_id"), id);
                },
            }
        }
        let stderr = match stderr {
            Some(stderr) => stderr,
            None => {
                return (
                    GenericJob::Terminal,
                    Action::Fail(BackendError::Exec(String::from_str(NOT_TEXT))),
                );
            },
        };
        let code = match code {
            Some(code) => code,
            None => {
                return (
                    GenericJob::Terminal,
                    Action::Fail(BackendError::Exec(String::from_str(NO_EXIT_CODE))),
                );
            },
        };
        let result = ExecutionResult { status: code as i64, stdout, stderr };
        match &self.monitor {
            None => (GenericJob::Terminal, Action::Finish(result)),
            Some(template) => match render(template.as_str(), &bindings) {
                Ok(command) => {
                    let seconds = match self.monitor_frequency {
                        Some(seconds) => seconds,
                        None => DEFAULT_MONITOR_FREQUENCY,
                    };
                    let again = command.clone();
                    (
                        GenericJob::Monitoring { bindings, command, result },
                        Action::SleepThenRun(seconds, again),
                    )
                },
                Err(e) => (GenericJob::Terminal, Action::Fail(BackendError::Template(e))),
            },
        }
    }

    /// What a check on the job leads to: a check that exits with 0 says that
    /// the job is alive, and the job is checked on again after the backend's
    /// number of seconds; any other exit code says that the job is gone, and
    /// the execution is done with the result of the submit command. A check
    /// that did not exit fails the execution.
    pub open spec fn checked(
        &self,
        bindings: Map<Seq<char>, Seq<char>>,
        command: Seq<char>,
        result: ExecutionResultView,
        code: Option<i32>,
    ) -> (JobView, ActionView) {
        match code {
            Some(code) => if code == 0 {
                (
                    JobView::Monitoring { bindings, command, result },
                    ActionView::SleepThenRun(self.frequency(), command),
                )
            } else {
                (JobView::Terminal, ActionView::Finish(result))
            },
            None => (JobView::Terminal, ActionView::Fail(BackendErrorView::Exec(NO_EXIT_CODE@))),
        }
    }

    /// What a job goes to when a command that it had run has ended, given
    /// what the command left and what the regex for the job id finds.
    pub open spec fn stepped(
        &self,
        job: JobView,
        code: Option<i32>,
        stdout: Option<Seq<char>>,
        stderr: Option<Seq<char>>,
        captured: Option<Option<Seq<char>>>,
    ) -> (JobView, ActionView) {
        match job {
            JobView::Submitted { bindings } => self.submitted(
                bindings,
                code,
                stdout,
                stderr,
                captured,
            ),
            JobView::Monitoring { bindings, command, result } => self.checked(
                bindings,
                command,
                result,
                code,
            ),
            JobView::Terminal => (JobView::Terminal, ActionView::Fail(BackendErrorView::Exec(OVER@))),
        }
    }

    /// Decides what a check on the job leads to, as `checked` says.
    pub fn after_check(
        &self,
        bindings: Bindings,
        command: String,
        result: ExecutionResult,
        code: Option<i32>,
    ) -> (r: (GenericJob, Action))
        ensures
            (r.0@, r.1@) == self.checked(bindings@, command@, result@, code),
    {
        match code {
            Some(code) => {
                if code == 0 {
                    let seconds = match self.monitor_frequency {
                        Some(seconds) => seconds,
                        None => DEFAULT_MONITOR_FREQUENCY,
                    };
                    let again = command.clone();
                    (
                        GenericJob::Monitoring { bindings, command, result },
                        Action::SleepThenRun(seconds, again),
                    )
                } else {
                    (GenericJob::Terminal, Action::Finish(result))
                }
            },
            None => (
                GenericJob::Terminal,
                Action::Fail(BackendError::Exec(String::from_str(NO_EXIT_CODE))),
            ),
        }
    }

    /// Takes what a command of the job left and decides what is done next.
    /// After the submit command, the regex for the job id is applied to the
    /// standard output, for its first group.
    pub fn step(&self, job: GenericJob, output: CommandOutput) -> (r: (GenericJob, Action))
        ensures
            (r.0@, r.1@) == self.stepped(
                job@,
                output.code,
                decoded(output.stdout@),
                decoded(output.stderr@),
                match (self.job_id_regex, decoded(output.stdout@)) {
                    (Some(pattern), Some(text)) => regex_capture(pattern@, text, 1),
                    _ => Some(None),
                },
            ),
    {
        match job {
            GenericJob::Submitted { bindings } => {
                let stdout = decode(output.stdout);
                let stderr = decode(output.stderr);
                let captured = match (&self.job_id_regex, &stdout) {
                    (Some(pattern), Some(text)) => capture(pattern.as_str(), text.as_str(), 1),
                    _ => Capture::NoMatch,
                };
                self.after_submit(bindings, output.code, stdout, stderr, captured)
            },
            GenericJob::Monitoring { bindings, command, result } => self.after_check(
                bindings,
                command,
                result,
                output.code,
            ),
            GenericJob::Terminal => (
                GenericJob::Terminal,
                Action::Fail(BackendError::Exec(String::from_str(OVER))),
            ),
        }
    }

    /// The command that kills the job, with the bindings that the job has
    /// come to. There is none where the backend has no kill template or the
    /// job is over.
    pub fn kill_command(&self, job: &GenericJob) -> (r: Option<Result<String, TemplateError>>)
        ensures
            match (self.kill, job@) {
                (Some(template), JobView::Submitted { bindings }) => r is Some && command_view(r->0)
                    == rendered(template@, bindings),
                (Some(template), JobView::Monitoring { bindings, .. }) => r is Some && command_view(
                    r->0,
                ) == rendered(template@, bindings),
                _ => r is None,
            },
    {
        match &self.kill {
            Some(template) => match job {
                GenericJob::Submitted { bindings } => Some(render(template.as_str(), bindings)),
                GenericJob::Monitoring { bindings, .. } => Some(
                    render(template.as_str(), bindings),
                ),
                GenericJob::Terminal => None,
            },
            None => None,
        }
    }
}

/// What a rendered command, or the failure to render it, holds.
pub open spec fn command_view(r: Result<String, TemplateError>) -> Result<Seq<char>, TemplateError> {
    match r {
        Ok(command) => Ok(command@),
        Err(e) => Err(e),
    }
}

/// The text that bytes encode in UTF-8, if they encode any.
pub open spec fn decoded(bytes: Seq<u8>) -> Option<Seq<char>> {
    if vstd::utf8::valid_utf8(bytes) {
        Some(vstd::utf8::decode_utf8(bytes))
    } else {
        None
    }
}

/// The failure of a command whose output is not text.
pub const NOT_TEXT: &'static str = "the output of the command is not UTF-8";

/// The failure of a command that a signal ended.
pub const NO_EXIT_CODE: &'static str = "the command did not exit";

/// The failure of a job that is asked to go on after its end.
pub const OVER: &'static str = "the job is over";

/// A runner for a generic backend: the backend behind a shared handle, so
/// that every job of it may keep one.
#[derive(Debug)]
pub struct GenericRunner {
    /// The shared handle to the backend.
    pub client: Arc<GenericBackend>,
}

impl GenericRunner {
    /// Creates a new runner from a generic backend.
    pub fn new(client: GenericBackend) -> (r: Self)
        ensures
            *r.client == client,
    {
        GenericRunner { client: Arc::new(client) }
    }

    /// The name under which the backend is registered by default.
    pub fn default_name(&self) -> (r: &'static str)
        ensures
            r@ == "generic"@,
    {
        "generic"
    }
}

impl GenericBackend {
    /// What a job that is checked on goes through as its checks exit with
    /// `codes`, one after the other: the job in the end, and the actions
    /// that the checks led to.
    pub open spec fn monitored(&self, job: JobView, codes: Seq<Option<i32>>) -> (
        JobView,
        Seq<ActionView>,
    )
        decreases codes.len(),
    {
        if codes.len() == 0 {
            (job, Seq::empty())
        } else {
            let (next, action) = self.stepped(job, codes[0], None, None, Some(None));
            let (last, actions) = self.monitored(next, codes.skip(1));
            (last, seq![action] + actions)
        }
    }
}

/// The number of seconds that the actions ask to sleep, all together.
pub open spec fn seconds_asked(actions: Seq<ActionView>) -> nat
    decreases actions.len(),
{
    if actions.len() == 0 {
        0
    } else {
        seconds_asked(actions.drop_last()) + seconds_of(actions.last())
    }
}

/// Monitoring ends with the first check that does not exit with 0. Where the
/// checks of a job exit with 0 but for the last one, which exits with
/// another code, every check but the last leads to a sleep of the backend's
/// number of seconds and another check, and the last one ends the execution
/// with the result of the submit command. With the sleep before the first
/// check, the job has then asked to sleep as many times the backend's number
/// of seconds as there were checks.
pub proof fn lemma_monitoring_ends(
    backend: GenericBackend,
    bindings: Map<Seq<char>, Seq<char>>,
    command: Seq<char>,
    result: ExecutionResultView,
    codes: Seq<Option<i32>>,
)
    requires
        codes.len() >= 1,
        forall|i: int| 0 <= i < codes.len() - 1 ==> codes[i] == Some(0i32),
        codes.last() is Some,
        codes.last()->0 != 0,
    ensures
        ({
            let job = JobView::Monitoring { bindings, command, result };
            let (last, actions) = backend.monitored(job, codes);
            &&& last is Terminal
            &&& actions.len() == codes.len()
            &&& forall|i: int|
                0 <= i < codes.len() - 1 ==> actions[i] == ActionView::SleepThenRun(
                    backend.frequency(),
                    command,
                )
            &&& actions.last() == ActionView::Finish(result)
            &&& backend.frequency() + seconds_asked(actions) == codes.len() * backend.frequency()
        }),
    decreases codes.len(),
{
    let job = JobView::Monitoring { bindings, command, result };
    let (next, action) = backend.stepped(job, codes[0], None, None, Some(None));
    let rest = codes.skip(1);
    let (last, actions) = backend.monitored(job, codes);
    if codes.len() == 1 {
        assert(codes[0] == codes.last());
        assert(backend.monitored(next, rest).1 =~= Seq::<ActionView>::empty());
        assert(actions =~= seq![ActionView::Finish(result)]);
        assert(actions.drop_last() =~= Seq::<ActionView>::empty());
        assert(seconds_asked(actions.drop_last()) == 0);
        assert(seconds_asked(actions) == seconds_asked(actions.drop_last()) + seconds_of(
            actions.last(),
        ));
    } else {
        assert(codes[0] == Some(0i32));
        assert(next == job);
        assert(rest.last() == codes.last());
        assert forall|i: int| 0 <= i < rest.len() - 1 implies rest[i] == Some(0i32) by {
            assert(rest[i] == codes[i + 1]);
        }
        lemma_monitoring_ends(backend, bindings, command, result, rest);
        let (_, tail) = backend.monitored(job, rest);
        assert(actions == seq![action] + tail);
        lemma_seconds_asked_first(action, tail);
        assert(codes.len() * backend.frequency() == rest.len() * backend.frequency()
            + backend.frequency()) by (nonlinear_arith)
            requires
                codes.len() == rest.len() + 1,
        ;
    }
}

/// The command of an execution is what its submit command is rendered with:
/// the bindings for an execution bind `script` to the arguments of that
/// execution, joined by single spaces, whatever the runtime attributes, the
/// resources and the defaults are.
pub proof fn lemma_script_is_the_command(
    backend: GenericBackend,
    execution: ExecutionView,
    memory_mb: Option<u64>,
)
    ensures
        backend.bindings_for(execution, memory_mb).dom().contains("script"@),
        backend.bindings_for(execution, memory_mb)["script"@] == join(execution.args, seq![' ']),
{
    reveal_strlit("script");
    reveal_strlit("cwd");
    reveal_strlit("memory_mb");
    reveal_strlit("cpu");
    assert("script"@.len() == 6);
    assert("cwd"@.len() == 3);
    assert("memory_mb"@.len() == 9);
    assert("cpu"@.len() == 3);
}

/// The result of an execution is what its submit command left: where the
/// end of the submit command leads on, to checks or to the end of the
/// execution, the result that the job holds or ends with has the exit code,
/// the standard output and the standard error of the submit command; and
/// the check that ends the monitoring ends the execution with that result.
pub proof fn lemma_result_is_what_submit_left(
    backend: GenericBackend,
    bindings: Map<Seq<char>, Seq<char>>,
    code: Option<i32>,
    stdout: Option<Seq<char>>,
    stderr: Option<Seq<char>>,
    captured: Option<Option<Seq<char>>>,
    check: i32,
)
    ensures
        ({
            let (job, action) = backend.submitted(bindings, code, stdout, stderr, captured);
            let left = ExecutionResultView {
                status: code->0 as i64,
                stdout: stdout->0,
                stderr: stderr->0,
            };
            &&& action matches ActionView::Finish(result) ==> code is Some && stdout is Some
                && stderr is Some && result == left
            &&& job matches JobView::Monitoring { bindings: bound, command, result } ==> {
                &&& code is Some && stdout is Some && stderr is Some && result == left
                &&& action == ActionView::SleepThenRun(backend.frequency(), command)
                &&& check != 0 ==> backend.checked(bound, command, result, Some(check)).1
                    == ActionView::Finish(left)
            }
        }),
{
}

/// The seconds that one action asks to sleep.
pub open spec fn seconds_of(action: ActionView) -> nat {
    match action {
        ActionView::SleepThenRun(seconds, _) => seconds as nat,
        _ => 0,
    }
}

/// The seconds asked by a sequence of actions are those asked by the first
/// and those asked by the rest.
proof fn lemma_seconds_asked_first(first: ActionView, rest: Seq<ActionView>)
    ensures
        seconds_asked(seq![first] + rest) == seconds_asked(rest) + seconds_of(first),
    decreases rest.len(),
{
    let all = seq![first] + rest;
    if rest.len() == 0 {
        assert(all.drop_last() =~= Seq::<ActionView>::empty());
        assert(all.last() == first);
        assert(seconds_asked(all.drop_last()) == 0);
        assert(seconds_asked(all) == seconds_asked(all.drop_last()) + seconds_of(all.last()));
    } else {
        assert(all.drop_last() =~= seq![first] + rest.drop_last());
        assert(all.last() == rest.last());
        lemma_seconds_asked_first(first, rest.drop_last());
        assert(seconds_asked(all) == seconds_asked(all.drop_last()) + seconds_of(all.last()));
        assert(seconds_asked(rest) == seconds_asked(rest.drop_last()) + seconds_of(rest.last()));
    }
}

} // verus!
