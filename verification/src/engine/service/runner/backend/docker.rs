//! The Docker backend: a backend that runs each execution of a task in a
//! container of its own.

use vstd::prelude::*;
use vstd::string::StringExecFns;
use crate::engine::non_empty::{item_at, optional_text, to_strings, vec_texts};
use crate::engine::service::runner::backend::{
    BackendError, BackendErrorView, ExecutionResult, ExecutionResultView,
};
use crate::engine::task::execution::{Execution, ExecutionView};
use crate::engine::task::input::{
    parsed_scheme, ContentsView, Fetch, FetchError, Input, InputView,
};
use crate::engine::task::resources::{Resources, ResourcesView};
use crate::engine::task::{Task, TaskView};
use crate::text::{chars_of, extend_chars, join, string_of, string_of_range};

verus! {

/// The number of parts in the random name of each Docker container.
pub const NAME_PARTS: usize = 4;

/// The separator between each random part of the Docker container name.
pub const NAME_SEPARATOR: &'static str = "-";

/// The working dir name inside the docker container.
pub const WORKDIR: &'static str = "/workdir";

/// The directory of a container into which inputs are unpacked.
pub const UPLOAD_ROOT: &'static str = "/";

/// The permissions with which an input is put into a container.
pub const INPUT_MODE: u32 = 0o644;

/// The exit code of an execution whose exit code was not observed.
pub const NOT_OBSERVED: i64 = -1;

/// The failure of a job that is handed something that it did not ask for.
pub const UNEXPECTED: &'static str = "the job did not ask for this";

/// The failure of an input whose contents come from an unsupported URL.
pub const UNSUPPORTED_SCHEME: &'static str = "Unsupported URL scheme";

/// The failure of an input that could not be packed.
pub const NOT_PACKED: &'static str = "the input could not be packed";

/// `random_word::gen` for English: a word drawn at random, which is not
/// empty.
#[verifier::external_body]
fn random_word() -> (word: String)
    ensures
        word@.len() > 0,
{
    random_word::gen(random_word::Lang::En).to_string()
}

/// What `String::from_utf8_lossy` of the standard library makes of bytes:
/// their text, with a replacement character for each part that is no UTF-8.
pub uninterp spec fn lossy_text(bytes: Seq<u8>) -> Seq<char>;

/// The text of a piece of output: the text that its bytes encode where they
/// are UTF-8, and else what is left of it when each part that is no UTF-8
/// gives way to a replacement character.
pub open spec fn chunk_text(bytes: Seq<u8>) -> Seq<char> {
    if vstd::utf8::valid_utf8(bytes) {
        vstd::utf8::decode_utf8(bytes)
    } else {
        lossy_text(bytes)
    }
}

/// `String::from_utf8_lossy` of the standard library: the text of the
/// bytes, which for bytes that are UTF-8 is the text that they encode.
#[verifier::external_body]
fn lossy(bytes: &Vec<u8>) -> (text: String)
    ensures
        text@ == lossy_text(bytes@),
        vstd::utf8::valid_utf8(bytes@) ==> text@ == vstd::utf8::decode_utf8(bytes@),
{
    String::from_utf8_lossy(bytes).into_owned()
}

/// Whether a path reads the same on every target: it holds neither a
/// backslash nor a colon, so that it has the same components, in the same
/// bytes, wherever it is read.
pub open spec fn portable(path: Seq<char>) -> bool {
    forall|j: int| 0 <= j < path.len() ==> path[j] != '\\' && path[j] != ':'
}

/// The archive that the `tar` crate makes of one file at a portable path,
/// with the permissions `mode` and the bytes `content`, under a GNU header;
/// none where the crate refuses the path.
pub uninterp spec fn packed(path: Seq<char>, mode: u32, content: Seq<u8>) -> Option<Seq<u8>>;

/// What an optional vector of bytes holds.
pub open spec fn bytes_view(bytes: Option<Vec<u8>>) -> Option<Seq<u8>> {
    match bytes {
        Some(bytes) => Some(bytes@),
        None => None,
    }
}

/// The `tar` crate's `Builder` on a vector of bytes: an archive with one
/// file at `path`, with the permissions `mode` and the bytes `content`, made
/// with a GNU header by `Builder::append_data`. There is none where the crate
/// refuses the path. The crate reads the path by the rules of the target, so
/// the archive is named only for a path that reads the same on every target.
#[verifier::external_body]
fn pack(path: &str, mode: u32, content: &Vec<u8>) -> (archive: Option<Vec<u8>>)
    ensures
        portable(path@) ==> bytes_view(archive) == packed(path@, mode, content@),
{
    let mut builder = tar::Builder::new(Vec::new());
    let mut header = tar::Header::new_gnu();
    header.set_size(content.len() as u64);
    header.set_mode(mode);
    header.set_cksum();
    match builder.append_data(&mut header, path, content.as_slice()) {
        Ok(()) => builder.into_inner().ok(),
        Err(_) => None,
    }
}

/// Joins the parts of a name with the separator of names.
pub fn join_name(parts: &Vec<String>) -> (name: String)
    ensures
        name@ == join(vec_texts(parts@), NAME_SEPARATOR@),
{
    let mut out: Vec<char> = Vec::new();
    let ghost all = vec_texts(parts@);
    let mut i: usize = 0;
    assert(all.take(0) =~= Seq::<Seq<char>>::empty());
    while i < parts.len()
        invariant
            i <= parts.len(),
            all == vec_texts(parts@),
            out@ == join(all.take(i as int), NAME_SEPARATOR@),
        decreases parts.len() - i,
    {
        let ghost before = out@;
        if i > 0 {
            extend_chars(&mut out, NAME_SEPARATOR);
        }
        extend_chars(&mut out, parts[i].as_str());
        proof {
            assert(all.take(i + 1).drop_last() =~= all.take(i as int));
            assert(all.take(i + 1).last() == parts@[i as int]@);
            if i == 0 {
                assert(out@ =~= parts@[0]@);
            } else if i == 1 {
                assert(all.take(1) =~= seq![all[0]]);
            }
        }
        i += 1;
    }
    assert(all.take(parts.len() as int) =~= all);
    string_of(&out)
}

/// Whether `name` is the name made of `parts`: as many parts as a name has,
/// none of them empty, joined by the separator of names.
pub open spec fn is_name_of(name: Seq<char>, parts: Seq<Seq<char>>) -> bool {
    &&& parts.len() == NAME_PARTS
    &&& forall|i: int| 0 <= i < parts.len() ==> (#[trigger] parts[i]).len() > 0
    &&& name == join(parts, NAME_SEPARATOR@)
}

/// Generates a random name for a Docker container: as many random words as a
/// name has parts, joined by the separator of names.
pub fn random_name() -> (name: String)
    ensures
        exists|parts: Seq<Seq<char>>| is_name_of(name@, parts),
{
    let mut parts: Vec<String> = Vec::new();
    let mut i: usize = 0;
    while i < NAME_PARTS
        invariant
            i <= NAME_PARTS,
            parts@.len() == i,
            forall|j: int| 0 <= j < i ==> (#[trigger] parts@[j])@.len() > 0,
        decreases NAME_PARTS - i,
    {
        parts.push(random_word());
        i += 1;
    }
    let name = join_name(&parts);
    proof {
        let texts = vec_texts(parts@);
        assert forall|j: int| 0 <= j < texts.len() implies (#[trigger] texts[j]).len() > 0 by {
            assert(parts@[j]@.len() > 0);
        }
        assert(is_name_of(name@, texts));
    }
    name
}

/// A directory of the host that is mounted into a container.
#[derive(Debug)]
pub struct Mount {
    /// The directory on the host.
    pub source: String,
    /// The path inside the container.
    pub target: String,
}

impl Mount {
    /// A copy of the mount.
    pub fn duplicate(&self) -> (r: Self)
        ensures
            r.source@ == self.source@,
            r.target@ == self.target@,
    {
        Mount { source: self.source.clone(), target: self.target.clone() }
    }
}

/// The mounts of a sequence as pairs of the directory on the host and the
/// path inside the container.
pub open spec fn mount_views(mounts: Seq<Mount>) -> Seq<(Seq<char>, Seq<char>)> {
    mounts.map_values(|m: Mount| (m.source@, m.target@))
}

/// The container to create for an execution.
#[derive(Debug)]
pub struct ContainerSpec {
    /// The name of the container.
    pub name: String,
    /// The image.
    pub image: String,
    /// Whether the container gets a terminal.
    pub tty: bool,
    /// The working directory, if the execution has one.
    pub working_dir: Option<String>,
    /// The number of CPUs, if the task asks for one.
    pub cpu_count: Option<i64>,
    /// The memory in gigabytes, as the bits of a 64-bit float, if the task
    /// asks for any.
    pub ram_gb: Option<u64>,
    /// The disk space in gigabytes, as the bits of a 64-bit float, if the
    /// task asks for any.
    pub disk_gb: Option<u64>,
    /// The directories of the host that are mounted into the container.
    pub mounts: Vec<Mount>,
}

/// What a container to create holds.
pub struct ContainerSpecView {
    pub name: Seq<char>,
    pub image: Seq<char>,
    pub tty: bool,
    pub working_dir: Option<Seq<char>>,
    pub cpu_count: Option<i64>,
    pub ram_gb: Option<u64>,
    pub disk_gb: Option<u64>,
    pub mounts: Seq<(Seq<char>, Seq<char>)>,
}

impl View for ContainerSpec {
    type V = ContainerSpecView;

    open spec fn view(&self) -> ContainerSpecView {
        ContainerSpecView {
            name: self.name@,
            image: self.image@,
            tty: self.tty,
            working_dir: optional_text(self.working_dir),
            cpu_count: self.cpu_count,
            ram_gb: self.ram_gb,
            disk_gb: self.disk_gb,
            mounts: mount_views(self.mounts@),
        }
    }
}

/// The container for an execution: it has the image and the working
/// directory of the execution, a terminal, the resources that the task asks
/// for, and the mounts that the executions of the task share.
pub open spec fn container_for(
    name: Seq<char>,
    execution: ExecutionView,
    resources: Option<ResourcesView>,
    mounts: Seq<(Seq<char>, Seq<char>)>,
) -> ContainerSpecView {
    ContainerSpecView {
        name,
        image: execution.image,
        tty: true,
        working_dir: execution.workdir,
        cpu_count: match resources {
            Some(r) => match r.cpu_cores {
                Some(cores) => Some(cores as i64),
                None => None,
            },
            None => None,
        },
        ram_gb: match resources {
            Some(r) => r.ram_gb,
            None => None,
        },
        disk_gb: match resources {
            Some(r) => r.disk_gb,
            None => None,
        },
        mounts,
    }
}

/// Describes the container for an execution.
pub fn container_spec(
    name: String,
    execution: &Execution,
    resources: Option<&Resources>,
    mounts: &Vec<Mount>,
) -> (r: ContainerSpec)
    ensures
        r@ == container_for(
            name@,
            execution@,
            match resources {
                Some(r) => Some(r@),
                None => None,
            },
            mount_views(mounts@),
        ),
{
    let mut shared: Vec<Mount> = Vec::new();
    let mut i: usize = 0;
    while i < mounts.len()
        invariant
            i <= mounts.len(),
            shared@.len() == i,
            forall|j: int|
                0 <= j < i ==> (#[trigger] shared@[j]).source@ == mounts@[j].source@
                    && shared@[j].target@ == mounts@[j].target@,
        decreases mounts.len() - i,
    {
        shared.push(mounts[i].duplicate());
        i += 1;
    }
    assert(mount_views(shared@) =~= mount_views(mounts@));
    ContainerSpec {
        name,
        image: execution.image().to_owned(),
        tty: true,
        working_dir: match execution.workdir() {
            Some(workdir) => Some(workdir.clone()),
            None => None,
        },
        cpu_count: match resources {
            Some(r) => r.cpu_count(),
            None => None,
        },
        ram_gb: match resources {
            Some(r) => r.ram_gb(),
            None => None,
        },
        disk_gb: match resources {
            Some(r) => r.disk_gb(),
            None => None,
        },
        mounts: shared,
    }
}

/// The command to execute in the container of an execution: its arguments.
pub fn command(execution: &Execution) -> (r: Vec<String>)
    ensures
        vec_texts(r@) == execution@.args,
{
    to_strings(execution.args())
}

/// The number of `/` with which `s` begins.
pub open spec fn leading_slashes(s: Seq<char>) -> int
    decreases s.len(),
{
    if s.len() > 0 && s[0] == '/' {
        1 + leading_slashes(s.skip(1))
    } else {
        0
    }
}

/// The path of an input inside an archive: its path inside the container
/// without the slashes in front.
pub open spec fn archive_path(path: Seq<char>) -> Seq<char> {
    path.skip(leading_slashes(path))
}

/// Takes the slashes in front of a path away.
pub fn strip_root(path: &str) -> (r: String)
    ensures
        r@ == archive_path(path@),
{
    let t = chars_of(path);
    let mut k: usize = 0;
    assert(t@.skip(0) =~= t@);
    while k < t.len() && t[k] == '/'
        invariant
            k <= t.len(),
            leading_slashes(t@) == k + leading_slashes(t@.skip(k as int)),
        decreases t.len() - k,
    {
        assert(t@.skip(k as int).skip(1) =~= t@.skip(k + 1));
        k += 1;
    }
    string_of_range(&t, k, t.len())
}

/// An archive to unpack in a container.
#[derive(Debug)]
pub struct Upload {
    /// The name of the container.
    pub container: String,
    /// The directory of the container in which the archive is unpacked.
    pub path: String,
    /// The archive.
    pub archive: Vec<u8>,
}

/// Whether `r` is the upload of what packing gave: the archive, to be
/// unpacked at the root of the container, or the failure where there is no
/// archive.
pub open spec fn is_upload_of(
    container: Seq<char>,
    archive: Option<Seq<u8>>,
    r: Result<Upload, BackendError>,
) -> bool {
    match r {
        Ok(upload) => upload.container@ == container && upload.path@ == UPLOAD_ROOT@
            && archive == Some(upload.archive@),
        Err(e) => archive is None && e@ == BackendErrorView::Exec(NOT_PACKED@),
    }
}

/// Makes the upload of what packing gave for the container `container`.
pub fn upload_of(container: &str, archive: Option<Vec<u8>>) -> (r: Result<Upload, BackendError>)
    ensures
        is_upload_of(container@, bytes_view(archive), r),
{
    match archive {
        Some(archive) => Ok(
            Upload { container: container.to_owned(), path: UPLOAD_ROOT.to_owned(), archive },
        ),
        None => Err(BackendError::Exec(NOT_PACKED.to_owned())),
    }
}

/// Whether `r` is what staging the file at `path` with the bytes `content`
/// gives for the container `container`: the upload of the archive with that
/// one file, at the path without the slashes in front and with the
/// permissions of inputs, to be unpacked at the root of the container; or
/// the failure where the path is refused. Of a path that does not read the
/// same on every target, the archive is not said.
pub open spec fn is_staged(
    container: Seq<char>,
    path: Seq<char>,
    content: Seq<u8>,
    r: Result<Upload, BackendError>,
) -> bool {
    if portable(archive_path(path)) {
        is_upload_of(container, packed(archive_path(path), INPUT_MODE, content), r)
    } else {
        match r {
            Ok(upload) => upload.container@ == container && upload.path@ == UPLOAD_ROOT@,
            Err(e) => e@ == BackendErrorView::Exec(NOT_PACKED@),
        }
    }
}

/// Packs the contents of an input for the container `container`: an archive
/// with one file, at the path of the input without the slashes in front, to
/// be unpacked at the root of the container.
pub fn stage(container: &str, input: &Input, content: &Vec<u8>) -> (r: Result<Upload, BackendError>)
    ensures
        is_staged(container@, input@.path, content@, r),
{
    let path = strip_root(input.path());
    let archive = pack(path.as_str(), INPUT_MODE, content);
    upload_of(container, archive)
}

/// A piece of the output of a command in a container.
#[derive(Debug)]
pub enum LogChunk {
    /// Bytes written to the standard output.
    StdOut(Vec<u8>),
    /// Bytes written to the standard error.
    StdErr(Vec<u8>),
    /// Anything else.
    Other,
}

/// The texts of the chunks that went to the standard output, one behind the
/// other.
pub open spec fn stdout_of(chunks: Seq<LogChunk>) -> Seq<char>
    decreases chunks.len(),
{
    if chunks.len() == 0 {
        Seq::empty()
    } else {
        stdout_of(chunks.drop_last()) + match chunks.last() {
            LogChunk::StdOut(bytes) => chunk_text(bytes@),
            _ => Seq::empty(),
        }
    }
}

/// The texts of the chunks that went to the standard error, one behind the
/// other.
pub open spec fn stderr_of(chunks: Seq<LogChunk>) -> Seq<char>
    decreases chunks.len(),
{
    if chunks.len() == 0 {
        Seq::empty()
    } else {
        stderr_of(chunks.drop_last()) + match chunks.last() {
            LogChunk::StdErr(bytes) => chunk_text(bytes@),
            _ => Seq::empty(),
        }
    }
}

/// Sorts the output of a command into what went to the standard output and
/// what went to the standard error.
pub fn demux(chunks: &Vec<LogChunk>) -> (r: (String, String))
    ensures
        r.0@ == stdout_of(chunks@),
        r.1@ == stderr_of(chunks@),
{
    let mut stdout = String::new();
    let mut stderr = String::new();
    let mut i: usize = 0;
    assert(chunks@.take(0) =~= Seq::<LogChunk>::empty());
    while i < chunks.len()
        invariant
            i <= chunks.len(),
            stdout@ == stdout_of(chunks@.take(i as int)),
            stderr@ == stderr_of(chunks@.take(i as int)),
        decreases chunks.len() - i,
    {
        proof {
            assert(chunks@.take(i + 1).drop_last() =~= chunks@.take(i as int));
            assert(chunks@.take(i + 1).last() == chunks@[i as int]);
        }
        let ghost out_before = stdout@;
        let ghost err_before = stderr@;
        match &chunks[i] {
            LogChunk::StdOut(bytes) => {
                let text = lossy(bytes);
                stdout.append(text.as_str());
                assert(stderr@ =~= err_before + Seq::<char>::empty());
            },
            LogChunk::StdErr(bytes) => {
                let text = lossy(bytes);
                stderr.append(text.as_str());
                assert(stdout@ =~= out_before + Seq::<char>::empty());
            },
            LogChunk::Other => {
                assert(stdout@ =~= out_before + Seq::<char>::empty());
                assert(stderr@ =~= err_before + Seq::<char>::empty());
            },
        }
        i += 1;
    }
    assert(chunks@.take(chunks.len() as int) =~= chunks@);
    (stdout, stderr)
}

/// The result of an execution whose command wrote `chunks` and exited with
/// `exit_code`, if that was observed. Where what the command wrote could not
/// be gathered, the result holds no output.
pub open spec fn result_of(chunks: Option<Seq<LogChunk>>, exit_code: Option<i64>) -> ExecutionResultView {
    ExecutionResultView {
        status: match exit_code {
            Some(code) => code,
            None => NOT_OBSERVED,
        },
        stdout: match chunks {
            Some(chunks) => stdout_of(chunks),
            None => Seq::empty(),
        },
        stderr: match chunks {
            Some(chunks) => stderr_of(chunks),
            None => Seq::empty(),
        },
    }
}

/// What is written of a vector of chunks, if there is one.
pub open spec fn written(chunks: Option<Vec<LogChunk>>) -> Option<Seq<LogChunk>> {
    match chunks {
        Some(chunks) => Some(chunks@),
        None => None,
    }
}

/// Makes the result of an execution from the output of its command, if it
/// could be gathered, and its exit code, if it was observed.
pub fn collect(chunks: &Option<Vec<LogChunk>>, exit_code: Option<i64>) -> (r: ExecutionResult)
    ensures
        r@ == result_of(written(*chunks), exit_code),
{
    let (stdout, stderr) = match chunks {
        Some(chunks) => demux(chunks),
        None => (String::new(), String::new()),
    };
    ExecutionResult {
        status: match exit_code {
            Some(code) => code,
            None => NOT_OBSERVED,
        },
        stdout,
        stderr,
    }
}

/// A Docker backend.
#[derive(Debug)]
pub struct DockerBackend {
    /// Whether or not to clean up containers.
    pub cleanup: bool,
}

impl DockerBackend {
    /// A backend that cleans up its containers or leaves them.
    pub fn new(cleanup: bool) -> (r: Self)
        ensures
            r.cleanup == cleanup,
    {
        DockerBackend { cleanup }
    }

    /// The name under which the backend is registered by default.
    pub fn default_name(&self) -> (r: &'static str)
        ensures
            r@ == "docker"@,
    {
        "docker"
    }
}

/// How far the job of an execution has come.
#[derive(Debug, Clone, Copy, PartialEq, Eq, Structural)]
pub enum Stage {
    /// The container is being created.
    Creating,
    /// The container is being started.
    Starting,
    /// The contents of the input with this index are being read.
    Fetching(usize),
    /// The input with this index is being put into the container.
    Uploading(usize),
    /// The command runs in the container.
    Executing,
    /// The container is being removed.
    Removing,
    /// The job is over.
    Over,
}

/// The job of an execution: the container in which it runs, and how far it
/// has come.
#[derive(Debug)]
pub struct DockerJob {
    /// The name of the container.
    pub container: String,
    /// Whether the container is removed in the end.
    pub cleanup: bool,
    /// How far the job has come.
    pub stage: Stage,
    /// The result of the execution, once its command has run.
    pub result: Option<ExecutionResult>,
}

/// What came of the work that a job asked for.
#[derive(Debug)]
pub enum Event {
    /// The work is done.
    Done,
    /// The work failed; the text says how.
    Failed(String),
    /// The file was read, and these are its bytes.
    Content(Vec<u8>),
    /// The command has run: this is what it wrote, if that could be gathered,
    /// and its exit code, if one was observed.
    Executed(Option<Vec<LogChunk>>, Option<i64>),
}

/// The work that a job asks for next.
#[derive(Debug)]
pub enum Action {
    /// Create this container.
    Create(ContainerSpec),
    /// Start the container of this name.
    Start(String),
    /// Read the file of the host that this `file` URL names, and hand back
    /// its bytes.
    Read(String),
    /// Unpack this archive in its container.
    Upload(Upload),
    /// Execute this command in the container of this name, attached to its
    /// standard output and standard error, and hand back what it wrote.
    Exec(String, Vec<String>),
    /// Kill and remove the container of this name.
    Remove(String),
    /// Nothing: the execution is done, with this result.
    Finish(ExecutionResult),
    /// Nothing: the execution failed.
    Fail(BackendError),
}

/// The inputs of a task, none where it has none.
pub open spec fn inputs_of(task: TaskView) -> Seq<InputView> {
    match task.inputs {
        Some(inputs) => inputs,
        None => Seq::empty(),
    }
}

/// The job is over and failed with `message`.
pub open spec fn fails_with(job: DockerJob, action: Action, message: Seq<char>) -> bool {
    &&& job.stage is Over
    &&& action matches Action::Fail(e)
    &&& e@ == BackendErrorView::Exec(message)
}

/// What a job whose container runs does about the inputs from index `i` on.
/// With all inputs in the container, the command of the execution is
/// executed. Else the input at `i` is next: a literal is packed and
/// uploaded; a `file` URL is handed out to be read; any other URL fails the
/// job.
pub open spec fn stages_from(
    task: TaskView,
    execution: ExecutionView,
    i: int,
    job: DockerJob,
    action: Action,
) -> bool {
    if i >= inputs_of(task).len() {
        &&& job.stage is Executing
        &&& action matches Action::Exec(container, command)
        &&& container@ == job.container@
        &&& vec_texts(command@) == execution.args
    } else {
        match inputs_of(task)[i].contents {
            ContentsView::Literal(text) => uploads(
                inputs_of(task)[i].path,
                vstd::utf8::encode_utf8(text),
                i,
                job,
                action,
            ),
            ContentsView::URL(url) => if parsed_scheme(url) == Some("file"@) {
                &&& job.stage == Stage::Fetching(i as usize)
                &&& action matches Action::Read(file)
                &&& file@ == url
            } else {
                fails_with(job, action, UNSUPPORTED_SCHEME@)
            },
        }
    }
}

/// What the job does with the bytes `content` of the input at `i`, whose
/// path is `path`: it uploads them, staged for its container, or is over
/// because they could not be packed.
pub open spec fn uploads(
    path: Seq<char>,
    content: Seq<u8>,
    i: int,
    job: DockerJob,
    action: Action,
) -> bool {
    match action {
        Action::Upload(upload) => job.stage == Stage::Uploading(i as usize) && is_staged(
            job.container@,
            path,
            content,
            Ok(upload),
        ),
        Action::Fail(e) => job.stage is Over && is_staged(job.container@, path, content, Err(e)),
        _ => false,
    }
}

/// What a job goes to when the work that it asked for has come to `event`.
/// A job that is handed what it did not ask for fails.
///
/// A failure of any work but the removal of the container fails the job. A
/// created container is started; into a started container the inputs go, one
/// after the other; then the command is executed. What the command wrote and
/// its exit code make the result. A backend that cleans up has the container
/// removed then, and whether or not that works, the execution is done with
/// its result. A job that fails leaves its container as it is.
pub open spec fn steps_to(
    before: DockerJob,
    task: TaskView,
    execution: ExecutionView,
    event: Event,
    after: DockerJob,
    action: Action,
) -> bool {
    &&& after.container@ == before.container@
    &&& after.cleanup == before.cleanup
    &&& match (before.stage, event) {
        (Stage::Removing, Event::Done) | (Stage::Removing, Event::Failed(_)) => match before.result {
            Some(done) => {
                &&& after.stage is Over
                &&& action matches Action::Finish(result)
                &&& result@ == done@
            },
            None => fails_with(after, action, UNEXPECTED@),
        },
        (Stage::Creating, Event::Failed(message))
        | (Stage::Starting, Event::Failed(message))
        | (Stage::Fetching(_), Event::Failed(message))
        | (Stage::Uploading(_), Event::Failed(message))
        | (Stage::Executing, Event::Failed(message)) => fails_with(after, action, message@),
        (Stage::Creating, Event::Done) => {
            &&& after.stage is Starting
            &&& action matches Action::Start(container)
            &&& container@ == before.container@
        },
        (Stage::Starting, Event::Done) => stages_from(task, execution, 0, after, action),
        (Stage::Fetching(i), Event::Content(bytes)) => if i < inputs_of(task).len() {
            uploads(inputs_of(task)[i as int].path, bytes@, i as int, after, action)
        } else {
            fails_with(after, action, UNEXPECTED@)
        },
        (Stage::Uploading(i), Event::Done) => stages_from(task, execution, i + 1, after, action),
        (Stage::Executing, Event::Executed(chunks, exit_code)) => if before.cleanup {
            &&& after.stage is Removing
            &&& after.result is Some
            &&& after.result->0@ == result_of(written(chunks), exit_code)
            &&& action matches Action::Remove(container)
            &&& container@ == before.container@
        } else {
            &&& after.stage is Over
            &&& action matches Action::Finish(result)
            &&& result@ == result_of(written(chunks), exit_code)
        },
        _ => fails_with(after, action, UNEXPECTED@),
    }
}

impl DockerJob {
    fn fail(self, message: String) -> (r: (DockerJob, Action))
        ensures
            r.0.container@ == self.container@,
            r.0.cleanup == self.cleanup,
            fails_with(r.0, r.1, message@),
    {
        (
            DockerJob { container: self.container, cleanup: self.cleanup, stage: Stage::Over, result: None },
            Action::Fail(BackendError::Exec(message)),
        )
    }

    fn upload(self, input: &Input, i: usize, content: &Vec<u8>) -> (r: (DockerJob, Action))
        ensures
            r.0.container@ == self.container@,
            r.0.cleanup == self.cleanup,
            uploads(input@.path, content@, i as int, r.0, r.1),
    {
        match stage(self.container.as_str(), input, content) {
            Ok(upload) => (
                DockerJob {
                    container: self.container,
                    cleanup: self.cleanup,
                    stage: Stage::Uploading(i),
                    result: None,
                },
                Action::Upload(upload),
            ),
            Err(e) => (
                DockerJob {
                    container: self.container,
                    cleanup: self.cleanup,
                    stage: Stage::Over,
                    result: None,
                },
                Action::Fail(e),
            ),
        }
    }

    fn execute(self, execution: &Execution) -> (r: (DockerJob, Action))
        ensures
            r.0.container@ == self.container@,
            r.0.cleanup == self.cleanup,
            r.0.stage is Executing,
            r.1 matches Action::Exec(container, command) && container@ == self.container@
                && vec_texts(command@) == execution@.args,
    {
        let container = self.container.clone();
        (
            DockerJob {
                container: self.container,
                cleanup: self.cleanup,
                stage: Stage::Executing,
                result: None,
            },
            Action::Exec(container, command(execution)),
        )
    }

    fn stage_from(self, task: &Task, execution: &Execution, i: usize) -> (r: (DockerJob, Action))
        ensures
            r.0.container@ == self.container@,
            r.0.cleanup == self.cleanup,
            stages_from(task@, execution@, i as int, r.0, r.1),
    {
        let input = match task.inputs() {
            Some(inputs) => item_at(inputs, i),
            None => None,
        };
        match input {
            None => self.execute(execution),
            Some(input) => {
                assert(input@ == inputs_of(task@)[i as int]);
                match input.fetch() {
                    Ok(Fetch::Bytes(content)) => self.upload(input, i, &content),
                    Ok(Fetch::ReadFile(file)) => (
                        DockerJob {
                            container: self.container,
                            cleanup: self.cleanup,
                            stage: Stage::Fetching(i),
                            result: None,
                        },
                        Action::Read(file),
                    ),
                    Err(FetchError::Io(message)) => self.fail(message),
                    Err(FetchError::UnsupportedScheme) => self.fail(
                        UNSUPPORTED_SCHEME.to_owned(),
                    ),
                }
            },
        }
    }

    /// Takes what came of the work that the job asked for, and says what
    /// work is next, as `steps_to` says.
    pub fn step(self, task: &Task, execution: &Execution, event: Event) -> (r: (DockerJob, Action))
        ensures
            steps_to(self, task@, execution@, event, r.0, r.1),
    {
        match (self.stage, event) {
            (Stage::Removing, Event::Done) | (Stage::Removing, Event::Failed(_)) => {
                match self.result {
                    Some(result) => (
                        DockerJob {
                            container: self.container,
                            cleanup: self.cleanup,
                            stage: Stage::Over,
                            result: None,
                        },
                        Action::Finish(result),
                    ),
                    None => self.fail(UNEXPECTED.to_owned()),
                }
            },
            (Stage::Creating, Event::Failed(message))
            | (Stage::Starting, Event::Failed(message))
            | (Stage::Fetching(_), Event::Failed(message))
            | (Stage::Uploading(_), Event::Failed(message))
            | (Stage::Executing, Event::Failed(message)) => self.fail(message),
            (Stage::Creating, Event::Done) => {
                let container = self.container.clone();
                (
                    DockerJob {
                        container: self.container,
                        cleanup: self.cleanup,
                        stage: Stage::Starting,
                        result: None,
                    },
                    Action::Start(container),
                )
            },
            (Stage::Starting, Event::Done) => self.stage_from(task, execution, 0),
            (Stage::Fetching(i), Event::Content(content)) => {
                let input = match task.inputs() {
                    Some(inputs) => item_at(inputs, i),
                    None => None,
                };
                match input {
                    Some(input) => self.upload(input, i, &content),
                    None => self.fail(UNEXPECTED.to_owned()),
                }
            },
            (Stage::Uploading(i), Event::Done) => {
                if i < usize::MAX {
                    self.stage_from(task, execution, i + 1)
                } else {
                    match task.inputs() {
                        Some(inputs) => {
                            let rest = inputs.tail.len();
                            assert(inputs_of(task@).len() == rest + 1);
                        },
                        None => {},
                    }
                    self.execute(execution)
                }
            },
            (Stage::Executing, Event::Executed(chunks, exit_code)) => {
                let result = collect(&chunks, exit_code);
                if self.cleanup {
                    let container = self.container.clone();
                    (
                        DockerJob {
                            container: self.container,
                            cleanup: self.cleanup,
                            stage: Stage::Removing,
                            result: Some(result),
                        },
                        Action::Remove(container),
                    )
                } else {
                    (
                        DockerJob {
                            container: self.container,
                            cleanup: self.cleanup,
                            stage: Stage::Over,
                            result: None,
                        },
                        Action::Finish(result),
                    )
                }
            },
            _ => self.fail(UNEXPECTED.to_owned()),
        }
    }
}

impl DockerBackend {
    /// Starts the job of an execution in a container of the name
    /// `container`: the container is created first.
    pub fn begin(
        &self,
        container: String,
        execution: &Execution,
        task: &Task,
        mounts: &Vec<Mount>,
    ) -> (r: (DockerJob, Action))
        ensures
            r.0.container@ == container@,
            r.0.cleanup == self.cleanup,
            r.0.stage is Creating,
            r.0.result is None,
            r.1 matches Action::Create(spec) && spec@ == container_for(
                container@,
                execution@,
                task@.resources,
                mount_views(mounts@),
            ),
    {
        let spec = container_spec(container.clone(), execution, task.resources(), mounts);
        (
            DockerJob { container, cleanup: self.cleanup, stage: Stage::Creating, result: None },
            Action::Create(spec),
        )
    }
}

} // verus!
