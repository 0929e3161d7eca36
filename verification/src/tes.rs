//! The task execution service (TES): the tasks, executors and logs that go
//! over the wire, and the addresses of the service's endpoints.

pub mod responses;
pub mod task;

use std::collections::HashMap;
use vstd::prelude::*;
use vstd::string::StringExecFns;
pub use task::State;

verus! {

/// The type of a file that a task reads or writes.
#[derive(Debug, Clone, Copy, PartialEq, Eq, Structural)]
pub enum FileType {
    /// A file.
    File,
    /// A directory.
    Directory,
}

impl Default for FileType {
    fn default() -> (r: Self)
        ensures
            r is File,
    {
        FileType::File
    }
}

/// An input of a task.
#[derive(Debug)]
pub struct TesInput {
    pub name: Option<String>,
    pub description: Option<String>,
    pub url: Option<String>,
    pub path: String,
    pub input_type: FileType,
    pub content: Option<String>,
}

/// An output of a task.
#[derive(Debug)]
pub struct TesOutput {
    pub name: Option<String>,
    pub description: Option<String>,
    pub url: String,
    pub path: String,
    pub output_type: FileType,
}

/// The resources that a task asks for. The two sizes are 64-bit floating
/// point numbers of gigabytes; they are carried as their bit patterns.
#[derive(Debug)]
pub struct TesResources {
    pub cpu_cores: Option<i64>,
    pub preemptible: Option<bool>,
    pub ram_gb: Option<u64>,
    pub disk_gb: Option<u64>,
    pub zones: Option<Vec<String>>,
}

/// One command to run in an image.
#[derive(Debug)]
pub struct TesExecutor {
    pub image: String,
    pub command: Vec<String>,
    pub workdir: Option<String>,
    pub stdin: Option<String>,
    pub stdout: Option<String>,
    pub stderr: Option<String>,
    pub env: Option<HashMap<String, String>>,
}

/// The log of one executor.
#[derive(Debug)]
pub struct TesExecutorLog {
    pub start_time: Option<String>,
    pub end_time: Option<String>,
    pub stdout: Option<String>,
    pub stderr: Option<String>,
    pub exit_code: Option<i32>,
}

/// The log of one output file.
#[derive(Debug)]
pub struct TesOutputFileLog {
    pub url: String,
    pub path: String,
    pub size_bytes: String,
}

/// The log of one attempt to run a task.
#[derive(Debug)]
pub struct TesTaskLog {
    pub logs: Vec<TesExecutorLog>,
    pub start_time: Option<String>,
    pub end_time: Option<String>,
    pub outputs: Vec<TesOutputFileLog>,
    pub system_logs: Option<String>,
}

/// A task as the service describes it.
#[derive(Debug)]
pub struct TesTask {
    pub id: Option<String>,
    pub state: Option<State>,
    pub name: Option<String>,
    pub description: Option<String>,
    pub inputs: Option<Vec<TesInput>>,
    pub outputs: Option<Vec<TesOutput>>,
    pub resources: Option<TesResources>,
    pub executors: Vec<TesExecutor>,
    pub volumes: Option<Vec<String>>,
    pub tags: Option<HashMap<String, String>>,
    pub logs: Option<Vec<TesTaskLog>>,
}

/// The answer to the creation of a task.
#[derive(Debug)]
pub struct TesCreateTaskResponse {
    pub id: String,
}

/// The address at which tasks are created: `tasks` under the base address.
pub fn create_task_url(base: &str) -> (r: String)
    ensures
        r@ == base@ + "tasks"@,
{
    String::from_str(base).concat("tasks")
}

/// The address at which the full view of the task `id` is read.
pub fn get_task_url(base: &str, id: &str) -> (r: String)
    ensures
        r@ == base@ + "tasks/"@ + id@ + "?view=FULL"@,
{
    String::from_str(base).concat("tasks/").concat(id).concat("?view=FULL")
}

/// The address at which the service describes itself.
pub fn service_info_url(base: &str) -> (r: String)
    ensures
        r@ == base@ + "service-info"@,
{
    String::from_str(base).concat("service-info")
}

/// The value of the `Authorization` header for a token.
pub fn authorization_value(token: &str) -> (r: String)
    ensures
        r@ == "Basic "@ + token@,
{
    String::from_str("Basic ").concat(token)
}

} // verus!
