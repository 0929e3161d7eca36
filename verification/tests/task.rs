use crankshaft::engine::task::builder::Error;
use crankshaft::engine::task::execution::Execution;
use crankshaft::engine::task::input::fetch_from_url;
use crankshaft::engine::task::input::Contents;
use crankshaft::engine::task::input::Fetch;
use crankshaft::engine::task::input::FetchError;
use crankshaft::engine::task::input::Input;
use crankshaft::engine::task::input::Type;
use crankshaft::engine::task::output::Output;
use crankshaft::engine::task::resources::Resources;
use crankshaft::engine::Task;

fn strings(items: &[&str]) -> Vec<String> {
    items.iter().map(|s| s.to_string()).collect()
}

fn echo() -> Execution {
    Execution::builder()
        .image(String::from("ubuntu"))
        .args(strings(&["echo", "hi"]))
        .stdout(String::from("stdout.txt"))
        .try_build()
        .unwrap()
}

#[test]
fn a_task_needs_an_execution() {
    let err = Task::builder().try_build().unwrap_err();
    assert!(matches!(err, Error::Missing("executions")));
    assert_eq!(
        err.to_string(),
        "missing required value for 'executions' in task builder"
    );
    let err = Task::builder()
        .name(String::from("empty"))
        .unwrap()
        .extend_executors(Vec::new())
        .unwrap()
        .try_build()
        .unwrap_err();
    assert!(matches!(err, Error::Missing("executions")));
}

#[test]
fn a_scalar_field_is_set_once() {
    let err = Task::builder()
        .name(String::from("one"))
        .unwrap()
        .name(String::from("two"))
        .unwrap_err();
    assert!(matches!(err, Error::Multiple("name")));
    assert_eq!(
        err.to_string(),
        "multiple value provided for 'name' in task builder"
    );
    let err = Task::builder()
        .description(String::from("one"))
        .unwrap()
        .description(String::from("two"))
        .unwrap_err();
    assert!(matches!(err, Error::Multiple("description")));
    let err = Task::builder()
        .resources(Resources::builder().build())
        .unwrap()
        .resources(Resources::builder().build())
        .unwrap_err();
    assert!(matches!(err, Error::Multiple("resources")));
}

#[test]
fn plural_fields_add_up() {
    let task = Task::builder()
        .name(String::from("my-example-task"))
        .unwrap()
        .description(String::from("a longer description"))
        .unwrap()
        .extend_executors(vec![echo()])
        .unwrap()
        .extend_executors(vec![echo(), echo()])
        .unwrap()
        .extend_volumes(strings(&["/volA"]))
        .unwrap()
        .extend_volumes(strings(&["/volB"]))
        .unwrap()
        .extend_inputs(Vec::new())
        .unwrap()
        .extend_outputs(vec![Output::new(
            String::from("s3://bucket/out"),
            String::from("/out"),
            Type::File,
        )
        .with_name(String::from("out"))])
        .unwrap()
        .try_build()
        .unwrap();
    assert_eq!(task.name(), Some(&String::from("my-example-task")));
    assert_eq!(task.description(), Some(&String::from("a longer description")));
    assert_eq!(task.executions().len(), 3);
    assert_eq!(task.executions().head.image(), "ubuntu");
    let volumes: Vec<String> = task.volumes().unwrap().iter().cloned().collect();
    assert_eq!(volumes, strings(&["/volA", "/volB"]));
    assert!(task.inputs().is_none());
    assert!(task.resources().is_none());
    let outputs = task.outputs().unwrap();
    assert_eq!(outputs.len(), 1);
    assert_eq!(outputs.head.url(), "s3://bucket/out");
    assert_eq!(outputs.head.path(), "/out");
    assert_eq!(outputs.head.ty(), Type::File);
}

#[test]
fn an_execution_needs_an_image_and_arguments() {
    let err = Execution::builder().try_build().unwrap_err();
    assert!(matches!(err, Error::Missing("image")));
    let err = Execution::builder()
        .image(String::from("ubuntu"))
        .args(Vec::new())
        .try_build()
        .unwrap_err();
    assert!(matches!(err, Error::Missing("args")));
}

#[test]
fn an_execution_keeps_what_it_was_built_with() {
    let execution = Execution::builder()
        .image(String::from("ubuntu"))
        .args(strings(&["cat", "/volA/x"]))
        .working_directory(String::from("/work"))
        .stdin(String::from("in"))
        .stdout(String::from("out"))
        .stderr(String::from("err"))
        .env(String::from("B"), String::from("1"))
        .env(String::from("A"), String::from("2"))
        .env(String::from("B"), String::from("3"))
        .try_build()
        .unwrap();
    assert_eq!(execution.image(), "ubuntu");
    let args: Vec<String> = execution.args().iter().cloned().collect();
    assert_eq!(args, strings(&["cat", "/volA/x"]));
    assert_eq!(execution.workdir(), Some(&String::from("/work")));
    assert_eq!(execution.stdin(), Some(&String::from("in")));
    assert_eq!(execution.stdout(), Some(&String::from("out")));
    assert_eq!(execution.stderr(), Some(&String::from("err")));
    let env: Vec<(String, String)> = execution
        .env()
        .unwrap()
        .iter()
        .map(|(k, v)| (k.clone(), v.clone()))
        .collect();
    assert_eq!(
        env,
        vec![
            (String::from("B"), String::from("3")),
            (String::from("A"), String::from("2"))
        ]
    );
    let copy = execution.clone();
    assert_eq!(copy.image(), "ubuntu");
    assert_eq!(copy.args().len(), 2);
    assert_eq!(copy.env().unwrap().len(), 2);
    assert_eq!(copy.env().unwrap().get_index(0).unwrap().0, "B");
}

#[test]
fn an_input_needs_contents_a_path_and_a_type() {
    let err = Input::builder().try_build().unwrap_err();
    assert!(matches!(err, Error::Missing("contents")));
    let err = Input::builder()
        .contents(Contents::Literal(String::from("x")))
        .try_build()
        .unwrap_err();
    assert!(matches!(err, Error::Missing("path")));
    let err = Input::builder()
        .contents(Contents::Literal(String::from("x")))
        .path(String::from("/x"))
        .try_build()
        .unwrap_err();
    assert!(matches!(err, Error::Missing("type")));
}

fn input(contents: Contents) -> Input {
    Input::builder()
        .name(String::from("x"))
        .description(String::from("an input"))
        .contents(contents)
        .path(String::from("/volA/x"))
        .ty(Type::File)
        .try_build()
        .unwrap()
}

#[test]
fn a_literal_is_fetched_as_its_bytes() {
    let input = input(Contents::Literal(String::from("DATA\né")));
    assert_eq!(input.name(), Some(&String::from("x")));
    assert_eq!(input.description(), Some(&String::from("an input")));
    assert_eq!(input.path(), "/volA/x");
    assert_eq!(input.ty(), Type::File);
    match input.fetch() {
        Ok(Fetch::Bytes(bytes)) => assert_eq!(bytes, "DATA\né".as_bytes().to_vec()),
        other => panic!("{:?}", other),
    }
}

#[test]
fn a_file_url_is_handed_on_to_be_read() {
    for url in [
        "file:///tmp/some%20file",
        "FILE:///etc/hosts",
        "file://remote.example/etc/hosts",
    ] {
        match input(Contents::URL(String::from(url))).fetch() {
            Ok(Fetch::ReadFile(file)) => assert_eq!(file, url),
            other => panic!("{:?}", other),
        }
    }
    match fetch_from_url(Some("file"), String::from("file:///x")) {
        Ok(Fetch::ReadFile(file)) => assert_eq!(file, "file:///x"),
        other => panic!("{:?}", other),
    }
    assert!(matches!(
        fetch_from_url(Some("http"), String::from("http://x")),
        Err(FetchError::UnsupportedScheme)
    ));
    assert!(matches!(
        fetch_from_url(None, String::from("x")),
        Err(FetchError::UnsupportedScheme)
    ));
}

#[test]
fn other_schemes_are_unsupported() {
    for url in [
        "http://example.com/x",
        "https://example.com/x",
        "s3://bucket/x",
        "ftp://example.com/x",
        "not a url",
    ] {
        assert!(matches!(
            input(Contents::URL(String::from(url))).fetch(),
            Err(FetchError::UnsupportedScheme)
        ));
    }
}

#[test]
fn resources_keep_what_they_were_built_with() {
    let resources = Resources::builder()
        .cpu_cores(4)
        .preemptible(true)
        .ram_gb(f64::to_bits(1.5))
        .disk_gb(f64::to_bits(100.0))
        .zones(strings(&["a"]))
        .zones(Vec::new())
        .zones(strings(&["b", "c"]))
        .build();
    assert_eq!(resources.cpu_cores(), Some(4));
    assert_eq!(resources.cpu_count(), Some(4));
    assert_eq!(resources.preemptible(), Some(true));
    assert_eq!(resources.ram_gb().map(f64::from_bits), Some(1.5));
    assert_eq!(resources.disk_gb().map(f64::from_bits), Some(100.0));
    let zones: Vec<String> = resources.zones().unwrap().iter().cloned().collect();
    assert_eq!(zones, strings(&["a", "b", "c"]));
    let none = Resources::builder()
        .zones(strings(&["a"]))
        .reset_zones()
        .zones(Vec::new())
        .build();
    assert!(none.zones().is_none());
    assert_eq!(none.cpu_cores(), None);
    assert_eq!(none.disk_gb(), None);
    assert_eq!(
        Resources::builder().cpu_cores(u64::MAX).build().cpu_count(),
        Some(-1)
    );
    let copy = resources.clone();
    assert_eq!(copy.zones().unwrap().len(), 3);
}

#[test]
fn a_copy_of_a_task_holds_what_the_task_holds() {
    let task = Task::builder()
        .name(String::from("my-example-task"))
        .unwrap()
        .extend_inputs(vec![input(Contents::Literal(String::from("DATA\n")))])
        .unwrap()
        .extend_outputs(vec![Output::new(
            String::from("file:///out"),
            String::from("/out"),
            Type::Directory,
        )
        .with_description(String::from("what comes out"))])
        .unwrap()
        .extend_executors(vec![echo(), echo()])
        .unwrap()
        .extend_volumes(strings(&["/volA"]))
        .unwrap()
        .resources(Resources::builder().cpu_cores(1).build())
        .unwrap()
        .try_build()
        .unwrap();
    let copy = task.clone();
    assert_eq!(copy.name(), task.name());
    assert_eq!(copy.description(), None);
    assert_eq!(copy.executions().len(), 2);
    assert_eq!(copy.executions().tail[0].stdout(), Some(&String::from("stdout.txt")));
    assert_eq!(copy.inputs().unwrap().head.path(), "/volA/x");
    assert!(matches!(
        copy.inputs().unwrap().head.contents(),
        Contents::Literal(text) if text == "DATA\n"
    ));
    let output = &copy.outputs().unwrap().head;
    assert_eq!(output.name(), None);
    assert_eq!(output.description(), Some(&String::from("what comes out")));
    assert_eq!(output.ty(), Type::Directory);
    assert_eq!(copy.volumes().unwrap().head, "/volA");
    assert_eq!(copy.resources().unwrap().cpu_cores(), Some(1));
}
