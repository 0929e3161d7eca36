use crankshaft::engine::service::runner::backend::docker::collect;
use crankshaft::engine::service::runner::backend::docker::command;
use crankshaft::engine::service::runner::backend::docker::container_spec;
use crankshaft::engine::service::runner::backend::docker::demux;
use crankshaft::engine::service::runner::backend::docker::join_name;
use crankshaft::engine::service::runner::backend::docker::random_name;
use crankshaft::engine::service::runner::backend::docker::stage;
use crankshaft::engine::service::runner::backend::docker::strip_root;
use crankshaft::engine::service::runner::backend::docker::upload_of;
use crankshaft::engine::service::runner::backend::docker::Action;
use crankshaft::engine::service::runner::backend::docker::DockerBackend;
use crankshaft::engine::service::runner::backend::docker::DockerJob;
use crankshaft::engine::service::runner::backend::docker::Event;
use crankshaft::engine::service::runner::backend::docker::LogChunk;
use crankshaft::engine::service::runner::backend::docker::Mount;
use crankshaft::engine::service::runner::backend::docker::Stage;
use crankshaft::engine::service::runner::backend::docker::NAME_PARTS;
use crankshaft::engine::service::runner::backend::BackendError;
use crankshaft::engine::service::runner::backend::Dispatch;
use crankshaft::engine::service::runner::backend::ExecutionResult;
use crankshaft::engine::service::runner::backend::Outcome;
use crankshaft::engine::task::execution::Execution;
use crankshaft::engine::task::input::Contents;
use crankshaft::engine::task::input::Input;
use crankshaft::engine::task::input::Type;
use crankshaft::engine::task::resources::Resources;
use crankshaft::engine::Task;

fn execution(args: &[&str]) -> Execution {
    Execution::builder()
        .image(String::from("ubuntu"))
        .args(args.iter().map(|a| a.to_string()).collect())
        .working_directory(String::from("/workdir"))
        .try_build()
        .unwrap()
}

fn input(path: &str, contents: Contents) -> Input {
    Input::builder()
        .contents(contents)
        .path(path.to_string())
        .ty(Type::File)
        .try_build()
        .unwrap()
}

fn task(inputs: Vec<Input>) -> Task {
    Task::builder()
        .extend_volumes(vec![String::from("/volA")])
        .unwrap()
        .extend_inputs(inputs)
        .unwrap()
        .extend_executors(vec![execution(&["ls", "/volA"]), execution(&["cat", "/volA/x"])])
        .unwrap()
        .resources(
            Resources::builder()
                .cpu_cores(2)
                .ram_gb(f64::to_bits(0.5))
                .disk_gb(f64::to_bits(8.0))
                .build(),
        )
        .unwrap()
        .try_build()
        .unwrap()
}

fn mounts() -> Vec<Mount> {
    vec![Mount { source: String::from("/tmp/abc"), target: String::from("/volA") }]
}

#[test]
fn a_random_name_has_four_parts() {
    let name = random_name();
    let parts: Vec<&str> = name.split('-').collect();
    assert_eq!(parts.len(), NAME_PARTS);
    assert!(parts.iter().all(|part| !part.is_empty()));
    assert_ne!(random_name(), random_name());
    assert_eq!(
        join_name(&vec![String::from("a"), String::from("b"), String::from("c")]),
        "a-b-c"
    );
    assert_eq!(join_name(&vec![String::from("a")]), "a");
    assert_eq!(join_name(&Vec::new()), "");
}

#[test]
fn the_container_of_an_execution() {
    let task = task(Vec::new());
    let spec = container_spec(
        String::from("some-name"),
        &task.executions().head,
        task.resources(),
        &mounts(),
    );
    assert_eq!(spec.name, "some-name");
    assert_eq!(spec.image, "ubuntu");
    assert!(spec.tty);
    assert_eq!(spec.working_dir, Some(String::from("/workdir")));
    assert_eq!(spec.cpu_count, Some(2));
    assert_eq!(spec.ram_gb.map(f64::from_bits), Some(0.5));
    assert_eq!(spec.disk_gb.map(f64::from_bits), Some(8.0));
    assert_eq!(spec.mounts.len(), 1);
    assert_eq!(spec.mounts[0].source, "/tmp/abc");
    assert_eq!(spec.mounts[0].target, "/volA");
    let bare = container_spec(String::from("n"), &execution(&["true"]), None, &Vec::new());
    assert_eq!(bare.cpu_count, None);
    assert_eq!(bare.ram_gb, None);
    assert!(bare.mounts.is_empty());
    assert_eq!(command(&task.executions().tail[0]), vec!["cat", "/volA/x"]);
}

#[test]
fn an_input_is_packed_without_the_slashes_in_front() {
    assert_eq!(strip_root("/volA/x"), "volA/x");
    assert_eq!(strip_root("///x/"), "x/");
    assert_eq!(strip_root("x"), "x");
    assert_eq!(strip_root("//"), "");
    assert_eq!(strip_root(""), "");

    let content = b"DATA\n".to_vec();
    let upload = stage(
        "some-name",
        &input("/volA/x", Contents::Literal(String::from("DATA\n"))),
        &content,
    )
    .unwrap();
    assert_eq!(upload.container, "some-name");
    assert_eq!(upload.path, "/");
    let archive = upload.archive;
    assert_eq!(archive.len() % 512, 0);
    assert!(archive.len() >= 1024);
    assert_eq!(&archive[..6], b"volA/x");
    assert_eq!(archive[6], 0);
    // The permissions and the size, in octal, and the file behind the header.
    assert_eq!(&archive[100..107], b"0000644");
    assert_eq!(&archive[124..135], b"00000000005");
    assert_eq!(&archive[512..517], b"DATA\n");

    let packed = upload_of("some-name", Some(vec![1, 2, 3])).unwrap();
    assert_eq!(packed.container, "some-name");
    assert_eq!(packed.path, "/");
    assert_eq!(packed.archive, vec![1, 2, 3]);
    assert!(matches!(
        upload_of("some-name", None),
        Err(BackendError::Exec(m)) if m == "the input could not be packed"
    ));

    let refused = stage(
        "some-name",
        &input("/../x", Contents::Literal(String::new())),
        &Vec::new(),
    );
    assert!(matches!(refused, Err(BackendError::Exec(m)) if m == "the input could not be packed"));
}

#[test]
fn output_is_sorted_by_stream() {
    let chunks = vec![
        LogChunk::StdOut(b"h".to_vec()),
        LogChunk::StdErr(b"warn".to_vec()),
        LogChunk::Other,
        LogChunk::StdOut(b"i\n".to_vec()),
        LogChunk::StdErr(vec![0xff]),
    ];
    let (stdout, stderr) = demux(&chunks);
    assert_eq!(stdout, "hi\n");
    assert_eq!(stderr, "warn\u{fffd}");
    let result = collect(&Some(chunks), Some(3));
    assert_eq!(result.status, 3);
    assert_eq!(result.stdout, "hi\n");
    assert_eq!(result.stderr, "warn\u{fffd}");
    let lost = collect(&None, Some(3));
    assert_eq!(lost.status, 3);
    assert_eq!(lost.stdout, "");
    assert_eq!(lost.stderr, "");
    let unobserved = collect(&Some(Vec::new()), None);
    assert_eq!(unobserved.status, -1);
    assert_eq!(unobserved.stdout, "");
    assert_eq!(unobserved.stderr, "");
}

#[test]
fn an_execution_goes_through_its_container() {
    let task = task(vec![
        input("/volA/x", Contents::Literal(String::from("DATA\n"))),
        input("/volA/y", Contents::URL(String::from("file:///etc/hostname"))),
    ]);
    let execution = &task.executions().tail[0];
    let backend = DockerBackend::new(true);
    assert_eq!(backend.default_name(), "docker");

    let (job, action) = backend.begin(String::from("c1"), execution, &task, &mounts());
    assert_eq!(job.stage, Stage::Creating);
    match action {
        Action::Create(spec) => {
            assert_eq!(spec.name, "c1");
            assert_eq!(spec.image, "ubuntu");
            assert_eq!(spec.mounts.len(), 1);
        }
        other => panic!("{:?}", other),
    }
    let (job, action) = job.step(&task, execution, Event::Done);
    assert!(matches!(&action, Action::Start(name) if name == "c1"));
    assert_eq!(job.stage, Stage::Starting);

    let (job, action) = job.step(&task, execution, Event::Done);
    assert_eq!(job.stage, Stage::Uploading(0));
    match action {
        Action::Upload(upload) => {
            assert_eq!(upload.container, "c1");
            assert_eq!(upload.path, "/");
            assert_eq!(&upload.archive[..6], b"volA/x");
        }
        other => panic!("{:?}", other),
    }

    let (job, action) = job.step(&task, execution, Event::Done);
    assert_eq!(job.stage, Stage::Fetching(1));
    assert!(matches!(&action, Action::Read(file) if file == "file:///etc/hostname"));

    let (job, action) = job.step(&task, execution, Event::Content(b"host\n".to_vec()));
    assert_eq!(job.stage, Stage::Uploading(1));
    match action {
        Action::Upload(upload) => {
            assert_eq!(&upload.archive[..6], b"volA/y");
            assert_eq!(&upload.archive[512..517], b"host\n");
        }
        other => panic!("{:?}", other),
    }

    let (job, action) = job.step(&task, execution, Event::Done);
    assert_eq!(job.stage, Stage::Executing);
    match &action {
        Action::Exec(name, command) => {
            assert_eq!(name, "c1");
            assert_eq!(command, &vec!["cat", "/volA/x"]);
        }
        other => panic!("{:?}", other),
    }

    let chunks = vec![LogChunk::StdOut(b"DATA\n".to_vec())];
    let (job, action) = job.step(&task, execution, Event::Executed(Some(chunks), Some(0)));
    assert_eq!(job.stage, Stage::Removing);
    assert!(matches!(&action, Action::Remove(name) if name == "c1"));

    // A failure to remove the container does not take the result away.
    let (job, action) = job.step(&task, execution, Event::Failed(String::from("gone")));
    assert_eq!(job.stage, Stage::Over);
    match action {
        Action::Finish(result) => {
            assert_eq!(result.status, 0);
            assert_eq!(result.stdout, "DATA\n");
            assert_eq!(result.stderr, "");
        }
        other => panic!("{:?}", other),
    }
    let (job, action) = job.step(&task, execution, Event::Done);
    assert_eq!(job.stage, Stage::Over);
    assert!(matches!(action, Action::Fail(BackendError::Exec(m)) if m == "the job did not ask for this"));
}

#[test]
fn without_cleanup_the_container_stays() {
    let task = task(Vec::new());
    let execution = &task.executions().head;
    let backend = DockerBackend::new(false);
    let (job, _) = backend.begin(String::from("c2"), execution, &task, &Vec::new());
    let (job, _) = job.step(&task, execution, Event::Done);
    let (job, action) = job.step(&task, execution, Event::Done);
    assert!(matches!(&action, Action::Exec(_, command) if command == &vec!["ls", "/volA"]));
    let (job, action) = job.step(&task, execution, Event::Executed(None, None));
    assert_eq!(job.stage, Stage::Over);
    assert!(matches!(action, Action::Finish(result) if result.status == -1));
}

#[test]
fn failures_end_the_job() {
    let task = task(vec![input("/x", Contents::URL(String::from("https://example.com/x")))]);
    let execution = &task.executions().head;
    let backend = DockerBackend::new(true);
    let begin = || backend.begin(String::from("c3"), execution, &task, &Vec::new()).0;

    let (job, action) = begin().step(&task, execution, Event::Failed(String::from("no daemon")));
    assert_eq!(job.stage, Stage::Over);
    assert!(matches!(action, Action::Fail(BackendError::Exec(m)) if m == "no daemon"));

    let (job, _) = begin().step(&task, execution, Event::Done);
    let (job, action) = job.step(&task, execution, Event::Done);
    assert_eq!(job.stage, Stage::Over);
    assert!(matches!(action, Action::Fail(BackendError::Exec(m)) if m == "Unsupported URL scheme"));

    let (job, action) = begin().step(&task, execution, Event::Content(Vec::new()));
    assert_eq!(job.stage, Stage::Over);
    assert!(matches!(action, Action::Fail(BackendError::Exec(m)) if m == "the job did not ask for this"));

    let odd = DockerJob {
        container: String::from("c4"),
        cleanup: true,
        stage: Stage::Fetching(5),
        result: None,
    };
    let (_, action) = odd.step(&task, execution, Event::Content(Vec::new()));
    assert!(matches!(action, Action::Fail(BackendError::Exec(m)) if m == "the job did not ask for this"));
}

fn result(status: i64) -> ExecutionResult {
    ExecutionResult { status, stdout: format!("out {status}"), stderr: String::new() }
}

#[test]
fn results_come_in_the_order_of_the_executions() {
    let dispatch = Dispatch::new(String::from("docker"), task(Vec::new()));
    assert!(!dispatch.is_complete());
    assert_eq!(dispatch.get_task().executions().len(), 2);
    let first: Vec<String> = dispatch.current().unwrap().args().iter().cloned().collect();
    assert_eq!(first, vec!["ls", "/volA"]);
    let dispatch = dispatch.record(result(0));
    assert!(!dispatch.is_complete());
    let second: Vec<String> = dispatch.current().unwrap().args().iter().cloned().collect();
    assert_eq!(second, vec!["cat", "/volA/x"]);
    let dispatch = dispatch.record(result(4));
    assert!(dispatch.is_complete());
    assert!(dispatch.current().is_none());
    let reply = dispatch.finish();
    assert_eq!(reply.backend_name, "docker");
    assert_eq!(reply.executions.len(), 2);
    assert_eq!(reply.executions.head.status, 0);
    assert_eq!(reply.executions.tail[0].status, 4);
    assert_eq!(reply.executions.tail[0].stdout, "out 4");
}

#[test]
fn a_failure_leaves_the_results_that_are_there() {
    let dispatch = Dispatch::new(String::from("docker"), task(Vec::new()));
    match dispatch.abort(BackendError::Exec(String::from("no daemon"))) {
        Outcome::Failed(BackendError::Exec(message)) => assert_eq!(message, "no daemon"),
        other => panic!("{:?}", other),
    }
    let dispatch = Dispatch::new(String::from("docker"), task(Vec::new())).record(result(1));
    match dispatch.abort(BackendError::Exec(String::from("no daemon"))) {
        Outcome::Reply(reply) => {
            assert_eq!(reply.backend_name, "docker");
            assert_eq!(reply.executions.len(), 1);
            assert_eq!(reply.executions.head.status, 1);
        }
        other => panic!("{:?}", other),
    }
}
