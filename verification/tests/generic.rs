use crankshaft::engine::service::runner::backend::config::BackendType;
use crankshaft::engine::service::runner::backend::config::Bindings;
use crankshaft::engine::service::runner::backend::config::Config;
use crankshaft::engine::service::runner::backend::config::DockerBackendConfig;
use crankshaft::engine::service::runner::backend::config::GenericBackendConfig;
use crankshaft::engine::service::runner::backend::generic::join_args;
use crankshaft::engine::service::runner::backend::generic::render;
use crankshaft::engine::service::runner::backend::generic::Action;
use crankshaft::engine::service::runner::backend::generic::Capture;
use crankshaft::engine::service::runner::backend::generic::GenericBackend;
use crankshaft::engine::service::runner::backend::generic::GenericJob;
use crankshaft::engine::service::runner::backend::generic::GenericRunner;
use crankshaft::engine::service::runner::backend::BackendError;
use crankshaft::engine::service::runner::backend::CommandOutput;
use crankshaft::engine::service::runner::backend::TemplateError;
use crankshaft::engine::task::execution::Execution;

fn bindings(pairs: &[(&str, &str)]) -> Bindings {
    let mut bindings = Bindings::new();
    for (name, text) in pairs {
        bindings.insert(name.to_string(), text.to_string());
    }
    bindings
}

fn backend() -> GenericBackend {
    GenericBackend {
        runtime_attributes: Some(bindings(&[("queue", "compbio")])),
        default_cpu: Some(1),
        default_ram_mb: Some(3000),
        submit: String::from("bsub -q ~{queue} -n ~{cpu} -R mem=~{memory_mb} ~{script}"),
        job_id_regex: Some(String::from("JOB=(\\d+)")),
        monitor: Some(String::from("test -f /tmp/done-~{job_id}")),
        monitor_frequency: None,
        kill: Some(String::from("bkill ~{job_id}")),
    }
}

fn execution(workdir: Option<&str>) -> Execution {
    let builder = Execution::builder()
        .image(String::from("ubuntu"))
        .args(vec![String::from("echo"), String::from("'hello world'")]);
    match workdir {
        Some(dir) => builder.working_directory(dir.to_string()),
        None => builder,
    }
    .try_build()
    .unwrap()
}

fn output(code: Option<i32>, stdout: &str, stderr: &str) -> CommandOutput {
    CommandOutput {
        code,
        stdout: stdout.as_bytes().to_vec(),
        stderr: stderr.as_bytes().to_vec(),
    }
}

fn get(bindings: &Bindings, name: &str) -> Option<String> {
    bindings.get(name).cloned()
}

#[test]
fn a_generic_configuration_makes_a_generic_backend() {
    let config = Config {
        name: String::from("lsf"),
        kind: BackendType::Generic(GenericBackendConfig {
            submit: String::from("bsub ~{script}"),
            job_id_regex: Some(String::from("Job <(\\d+)>.*")),
            monitor: Some(String::from("bjobs ~{job_id}")),
            monitor_frequency: Some(7),
            kill: Some(String::from("bkill ~{job_id}")),
        }),
        default_cpu: Some(2),
        default_ram: Some(4096),
        runtime_attrs: Some(bindings(&[("queue", "compbio")])),
    };
    let backend = GenericBackend::from_config(config).unwrap();
    assert_eq!(backend.submit, "bsub ~{script}");
    assert_eq!(backend.job_id_regex, Some(String::from("Job <(\\d+)>.*")));
    assert_eq!(backend.monitor, Some(String::from("bjobs ~{job_id}")));
    assert_eq!(backend.monitor_frequency, Some(7));
    assert_eq!(backend.kill, Some(String::from("bkill ~{job_id}")));
    assert_eq!(backend.default_cpu, Some(2));
    assert_eq!(backend.default_ram_mb, Some(4096));
    assert_eq!(
        get(backend.runtime_attributes.as_ref().unwrap(), "queue"),
        Some(String::from("compbio"))
    );
    let runner = backend.to_runner();
    assert_eq!(runner.client.submit, "bsub ~{script}");
    assert_eq!(runner.default_name(), "generic");

    let docker = Config {
        name: String::from("docker"),
        kind: BackendType::Docker(DockerBackendConfig),
        default_cpu: None,
        default_ram: None,
        runtime_attrs: None,
    };
    assert!(GenericBackend::from_config(docker).is_none());
    assert_eq!(GenericRunner::new(self::backend()).client.default_cpu, Some(1));
}

#[test]
fn bindings_of_an_execution() {
    let backend = backend();
    let b = backend.bindings(&execution(Some("/work")), Some(4000));
    assert_eq!(get(&b, "queue"), Some(String::from("compbio")));
    assert_eq!(get(&b, "script"), Some(String::from("echo 'hello world'")));
    assert_eq!(get(&b, "cwd"), Some(String::from("/work")));
    assert_eq!(get(&b, "memory_mb"), Some(String::from("4000")));
    assert_eq!(get(&b, "cpu"), Some(String::from("1")));
    assert_eq!(b.len(), 5);

    let b = backend.bindings(&execution(None), None);
    assert_eq!(get(&b, "cwd"), None);
    assert_eq!(get(&b, "memory_mb"), Some(String::from("3000")));

    let mut preset = self::backend();
    preset.runtime_attributes = Some(bindings(&[
        ("memory_mb", "1"),
        ("cpu", "8"),
        ("script", "overwritten"),
    ]));
    let b = preset.bindings(&execution(None), Some(4000));
    assert_eq!(get(&b, "memory_mb"), Some(String::from("1")));
    assert_eq!(get(&b, "cpu"), Some(String::from("8")));
    assert_eq!(get(&b, "script"), Some(String::from("echo 'hello world'")));

    let mut bare = self::backend();
    bare.runtime_attributes = None;
    bare.default_cpu = None;
    bare.default_ram_mb = None;
    let b = bare.bindings(&execution(None), None);
    assert_eq!(b.len(), 1);
    assert_eq!(join_args(execution(None).args()), "echo 'hello world'");
}

#[test]
fn a_template_with_an_unbound_placeholder_is_refused() {
    let b = bindings(&[("a", "1")]);
    assert_eq!(render("x ~{a} y", &b), Ok(String::from("x 1 y")));
    assert_eq!(render("x ~{b} y", &b), Err(TemplateError::UnboundPlaceholder));
    assert_eq!(render("x ~{b y", &b), Ok(String::from("x ~{b y")));
    assert_eq!(render("x {a} ~ y", &b), Ok(String::from("x {a} ~ y")));
    let nested = bindings(&[("a", "~{b}")]);
    assert_eq!(render("~{a}", &nested), Ok(String::from("~{b}")));
}

#[test]
fn a_job_is_submitted_monitored_and_done() {
    let backend = backend();
    let bindings = backend.bindings(&execution(None), None);
    let (job, action) = backend.submit(bindings);
    match &action {
        Action::Run(command) => {
            assert_eq!(command, "bsub -q compbio -n 1 -R mem=3000 echo 'hello world'")
        }
        other => panic!("{:?}", other),
    }
    assert!(matches!(backend.kill_command(&job), Some(Err(TemplateError::UnboundPlaceholder))));

    let (job, action) = backend.step(job, output(Some(0), "JOB=42\n", "warn"));
    match &action {
        Action::SleepThenRun(5, command) => assert_eq!(command, "test -f /tmp/done-42"),
        other => panic!("{:?}", other),
    }
    assert_eq!(backend.kill_command(&job), Some(Ok(String::from("bkill 42"))));

    // The monitor command exits with 0 while the job is alive.
    let (job, action) = backend.step(job, output(Some(0), "", ""));
    assert!(matches!(&action, Action::SleepThenRun(5, command) if command == "test -f /tmp/done-42"));
    let (job, action) = backend.step(job, output(Some(0), "ignored", ""));
    assert!(matches!(&action, Action::SleepThenRun(5, _)));
    assert!(matches!(job, GenericJob::Monitoring { .. }));

    let (job, action) = backend.step(job, output(Some(1), "", ""));
    match action {
        Action::Finish(result) => {
            assert_eq!(result.status, 0);
            assert_eq!(result.stdout, "JOB=42\n");
            assert_eq!(result.stderr, "warn");
        }
        other => panic!("{:?}", other),
    }
    assert!(matches!(job, GenericJob::Terminal));
    assert_eq!(backend.kill_command(&job), None);

    let (job, action) = backend.step(job, output(Some(0), "", ""));
    assert!(matches!(job, GenericJob::Terminal));
    assert!(matches!(action, Action::Fail(BackendError::Exec(message)) if message == "the job is over"));
}

#[test]
fn the_monitor_frequency_of_the_configuration_is_used() {
    let mut backend = backend();
    backend.monitor_frequency = Some(60);
    let (job, _) = backend.submit(backend.bindings(&execution(None), None));
    let (_, action) = backend.step(job, output(Some(3), "JOB=1", ""));
    assert!(matches!(action, Action::SleepThenRun(60, _)));
}

#[test]
fn a_backend_without_monitor_is_done_after_submit() {
    let mut backend = backend();
    backend.monitor = None;
    backend.job_id_regex = None;
    let (job, _) = backend.submit(backend.bindings(&execution(None), None));
    let (job, action) = backend.step(job, output(Some(9), "out", "err"));
    match action {
        Action::Finish(result) => {
            assert_eq!(result.status, 9);
            assert_eq!(result.stdout, "out");
            assert_eq!(result.stderr, "err");
        }
        other => panic!("{:?}", other),
    }
    assert!(matches!(job, GenericJob::Terminal));
}

#[test]
fn failures_of_a_job() {
    let backend = backend();
    let start = || backend.submit(backend.bindings(&execution(None), None)).0;

    let (job, action) = backend.step(start(), output(Some(0), "no id here", ""));
    assert!(matches!(action, Action::Fail(BackendError::Template(TemplateError::NoJobId))));
    assert!(matches!(job, GenericJob::Terminal));

    // A regex that finds no id fails the execution whatever else the submit
    // command left.
    let (job, action) = backend.step(start(), output(None, "queued", ""));
    assert!(matches!(action, Action::Fail(BackendError::Template(TemplateError::NoJobId))));
    assert!(matches!(job, GenericJob::Terminal));
    let bytes = CommandOutput { code: None, stdout: b"queued".to_vec(), stderr: vec![0xc0] };
    let (_, action) = backend.step(start(), bytes);
    assert!(matches!(action, Action::Fail(BackendError::Template(TemplateError::NoJobId))));

    let (_, action) = backend.step(start(), output(None, "JOB=1", ""));
    assert!(matches!(action, Action::Fail(BackendError::Exec(m)) if m == "the command did not exit"));

    let bytes = CommandOutput { code: Some(0), stdout: vec![0xff, 0xfe], stderr: Vec::new() };
    let (_, action) = backend.step(start(), bytes);
    assert!(matches!(action, Action::Fail(BackendError::Exec(m)) if m == "the output of the command is not UTF-8"));

    let bytes = CommandOutput { code: Some(0), stdout: b"JOB=1".to_vec(), stderr: vec![0xc0] };
    let (_, action) = backend.step(start(), bytes);
    assert!(matches!(action, Action::Fail(BackendError::Exec(m)) if m == "the output of the command is not UTF-8"));

    let mut broken = self::backend();
    broken.job_id_regex = Some(String::from("JOB=(\\d+"));
    let (job, _) = broken.submit(broken.bindings(&execution(None), None));
    let (_, action) = broken.step(job, output(None, "JOB=1", ""));
    assert!(matches!(action, Action::Fail(BackendError::Template(TemplateError::InvalidRegex))));

    let mut groupless = self::backend();
    groupless.job_id_regex = Some(String::from("JOB=\\d+"));
    let (job, _) = groupless.submit(groupless.bindings(&execution(None), None));
    let (_, action) = groupless.step(job, output(Some(0), "JOB=1", ""));
    assert!(matches!(action, Action::Fail(BackendError::Template(TemplateError::NoJobId))));

    let mut unbound = self::backend();
    unbound.submit = String::from("bsub ~{nothing}");
    let (job, action) = unbound.submit(unbound.bindings(&execution(None), None));
    assert!(matches!(action, Action::Fail(BackendError::Template(TemplateError::UnboundPlaceholder))));
    assert!(matches!(job, GenericJob::Terminal));

    let mut unbound = self::backend();
    unbound.monitor = Some(String::from("bjobs ~{nothing}"));
    let (job, _) = unbound.submit(unbound.bindings(&execution(None), None));
    let (_, action) = unbound.step(job, output(Some(0), "JOB=1", ""));
    assert!(matches!(action, Action::Fail(BackendError::Template(TemplateError::UnboundPlaceholder))));

    let (job, _) = backend.step(start(), output(Some(0), "JOB=1", ""));
    let (job, action) = backend.step(job, output(None, "", ""));
    assert!(matches!(action, Action::Fail(BackendError::Exec(m)) if m == "the command did not exit"));
    assert!(matches!(job, GenericJob::Terminal));
}

#[test]
fn after_submit_takes_what_was_captured() {
    let backend = backend();
    let b = backend.bindings(&execution(None), None);
    let (job, action) = backend.after_submit(
        b,
        Some(0),
        Some(String::from("whatever")),
        Some(String::new()),
        Capture::Text(String::from("77")),
    );
    assert!(matches!(action, Action::SleepThenRun(5, command) if command == "test -f /tmp/done-77"));
    match job {
        GenericJob::Monitoring { bindings, command, result } => {
            assert_eq!(get(&bindings, "job_id"), Some(String::from("77")));
            assert_eq!(command, "test -f /tmp/done-77");
            assert_eq!(result.stdout, "whatever");
        }
        other => panic!("{:?}", other),
    }
}

#[test]
fn monitoring_ends_with_the_first_check_that_fails() {
    let backend = backend();
    let (job, _) = backend.submit(backend.bindings(&execution(None), None));
    let (mut job, mut action) = backend.step(job, output(Some(0), "JOB=5", ""));
    let codes = [0, 0, 0, 0, 2];
    let mut slept = 0u64;
    let mut checks = 0;
    for code in codes {
        match &action {
            Action::SleepThenRun(seconds, _) => slept += u64::from(*seconds),
            other => panic!("{:?}", other),
        }
        checks += 1;
        let next = backend.step(job, output(Some(code), "", ""));
        job = next.0;
        action = next.1;
    }
    assert!(matches!(action, Action::Finish(_)));
    assert!(matches!(job, GenericJob::Terminal));
    assert_eq!(checks, 5);
    assert_eq!(slept, 5 * 5);
}
