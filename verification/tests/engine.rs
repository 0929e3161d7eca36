use crankshaft::engine::service::runner::Handle;
use crankshaft::engine::service::runner::Runner;
use crankshaft::engine::task::execution::Execution;
use crankshaft::engine::Engine;
use crankshaft::engine::Progress;
use crankshaft::engine::Task;

fn task(name: &str) -> Task {
    Task::builder()
        .name(name.to_string())
        .unwrap()
        .extend_executors(vec![Execution::builder()
            .image(String::from("ubuntu"))
            .args(vec![String::from("echo"), String::from("hi")])
            .try_build()
            .unwrap()])
        .unwrap()
        .try_build()
        .unwrap()
}

#[test]
fn a_registered_backend_takes_submissions() {
    let mut engine = Engine::empty().with_backend(String::from("b"), 1u8);
    assert!(engine.contains("b"));
    assert!(!engine.contains("missing"));
    assert_eq!(engine.position("missing"), None);
    let handle = engine.submit("b", task("one"), 10);
    assert_eq!(handle, Handle { runner: 0, ticket: 0 });
    let handle = engine.submit("b", task("two"), 11);
    assert_eq!(handle, Handle { runner: 0, ticket: 1 });
}

#[test]
fn names_keep_the_order_of_their_registration() {
    let mut engine = Engine::new_with_backend(String::from("docker"), 1u8)
        .with_backend(String::from("tes"), 2u8)
        .with_backend(String::from("lsf"), 3u8);
    assert_eq!(engine.runners(), vec!["docker", "tes", "lsf"]);
    assert_eq!(engine.position("tes"), Some(1));
    let first = engine.submit("tes", task("t1"), 1);
    let second = engine.submit("lsf", task("l1"), 2);
    let third = engine.submit("tes", task("t2"), 3);
    assert_eq!(first, Handle { runner: 1, ticket: 0 });
    assert_eq!(second, Handle { runner: 2, ticket: 0 });
    assert_eq!(third, Handle { runner: 1, ticket: 1 });

    let runners = engine.run();
    assert_eq!(runners.len(), 3);
    let mut seen = Vec::new();
    for runner in runners {
        let pending = runner.pending();
        let (name, backend, tasks) = runner.into_parts();
        assert_eq!(tasks.len(), pending);
        let names: Vec<(String, i32)> = tasks
            .iter()
            .map(|(task, reply)| (task.name().unwrap().clone(), *reply))
            .collect();
        seen.push((name, backend, names));
    }
    assert_eq!(
        seen,
        vec![
            (String::from("docker"), 1u8, Vec::new()),
            (
                String::from("tes"),
                2u8,
                vec![(String::from("t1"), 1), (String::from("t2"), 3)]
            ),
            (String::from("lsf"), 3u8, vec![(String::from("l1"), 2)]),
        ]
    );
}

#[test]
fn a_second_registration_of_a_name_replaces_the_first() {
    let mut engine = Engine::empty()
        .with_backend(String::from("a"), 1u8)
        .with_backend(String::from("b"), 2u8);
    engine.submit("a", task("dropped"), 0);
    let mut engine = engine.with_backend(String::from("a"), 3u8);
    assert_eq!(engine.runners(), vec!["a", "b"]);
    engine.submit("a", task("kept"), 0);
    let runners = engine.run();
    assert_eq!(*runners[0].backend(), 3u8);
    assert_eq!(runners[0].name(), "a");
    assert_eq!(runners[0].pending(), 1);
    assert_eq!(*runners[1].backend(), 2u8);
}

#[test]
fn a_runner_queues_what_is_submitted() {
    let mut runner = Runner::new(String::from("docker"), ());
    assert_eq!(runner.pending(), 0);
    assert_eq!(runner.submit(task("a"), 'a'), 0);
    assert_eq!(runner.submit(task("b"), 'b'), 1);
    assert_eq!(runner.pending(), 2);
}

#[test]
fn progress_counts_finished_tasks() {
    let mut progress = Progress::new(2);
    assert!(!progress.is_finished());
    assert_eq!(progress.advance(), "task #1");
    assert!(!progress.is_finished());
    assert_eq!(progress.advance(), "task #2");
    assert!(progress.is_finished());
    assert_eq!(progress, Progress { len: 2, pos: 2 });
    assert!(Progress::new(0).is_finished());
    let mut full = Progress { len: u64::MAX, pos: u64::MAX };
    assert_eq!(full.advance(), "task #18446744073709551616");
    assert_eq!(full.pos, u64::MAX);
}

#[test]
fn a_submission_fails_exactly_if_the_name_is_not_registered() {
    let mut engine = Engine::empty().with_backend(String::from("b"), 1u8);
    let taken = engine.try_submit("b", task("one"), 'x').unwrap();
    assert_eq!(taken, Handle { runner: 0, ticket: 0 });
    let failed = engine.try_submit("missing", task("two"), 'y').unwrap_err();
    assert_eq!(failed.0, "missing");
    assert_eq!(failed.to_string(), "backend not found: missing");
    assert_eq!(engine.runners(), vec!["b"]);
    let runners = engine.run();
    assert_eq!(runners.len(), 1);
    assert_eq!(runners[0].pending(), 1);
    let mut empty: Engine<u8, char> = Engine::empty();
    assert!(empty.try_submit("b", task("three"), 'z').is_err());
}
