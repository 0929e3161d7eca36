use crankshaft::engine::service::runner::backend::config::substitute_placeholders;
use crankshaft::engine::service::runner::backend::config::BackendType;
use crankshaft::engine::service::runner::backend::config::Bindings;
use crankshaft::engine::service::runner::backend::config::Config;
use crankshaft::engine::service::runner::backend::config::GenericBackendConfig;

fn bindings(pairs: &[(&str, &str)]) -> Bindings {
    let mut bindings = Bindings::new();
    for (name, text) in pairs {
        bindings.insert(name.to_string(), text.to_string());
    }
    bindings
}

fn lsf(submit: &str, attrs: &[(&str, &str)]) -> Config {
    Config {
        name: String::from("lsf"),
        kind: BackendType::Generic(GenericBackendConfig {
            submit: submit.to_string(),
            job_id_regex: Some(String::from("Job <(\\d+)>.*")),
            monitor: Some(String::from("check_job_alive ~{job_id}")),
            monitor_frequency: Some(5),
            kill: Some(String::from("bkill ~{job_id}")),
        }),
        default_cpu: Some(1),
        default_ram: Some(1),
        runtime_attrs: Some(bindings(attrs)),
    }
}

#[test]
fn config_lsf_example() {
    // The configuration of `lsf.toml`.
    let backend = lsf(
        "    bsub -q ~{queue} -n ~{cpu} -cwd ~{cwd} -o ~{cwd}/stdout.lsf -e ~{cwd}/stderr.lsf -R \"rusage[mem=~{memory_mb}] span[hosts=1]\" ~{script}\n",
        &[("queue", "compbio"), ("cpu", "1")],
    );
    let substitutions = backend.runtime_attrs.unwrap();

    match &backend.kind {
        BackendType::Generic(generic) => {
            let command_str = generic.submit.clone();
            let subbed = substitute_placeholders(&command_str, &substitutions);
            assert_eq!(subbed, "    bsub -q compbio -n 1 -cwd ~{cwd} -o ~{cwd}/stdout.lsf -e ~{cwd}/stderr.lsf -R \"rusage[mem=~{memory_mb}] span[hosts=1]\" ~{script}\n");
        }
        _ => panic!("expected generic backend"),
    }
}

#[test]
fn backend_config_lsf_example() {
    // The configuration of `configs/lsf.toml`.
    let backend = lsf(
        "    bsub -q ~{queue} -n ~{cpu} -g ~{job_group} -R \"rusage[mem=~{memory}] span[hosts=1]\" -cwd ~{cwd} -o ~{cwd}/execution/stdout.lsf -e ~{cwd}/execution/stderr.lsf /usr/bin/env bash ~{script}\n",
        &[("queue", "compbio"), ("cpu", "1"), ("job_group", "crankshaft")],
    );
    let substitutions = backend.runtime_attrs.unwrap();

    match &backend.kind {
        BackendType::Generic(generic) => {
            let command_str = generic.submit.clone();
            let subbed = substitute_placeholders(&command_str, &substitutions);
            assert_eq!(subbed, "    bsub -q compbio -n 1 -g crankshaft -R \"rusage[mem=~{memory}] span[hosts=1]\" -cwd ~{cwd} -o ~{cwd}/execution/stdout.lsf -e ~{cwd}/execution/stderr.lsf /usr/bin/env bash ~{script}\n");
        }
        _ => panic!("Expected generic backend"),
    }
}

#[test]
fn substitution_fills_every_bound_placeholder() {
    let m = bindings(&[("cpu", "1"), ("memory_mb", "4096"), ("script", "./run.sh")]);
    assert_eq!(
        substitute_placeholders("bsub -n ~{cpu} -R mem=~{memory_mb} ~{script}", &m),
        "bsub -n 1 -R mem=4096 ./run.sh"
    );
}

#[test]
fn substitution_does_not_read_what_it_put_out() {
    let m = bindings(&[("a", "~{b}"), ("b", "x")]);
    assert_eq!(substitute_placeholders("~{a} ~{b}", &m), "~{b} x");
}

#[test]
fn substitution_is_the_same_in_any_order_of_the_bindings() {
    let one = bindings(&[("a", "1"), ("b", "2"), ("c", "3")]);
    let other = bindings(&[("c", "3"), ("a", "1"), ("b", "2")]);
    let template = "~{a}~{b} ~{c} ~{d} ~{a";
    assert_eq!(
        substitute_placeholders(template, &one),
        substitute_placeholders(template, &other)
    );
    assert_eq!(substitute_placeholders(template, &one), "12 3 ~{d} ~{a");
}

#[test]
fn substituting_twice_changes_nothing_more() {
    let m = bindings(&[("cpu", "1"), ("script", "./run.sh")]);
    let once = substitute_placeholders("bsub -n ~{cpu} ~{script} ~{cwd}", &m);
    let twice = substitute_placeholders(&once, &m);
    assert_eq!(once, "bsub -n 1 ./run.sh ~{cwd}");
    assert_eq!(twice, once);
}

#[test]
fn substitution_edge_cases() {
    let m = bindings(&[("a", ""), ("b", "x")]);
    assert_eq!(substitute_placeholders("", &m), "");
    assert_eq!(substitute_placeholders("~{a}", &m), "");
    assert_eq!(substitute_placeholders("~~{a}{b}", &m), "~{b}");
    assert_eq!(substitute_placeholders("~{b", &m), "~{b");
    assert_eq!(substitute_placeholders("{b}~", &m), "{b}~");
    assert_eq!(substitute_placeholders("é~{b}é", &m), "éxé");
    assert_eq!(substitute_placeholders("~{}", &bindings(&[("", "empty")])), "empty");
}

#[test]
fn a_later_binding_replaces_an_earlier_one() {
    let mut m = bindings(&[("a", "1"), ("b", "2")]);
    m.insert(String::from("a"), String::from("3"));
    m.or_insert(String::from("b"), String::from("4"));
    m.or_insert(String::from("c"), String::from("5"));
    assert_eq!(m.len(), 3);
    assert_eq!(m.get("a"), Some(&String::from("3")));
    assert_eq!(m.get("b"), Some(&String::from("2")));
    assert_eq!(m.get("c"), Some(&String::from("5")));
    assert_eq!(m.get("d"), None);
    assert!(m.contains_key("c"));
    assert!(!m.contains_key("d"));
}

#[test]
fn submit_command_uses_defaults_unless_set() {
    let mut config = lsf("echo I have ~{ram} mb of ram on ~{cpu} cpu", &[]);
    config.default_ram = Some(4096);
    let mut substitutions = Bindings::new();
    assert_eq!(
        config.submit_command(&mut substitutions),
        Some(String::from("echo I have 4096 mb of ram on 1 cpu"))
    );
    let mut substitutions = bindings(&[("ram", "2")]);
    assert_eq!(
        config.submit_command(&mut substitutions),
        Some(String::from("echo I have 2 mb of ram on 1 cpu"))
    );
    assert_eq!(substitutions.get("cpu"), Some(&String::from("1")));
}

#[test]
fn bindings_are_copied_and_listed_in_the_order_of_their_names() {
    let mut m = bindings(&[("b", "2"), ("a", "1")]);
    m.insert(String::from("b"), String::from("3"));
    let copy = m.duplicate();
    m.insert(String::from("c"), String::from("4"));
    assert_eq!(
        copy.to_pairs(),
        vec![
            (String::from("b"), String::from("3")),
            (String::from("a"), String::from("1"))
        ]
    );
    assert_eq!(m.to_pairs().len(), 3);
}

#[test]
fn a_brace_in_a_value_that_ends_no_bound_name_is_left_alone() {
    let m = bindings(&[("a", "x}")]);
    for template in ["~{a}", "~{~{a}", "~{a~{a}", "~{a}~{a}}"] {
        let once = substitute_placeholders(template, &m);
        assert_eq!(substitute_placeholders(&once, &m), once);
    }
    assert_eq!(substitute_placeholders("~{~{a}", &m), "~{x}");
    // Where the text before the brace ends a bound name, a placeholder comes up.
    let closing = bindings(&[("a", "a}"), ("ba", "!")]);
    assert_eq!(substitute_placeholders("~{b~{a}", &closing), "~{ba}");
    assert_eq!(substitute_placeholders("~{ba}", &closing), "!");
}
