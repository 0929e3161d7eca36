use crankshaft::engine::config::Config;
use crankshaft::engine::service::runner::backend;
use crankshaft::engine::service::runner::backend::config::BackendType;
use crankshaft::engine::service::runner::backend::config::Bindings;
use crankshaft::engine::service::runner::backend::config::GenericBackendConfig;

fn generic(name: &str, submit: &str, default_ram: Option<u32>) -> backend::Config {
    backend::Config {
        name: name.to_string(),
        kind: BackendType::Generic(GenericBackendConfig {
            submit: submit.to_string(),
            job_id_regex: None,
            monitor: None,
            monitor_frequency: None,
            kill: None,
        }),
        default_cpu: None,
        default_ram,
        runtime_attrs: None,
    }
}

/// The configuration of `generic.toml`.
fn fixture() -> Config {
    Config {
        backends: vec![
            generic("generic", "echo Hello ~{name}", None),
            generic("with-defaults", "echo I have ~{ram} mb of ram", Some(4096)),
        ],
    }
}

/// What a shell writes when it runs the submit command of a backend, which
/// is an `echo`: the words behind it and a newline.
fn submit(backend: &backend::Config, substitutions: &mut Bindings) -> String {
    let command = backend
        .submit_command(substitutions)
        .expect("Get output from generic backend");
    let words = command.strip_prefix("echo ").expect("an echo");
    format!("{words}\n")
}

#[test]
fn config_simple_generic_config_loads_and_runs() {
    let config = fixture();
    let backend = &config.backends[0];
    let mut substitutions = Bindings::new();
    substitutions.insert("name".to_string(), "Kids24".to_string());

    assert_eq!(
        backend.submit_command(&mut substitutions),
        Some(String::from("echo Hello Kids24"))
    );
    let stdout = submit(backend, &mut substitutions);
    assert_eq!(&stdout, "Hello Kids24\n");
}

#[test]
fn config_generic_config_with_defaults_uses_them() {
    let config = fixture();
    let backend = &config.backends[1];
    let mut substitutions = Bindings::new();

    assert_eq!(
        backend.submit_command(&mut substitutions),
        Some(String::from("echo I have 4096 mb of ram"))
    );
    let stdout = submit(backend, &mut substitutions);
    assert_eq!(&stdout, "I have 4096 mb of ram\n");
}

#[test]
fn config_generic_config_with_defaults_and_parameters_set_uses_parameters() {
    let config = fixture();
    let backend = &config.backends[1];
    let mut substitutions = Bindings::new();
    substitutions.insert("ram".to_string(), 2.to_string());

    assert_eq!(
        backend.submit_command(&mut substitutions),
        Some(String::from("echo I have 2 mb of ram"))
    );
    let stdout = submit(backend, &mut substitutions);
    assert_eq!(&stdout, "I have 2 mb of ram\n");
}

#[test]
fn backend_config_simple_generic_config_loads_and_runs() {
    let config = fixture();
    let backend = &config.backends[0];
    let mut substitutions = Bindings::new();
    substitutions.insert("name".to_string(), "Kids24".to_string());

    assert_eq!(
        backend.submit_command(&mut substitutions),
        Some(String::from("echo Hello Kids24"))
    );
    let output = submit(backend, &mut substitutions);
    assert_eq!(output.as_bytes(), b"Hello Kids24\n");
}

#[test]
fn backend_config_generic_config_with_defaults_uses_them() {
    let config = fixture();
    let backend = &config.backends[1];
    let mut substitutions = Bindings::new();

    assert_eq!(
        backend.submit_command(&mut substitutions),
        Some(String::from("echo I have 4096 mb of ram"))
    );
    let output = submit(backend, &mut substitutions);
    assert_eq!(output.as_bytes(), b"I have 4096 mb of ram\n");
}

#[test]
fn backend_config_generic_config_with_defaults_and_parameters_set_uses_parameters() {
    let config = fixture();
    let backend = &config.backends[1];
    let mut substitutions = Bindings::new();
    substitutions.insert("ram".to_string(), 2.to_string());

    assert_eq!(
        backend.submit_command(&mut substitutions),
        Some(String::from("echo I have 2 mb of ram"))
    );
    let output = submit(backend, &mut substitutions);
    assert_eq!(output.as_bytes(), b"I have 2 mb of ram\n");
}
