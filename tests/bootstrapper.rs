use laravel_lsp::{joined_path, launch_command, BootstrapError, ResourceBootstrapper, Step};

const PAYLOAD: &[u8] = b"<?php\necho 'language server';\n";
const NAME: &str = "laravel-lsp.php";

fn fresh() -> ResourceBootstrapper {
    ResourceBootstrapper::new(PAYLOAD.to_vec(), NAME.to_string())
}

fn write_step(b: &ResourceBootstrapper) -> (String, Vec<u8>) {
    match b.begin() {
        Step::Write { file_name, contents } => (file_name, contents),
        Step::Ready(p) => panic!("expected a write, got the cached path {p}"),
    }
}

fn materialize(b: &mut ResourceBootstrapper, dir: &str) -> String {
    write_step(b);
    assert!(b.after_write(Ok(())).is_ok());
    b.after_dir(Ok(dir.to_string())).expect("directory resolves")
}

#[test]
fn join_adds_one_separator() {
    assert_eq!(joined_path("/work/app", NAME), "/work/app/laravel-lsp.php");
}

#[test]
fn join_keeps_trailing_separator() {
    assert_eq!(joined_path("/", NAME), "/laravel-lsp.php");
    assert_eq!(joined_path("/work/", NAME), "/work/laravel-lsp.php");
}

#[test]
fn join_with_empty_directory_is_the_name() {
    assert_eq!(joined_path("", NAME), "laravel-lsp.php");
}

#[test]
fn launch_command_shape() {
    let c = launch_command("php", &vec![], "/work/laravel-lsp.php");
    assert_eq!(c.command, "/usr/bin/env");
    assert_eq!(c.args, vec!["php".to_string(), "/work/laravel-lsp.php".to_string()]);
    assert!(c.env.is_empty());
}

#[test]
fn launch_command_puts_extra_args_before_script() {
    let extra = vec!["-d".to_string(), "memory_limit=-1".to_string()];
    let c = launch_command("php8.3", &extra, "/s.php");
    assert_eq!(c.args, vec!["php8.3", "-d", "memory_limit=-1", "/s.php"]);
}

#[test]
fn fresh_instance_writes_the_payload() {
    let b = fresh();
    assert!(b.cached_path().is_none());
    let (file_name, contents) = write_step(&b);
    assert_eq!(file_name, NAME);
    assert_eq!(contents, PAYLOAD.to_vec());
}

#[test]
fn empty_payload_is_written_empty() {
    let b = ResourceBootstrapper::new(Vec::new(), NAME.to_string());
    let (_, contents) = write_step(&b);
    assert!(contents.is_empty());
}

#[test]
fn repeated_requests_write_once_and_agree() {
    let mut b = fresh();
    let first = materialize(&mut b, "/work");
    assert_eq!(first, "/work/laravel-lsp.php");
    for _ in 0..5 {
        match b.begin() {
            Step::Ready(p) => assert_eq!(p, first),
            Step::Write { .. } => panic!("wrote a second time"),
        }
    }
    assert_eq!(b.after_dir(Ok("/elsewhere".to_string())).ok(), Some(first.clone()));
    assert_eq!(b.after_dir(Err("gone".to_string())).ok(), Some(first.clone()));
    assert_eq!(b.cached_path(), Some(first));
}

#[test]
fn new_instance_rewrites_over_stale_file() {
    let mut old = fresh();
    materialize(&mut old, "/work");
    let b = ResourceBootstrapper::new(b"fresh".to_vec(), NAME.to_string());
    let (file_name, contents) = write_step(&b);
    assert_eq!(file_name, NAME);
    assert_eq!(contents, b"fresh".to_vec());
}

#[test]
fn command_runs_the_materialized_path() {
    let mut b = fresh();
    assert!(b.launch("php", &vec![]).is_none());
    let path = materialize(&mut b, "/home/dev/project");
    let c = b.launch("php", &vec![]).expect("script is written");
    assert_eq!(c.command, "/usr/bin/env");
    assert_eq!(c.args, vec!["php".to_string(), path]);
    assert!(c.env.is_empty());
}

#[test]
fn unresolvable_directory_leaves_cache_empty() {
    let mut b = fresh();
    write_step(&b);
    assert!(b.after_write(Ok(())).is_ok());
    match b.after_dir(Err("No such file or directory".to_string())) {
        Err(BootstrapError::WorkingDirectoryUnresolvable(c)) => assert_eq!(c, "No such file or directory"),
        _ => panic!("expected an unresolvable directory"),
    }
    assert!(b.cached_path().is_none());
    let path = materialize(&mut b, "/work");
    assert_eq!(path, "/work/laravel-lsp.php");
    assert_eq!(b.cached_path(), Some(path));
}

#[test]
fn failed_write_leaves_cache_empty() {
    let mut b = fresh();
    write_step(&b);
    match b.after_write(Err("Permission denied".to_string())) {
        Err(BootstrapError::WriteFailed(c)) => assert_eq!(c, "Permission denied"),
        _ => panic!("expected a write failure"),
    }
    assert!(b.cached_path().is_none());
    let path = materialize(&mut b, "/work");
    assert_eq!(b.cached_path(), Some(path));
}

#[test]
fn error_messages_name_the_failed_step() {
    let w = BootstrapError::WriteFailed("Permission denied".to_string());
    assert_eq!(w.message(), "Failed to write LSP script: Permission denied");
    let d = BootstrapError::WorkingDirectoryUnresolvable("No such file".to_string());
    assert_eq!(d.message(), "Failed to get current directory: No such file");
}
