use std::io;

use toktx::conv::{format_output, fresh_temp_file_name, temp_file_name};
use toktx::{Destination, ExitStatus, ProcessOutput, Swizzle, ToKtx, ToKtxError};

fn output(code: Option<i32>, stdout: &[u8], stderr: &[u8]) -> ProcessOutput {
    ProcessOutput { status: ExitStatus { code }, stdout: stdout.to_vec(), stderr: stderr.to_vec() }
}

#[test]
fn memory_invocation_writes_to_stdout() {
    let config = ToKtx { two_dee: true, ..ToKtx::default() };
    let inv = config.invocation(&Destination::Memory, "in.png");
    assert_eq!(inv.program, "toktx");
    assert!(inv.capture_stdout);
    assert_eq!(inv.args.into_vec(), vec!["--2d", "--t2", "-", "in.png"]);
}

#[test]
fn path_invocation_names_the_output() {
    let config = ToKtx { path_to_toktx: Some("/usr/local/bin/toktx".to_string()), ..ToKtx::default() };
    let inv = config.invocation(&Destination::Path("out dir/out.ktx2".to_string()), "/tmp/in.png");
    assert_eq!(inv.program, "/usr/local/bin/toktx");
    assert!(!inv.capture_stdout);
    assert_eq!(inv.args.into_vec(), vec!["--t2", "out dir/out.ktx2", "/tmp/in.png"]);
}

#[test]
fn staging_failure_is_a_source_path_error() {
    let config = ToKtx::default();
    let staged = Err(io::Error::new(io::ErrorKind::PermissionDenied, "read-only"));
    match config.command(&Destination::Memory, staged) {
        Err(ToKtxError::SourcePath(e)) => assert_eq!(e.kind(), io::ErrorKind::PermissionDenied),
        _ => panic!("expected a source path error"),
    }
    let inv = config.command(&Destination::Memory, Ok("x.png".to_string())).unwrap();
    assert_eq!(inv.args.into_vec(), vec!["--t2", "-", "x.png"]);
}

#[test]
fn missing_executable_is_a_spawn_error() {
    let reported = Err(io::Error::new(io::ErrorKind::NotFound, "no such file"));
    match format_output(reported) {
        Err(ToKtxError::Spawn(e)) => assert_eq!(e.kind(), io::ErrorKind::NotFound),
        Err(ToKtxError::ExitStatus { .. }) => panic!("a spawn failure is never an exit status error"),
        _ => panic!("expected a spawn error"),
    }
}

#[test]
fn successful_exit_gives_stdout() {
    assert_eq!(format_output(Ok(output(Some(0), b"KTX", b"warning"))).unwrap(), b"KTX".to_vec());
    assert_eq!(format_output(Ok(output(Some(0), b"", b""))).unwrap(), Vec::<u8>::new());
}

#[test]
fn failed_exit_carries_status_and_stderr() {
    match format_output(Ok(output(Some(1), b"partial", b"bad option"))) {
        Err(ToKtxError::ExitStatus { status, stderr }) => {
            assert_eq!(status, ExitStatus { code: Some(1) });
            assert_eq!(stderr, b"bad option".to_vec());
        }
        _ => panic!("expected an exit status error"),
    }
    match format_output(Ok(output(None, b"", b"killed"))) {
        Err(ToKtxError::ExitStatus { status, .. }) => assert!(!status.success()),
        _ => panic!("expected an exit status error"),
    }
}

#[test]
fn invalid_swizzle_is_refused_before_any_invocation() {
    assert_eq!(Swizzle::parse("rgbx"), Err(Some(3)));
}

#[test]
fn temp_names() {
    assert_eq!(temp_file_name(0, "id"), "toktx-rs-0-id.ktx2");
    assert_eq!(temp_file_name(4294967295, "x-y"), "toktx-rs-4294967295-x-y.ktx2");
}

#[test]
fn fresh_temp_names_are_distinct() {
    let a = fresh_temp_file_name(7);
    let b = fresh_temp_file_name(7);
    assert!(a.starts_with("toktx-rs-7-"));
    assert!(a.ends_with(".ktx2"));
    assert_eq!(a.len(), "toktx-rs-7-".len() + 36 + ".ktx2".len());
    assert_ne!(a, b);
    let id = &a["toktx-rs-7-".len()..a.len() - ".ktx2".len()];
    for (i, c) in id.chars().enumerate() {
        if [8, 13, 18, 23].contains(&i) {
            assert_eq!(c, '-');
        } else {
            assert!(c.is_ascii_hexdigit() && !c.is_ascii_uppercase());
        }
    }
}
