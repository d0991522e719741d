//! What a run is prepared with.

use std::path::PathBuf;

use nix::errno::Errno;
use nix::fcntl::FdFlag;
use nix::sys::wait::WaitPidFlag;

use intercept::command::{execute, prepare, Command};
use intercept::error::{spawn_message, RunError};
use intercept::fake::{fake_execution, Output};
use intercept::flags::{close_on_exec_flags, wait_flags};

fn strings(texts: &[&str]) -> Vec<String> {
    texts.iter().map(|text| text.to_string()).collect()
}

fn pairs(texts: &[(&str, &str)]) -> Vec<(String, String)> {
    texts.iter().map(|(key, value)| (key.to_string(), value.to_string())).collect()
}

#[test]
fn command_is_passed_on() {
    let call = prepare(
        Some("/bin/ls"),
        &strings(&["ls", "-l", "\u{e9}"]),
        &pairs(&[("HOME", "/root"), ("EMPTY", "")]),
    ).unwrap();
    assert_eq!("/bin/ls", call.program);
    assert_eq!(strings(&["ls", "-l", "\u{e9}"]), call.args);
    assert_eq!(strings(&["HOME=/root", "EMPTY="]), call.envs);
}

#[test]
fn path_of_the_program_becomes_a_text() {
    let command = Command {
        program: PathBuf::from("/bin").join("ls"),
        args: strings(&["ls"]),
        envs: pairs(&[("A", "b=c")]),
    };
    let call = execute(&command).unwrap();
    assert_eq!("/bin/ls", call.program);
    assert_eq!(strings(&["ls"]), call.args);
    assert_eq!(strings(&["A=b=c"]), call.envs);
}

#[test]
fn null_bytes_are_refused() {
    let error = prepare(Some("a"), &strings(&["a", "b\0"]), &pairs(&[])).unwrap_err();
    assert!(matches!(error, RunError::NullByte));
    assert_eq!("String contains null byte.", error.message());
    let error = prepare(Some("a"), &strings(&["a"]), &pairs(&[("k", "\0")])).unwrap_err();
    assert!(matches!(error, RunError::NullByte));
    let error = prepare(Some("a"), &strings(&["a"]), &pairs(&[("\0k", "v")])).unwrap_err();
    assert!(matches!(error, RunError::NullByte));
    let error = prepare(Some("a\0"), &strings(&["a"]), &pairs(&[])).unwrap_err();
    assert!(matches!(error, RunError::NullByte));
    let command = Command { program: PathBuf::from("a\0b"), args: vec![], envs: vec![] };
    assert!(matches!(execute(&command), Err(RunError::NullByte)));
}

#[test]
fn path_without_a_text_is_refused_last() {
    let error = prepare(None, &strings(&["a"]), &pairs(&[])).unwrap_err();
    assert!(matches!(error, RunError::PathText));
    assert_eq!("Path can't converted into string.", error.message());
    let error = prepare(None, &strings(&["\0"]), &pairs(&[])).unwrap_err();
    assert!(matches!(error, RunError::NullByte));
    let error = prepare(None, &strings(&[]), &pairs(&[("\0", "")])).unwrap_err();
    assert!(matches!(error, RunError::NullByte));
}

#[test]
fn first_argument_is_left_out() {
    let command = Command {
        program: PathBuf::from("cc"),
        args: strings(&["cc", "-c", "main.c"]),
        envs: vec![],
    };
    assert_eq!(strings(&["-c", "main.c"]), command.arguments());
    let command = Command { program: PathBuf::from("cc"), args: strings(&["cc"]), envs: vec![] };
    assert!(command.arguments().is_empty());
}

#[test]
fn messages_of_the_system_are_kept() {
    let error = RunError::Execve(nix::Error::Sys(Errno::EACCES));
    assert_eq!("EACCES: Permission denied", error.message());
    assert_eq!("unable to execute process: x", spawn_message("x"));
    let child = |count: usize| RunError::Child { buffer: "h\u{e9}".as_bytes().to_vec(), count };
    assert_eq!(vec![b'h', 0xc3, 0xa9], child(3).to_bytes());
    assert_eq!("h", child(1).message());
    assert_eq!("Unknown reason.", child(2).message());
    assert_eq!("h\u{e9}", child(4).message());
}

#[test]
fn wait_sees_stops_and_continuations() {
    let expected = WaitPidFlag::WCONTINUED | WaitPidFlag::WUNTRACED;
    assert_eq!(Some(expected | WaitPidFlag::WSTOPPED), wait_flags(true));
    assert_eq!(Some(expected), wait_flags(false));
}

#[test]
fn descriptor_is_closed_on_exec() {
    assert_eq!(FdFlag::FD_CLOEXEC, close_on_exec_flags(0));
    assert_eq!(FdFlag::FD_CLOEXEC, close_on_exec_flags(1));
    assert_eq!(FdFlag::FD_CLOEXEC, close_on_exec_flags(6));
    assert_eq!(1, close_on_exec_flags(-1).bits());
}

#[test]
fn missing_output_is_created() {
    let output = |exists: bool| Output { path: PathBuf::from("main.o"), exists };
    assert_eq!(
        Ok::<_, String>(Some(PathBuf::from("main.o"))),
        fake_execution(Ok(Some(output(false)))),
    );
    assert_eq!(Ok::<_, String>(None), fake_execution(Ok(Some(output(true)))));
    assert_eq!(Ok::<_, String>(None), fake_execution(Ok(None)));
    assert_eq!(Err("no compiler"), fake_execution(Err("no compiler")));
}
