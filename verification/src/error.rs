//! Why a command could not be run, or its end could not be seen.

use vstd::prelude::*;
use vstd::slice::slice_subrange;
use vstd::string::*;
use vstd::utf8::*;
use std::path::PathBuf;
use crate::outside::{
    nix_error_message, nix_error_text, path_debug, path_debug_text,
};

verus! {

/// An error of this library. A variant that stems from a failed call carries the error of the call.
#[derive(Debug)]
pub enum RunError {
    /// The working directory of this process is not known.
    CurrentDirectory(std::io::Error),
    /// The pipe between parent and child could not be created.
    Pipe(nix::Error),
    /// The child could not be forked.
    Fork(nix::Error),
    /// The parent could not read from the pipe.
    PipeRead(nix::Error),
    /// The child could not execute the program: the buffer that the parent read its message into, and
    /// how many bytes were read.
    Child { buffer: Vec<u8>, count: usize },
    /// A text that the system takes up to its first null byte holds one.
    NullByte,
    /// The path of the program is not Unicode.
    PathText,
    /// The system call that replaces the program failed.
    Execve(nix::Error),
    /// The system call that replaces the program came back without an error.
    Execved,
    /// The child could not be waited for.
    Wait(nix::Error),
    /// The program could not be started.
    Spawn { program: PathBuf, cause: std::io::Error },
    /// The started program could not be waited for.
    WaitSpawned(std::io::Error),
}

/// The bytes that were read into a buffer.
pub open spec fn read_bytes(buffer: Seq<u8>, count: usize) -> Seq<u8> {
    if count <= buffer.len() {
        buffer.take(count as int)
    } else {
        buffer
    }
}

/// The message of the child: the text of the bytes that were read, if they are UTF-8.
pub open spec fn child_message(bytes: Seq<u8>) -> Seq<char> {
    if valid_utf8(bytes) {
        decode_utf8(bytes)
    } else {
        "Unknown reason."@
    }
}

/// The message that a program could not be started.
pub open spec fn spawn_text(program: Seq<char>) -> Seq<char> {
    "unable to execute process: "@ + program
}

/// The message that a program could not be started.
pub fn spawn_message(program: &str) -> (message: String)
    ensures
        message@ == spawn_text(program@),
{
    let mut message = "unable to execute process: ".to_string();
    message.append(program);
    message
}

impl RunError {
    /// The message of the error.
    pub open spec fn text(self) -> Seq<char> {
        match self {
            RunError::CurrentDirectory(_) => "Unable to get current working directory"@,
            RunError::Pipe(_) => "Unable to create pipe."@,
            RunError::Fork(_) => "Fork process failed."@,
            RunError::PipeRead(_) => "Read from pipe failed."@,
            RunError::Child { buffer, count } => child_message(read_bytes(buffer@, count)),
            RunError::NullByte => "String contains null byte."@,
            RunError::PathText => "Path can't converted into string."@,
            RunError::Execve(cause) => nix_error_text(cause),
            RunError::Execved => "Never gonna happen"@,
            RunError::Wait(_) => "Process creation failed."@,
            RunError::Spawn { program, .. } => spawn_text(
                path_debug_text(program),
            ),
            RunError::WaitSpawned(_) => "Waiting for process failed."@,
        }
    }

    /// The message of the error.
    pub fn message(&self) -> (message: String)
        ensures
            message@ == self.text(),
    {
        match self {
            RunError::CurrentDirectory(_) => "Unable to get current working directory".to_string(),
            RunError::Pipe(_) => "Unable to create pipe.".to_string(),
            RunError::Fork(_) => "Fork process failed.".to_string(),
            RunError::PipeRead(_) => "Read from pipe failed.".to_string(),
            RunError::Child { buffer, count } => {
                let bytes = if *count <= buffer.len() {
                    slice_subrange(buffer.as_slice(), 0, *count)
                } else {
                    buffer.as_slice()
                };
                match std::str::from_utf8(bytes) {
                    Ok(text) => text.to_string(),
                    Err(_) => "Unknown reason.".to_string(),
                }
            },
            RunError::NullByte => "String contains null byte.".to_string(),
            RunError::PathText => "Path can't converted into string.".to_string(),
            RunError::Execve(cause) => nix_error_message(cause),
            RunError::Execved => "Never gonna happen".to_string(),
            RunError::Wait(_) => "Process creation failed.".to_string(),
            RunError::Spawn { program, .. } => spawn_message(path_debug(program).as_str()),
            RunError::WaitSpawned(_) => "Waiting for process failed.".to_string(),
        }
    }

    /// The message of the error, as the child sends it to its parent.
    pub fn to_bytes(&self) -> (bytes: Vec<u8>)
        ensures
            bytes@ == encode_utf8(self.text()),
    {
        self.message().as_str().as_bytes_vec()
    }
}

} // verus!
