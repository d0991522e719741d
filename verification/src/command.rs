//! What is to be executed.

use vstd::prelude::*;
use vstd::string::*;
use vstd::utf8::*;
use std::path::PathBuf;
use crate::error::RunError;
use crate::event::texts;
use crate::outside::{path_text, path_to_str};

verus! {

/// A program with its arguments, the name of the program as the first of them, and its environment.
#[derive(Debug)]
pub struct Command {
    pub program: PathBuf,
    pub args: Vec<String>,
    pub envs: Vec<(String, String)>,
}

impl Command {
    /// The arguments without the first one, which is the name of the program.
    pub fn arguments(&self) -> (arguments: Vec<String>)
        requires
            self.args@.len() >= 1,
        ensures
            arguments@ == self.args@.skip(1),
    {
        let mut arguments: Vec<String> = Vec::new();
        for i in 1..self.args.len()
            invariant
                arguments@ == self.args@.subrange(1, i as int),
        {
            arguments.push(self.args[i].clone());
            assert(arguments@ =~= self.args@.subrange(1, i + 1));
        }
        assert(arguments@ =~= self.args@.skip(1));
        arguments
    }

    /// What the system call that replaces the program is to be given, or why it cannot be made.
    pub open spec fn call(self) -> Result<ExecCallView, RunError> {
        prepared(path_text(self.program), self.args@, self.envs@)
    }
}

/// What the system call that replaces the program is given.
#[derive(Debug)]
pub struct ExecCall {
    pub program: String,
    pub args: Vec<String>,
    pub envs: Vec<String>,
}

/// What an `ExecCall` says, with the texts as sequences of characters.
pub struct ExecCallView {
    pub program: Seq<char>,
    pub args: Seq<Seq<char>>,
    pub envs: Seq<Seq<char>>,
}

impl View for ExecCall {
    type V = ExecCallView;

    open spec fn view(&self) -> ExecCallView {
        ExecCallView {
            program: self.program@,
            args: texts(self.args@),
            envs: texts(self.envs@),
        }
    }
}

/// The text holds a null byte, so the system would not see all of it.
pub open spec fn has_null_byte(text: Seq<char>) -> bool {
    encode_utf8(text).contains(0u8)
}

/// The text by which an environment variable is passed on.
pub open spec fn env_text(env: (String, String)) -> Seq<char> {
    env.0@ + "="@ + env.1@
}

/// One of the arguments holds a null byte.
pub open spec fn has_bad_arg(args: Seq<String>) -> bool {
    exists|i: int| 0 <= i < args.len() && has_null_byte(#[trigger] args[i]@)
}

/// One of the environment variables holds a null byte.
pub open spec fn has_bad_env(envs: Seq<(String, String)>) -> bool {
    exists|i: int| 0 <= i < envs.len() && has_null_byte(env_text(#[trigger] envs[i]))
}

/// The texts by which the environment variables are passed on.
pub open spec fn env_texts(envs: Seq<(String, String)>) -> Seq<Seq<char>> {
    envs.map_values(|env: (String, String)| env_text(env))
}

impl ExecCallView {
    /// None of the texts holds a null byte.
    pub open spec fn well_formed(self) -> bool {
        &&& !has_null_byte(self.program)
        &&& forall|i: int| 0 <= i < self.args.len() ==> !has_null_byte(#[trigger] self.args[i])
        &&& forall|i: int| 0 <= i < self.envs.len() ==> !has_null_byte(#[trigger] self.envs[i])
    }
}

/// The call that passes on the program, the arguments and the environment, or why it cannot be made.
/// The program is given by the text of its path, if it has one. The arguments are looked at first,
/// then the environment, and the program last.
pub open spec fn prepared(
    program: Option<Seq<char>>,
    args: Seq<String>,
    envs: Seq<(String, String)>,
) -> Result<ExecCallView, RunError> {
    if has_bad_arg(args) || has_bad_env(envs) {
        Err(RunError::NullByte)
    } else {
        match program {
            None => Err(RunError::PathText),
            Some(text) => if has_null_byte(text) {
                Err(RunError::NullByte)
            } else {
                Ok(ExecCallView { program: text, args: texts(args), envs: env_texts(envs) })
            },
        }
    }
}

/// What a call that may have been refused says.
pub open spec fn call_view(call: Result<ExecCall, RunError>) -> Result<ExecCallView, RunError> {
    match call {
        Ok(c) => Ok(c@),
        Err(e) => Err(e),
    }
}

/// Tells whether the text holds a null byte.
fn contains_null_byte(text: &str) -> (found: bool)
    ensures
        found == has_null_byte(text@),
{
    let bytes = text.as_bytes();
    for i in 0..bytes.len()
        invariant
            bytes@ == encode_utf8(text@),
            forall|j: int| 0 <= j < i ==> bytes@[j] != 0,
    {
        if bytes[i] == 0 {
            assert(bytes@[i as int] == 0u8);
            return true;
        }
    }
    false
}

/// The arguments, if none of them holds a null byte.
fn checked_args(args: &Vec<String>) -> (checked: Option<Vec<String>>)
    ensures
        checked is Some <==> !has_bad_arg(args@),
        checked matches Some(c) ==> c@ == args@,
{
    let mut checked: Vec<String> = Vec::new();
    for i in 0..args.len()
        invariant
            checked@ == args@.take(i as int),
            forall|j: int| 0 <= j < i ==> !has_null_byte(#[trigger] args@[j]@),
    {
        if contains_null_byte(args[i].as_str()) {
            assert(has_null_byte(args@[i as int]@));
            return None;
        }
        checked.push(args[i].clone());
        assert(checked@ =~= args@.take(i + 1));
    }
    assert(args@.take(args@.len() as int) =~= args@);
    Some(checked)
}

/// The environment in the form `key=value`, if none of the texts holds a null byte.
fn checked_envs(envs: &Vec<(String, String)>) -> (checked: Option<Vec<String>>)
    ensures
        checked is Some <==> !has_bad_env(envs@),
        checked matches Some(c) ==> {
            &&& c@.len() == envs@.len()
            &&& forall|i: int| 0 <= i < envs@.len() ==> (#[trigger] c@[i])@ == env_text(envs@[i])
        },
{
    let mut checked: Vec<String> = Vec::new();
    for i in 0..envs.len()
        invariant
            checked@.len() == i,
            forall|j: int| 0 <= j < i ==> (#[trigger] checked@[j])@ == env_text(envs@[j]),
            forall|j: int| 0 <= j < i ==> !has_null_byte(env_text(#[trigger] envs@[j])),
    {
        let mut env = envs[i].0.clone();
        env.append("=");
        env.append(envs[i].1.as_str());
        if contains_null_byte(env.as_str()) {
            assert(has_null_byte(env_text(envs@[i as int])));
            return None;
        }
        checked.push(env);
    }
    Some(checked)
}

/// What to give to the system call that replaces the program. The program is given by the text of
/// its path, if it has one.
pub fn prepare(program: Option<&str>, args: &Vec<String>, envs: &Vec<(String, String)>) -> (call:
    Result<ExecCall, RunError>)
    ensures
        call_view(call) == prepared(
            match program {
                Some(text) => Some(text@),
                None => None,
            },
            args@,
            envs@,
        ),
        call matches Ok(c) ==> c@.well_formed(),
        call matches Ok(c) ==> {
            &&& program matches Some(text) && c.program@ == text@
            &&& c.args@.len() == args@.len()
            &&& forall|i: int| 0 <= i < args@.len() ==> (#[trigger] c.args@[i])@ == args@[i]@
            &&& c.envs@.len() == envs@.len()
            &&& forall|i: int|
                0 <= i < envs@.len() ==> (#[trigger] c.envs@[i])@ == envs@[i].0@ + seq!['=']
                    + envs@[i].1@
        },
{
    let args = match checked_args(args) {
        Some(checked) => checked,
        None => return Err(RunError::NullByte),
    };
    let ghost given_envs = envs@;
    let envs = match checked_envs(envs) {
        Some(checked) => checked,
        None => return Err(RunError::NullByte),
    };
    match program {
        None => Err(RunError::PathText),
        Some(program) => {
            if contains_null_byte(program) {
                return Err(RunError::NullByte);
            }
            let call = ExecCall { program: program.to_string(), args, envs };
            assert(call@.envs =~= env_texts(given_envs));
            proof {
                reveal_strlit("=");
                assert("="@ =~= seq!['=']);
            }
            assert forall|i: int| 0 <= i < call@.envs.len() implies !has_null_byte(
                #[trigger] call@.envs[i],
            ) by {
                assert(!has_null_byte(env_text(given_envs[i])));
            }
            Ok(call)
        },
    }
}

/// What to give to the system call that replaces the program, so that the command is executed.
pub fn execute(command: &Command) -> (call: Result<ExecCall, RunError>)
    ensures
        call_view(call) == command.call(),
        call matches Ok(c) ==> c@.well_formed(),
        call matches Ok(c) ==> {
            &&& path_text(command.program) == Some(c.program@)
            &&& c.args@.len() == command.args@.len()
            &&& forall|i: int|
                0 <= i < c.args@.len() ==> (#[trigger] c.args@[i])@ == command.args@[i]@
            &&& c.envs@.len() == command.envs@.len()
            &&& forall|i: int|
                0 <= i < c.envs@.len() ==> (#[trigger] c.envs@[i])@ == command.envs@[i].0@ + seq!['=']
                    + command.envs@[i].1@
        },
{
    prepare(path_to_str(&command.program), &command.args, &command.envs)
}

} // verus!
