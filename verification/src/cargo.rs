//! Running individual cargo commands (`cargo new`): what to run, and how its exit is
//! judged.

use vstd::prelude::*;
use crate::ops::Failure;
use crate::os::{copy_units, os_string, os_units, units_view};

verus! {

/// The arguments `cargo new` is run with: colored output, then the given arguments.
pub open spec fn new_command_args(args: Seq<Seq<u16>>) -> Seq<Seq<u16>> {
    seq![os_units("new"@), os_units("--color"@), os_units("always"@)] + args
}

/// The arguments to run `cargo` with to create a package: `new --color always`
/// followed by `args`.
pub fn new_command(args: Vec<Vec<u16>>) -> (r: Vec<Vec<u16>>)
    ensures
        units_view(r@) == new_command_args(units_view(args@)),
{
    let mut r: Vec<Vec<u16>> = Vec::new();
    r.push(os_string("new"));
    r.push(os_string("--color"));
    r.push(os_string("always"));
    let mut i: usize = 0;
    while i < args.len()
        invariant
            i <= args.len(),
            units_view(r@) == seq![os_units("new"@), os_units("--color"@), os_units("always"@)] + units_view(args@).take(i as int),
        decreases args.len() - i,
    {
        let ghost before = r@;
        r.push(copy_units(&args[i]));
        assert(units_view(args@).take(i + 1) =~= units_view(args@).take(i as int).push(args@[i as int]@));
        assert(units_view(r@) =~= units_view(before).push(args@[i as int]@));
        i = i + 1;
    }
    assert(units_view(args@).take(args.len() as int) =~= units_view(args@));
    r
}

/// Why running `cargo new` failed.
pub enum CargoError {
    /// The process could not be started.
    Spawn(String),
    /// The child's standard output could not be connected to.
    NoStdout,
    /// The child's standard error could not be connected to.
    NoStderr,
    /// Relaying the child's output or waiting for it failed.
    Io(String),
    /// The process ran and reported failure.
    Unsuccessful,
}

impl CargoError {
    /// The message the error is reported with.
    pub open spec fn spec_message(&self) -> Seq<char> {
        match self {
            CargoError::Spawn(_) => "Executing cargo new"@,
            CargoError::NoStdout => "Failed to connect to child process stdout"@,
            CargoError::NoStderr => "Failed to conntect to child process stderr"@,
            CargoError::Io(m) => m@,
            CargoError::Unsuccessful => "Failed to execute cargo new"@,
        }
    }

    /// The message the error is reported with.
    pub fn message(&self) -> (m: String)
        ensures
            m@ == self.spec_message(),
    {
        match self {
            CargoError::Spawn(_) => String::from_str("Executing cargo new"),
            CargoError::NoStdout => String::from_str("Failed to connect to child process stdout"),
            CargoError::NoStderr => String::from_str("Failed to conntect to child process stderr"),
            CargoError::Io(m) => m.clone(),
            CargoError::Unsuccessful => String::from_str("Failed to execute cargo new"),
        }
    }
}

impl CargoError {
    /// The failure the error is reported as: its message, and for a process that could
    /// not be started, the reason as the cause.
    pub fn failure(&self) -> (f: Failure)
        ensures
            f.message@ == self.spec_message(),
            f.cause matches Some(c) ==> self matches CargoError::Spawn(e) && c@ == e@,
            self matches CargoError::Spawn(e) ==> f.cause matches Some(c) && c@ == e@,
    {
        let cause = match self {
            CargoError::Spawn(e) => Some(e.clone()),
            _ => None,
        };
        Failure { message: self.message(), cause }
    }
}

/// The result of `cargo new`, given whether the finished process reported success.
pub fn exit_outcome(success: bool) -> (r: Result<(), CargoError>)
    ensures
        r is Ok <==> success,
        r matches Err(e) ==> e is Unsuccessful,
{
    if success {
        Ok(())
    } else {
        Err(CargoError::Unsuccessful)
    }
}

} // verus!
