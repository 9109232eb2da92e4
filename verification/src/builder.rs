//! The external build: the command that performs it, and what its end
//! means.
//!
//! The build is one run of `cargo doc`. It is started with the standard
//! streams of the process, waited for, and never retried: after a failure
//! the documentation that was there before stays in place.

use vstd::prelude::*;
use vstd::string::*;
use crate::text::{push_signed_decimal, signed_decimal};

verus! {

/// Why a rebuild failed.
#[derive(Debug, PartialEq, Eq)]
pub enum BuildError {
    /// The build ran and did not end with exit code 0. The code is `None`
    /// where the process ended without one, as after a signal.
    NonZeroExit(Option<i32>),
    /// The build could not be started; the text says why.
    SpawnFailed(String),
}

/// How a rebuild ended: well, or with the reason why not.
pub type RebuildOutcome = Result<(), BuildError>;

/// A program and its arguments.
#[derive(Debug)]
pub struct BuildCommand {
    pub program: String,
    pub args: Vec<String>,
}

/// The arguments of a rebuild: the subcommand, then the manifest path where
/// one was given, then the caller's own arguments in their order.
pub open spec fn build_args(extra_args: Seq<Seq<char>>, manifest: Option<Seq<char>>) -> Seq<
    Seq<char>,
> {
    match manifest {
        Some(path) => seq!["doc"@, "--manifest-path"@, path] + extra_args,
        None => seq!["doc"@] + extra_args,
    }
}

/// What the end of a build means. `spawned` is the error text where the
/// build could not be started, and else the exit code, if it left one.
pub open spec fn outcome_of(spawned: Result<Option<i32>, String>) -> RebuildOutcome {
    match spawned {
        Err(cause) => Err(BuildError::SpawnFailed(cause)),
        Ok(Some(code)) => if code == 0 {
            Ok(())
        } else {
            Err(BuildError::NonZeroExit(Some(code)))
        },
        Ok(None) => Err(BuildError::NonZeroExit(None)),
    }
}

impl BuildError {
    /// The failure in words.
    pub open spec fn text(self) -> Seq<char> {
        match self {
            BuildError::NonZeroExit(Some(code)) => "cargo doc failed with error code Some("@
                + signed_decimal(code as int) + ")"@,
            BuildError::NonZeroExit(None) => "cargo doc failed with error code None"@,
            BuildError::SpawnFailed(cause) => cause@,
        }
    }

    /// The failure in words, for the operator to read.
    pub fn message(&self) -> (out: String)
        ensures
            out@ == self.text(),
    {
        match self {
            BuildError::NonZeroExit(Some(code)) => {
                let mut out = String::from_str("cargo doc failed with error code Some(");
                push_signed_decimal(&mut out, *code);
                out.append(")");
                out
            },
            BuildError::NonZeroExit(None) => String::from_str(
                "cargo doc failed with error code None",
            ),
            BuildError::SpawnFailed(cause) => cause.clone(),
        }
    }
}

/// The command that rebuilds the documentation.
pub fn rebuild_command(extra_args: &Vec<String>, manifest: &Option<String>) -> (command:
    BuildCommand)
    ensures
        command.program@ == "cargo"@,
        command.args.deep_view() == build_args(extra_args.deep_view(), manifest.deep_view()),
{
    let mut args: Vec<String> = Vec::new();
    args.push(String::from_str("doc"));
    match manifest {
        Some(path) => {
            args.push(String::from_str("--manifest-path"));
            args.push(path.clone());
        },
        None => {},
    }
    let ghost head = args.deep_view();
    let mut i: usize = 0;
    while i < extra_args.len()
        invariant
            i <= extra_args.len(),
            args.deep_view() == head + extra_args.deep_view().subrange(0, i as int),
        decreases extra_args.len() - i,
    {
        let ghost before = args.deep_view();
        args.push(extra_args[i].clone());
        proof {
            assert(args.deep_view() == before.push(extra_args.deep_view()[i as int]));
        }
        i += 1;
    }
    BuildCommand { program: String::from_str("cargo"), args }
}

/// Tells how a build ended: with success on exit code 0, and else with the
/// error that says what went wrong.
pub fn outcome(spawned: Result<Option<i32>, String>) -> (result: RebuildOutcome)
    ensures
        result == outcome_of(spawned),
{
    match spawned {
        Err(cause) => Err(BuildError::SpawnFailed(cause)),
        Ok(Some(code)) => {
            if code == 0 {
                Ok(())
            } else {
                Err(BuildError::NonZeroExit(Some(code)))
            }
        },
        Ok(None) => Err(BuildError::NonZeroExit(None)),
    }
}

} // verus!
