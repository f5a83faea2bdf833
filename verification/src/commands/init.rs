//! `init`: create an empty virtual monorepo, or reinitialize an existing
//! one, in the working directory or in a directory given relative to it.
//! The library decides the target, when it is refused, whether the VMR is
//! created or reinitialized, and what is reported.

use crate::paths::{join_path, path_join};
use crate::render::Rendered;
use crate::text::{chars_of, extend, lit, string_of};
use vstd::prelude::*;

verus! {

/// Create an empty virtual monorepo or reinitialize an existing one.
pub struct InitArgs {
    /// If you provide a directory, the command is run inside it. If this
    /// directory does not exist, it will be created
    pub directory: Option<String>,
}

/// The directory `init` works in: the given directory resolved against
/// the working directory, else the working directory.
pub open spec fn init_target(working_dir: Seq<char>, directory: Option<Seq<char>>) -> Seq<char> {
    match directory {
        Some(d) => path_join(working_dir, d),
        None => working_dir,
    }
}

/// The directory `init` works in.
pub fn resolve_target_dir(working_dir: &str, directory: Option<&str>) -> (r: String)
    ensures
        r@ == init_target(working_dir@, match directory {
            Some(d) => Some(d@),
            None => None,
        }),
{
    match directory {
        Some(d) => join_path(working_dir, d),
        None => string_of(&chars_of(working_dir)),
    }
}

/// The error of a target that exists and is not a directory.
pub open spec fn not_a_directory(target: Seq<char>) -> Seq<char> {
    "fatal: cannot initialize '"@ + target + "': Not a directory"@
}

/// Refuses a target that exists and is not a directory.
pub fn check_target(target: &str, exists: bool, is_dir: bool) -> (r: Result<(), String>)
    ensures
        exists && !is_dir ==> (r matches Err(e) && e@ == not_a_directory(target@)),
        !(exists && !is_dir) ==> r is Ok,
{
    if exists && !is_dir {
        let mut e = lit("fatal: cannot initialize '");
        extend(&mut e, &chars_of(target));
        extend(&mut e, &lit("': Not a directory"));
        Err(string_of(&e))
    } else {
        Ok(())
    }
}

/// What the failure to create the target directory reports, before the
/// cause.
pub fn creation_failure(target: &str) -> (r: String)
    ensures
        r@ == "fatal: failed to create init directory '"@ + target@ + "'"@,
{
    let mut e = lit("fatal: failed to create init directory '");
    extend(&mut e, &chars_of(target));
    extend(&mut e, &lit("'"));
    string_of(&e)
}

/// Whether `init` created the VMR or found one.
#[derive(Clone, Copy)]
pub enum InitOutcome {
    Created,
    Reinitialized,
}

/// A VMR is reinitialized when its configuration file exists, else
/// created (with the default configuration).
pub fn init_outcome(config_is_file: bool) -> (r: InitOutcome)
    ensures
        config_is_file <==> r is Reinitialized,
{
    if config_is_file {
        InitOutcome::Reinitialized
    } else {
        InitOutcome::Created
    }
}

/// The VMR marker directory of a target.
pub open spec fn marker_dir(target: Seq<char>) -> Seq<char> {
    path_join(target, ".gitvmr"@)
}

/// The marker directory of a target.
pub fn marker_dir_of(target: &str) -> (r: String)
    ensures
        r@ == marker_dir(target@),
{
    join_path(target, ".gitvmr")
}

/// What `init` reports.
pub open spec fn init_message(target: Seq<char>, outcome: InitOutcome) -> Seq<char> {
    match outcome {
        InitOutcome::Created => "Created .gitvmr in "@ + target + "\n"@,
        InitOutcome::Reinitialized => "Reinitialized existing virtual monorepo in "@ + marker_dir(
            target,
        ) + "/\n"@,
    }
}

/// What `init` reports, as its output.
pub fn report(target: &str, outcome: InitOutcome) -> (r: Rendered)
    ensures
        r.stdout@ == init_message(target@, outcome),
        r.stderr@.len() == 0,
        r.pager is None,
{
    match outcome {
        InitOutcome::Created => {
            let mut m = lit("Created .gitvmr in ");
            extend(&mut m, &chars_of(target));
            extend(&mut m, &lit("\n"));
            Rendered::from_stdout(m)
        },
        InitOutcome::Reinitialized => {
            let mut m = lit("Reinitialized existing virtual monorepo in ");
            extend(&mut m, &chars_of(marker_dir_of(target).as_str()));
            extend(&mut m, &lit("/\n"));
            Rendered::from_stdout(m)
        },
    }
}

} // verus!
