//! The command line's own logic: the name the tool was invoked by, the
//! working directory, the context commands run in, and the metadata of an
//! invocation.

pub mod merge;
pub mod mv;
pub mod status;

use crate::git::Git;
use crate::text::{chars_of, extend, lit, same, string_of};
use vstd::prelude::*;

verus! {

/// The name of the program.
pub open spec fn app_name() -> Seq<char> {
    "git-vmr"@
}

/// The name the tool is shown by in hints: `git vmr` when invoked as
/// `git-vmr` (as git runs it), else the name it was invoked by.
pub open spec fn shown_name(bin_name: Seq<char>) -> Seq<char> {
    if bin_name == app_name() {
        "git vmr"@
    } else {
        bin_name
    }
}

/// The name the tool is shown by in hints.
pub fn display_name(bin_name: &str) -> (r: String)
    ensures
        r@ == shown_name(bin_name@),
{
    if same(&chars_of(bin_name), &lit("git-vmr")) {
        string_of(&lit("git vmr"))
    } else {
        string_of(&chars_of(bin_name))
    }
}

/// A failure that the top-level command line must not render, git having
/// reported it already.
pub struct SilentError;

impl SilentError {
    /// The fallback text of a silent failure.
    pub fn message(&self) -> (r: String)
        ensures
            r@ == "command failed silently"@,
    {
        string_of(&lit("command failed silently"))
    }
}

/// The context commands run in.
pub struct CliContext {
    /// Display name of the application
    pub display_name: String,
    /// Working directory for the command
    pub working_dir: String,
    /// Whether stdout is a terminal: the one fact that gates colour and
    /// paging, so they can never disagree
    pub stdout_is_tty: bool,
    /// Whether stdout renders escape sequences
    pub stdout_supports_color: bool,
    /// Warnings raised while loading context data
    pub warnings: Vec<String>,
    /// Git operations adapter
    pub git: Git,
}

impl CliContext {
    /// A context from its parts.
    pub fn new(
        display_name: String,
        working_dir: String,
        stdout_is_tty: bool,
        stdout_supports_color: bool,
        warnings: Vec<String>,
        git: Git,
    ) -> (r: CliContext)
        ensures
            r.display_name == display_name,
            r.working_dir == working_dir,
            r.stdout_is_tty == stdout_is_tty,
            r.stdout_supports_color == stdout_supports_color,
            r.warnings == warnings,
            r.git == git,
    {
        CliContext { display_name, working_dir, stdout_is_tty, stdout_supports_color, warnings, git }
    }

    /// Warnings raised while loading context data.
    pub fn warnings(&self) -> (r: &Vec<String>)
        ensures
            r == &self.warnings,
    {
        &self.warnings
    }
}

/// What resolving the working directory needs to know of the `-C`
/// argument: its canonical form (or the error canonicalizing gave), and
/// whether that is a directory.
pub enum WorkingDirArg {
    Canonical { path: String, is_dir: bool },
    Unresolved(String),
}

/// The working directory: the canonical form of the `-C` argument, which
/// must be a directory, else the current directory.
pub fn resolve_working_dir(
    arg: &Option<String>,
    resolved: Option<WorkingDirArg>,
    current: Result<String, String>,
) -> (r: Result<String, String>)
    requires
        arg is Some <==> resolved is Some,
    ensures
        match (arg, resolved) {
            (Some(a), Some(WorkingDirArg::Canonical { path, is_dir })) => if is_dir {
                r == Ok::<String, String>(path)
            } else {
                r matches Err(e) && e@ == "fatal: cannot change to '"@ + a@ + "': Not a directory"@
            },
            (Some(a), Some(WorkingDirArg::Unresolved(cause))) => r matches Err(e) && e@
                == "fatal: cannot change to '"@ + a@ + "': "@ + cause@,
            _ => match current {
                Ok(c) => r == Ok::<String, String>(c),
                Err(cause) => r matches Err(e) && e@ == "fatal: failed to get current directory: "@
                    + cause@,
            },
        },
{
    match (arg, resolved) {
        (Some(a), Some(WorkingDirArg::Canonical { path, is_dir })) => {
            if is_dir {
                Ok(path)
            } else {
                let mut e = lit("fatal: cannot change to '");
                extend(&mut e, &chars_of(a.as_str()));
                extend(&mut e, &lit("': Not a directory"));
                Err(string_of(&e))
            }
        },
        (Some(a), Some(WorkingDirArg::Unresolved(cause))) => {
            let mut e = lit("fatal: cannot change to '");
            extend(&mut e, &chars_of(a.as_str()));
            extend(&mut e, &lit("': "));
            extend(&mut e, &chars_of(cause.as_str()));
            Err(string_of(&e))
        },
        _ => match current {
            Ok(c) => Ok(c),
            Err(cause) => {
                let mut e = lit("fatal: failed to get current directory: ");
                extend(&mut e, &chars_of(cause.as_str()));
                Err(string_of(&e))
            },
        },
    }
}

/// An argument of one command level, as parsed.
pub struct ArgUse {
    pub id: String,
    pub positional: bool,
    /// Given on the command line (not defaulted or absent)
    pub given: bool,
}

/// One level of the invoked command: its name and its arguments.
pub struct Level {
    pub name: String,
    pub args: Vec<ArgUse>,
}

/// Event metadata: the dotted command name and the names of the flags
/// explicitly given on the command line. Names only, never values;
/// positionals excluded.
#[derive(Clone, Debug, PartialEq, Eq, Default)]
pub struct CliMetadata {
    pub name: String,
    pub flags: Vec<String>,
    pub global_flags: Vec<String>,
}

/// The names of the non-positional arguments given on the command line.
pub open spec fn present(args: Seq<ArgUse>) -> Seq<Seq<char>>
    decreases args.len(),
{
    if args.len() == 0 {
        Seq::empty()
    } else {
        let rest = present(args.drop_last());
        if !args.last().positional && args.last().given {
            rest.push(args.last().id@)
        } else {
            rest
        }
    }
}

/// The dotted name of the subcommand levels.
pub open spec fn dotted(levels: Seq<Level>) -> Seq<char>
    decreases levels.len(),
{
    if levels.len() == 0 {
        Seq::empty()
    } else if levels.len() == 1 {
        levels[0].name@
    } else {
        dotted(levels.drop_last()) + "."@ + levels.last().name@
    }
}

/// The flags given at the subcommand levels, in order.
pub open spec fn level_flags(levels: Seq<Level>) -> Seq<Seq<char>>
    decreases levels.len(),
{
    if levels.len() == 0 {
        Seq::empty()
    } else {
        level_flags(levels.drop_last()) + present(levels.last().args@)
    }
}

fn present_flags(args: &Vec<ArgUse>, out: &mut Vec<String>)
    ensures
        crate::git::views(final(out)@) == crate::git::views(old(out)@) + present(args@),
{
    let ghost start = crate::git::views(out@);
    let mut i: usize = 0;
    while i < args.len()
        invariant
            i <= args.len(),
            crate::git::views(out@) == start + present(args@.take(i as int)),
        decreases args.len() - i,
    {
        assert(args@.take(i + 1).drop_last() =~= args@.take(i as int));
        let ghost before = crate::git::views(out@);
        if !args[i].positional && args[i].given {
            out.push(string_of(&chars_of(args[i].id.as_str())));
            assert(crate::git::views(out@) =~= before.push(args@[i as int].id@));
        }
        i += 1;
    }
    assert(args@.take(args.len() as int) =~= args@);
}

/// The metadata of an invocation from its levels: the top level's flags
/// are global; each subcommand level adds its name and its flags.
pub fn event_meta(top: &Vec<ArgUse>, subcommands: &Vec<Level>) -> (r: CliMetadata)
    ensures
        r.name@ == dotted(subcommands@),
        crate::git::views(r.flags@) == level_flags(subcommands@),
        crate::git::views(r.global_flags@) == present(top@),
{
    let mut global_flags: Vec<String> = Vec::new();
    present_flags(top, &mut global_flags);
    assert(crate::git::views(global_flags@) =~= present(top@));
    let mut name: Vec<char> = Vec::new();
    let mut flags: Vec<String> = Vec::new();
    let mut i: usize = 0;
    while i < subcommands.len()
        invariant
            i <= subcommands.len(),
            name@ == dotted(subcommands@.take(i as int)),
            crate::git::views(flags@) == level_flags(subcommands@.take(i as int)),
        decreases subcommands.len() - i,
    {
        let ghost t = subcommands@.take(i + 1);
        assert(t.drop_last() =~= subcommands@.take(i as int));
        if i > 0 {
            name.push('.');
        }
        extend(&mut name, &chars_of(subcommands[i].name.as_str()));
        present_flags(&subcommands[i].args, &mut flags);
        proof {
            reveal_strlit(".");
            if i == 0 {
                assert(name@ =~= dotted(t));
            } else {
                assert(name@ =~= dotted(t));
            }
        }
        i += 1;
    }
    assert(subcommands@.take(subcommands.len() as int) =~= subcommands@);
    CliMetadata { name: string_of(&name), flags, global_flags }
}

} // verus!
