//! `add`: stage paths in the child repositories that own them, or, with
//! `--all` and no paths, everything in every child repository.

use crate::git::{args_of, views, GitOutput, Repo};
use crate::render::{Failed, Rendered};
use crate::report::{FailureModel, FailureReport, SuccessModel, SuccessReport};
use crate::text::{chars_of, extend, lit, same, string_of};
use crate::workspace::{aggregated, appended, flag, flag_contains, policy_outcomes, push_if, run_reported, single_contains};
use vstd::prelude::*;

verus! {

/// Override of the executable bit of added files.
#[derive(Clone, Copy)]
pub enum ChmodMode {
    Executable,
    NotExecutable,
}

/// The value git's `--chmod` takes for a mode.
pub open spec fn chmod_value(m: ChmodMode) -> Seq<char> {
    match m {
        ChmodMode::Executable => "+x"@,
        ChmodMode::NotExecutable => "-x"@,
    }
}

/// The mode a `--chmod` value names: `+x` sets the executable bit, `-x`
/// clears it, and nothing else is a mode.
pub open spec fn chmod_named(value: Seq<char>) -> Option<ChmodMode> {
    if value == "+x"@ {
        Some(ChmodMode::Executable)
    } else if value == "-x"@ {
        Some(ChmodMode::NotExecutable)
    } else {
        None
    }
}

/// The value passed for a mode names that mode again, so the two modes
/// pass different values: `parse` and `as_git_value` are inverse.
pub proof fn chmod_value_names_its_mode(m: ChmodMode)
    ensures
        chmod_named(chmod_value(m)) == Some(m),
        chmod_value(ChmodMode::Executable) != chmod_value(ChmodMode::NotExecutable),
{
    reveal_strlit("+x");
    reveal_strlit("-x");
    assert("+x"@[0] != "-x"@[0]);
}

impl ChmodMode {
    /// The value git's `--chmod` takes.
    pub fn as_git_value(self) -> (r: Vec<char>)
        ensures
            r@ == chmod_value(self),
    {
        match self {
            ChmodMode::Executable => lit("+x"),
            ChmodMode::NotExecutable => lit("-x"),
        }
    }

    /// The mode `+x` or `-x` names; anything else is rejected.
    pub fn parse(value: &str) -> (r: Result<ChmodMode, String>)
        ensures
            value@ == "+x"@ ==> r matches Ok(ChmodMode::Executable),
            value@ == "-x"@ ==> r matches Ok(ChmodMode::NotExecutable),
            value@ != "+x"@ && value@ != "-x"@ ==> (r matches Err(e) && e@ == "expected +x or -x"@),
            match chmod_named(value@) {
                Some(m) => r matches Ok(x) && x == m,
                None => r is Err,
            },
    {
        let v = chars_of(value);
        proof {
            reveal_strlit("+x");
            reveal_strlit("-x");
            assert("-x"@[0] != "+x"@[0]);
        }
        if same(&v, &lit("+x")) {
            Ok(ChmodMode::Executable)
        } else if same(&v, &lit("-x")) {
            Ok(ChmodMode::NotExecutable)
        } else {
            Err(string_of(&lit("expected +x or -x")))
        }
    }
}

/// Add file contents to the index.
pub struct AddArgs {
    pub options: AddOptions,
    /// Files to add content from
    pub paths: Vec<String>,
}

/// How to add.
pub struct AddOptions {
    /// Allow adding otherwise ignored files
    pub force: bool,
    /// Update the index not only where the working tree has a file matching
    /// [pathspec] but also where the index already has an entry
    pub all: bool,
    /// Override the executable bit of added files
    pub chmod: Option<ChmodMode>,
}

/// `add -A` with no paths stages the entire virtual monorepo.
pub fn stages_everything(args: &AddArgs) -> (r: bool)
    ensures
        r == (args.paths@.len() == 0 && args.options.all),
{
    args.paths.len() == 0 && args.options.all
}

/// The arguments of the staging in one repository: `--all`, `--force`
/// and `--chmod=<mode>` as asked, then the repository's paths after `--`.
pub open spec fn add_query(o: AddOptions, paths: Seq<Seq<char>>) -> Seq<Seq<char>> {
    seq!["add"@] + flag(o.all, "--all"@) + flag(o.force, "--force"@) + match o.chmod {
        Some(m) => seq!["--chmod="@ + chmod_value(m)],
        None => Seq::empty(),
    } + seq!["--"@] + paths
}

/// A staging passes `--all` and `--force` exactly when asked, and
/// `--chmod=-x` exactly when the executable bit is to be cleared and
/// `--chmod=+x` exactly when it is to be set (paths aside).
pub proof fn add_flags_follow_options(o: AddOptions, paths: Seq<Seq<char>>)
    requires
        !paths.contains("--all"@),
        !paths.contains("--force"@),
        !paths.contains("--chmod=-x"@),
        !paths.contains("--chmod=+x"@),
    ensures
        add_query(o, paths).contains("--all"@) == o.all,
        add_query(o, paths).contains("--force"@) == o.force,
        add_query(o, paths).contains("--chmod=-x"@) == (o.chmod matches Some(ChmodMode::NotExecutable)),
        add_query(o, paths).contains("--chmod=+x"@) == (o.chmod matches Some(ChmodMode::Executable)),
{
    broadcast use vstd::seq_lib::lemma_seq_concat_contains_all_elements;

    reveal_strlit("add");
    reveal_strlit("--all");
    reveal_strlit("--force");
    reveal_strlit("--chmod=");
    reveal_strlit("--chmod=-x");
    reveal_strlit("--chmod=+x");
    reveal_strlit("-x");
    reveal_strlit("+x");
    reveal_strlit("--");
    assert("--chmod="@ + "-x"@ =~= "--chmod=-x"@);
    assert("--chmod="@ + "+x"@ =~= "--chmod=+x"@);
    let names = seq!["add"@, "--all"@, "--force"@, "--chmod=-x"@, "--chmod=+x"@, "--"@];
    assert forall|i: int, j: int| 0 <= i < j < 6 implies #[trigger] names[i] != #[trigger] names[j] by {
        if names[i].len() == names[j].len() {
            assert(names[i][0] != names[j][0] || names[i][2] != names[j][2] || names[i][8] != names[j][8]);
        }
    }
    let chmod = match o.chmod {
        Some(m) => seq!["--chmod="@ + chmod_value(m)],
        None => Seq::<Seq<char>>::empty(),
    };
    let flags = seq!["--all"@, "--force"@, "--chmod=-x"@, "--chmod=+x"@];
    assert forall|k: int| 0 <= k < 4 implies {
        &&& !#[trigger] seq!["add"@].contains(flags[k])
        &&& !seq!["--"@].contains(flags[k])
        &&& flag(o.all, "--all"@).contains(flags[k]) == (o.all && k == 0)
        &&& flag(o.force, "--force"@).contains(flags[k]) == (o.force && k == 1)
        &&& chmod.contains(flags[k]) == ((o.chmod matches Some(ChmodMode::NotExecutable)) && k == 2
            || (o.chmod matches Some(ChmodMode::Executable)) && k == 3)
    } by {
        assert(flags[k] == names[k + 1]);
        assert(names[0] == "add"@ && names[1] == "--all"@ && names[2] == "--force"@);
        assert(names[3] == "--chmod=-x"@ && names[4] == "--chmod=+x"@ && names[5] == "--"@);
        single_contains("add"@, flags[k]);
        single_contains("--"@, flags[k]);
        flag_contains(o.all, "--all"@, flags[k]);
        flag_contains(o.force, "--force"@, flags[k]);
        match o.chmod {
            Some(m) => single_contains("--chmod="@ + chmod_value(m), flags[k]),
            None => {},
        }
    }
    assert(flags[0] == "--all"@ && flags[1] == "--force"@ && flags[2] == "--chmod=-x"@ && flags[3]
        == "--chmod=+x"@);
    assert(add_query(o, paths) == seq!["add"@] + flag(o.all, "--all"@) + flag(o.force, "--force"@) + chmod
        + seq!["--"@] + paths);
}

/// The arguments of the staging in one repository.
pub fn add_args(options: &AddOptions, paths: &Vec<String>) -> (r: Vec<String>)
    ensures
        views(r@) == add_query(*options, views(paths@)),
{
    let mut a = args_of(&vec!["add"]);
    assert(views(a@) =~= seq!["add"@]);
    push_if(&mut a, options.all, "--all");
    push_if(&mut a, options.force, "--force");
    let ghost before = views(a@);
    match options.chmod {
        Some(m) => {
            let mut c = lit("--chmod=");
            extend(&mut c, &m.as_git_value());
            a.push(string_of(&c));
            assert(views(a@) =~= before.push(c@));
        },
        None => {},
    }
    push_if(&mut a, true, "--");
    let r = appended(a, paths);
    assert(views(r@) =~= add_query(*options, views(paths@)));
    r
}

/// The staging in each child repository that owns some of the paths
/// (`outputs[i]` from `repos[i]`): quiet, failures detailed, aggregated
/// over those repositories.
pub fn run(repos: &Vec<Repo>, outputs: &Vec<GitOutput>) -> (r: Result<Rendered, Failed>)
    requires
        repos@.len() == outputs@.len(),
    ensures
        aggregated(
            policy_outcomes(SuccessModel::Quiet, FailureModel::Detailed("add"@), repos@, outputs@),
            repos@.len(),
            r,
        ),
{
    run_reported(repos, outputs, &SuccessReport::quiet(), &FailureReport::detailed("add"))
}

} // verus!
