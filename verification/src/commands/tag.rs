//! `tag`: list the tags of the child repositories, grouped by name, or
//! create or delete a tag in each of them.

use crate::git::{
    args_of, stdout_failure, stdout_or_error, views, GitOutput, OutcomeView, Repo, RepoOutcome,
};
use crate::group::{pair_views, sorted_set};
use crate::render::{
    aggregate, grouped_lines, grouped_lines_of, outcome_pairs, outcome_views, outcomes, Failed,
    Rendered, RunError,
};
use crate::report::{
    command_result, reported_outcome, FailureModel, FailureReport, OnEmpty, Streams,
    SuccessModel, SuccessReport,
};
use crate::text::{chars_of, extend, lines, lines_of, lit, string_of};
use vstd::prelude::*;

verus! {

/// Create, list, delete or verify tags.
pub struct TagArgs {
    /// Delete existing tags with the given names
    pub delete: bool,
    /// The name of the tag to create, delete, or describe
    pub tag_name: Option<String>,
}

/// What a `tag` invocation asks for.
pub enum TagAction {
    List,
    Create(String),
    Delete(String),
}

impl TagArgs {
    /// What the arguments ask for: a name creates the tag, or deletes it
    /// with `--delete`; no name lists the tags. `--delete` requires a name.
    pub fn action(&self) -> (r: TagAction)
        requires
            self.tag_name is Some || !self.delete,
        ensures
            match self.tag_name {
                Some(n) => if self.delete {
                    r matches TagAction::Delete(m) && m@ == n@
                } else {
                    r matches TagAction::Create(m) && m@ == n@
                },
                None => r is List,
            },
    {
        match &self.tag_name {
            Some(n) => if self.delete {
                TagAction::Delete(string_of(&chars_of(n.as_str())))
            } else {
                TagAction::Create(string_of(&chars_of(n.as_str())))
            },
            None => TagAction::List,
        }
    }
}

/// The arguments of the tag listing query.
pub open spec fn tags_query() -> Seq<Seq<char>> {
    seq!["for-each-ref"@, "--format=%(refname:short)"@, "refs/tags"@]
}

/// The arguments of what `action` runs in each child repository: the tag
/// listing query, `tag <name>` or `tag -d <name>`.
pub open spec fn tag_query(action: TagAction) -> Seq<Seq<char>> {
    match action {
        TagAction::List => tags_query(),
        TagAction::Create(n) => seq!["tag"@, n@],
        TagAction::Delete(n) => seq!["tag"@, "-d"@, n@],
    }
}

/// Deleting a tag passes `-d`; creating one never does; either way the
/// tag named is the last argument.
pub proof fn tag_deletes_exactly_when_asked(n: String)
    requires
        n@ != "-d"@,
    ensures
        tag_query(TagAction::Delete(n)).contains("-d"@),
        !tag_query(TagAction::Create(n)).contains("-d"@),
        tag_query(TagAction::Delete(n)).last() == n@,
        tag_query(TagAction::Create(n)).last() == n@,
{
    reveal_strlit("tag");
    reveal_strlit("-d");
    assert("tag"@.len() != "-d"@.len());
    let d = tag_query(TagAction::Delete(n));
    let c = tag_query(TagAction::Create(n));
    assert(d[1] == "-d"@);
    assert(!c.contains("-d"@)) by {
        if c.contains("-d"@) {
            let i = choose|i: int| 0 <= i < c.len() && c[i] == "-d"@;
            assert(i == 0 || i == 1);
        }
    }
}

/// The arguments of what `action` runs in each child repository.
pub fn invocation(action: &TagAction) -> (r: Vec<String>)
    ensures
        views(r@) == tag_query(*action),
{
    let r = match action {
        TagAction::List => args_of(&vec!["for-each-ref", "--format=%(refname:short)", "refs/tags"]),
        TagAction::Create(n) => args_of(&vec!["tag", n.as_str()]),
        TagAction::Delete(n) => args_of(&vec!["tag", "-d", n.as_str()]),
    };
    assert(views(r@) =~= tag_query(*action));
    r
}

/// The context of a failed tag listing.
pub open spec fn tags_context(path: Seq<char>) -> Seq<char> {
    "fatal: failed to read tag information for '"@ + path + "'"@
}

/// The tags of `repo` from the listing query's output, one per line, or
/// the error of the failed query.
pub fn repo_tags(repo: &Repo, output: &GitOutput) -> (r: Result<(String, Vec<String>), String>)
    ensures
        output.succeeded() ==> (r matches Ok(t) && t.0@ == repo.name@ && views(t.1@) == lines(
            output.stdout@,
        )),
        !output.succeeded() ==> (r matches Err(e) && e@ == tags_context(repo.path@) + ": "@
            + stdout_failure(tags_query(), repo.path@, output.stderr@)),
{
    let args = invocation(&TagAction::List);
    match stdout_or_error(&args, repo.path.as_str(), output) {
        Ok(out) => {
            let ls = lines_of(&chars_of(out.as_str()));
            let mut tags: Vec<String> = Vec::new();
            let mut i: usize = 0;
            while i < ls.len()
                invariant
                    i <= ls.len(),
                    ls@.len() == lines(out@).len(),
                    forall|k: int| 0 <= k < ls@.len() ==> #[trigger] ls@[k]@ == lines(out@)[k],
                    views(tags@) == lines(out@).take(i as int),
                decreases ls.len() - i,
            {
                let ghost before = views(tags@);
                tags.push(string_of(&ls[i]));
                assert(views(tags@) =~= before.push(ls@[i as int]@));
                assert(lines(out@).take(i + 1) =~= lines(out@).take(i as int).push(
                    lines(out@)[i as int],
                ));
                i += 1;
            }
            assert(lines(out@).take(ls.len() as int) =~= lines(out@));
            Ok((string_of(&chars_of(repo.name.as_str())), tags))
        },
        Err(e) => {
            let mut m = lit("fatal: failed to read tag information for '");
            extend(&mut m, &chars_of(repo.path.as_str()));
            extend(&mut m, &lit("': "));
            extend(&mut m, &chars_of(e.as_str()));
            proof {
                reveal_strlit("'");
                reveal_strlit(": ");
                reveal_strlit("': ");
                assert(m@ =~= tags_context(repo.path@) + ": "@ + stdout_failure(
                    tags_query(),
                    repo.path@,
                    output.stderr@,
                ));
            }
            Err(string_of(&m))
        },
    }
}

/// The outcome of `tag <name>` or `tag -d <name>` in `repo`: a created tag
/// is quiet, a deleted one reports git's first stdout line (else `git tag
/// deleted`); a failure reports the first stderr line (else `git tag
/// failed`).
pub fn tag_outcome(repo: &Repo, output: &GitOutput, delete: bool) -> (r: RepoOutcome)
    ensures
        r@ == reported_outcome(
            tag_success(delete),
            FailureModel::Line(Streams::StderrOnly, "git tag failed"@),
            *repo,
            *output,
        ),
{
    let success = if delete {
        SuccessReport::line(Streams::StdoutOnly, OnEmpty::Text(string_of(&lit("git tag deleted"))))
    } else {
        SuccessReport::quiet()
    };
    assert(success@ == tag_success(delete));
    command_result(repo, output, success, FailureReport::line(Streams::StderrOnly, "git tag failed"))
}

/// The tag-repository pairs of the listings.
pub open spec fn tag_pairs(listings: Seq<(Seq<char>, Seq<Seq<char>>)>) -> Seq<(Seq<char>, Seq<char>)>
    decreases listings.len(),
{
    if listings.len() == 0 {
        Seq::empty()
    } else {
        tag_pairs(listings.drop_last()) + listings.last().1.map_values(
            |t: Seq<char>| (t, listings.last().0),
        )
    }
}

/// The tag list: one line per tag name, in name order, with the suffix of
/// the repositories that have it when not all of them do.
pub open spec fn tags_text(listings: Seq<(Seq<char>, Seq<Seq<char>>)>) -> Seq<char> {
    grouped_lines(tag_pairs(listings), listings.len())
}

/// The listings as text.
pub open spec fn listing_views(v: Seq<(String, Vec<String>)>) -> Seq<(Seq<char>, Seq<Seq<char>>)> {
    v.map_values(|l: (String, Vec<String>)| (l.0@, views(l.1@)))
}

/// Renders the tag list grouped across child repositories, in tag name
/// order.
pub fn render(repos: &Vec<(String, Vec<String>)>) -> (r: String)
    ensures
        r@ == tags_text(listing_views(repos@)),
{
    let ghost ls = listing_views(repos@);
    let mut pairs: Vec<(Vec<char>, Vec<char>)> = Vec::new();
    let mut i: usize = 0;
    while i < repos.len()
        invariant
            i <= repos.len(),
            ls == listing_views(repos@),
            pair_views(pairs@) == tag_pairs(ls.take(i as int)),
        decreases repos.len() - i,
    {
        let ghost start = pair_views(pairs@);
        let tags = &repos[i].1;
        let ghost name = repos@[i as int].0@;
        let mut k: usize = 0;
        while k < tags.len()
            invariant
                k <= tags.len(),
                i < repos@.len(),
                tags == &repos@[i as int].1,
                name == repos@[i as int].0@,
                pair_views(pairs@) == start + views(tags@).take(k as int).map_values(
                    |t: Seq<char>| (t, name),
                ),
            decreases tags.len() - k,
        {
            let ghost before = pair_views(pairs@);
            pairs.push((chars_of(tags[k].as_str()), chars_of(repos[i].0.as_str())));
            assert(pair_views(pairs@) =~= before.push((tags@[k as int]@, name)));
            assert(views(tags@).take(k + 1).map_values(|t: Seq<char>| (t, name)) =~= views(
                tags@,
            ).take(k as int).map_values(|t: Seq<char>| (t, name)).push((tags@[k as int]@, name)));
            k += 1;
        }
        proof {
            assert(views(tags@).take(tags.len() as int) =~= views(tags@));
            let t = ls.take(i + 1);
            assert(t.drop_last() =~= ls.take(i as int));
            assert(t.last() == (name, views(tags@)));
        }
        i += 1;
    }
    assert(ls.take(repos.len() as int) =~= ls);
    string_of(&grouped_lines_of(&pairs, repos.len()))
}

/// The outcome model of a creation (or, with `delete`, a deletion).
pub open spec fn tag_success(delete: bool) -> SuccessModel {
    if delete {
        SuccessModel::Line(Streams::StdoutOnly, Some("git tag deleted"@))
    } else {
        SuccessModel::Quiet
    }
}

/// The outcomes of a creation or deletion in each repository.
pub open spec fn tag_outcomes(repos: Seq<Repo>, outputs: Seq<GitOutput>, delete: bool) -> Seq<
    OutcomeView,
> {
    Seq::new(
        repos.len(),
        |k: int|
            reported_outcome(
                tag_success(delete),
                FailureModel::Line(Streams::StderrOnly, "git tag failed"@),
                repos[k],
                outputs[k],
            ),
    )
}

/// The tag listing of each repository.
pub open spec fn listings(repos: Seq<Repo>, outputs: Seq<GitOutput>) -> Seq<(Seq<char>, Seq<Seq<char>>)> {
    Seq::new(repos.len(), |k: int| (repos[k].name@, lines(outputs[k].stdout@)))
}

/// The result of `tag` over the child repositories, from the outputs of
/// its invocation in each (`outputs[i]` from `repos[i]`): the tag list,
/// unless a listing failed, which stops the command with the first
/// failure's error; or the aggregated outcomes of the creations or
/// deletions.
pub fn run(args: &TagArgs, repos: &Vec<Repo>, outputs: &Vec<GitOutput>) -> (r: Result<
    Rendered,
    RunError,
>)
    requires
        args.tag_name is Some || !args.delete,
        repos@.len() == outputs@.len(),
    ensures
        args.tag_name is None ==> match r {
            Ok(x) => (forall|k: int| 0 <= k < outputs@.len() ==> #[trigger] outputs@[k].succeeded())
                && x.stdout@ == tags_text(listings(repos@, outputs@)) && x.stderr@.len() == 0
                && x.pager is None,
            Err(RunError::Message(e)) => exists|k: int|
                0 <= k < outputs@.len() && !(#[trigger] outputs@[k].succeeded()) && (forall|j: int|
                    0 <= j < k ==> outputs@[j].succeeded()) && e@ == tags_context(repos@[k].path@)
                    + ": "@ + stdout_failure(tags_query(), repos@[k].path@, outputs@[k].stderr@),
            Err(RunError::Failed(_)) => false,
        },
        args.tag_name is None ==> ((forall|k: int|
            0 <= k < outputs@.len() ==> #[trigger] outputs@[k].succeeded()) ==> r is Ok),
        args.tag_name is Some ==> ({
            let (out, err, failures) = aggregate(
                tag_outcomes(repos@, outputs@, args.delete),
                repos@.len(),
            );
            match r {
                Ok(x) => outcome_pairs(tag_outcomes(repos@, outputs@, args.delete), 2).len() == 0
                    && x.stdout@ == out && x.stderr@ == err && x.pager is None,
                Err(RunError::Failed(f)) => outcome_pairs(
                    tag_outcomes(repos@, outputs@, args.delete),
                    2,
                ).len() > 0 && f.message@ == failures && f.rendered.stdout@ == out
                    && f.rendered.stderr@ == err,
                Err(RunError::Message(_)) => false,
            }
        }),
{
    let action = args.action();
    match action {
        TagAction::List => {
            let mut listed: Vec<(String, Vec<String>)> = Vec::new();
            let mut i: usize = 0;
            while i < repos.len()
                invariant
                    i <= repos.len(),
                    repos@.len() == outputs@.len(),
                    args.tag_name is None,
                    forall|j: int| 0 <= j < i ==> #[trigger] outputs@[j].succeeded(),
                    listing_views(listed@) == listings(repos@, outputs@).take(i as int),
                decreases repos.len() - i,
            {
                match repo_tags(&repos[i], &outputs[i]) {
                    Ok(t) => {
                        let ghost before = listing_views(listed@);
                        listed.push(t);
                        assert(listing_views(listed@) =~= before.push(
                            listings(repos@, outputs@)[i as int],
                        ));
                        assert(listings(repos@, outputs@).take(i + 1) =~= listings(
                            repos@,
                            outputs@,
                        ).take(i as int).push(listings(repos@, outputs@)[i as int]));
                    },
                    Err(e) => {
                        return Err(RunError::Message(e));
                    },
                }
                i += 1;
            }
            assert(listings(repos@, outputs@).take(repos.len() as int) =~= listings(
                repos@,
                outputs@,
            ));
            Ok(Rendered { stdout: render(&listed), stderr: String::new(), pager: None })
        },
        TagAction::Create(_) | TagAction::Delete(_) => {
            let mut results: Vec<RepoOutcome> = Vec::new();
            let mut i: usize = 0;
            while i < repos.len()
                invariant
                    i <= repos.len(),
                    repos@.len() == outputs@.len(),
                    outcome_views(results@) == tag_outcomes(repos@, outputs@, args.delete).take(
                        i as int,
                    ),
                decreases repos.len() - i,
            {
                let o = tag_outcome(&repos[i], &outputs[i], args.delete);
                let ghost before = outcome_views(results@);
                results.push(o);
                assert(outcome_views(results@) =~= before.push(o@));
                assert(tag_outcomes(repos@, outputs@, args.delete).take(i + 1) =~= tag_outcomes(
                    repos@,
                    outputs@,
                    args.delete,
                ).take(i as int).push(o@));
                i += 1;
            }
            assert(tag_outcomes(repos@, outputs@, args.delete).take(repos.len() as int)
                =~= tag_outcomes(repos@, outputs@, args.delete));
            match outcomes(&results, repos.len()) {
                Ok(x) => Ok(x),
                Err(f) => Err(RunError::Failed(f)),
            }
        },
    }
}

} // verus!
