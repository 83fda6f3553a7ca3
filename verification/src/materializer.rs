//! The ignore-aware directory materializer.
//!
//! A walked source tree is reduced to a copy plan: the relative paths of
//! every regular file that is neither under a version-control metadata
//! directory nor matched by the tree's ignore rules. Ignore matching uses
//! gitignore syntax through the `ignore` crate; the exclusion of
//! version-control metadata is unconditional.

use vstd::prelude::*;
use crate::host::Host;
use crate::host::HostError;
use crate::host::WalkEntry;
use crate::paths::spec_components_view;
use crate::paths::spec_has_vcs_component;
use crate::paths::spec_is_absolute;
use crate::paths::spec_join_components;
use crate::paths::spec_wf_components;
use crate::paths::has_vcs_component;
use crate::paths::join_components;
use crate::paths::lemma_wf_join_not_absolute;
use crate::paths::path_join;
use crate::paths::wf_components;

verus! {

#[verifier::external_type_specification]
#[verifier::external_body]
pub struct ExGitignore(ignore::gitignore::Gitignore);

/// The pattern lines a gitignore matcher was built from.
pub uninterp spec fn gitignore_rules(g: ignore::gitignore::Gitignore) -> Seq<Seq<char>>;

/// Whether gitignore rules ignore a relative path (itself or any parent
/// directory); a function of the rules and the path alone.
pub uninterp spec fn gitignore_verdict(rules: Seq<Seq<char>>, path: Seq<char>, is_dir: bool) -> bool;

/// Relies on ignore::gitignore::GitignoreBuilder: `new`, one `add_line` per
/// pattern, then `build`. A line that is not a well-formed glob fails the
/// build with the crate's error.
#[verifier::external_body]
pub(crate) fn build_gitignore(lines: &Vec<String>) -> (r: Result<
    ignore::gitignore::Gitignore,
    HostError,
>)
    ensures
        r matches Ok(g) ==> gitignore_rules(g) == lines@.map_values(|l: String| l@),
{
    let mut builder = ignore::gitignore::GitignoreBuilder::new("");
    for line in lines.iter() {
        if let Err(e) = builder.add_line(None, line.as_str()) {
            return Err(HostError { message: e.to_string() });
        }
    }
    match builder.build() {
        Ok(g) => Ok(g),
        Err(e) => Err(HostError { message: e.to_string() }),
    }
}

/// Relies on ignore::gitignore::Gitignore::matched_path_or_any_parents and
/// ignore::Match::is_ignore: whether the rules ignore the path or one of
/// its parent directories. That call panics on an absolute path, so one is
/// never passed.
#[verifier::external_body]
pub(crate) fn gitignore_matched(
    g: &ignore::gitignore::Gitignore,
    path: &String,
    is_dir: bool,
) -> (r: bool)
    requires
        !spec_is_absolute(path@),
    ensures
        r == gitignore_verdict(gitignore_rules(*g), path@, is_dir),
{
    g.matched_path_or_any_parents(std::path::Path::new(path.as_str()), is_dir).is_ignore()
}

/// The walked entry's relative path as component views.
pub open spec fn entry_rel_view(e: WalkEntry) -> Seq<Seq<char>> {
    spec_components_view(e.components@)
}

/// Whether the materializer copies a walked entry: it must be a regular
/// file on a well-formed relative path, under no version-control metadata
/// directory, and not ignored by the rules.
pub open spec fn spec_entry_included(e: WalkEntry, rules: Seq<Seq<char>>) -> bool {
    &&& e.is_file
    &&& spec_wf_components(entry_rel_view(e))
    &&& !spec_has_vcs_component(entry_rel_view(e))
    &&& !gitignore_verdict(rules, spec_join_components(entry_rel_view(e)), false)
}

/// The relative paths of the entries the materializer copies, in walk
/// order.
pub open spec fn spec_copy_plan(entries: Seq<WalkEntry>, rules: Seq<Seq<char>>) -> Seq<Seq<char>>
    decreases entries.len(),
{
    if entries.len() == 0 {
        Seq::empty()
    } else {
        let rest = spec_copy_plan(entries.drop_last(), rules);
        if spec_entry_included(entries.last(), rules) {
            rest.push(spec_join_components(entry_rel_view(entries.last())))
        } else {
            rest
        }
    }
}

/// Computes the copy plan of a walked tree under the given ignore-pattern
/// lines. Fails only when a pattern line is not a well-formed glob.
pub fn copy_plan(entries: &Vec<WalkEntry>, patterns: &Vec<String>) -> (r: Result<
    Vec<String>,
    HostError,
>)
    ensures
        r matches Ok(plan) ==> plan@.map_values(|p: String| p@) == spec_copy_plan(
            entries@,
            patterns@.map_values(|l: String| l@),
        ),
{
    let g = match build_gitignore(patterns) {
        Ok(g) => g,
        Err(e) => {
            return Err(e);
        },
    };
    let ghost rules = gitignore_rules(g);
    let mut out: Vec<String> = Vec::new();
    let mut i: usize = 0;
    while i < entries.len()
        invariant
            i <= entries.len(),
            rules == gitignore_rules(g),
            rules == patterns@.map_values(|l: String| l@),
            out@.map_values(|p: String| p@) == spec_copy_plan(entries@.take(i as int), rules),
        decreases entries.len() - i,
    {
        let e = &entries[i];
        let ghost out0 = out@;
        if e.is_file && wf_components(&e.components) && !has_vcs_component(&e.components) {
            let rel = join_components(&e.components);
            proof {
                lemma_wf_join_not_absolute(entry_rel_view(entries@[i as int]));
            }
            if !gitignore_matched(&g, &rel, false) {
                out.push(rel);
            }
        }
        proof {
            assert(entries@.take(i + 1).drop_last() =~= entries@.take(i as int));
            assert(entries@.take(i + 1).last() == entries@[i as int]);
            if out@.len() == out0.len() + 1 {
                assert(out@.map_values(|p: String| p@) =~= out0.map_values(|p: String| p@).push(
                    out@.last()@,
                ));
            }
            assert(out@.map_values(|p: String| p@) =~= spec_copy_plan(
                entries@.take(i + 1),
                rules,
            ));
        }
        i = i + 1;
    }
    proof {
        assert(entries@.take(entries@.len() as int) =~= entries@);
    }
    Ok(out)
}

/// A walked entry that lies under a version-control metadata directory is
/// never included in a copy plan, whatever the ignore rules say.
pub proof fn lemma_vcs_entry_never_included(e: WalkEntry, rules: Seq<Seq<char>>)
    requires
        spec_has_vcs_component(entry_rel_view(e)),
    ensures
        !spec_entry_included(e, rules),
{
}

/// Every planned path is the joined relative path of some walked entry
/// that is a regular file, lies under no version-control metadata
/// directory, and is not matched by the ignore rules; so in particular no
/// planned path lies under a version-control metadata directory.
pub proof fn lemma_copy_plan_sound(entries: Seq<WalkEntry>, rules: Seq<Seq<char>>, j: int)
    requires
        0 <= j < spec_copy_plan(entries, rules).len(),
    ensures
        exists|i: int|
            0 <= i < entries.len() && spec_entry_included(#[trigger] entries[i], rules)
                && spec_copy_plan(entries, rules)[j] == spec_join_components(
                entry_rel_view(entries[i]),
            ),
    decreases entries.len(),
{
    let head = entries.drop_last();
    let plan = spec_copy_plan(entries, rules);
    let rest = spec_copy_plan(head, rules);
    if j < rest.len() {
        lemma_copy_plan_sound(head, rules, j);
        let i = choose|i: int|
            0 <= i < head.len() && spec_entry_included(#[trigger] head[i], rules)
                && spec_copy_plan(head, rules)[j] == spec_join_components(entry_rel_view(head[i]));
        assert(entries[i] == head[i]);
        assert(spec_entry_included(entries[i], rules));
        assert(plan[j] == rest[j]);
        assert(spec_copy_plan(entries, rules)[j] == spec_join_components(
            entry_rel_view(entries[i]),
        ));
    } else {
        let i = entries.len() - 1;
        assert(spec_entry_included(entries[i], rules));
        assert(j == plan.len() - 1);
        assert(spec_copy_plan(entries, rules)[j] == spec_join_components(
            entry_rel_view(entries[i]),
        ));
    }
}

/// What one directory materialization did: the entries the walk reported,
/// the ignore-pattern lines that were in force, and the relative paths
/// handed to the host for copying.
pub struct CopyReport {
    pub entries: Vec<WalkEntry>,
    pub patterns: Vec<String>,
    pub copied: Vec<String>,
}

/// A report is exact when what it copied is precisely the copy plan of
/// the entries it walked under the patterns it used.
pub open spec fn copy_report_exact(r: CopyReport) -> bool {
    r.copied@.map_values(|p: String| p@) == spec_copy_plan(
        r.entries@,
        r.patterns@.map_values(|l: String| l@),
    )
}

/// Copies every planned file of the source tree to the mirrored relative
/// path under the destination, consulting the tree's ignore file when one
/// is present. Returns what it did: the walked entries, the pattern lines
/// used, and the copied relative paths — exactly the copy plan of those
/// entries under those patterns.
pub fn copy_directory<H: Host>(host: &mut H, source: &String, destination: &String) -> (r: Result<
    CopyReport,
    HostError,
>)
    ensures
        r matches Ok(report) ==> copy_report_exact(report),
{
    let entries = match host.walk(source) {
        Ok(entries) => entries,
        Err(e) => {
            return Err(e);
        },
    };
    let ignore_path = path_join(source.as_str(), ".smaugignore");
    let lines = match host.read_lines(&ignore_path) {
        Some(lines) => lines,
        None => Vec::new(),
    };
    let plan = match copy_plan(&entries, &lines) {
        Ok(plan) => plan,
        Err(e) => {
            return Err(e);
        },
    };
    let mut i: usize = 0;
    while i < plan.len()
        invariant
            i <= plan.len(),
            plan@.map_values(|p: String| p@) == spec_copy_plan(
                entries@,
                lines@.map_values(|l: String| l@),
            ),
        decreases plan.len() - i,
    {
        let from = path_join(source.as_str(), plan[i].as_str());
        let to = path_join(destination.as_str(), plan[i].as_str());
        match host.copy_file(&from, &to) {
            Ok(()) => {},
            Err(e) => {
                return Err(e);
            },
        }
        i = i + 1;
    }
    Ok(CopyReport { entries, patterns: lines, copied: plan })
}

} // verus!
