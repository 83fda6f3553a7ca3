//! The idempotent installer.
//!
//! The installer consumes the resolver's accumulated install directives.
//! A directive whose destination does not exist is copied outright; one
//! whose destination carries the same content digest as its source is
//! left alone; one whose destination differs was hand-edited since the
//! last run, so the user is asked before it is overwritten, and declining
//! keeps the edited file.
//!
//! The spec model runs the whole directive list over a map from path to
//! content digest, counting prompts; the lemmas at the end state the
//! installer's laws over that model.

use vstd::prelude::*;
use crate::host::Host;
use crate::host::HostError;
use crate::resolver::Install;

verus! {

/// What the installer does with one directive.
#[derive(Debug, PartialEq, Eq)]
pub enum FileAction {
    /// The destination is absent: copy unconditionally.
    Copy,
    /// The destination already carries the source content: nothing to do.
    Skip,
    /// The destination was edited since the last install: ask, then copy
    /// or keep.
    Prompt,
}

/// The installer's decision for one destination, from whether and with
/// which content digest the destination exists, and the source digest.
pub open spec fn spec_file_action(dest: Option<u64>, source: u64) -> FileAction {
    match dest {
        None => FileAction::Copy,
        Some(existing) => if existing == source {
            FileAction::Skip
        } else {
            FileAction::Prompt
        },
    }
}

pub fn file_action(dest: Option<u64>, source: u64) -> (r: FileAction)
    ensures
        r == spec_file_action(dest, source),
{
    match dest {
        None => FileAction::Copy,
        Some(existing) => if existing == source {
            FileAction::Skip
        } else {
            FileAction::Prompt
        },
    }
}

/// One modeled installer step: the filesystem after handling one
/// directive, and how many prompts it raised.
pub open spec fn spec_installer_step(
    fs: Map<Seq<char>, u64>,
    to: Seq<char>,
    source: u64,
    answer: bool,
) -> (Map<Seq<char>, u64>, nat) {
    let dest = if fs.dom().contains(to) {
        Some(fs[to])
    } else {
        None
    };
    match spec_file_action(dest, source) {
        FileAction::Copy => (fs.insert(to, source), 0nat),
        FileAction::Skip => (fs, 0nat),
        FileAction::Prompt => if answer {
            (fs.insert(to, source), 1nat)
        } else {
            (fs, 1nat)
        },
    }
}

/// A whole modeled installer run, directive by directive in order; each
/// directive is a destination path and its source content digest, and
/// each answer is what the user would say if that directive prompted.
pub open spec fn spec_run_installer(
    fs: Map<Seq<char>, u64>,
    dirs: Seq<(Seq<char>, u64)>,
    answers: Seq<bool>,
) -> (Map<Seq<char>, u64>, nat)
    decreases dirs.len(),
{
    if dirs.len() == 0 {
        (fs, 0nat)
    } else {
        let first = spec_installer_step(fs, dirs[0].0, dirs[0].1, answers[0]);
        let rest = spec_run_installer(first.0, dirs.drop_first(), answers.drop_first());
        (rest.0, first.1 + rest.1)
    }
}

/// One directive's handling: the digests the host reported for the
/// destination (absent when the file did not exist) and the source, and
/// the decision those digests forced.
#[derive(Debug)]
pub struct FileOutcome {
    pub dest: Option<u64>,
    pub source: u64,
    pub action: FileAction,
}

/// Performs one installer run over the accumulated directives: probes each
/// destination, decides as `spec_file_action` does over the digests the
/// host reported, asks the host's user before overwriting an edited file,
/// and copies where decided. Returns, per directive in order, the
/// observed digests and the decision they forced. An empty directive list
/// always succeeds; otherwise the run fails when a needed digest cannot
/// be computed or a copy fails.
pub fn install_files<H: Host>(host: &mut H, installs: &Vec<Install>) -> (r: Result<
    Vec<FileOutcome>,
    HostError,
>)
    ensures
        installs@.len() == 0 ==> r is Ok,
        r matches Ok(outcomes) ==> outcomes@.len() == installs@.len() && forall|i: int|
            0 <= i < outcomes@.len() ==> (#[trigger] outcomes@[i]).action == spec_file_action(
                outcomes@[i].dest,
                outcomes@[i].source,
            ),
{
    let mut outcomes: Vec<FileOutcome> = Vec::new();
    let mut i: usize = 0;
    while i < installs.len()
        invariant
            i <= installs@.len(),
            outcomes@.len() == i,
            forall|k: int|
                0 <= k < i ==> (#[trigger] outcomes@[k]).action == spec_file_action(
                    outcomes@[k].dest,
                    outcomes@[k].source,
                ),
        decreases installs@.len() - i,
    {
        let directive = &installs[i];
        let dest = if host.path_exists(&directive.to) {
            let dest_digest = match host.digest(&directive.to) {
                Ok(digest) => digest,
                Err(e) => {
                    return Err(e);
                },
            };
            Some(dest_digest)
        } else {
            None
        };
        let source = match host.digest(&directive.from) {
            Ok(digest) => digest,
            Err(e) => {
                return Err(e);
            },
        };
        let action = file_action(dest, source);
        let copy = match action {
            FileAction::Copy => true,
            FileAction::Skip => false,
            FileAction::Prompt => host.confirm_overwrite(&directive.to),
        };
        if copy {
            if let Err(e) = host.copy_file(&directive.from, &directive.to) {
                return Err(e);
            }
        }
        outcomes.push(FileOutcome { dest, source, action });
        i = i + 1;
    }
    Ok(outcomes)
}

/// Directives that never disagree about a destination's content.
pub open spec fn spec_dirs_consistent(dirs: Seq<(Seq<char>, u64)>) -> bool {
    forall|i: int, j: int|
        0 <= i < dirs.len() && 0 <= j < dirs.len() && (#[trigger] dirs[i]).0 == (
        #[trigger] dirs[j]).0 ==> dirs[i].1 == dirs[j].1
}

/// Every directive's destination already carries its source content.
pub open spec fn spec_fs_satisfies(fs: Map<Seq<char>, u64>, dirs: Seq<(Seq<char>, u64)>) -> bool {
    forall|i: int|
        0 <= i < dirs.len() ==> fs.dom().contains((#[trigger] dirs[i]).0) && fs[dirs[i].0]
            == dirs[i].1
}

/// A run over consistent directives, with every prompt answered yes,
/// leaves every destination carrying its source content.
pub proof fn lemma_installer_establishes(
    fs: Map<Seq<char>, u64>,
    dirs: Seq<(Seq<char>, u64)>,
    answers: Seq<bool>,
)
    requires
        spec_dirs_consistent(dirs),
        answers.len() == dirs.len(),
        forall|i: int| 0 <= i < answers.len() ==> answers[i] == true,
    ensures
        spec_fs_satisfies(spec_run_installer(fs, dirs, answers).0, dirs),
    decreases dirs.len(),
{
    if dirs.len() > 0 {
        let first = spec_installer_step(fs, dirs[0].0, dirs[0].1, answers[0]);
        let fs1 = first.0;
        let rest = dirs.drop_first();
        assert(spec_dirs_consistent(rest)) by {
            assert(forall|i: int, j: int|
                0 <= i < rest.len() && 0 <= j < rest.len() && (#[trigger] rest[i]).0 == (
                #[trigger] rest[j]).0 ==> rest[i].1 == rest[j].1);
        }
        lemma_installer_establishes(fs1, rest, answers.drop_first());
        let out = spec_run_installer(fs, dirs, answers).0;
        assert(fs1.dom().contains(dirs[0].0) && fs1[dirs[0].0] == dirs[0].1);
        assert forall|i: int|
            0 <= i < dirs.len() implies out.dom().contains((#[trigger] dirs[i]).0) && out[dirs[i].0]
            == dirs[i].1 by {
            if i > 0 {
                assert(rest[i - 1] == dirs[i]);
            } else {
                if exists|k: int| 0 <= k < rest.len() && (#[trigger] rest[k]).0 == dirs[0].0 {
                    let k = choose|k: int|
                        0 <= k < rest.len() && (#[trigger] rest[k]).0 == dirs[0].0;
                    assert(rest[k] == dirs[k + 1]);
                    assert(dirs[k + 1].1 == dirs[0].1);
                } else {
                    lemma_installer_preserves(fs1, rest, answers.drop_first(), dirs[0].0);
                }
            }
        }
    }
}

/// A run never touches a path that no directive names as a destination:
/// neither its presence nor its content changes.
pub proof fn lemma_installer_preserves(
    fs: Map<Seq<char>, u64>,
    dirs: Seq<(Seq<char>, u64)>,
    answers: Seq<bool>,
    p: Seq<char>,
)
    requires
        forall|i: int| 0 <= i < dirs.len() ==> (#[trigger] dirs[i]).0 != p,
    ensures
        spec_run_installer(fs, dirs, answers).0.dom().contains(p) == fs.dom().contains(p),
        fs.dom().contains(p) ==> spec_run_installer(fs, dirs, answers).0[p] == fs[p],
    decreases dirs.len(),
{
    if dirs.len() > 0 {
        let first = spec_installer_step(fs, dirs[0].0, dirs[0].1, answers[0]);
        let fs1 = first.0;
        let rest = dirs.drop_first();
        assert(dirs[0].0 != p);
        assert(fs1.dom().contains(p) == fs.dom().contains(p));
        assert(fs.dom().contains(p) ==> fs1[p] == fs[p]);
        assert forall|i: int| 0 <= i < rest.len() implies (#[trigger] rest[i]).0 != p by {
            assert(rest[i] == dirs[i + 1]);
        }
        lemma_installer_preserves(fs1, rest, answers.drop_first(), p);
    }
}

/// A run whose every destination already carries its source content does
/// nothing: the filesystem comes back unchanged and nobody is prompted.
pub proof fn lemma_installer_fixpoint(
    fs: Map<Seq<char>, u64>,
    dirs: Seq<(Seq<char>, u64)>,
    answers: Seq<bool>,
)
    requires
        spec_fs_satisfies(fs, dirs),
        answers.len() == dirs.len(),
    ensures
        spec_run_installer(fs, dirs, answers) == (fs, 0nat),
    decreases dirs.len(),
{
    if dirs.len() > 0 {
        assert(fs.dom().contains(dirs[0].0) && fs[dirs[0].0] == dirs[0].1);
        let rest = dirs.drop_first();
        assert(spec_fs_satisfies(fs, rest)) by {
            assert(forall|i: int|
                0 <= i < rest.len() ==> fs.dom().contains((#[trigger] rest[i]).0) && fs[rest[i].0]
                    == rest[i].1);
        }
        lemma_installer_fixpoint(fs, rest, answers.drop_first());
    }
}

/// Idempotence: running the installer twice in succession over the same
/// directives, with every first-run prompt accepted and no change to
/// either side in between, makes the second run change nothing and prompt
/// zero times.
pub proof fn lemma_installer_idempotent(
    fs: Map<Seq<char>, u64>,
    dirs: Seq<(Seq<char>, u64)>,
    answers1: Seq<bool>,
    answers2: Seq<bool>,
)
    requires
        spec_dirs_consistent(dirs),
        answers1.len() == dirs.len(),
        answers2.len() == dirs.len(),
        forall|i: int| 0 <= i < answers1.len() ==> answers1[i] == true,
    ensures
        ({
            let once = spec_run_installer(fs, dirs, answers1);
            let twice = spec_run_installer(once.0, dirs, answers2);
            twice.0 == once.0 && twice.1 == 0
        }),
{
    lemma_installer_establishes(fs, dirs, answers1);
    lemma_installer_fixpoint(spec_run_installer(fs, dirs, answers1).0, dirs, answers2);
}

/// A run over destinations that all carry their source content, except
/// one destination that was altered and is written by exactly one
/// directive, prompts exactly once — for that file — and, with the prompt
/// declined, changes nothing.
pub proof fn lemma_installer_one_conflict(
    fs: Map<Seq<char>, u64>,
    dirs: Seq<(Seq<char>, u64)>,
    answers: Seq<bool>,
    k: int,
)
    requires
        0 <= k < dirs.len(),
        answers.len() == dirs.len(),
        forall|j: int|
            0 <= j < dirs.len() && j != k ==> fs.dom().contains((#[trigger] dirs[j]).0) && fs[
                dirs[j].0
            ] == dirs[j].1,
        forall|j: int| 0 <= j < dirs.len() && j != k ==> (#[trigger] dirs[j]).0 != dirs[k].0,
        fs.dom().contains(dirs[k].0),
        fs[dirs[k].0] != dirs[k].1,
        answers[k] == false,
    ensures
        spec_run_installer(fs, dirs, answers) == (fs, 1nat),
    decreases dirs.len(),
{
    let rest = dirs.drop_first();
    if k == 0 {
        assert(spec_installer_step(fs, dirs[0].0, dirs[0].1, answers[0]) == (fs, 1nat));
        assert(spec_fs_satisfies(fs, rest)) by {
            assert(forall|i: int|
                0 <= i < rest.len() ==> fs.dom().contains((#[trigger] rest[i]).0) && fs[rest[i].0]
                    == rest[i].1);
        }
        lemma_installer_fixpoint(fs, rest, answers.drop_first());
    } else {
        assert(fs.dom().contains(dirs[0].0) && fs[dirs[0].0] == dirs[0].1);
        assert(spec_installer_step(fs, dirs[0].0, dirs[0].1, answers[0]) == (fs, 0nat));
        assert forall|j: int|
            0 <= j < rest.len() && j != k - 1 implies fs.dom().contains((#[trigger] rest[j]).0)
            && fs[rest[j].0] == rest[j].1 by {
            assert(rest[j] == dirs[j + 1]);
        }
        assert forall|j: int|
            0 <= j < rest.len() && j != k - 1 implies (#[trigger] rest[j]).0 != rest[k - 1].0 by {
            assert(rest[j] == dirs[j + 1]);
            assert(rest[k - 1] == dirs[k]);
        }
        lemma_installer_one_conflict(fs, rest, answers.drop_first(), k - 1);
    }
}

/// Two directives that write the same destination with different content
/// are not silently collapsed: on a fresh destination the first copies
/// without a prompt, the second prompts against what the first produced,
/// and the answer decides which content stands.
pub proof fn lemma_installer_same_destination(
    fs: Map<Seq<char>, u64>,
    to: Seq<char>,
    first: u64,
    second: u64,
    answer: bool,
)
    requires
        !fs.dom().contains(to),
        first != second,
    ensures
        ({
            let dirs = seq![(to, first), (to, second)];
            let answers = seq![true, answer];
            let run = spec_run_installer(fs, dirs, answers);
            &&& run.1 == 1
            &&& run.0.dom().contains(to)
            &&& run.0[to] == (if answer {
                second
            } else {
                first
            })
        }),
{
    let dirs = seq![(to, first), (to, second)];
    let answers = seq![true, answer];
    let fs1 = fs.insert(to, first);
    assert(spec_installer_step(fs, to, first, true) == (fs1, 0nat));
    assert(dirs.drop_first() =~= seq![(to, second)]);
    assert(answers.drop_first() =~= seq![answer]);
    let step2 = spec_installer_step(fs1, to, second, answer);
    assert(fs1.dom().contains(to) && fs1[to] == first);
    assert(seq![(to, second)].drop_first() =~= Seq::<(Seq<char>, u64)>::empty());
    assert(seq![answer].drop_first() =~= Seq::<bool>::empty());
    if answer {
        assert(step2 == (fs1.insert(to, second), 1nat));
    } else {
        assert(step2 == (fs1, 1nat));
    }
    assert(dirs[0] == (to, first) && dirs[1] == (to, second));
    assert(answers[0] == true && answers[1] == answer);
    assert(spec_run_installer(step2.0, Seq::<(Seq<char>, u64)>::empty(), Seq::<bool>::empty())
        == (step2.0, 0nat));
    assert(spec_run_installer(fs1, seq![(to, second)], seq![answer]) == (step2.0, step2.1));
    assert(spec_run_installer(fs, dirs, answers).0 == step2.0);
    assert(spec_run_installer(fs, dirs, answers).1 == step2.1);
}

} // verus!
