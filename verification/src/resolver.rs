//! Resolution state and the orchestration of one resolution run.
//!
//! The resolver holds the declared requirements in manifest order, a map
//! from dependency name to its source, and the install directives and
//! require paths accumulated by manifest propagation. `install` walks the
//! requirements in order, skips what is already present, materializes the
//! rest, and propagates each materialized dependency's own manifest.

use vstd::prelude::*;
use vstd::string::*;
use crate::config::Config;
use crate::config::DependencyOptions;
use crate::config::Package;
use crate::dependency::Dependency;
use crate::errors::InstallError;
use crate::host::Host;
use crate::paths::spec_join;
use crate::paths::spec_join_rel;
use crate::paths::spec_parent;
use crate::paths::lemma_join_rel_stays_inside;
use crate::paths::parent_of;
use crate::paths::path_join;
use crate::paths::path_join_rel;
use crate::source::Source;
use crate::source::from_dependency_options;
use crate::source::spec_source_of;

verus! {

/// One install directive: copy the file at `from`, inside a dependency's
/// materialized slot, to `to`, inside the consuming project.
pub struct Install {
    pub from: String,
    pub to: String,
}

impl Clone for Install {
    fn clone(&self) -> (res: Self)
        ensures
            res == *self,
    {
        Install { from: self.from.clone(), to: self.to.clone() }
    }
}

/// The view of an install directive: its two path views.
pub open spec fn install_view(i: Install) -> (Seq<char>, Seq<char>) {
    (i.from@, i.to@)
}

/// The views of a directive list.
pub open spec fn installs_view(v: Seq<Install>) -> Seq<(Seq<char>, Seq<char>)> {
    v.map_values(|x: Install| install_view(x))
}

/// The views of a list of strings.
pub open spec fn strings_view(v: Seq<String>) -> Seq<Seq<char>> {
    v.map_values(|s: String| s@)
}

proof fn lemma_installs_view_push(v: Seq<Install>, x: Install)
    ensures
        installs_view(v.push(x)) =~= installs_view(v).push(install_view(x)),
{
    assert forall|idx: int| 0 <= idx < v.len() + 1 implies installs_view(v.push(x))[idx]
        == installs_view(v).push(install_view(x))[idx] by {
        if idx < v.len() {
            assert(v.push(x)[idx] == v[idx]);
        } else {
            assert(v.push(x)[idx] == x);
        }
    }
}

proof fn lemma_strings_view_push(v: Seq<String>, x: String)
    ensures
        strings_view(v.push(x)) =~= strings_view(v).push(x@),
{
    assert forall|idx: int| 0 <= idx < v.len() + 1 implies strings_view(v.push(x))[idx]
        == strings_view(v).push(x@)[idx] by {
        if idx < v.len() {
            assert(v.push(x)[idx] == v[idx]);
        } else {
            assert(v.push(x)[idx] == x);
        }
    }
}

/// The source registered under a name: the last registration wins.
pub open spec fn spec_lookup(m: Seq<(String, Source)>, name: Seq<char>) -> Option<Source>
    decreases m.len(),
{
    if m.len() == 0 {
        None
    } else if m.last().0@ == name {
        Some(m.last().1)
    } else {
        spec_lookup(m.drop_last(), name)
    }
}

/// No name is registered twice.
pub open spec fn spec_distinct_names(m: Seq<(String, Source)>) -> bool {
    forall|i: int, j: int| 0 <= i < j < m.len() ==> m[i].0@ != m[j].0@
}

/// Replacing the entry that holds a name changes only that name's lookup.
proof fn lemma_lookup_update(m: Seq<(String, Source)>, idx: int, v: (String, Source), n: Seq<char>)
    requires
        0 <= idx < m.len(),
        spec_distinct_names(m),
        m[idx].0@ == v.0@,
    ensures
        spec_lookup(m.update(idx, v), n) == (if n == v.0@ {
            Some(v.1)
        } else {
            spec_lookup(m, n)
        }),
    decreases m.len(),
{
    let m2 = m.update(idx, v);
    if idx == m.len() - 1 {
        assert(m2.last() == v);
        if n != v.0@ {
            assert(m2.drop_last() =~= m.drop_last());
            assert(m.last().0@ == v.0@);
        }
    } else {
        assert(m2.last() == m.last());
        assert(m2.drop_last() =~= m.drop_last().update(idx, v));
        assert(spec_distinct_names(m.drop_last())) by {
            assert(forall|i: int, j: int|
                0 <= i < j < m.drop_last().len() ==> m.drop_last()[i].0@ != m.drop_last()[j].0@);
        }
        assert(m.drop_last()[idx] == m[idx]);
        lemma_lookup_update(m.drop_last(), idx, v, n);
        if m.last().0@ == n {
            assert(m[idx].0@ != m[m.len() - 1].0@);
        }
    }
}

/// The resolution state of one run.
pub struct Resolver {
    pub requirements: Vec<Dependency>,
    pub source_map: Vec<(String, Source)>,
    pub installs: Vec<Install>,
    pub requires: Vec<String>,
}

impl Default for Resolver {
    fn default() -> (r: Self)
        ensures
            r.requirements@.len() == 0,
            r.source_map@.len() == 0,
            r.installs@.len() == 0,
            r.requires@.len() == 0,
    {
        Resolver {
            requirements: Vec::new(),
            source_map: Vec::new(),
            installs: Vec::new(),
            requires: Vec::new(),
        }
    }
}

/// The directives a dependency's manifest contributes: each declared
/// `(from, to)` pair, `from` resolved against the dependency's slot and
/// `to` against the consuming project directory. The declared paths are
/// read as relative paths — leading separators are dropped — so a
/// manifest cannot direct a copy outside those two trees.
pub open spec fn spec_install_directives(
    pairs: Seq<(String, String)>,
    dep_root: Seq<char>,
    project_dir: Seq<char>,
) -> Seq<(Seq<char>, Seq<char>)> {
    pairs.map_values(
        |p: (String, String)| (spec_join_rel(dep_root, p.0@), spec_join_rel(project_dir, p.1@)),
    )
}

/// Every directive a manifest contributes stays inside the trees it
/// belongs to: its `from` lies under the dependency's slot and its `to`
/// under the consuming project directory, whatever paths the dependency's
/// manifest declares.
pub proof fn lemma_directives_stay_inside(
    pairs: Seq<(String, String)>,
    dep_root: Seq<char>,
    project_dir: Seq<char>,
    k: int,
)
    requires
        0 <= k < pairs.len(),
    ensures
        ({
            let d = spec_install_directives(pairs, dep_root, project_dir)[k];
            &&& d.0.take(dep_root.len() as int + 1) == dep_root + seq!['/']
            &&& d.1.take(project_dir.len() as int + 1) == project_dir + seq!['/']
        }),
{
    assert(spec_install_directives(pairs, dep_root, project_dir)[k] == (
        spec_join_rel(dep_root, pairs[k].0@),
        spec_join_rel(project_dir, pairs[k].1@),
    ));
    lemma_join_rel_stays_inside(dep_root, pairs[k].0@);
    lemma_join_rel_stays_inside(project_dir, pairs[k].1@);
}

/// What one dependency's manifest propagation contributed: the declared
/// install pairs, the declared requires, and which of those requires the
/// dependency was found to bundle itself.
pub struct Propagated {
    pub installs: Vec<(String, String)>,
    pub requires: Vec<String>,
    pub bundled: Vec<bool>,
}

/// A require path rewritten to load from the shared dependency directory.
pub open spec fn spec_require_rewrite(name: Seq<char>, require: Seq<char>) -> Seq<char> {
    "smaug/"@ + name + seq!['/'] + require
}

/// The require paths a dependency's manifest contributes: a require the
/// dependency bundles itself is rewritten under `smaug/<name>/`, any other
/// stands as declared.
pub open spec fn spec_rewritten_requires(
    reqs: Seq<String>,
    bundled: Seq<bool>,
    name: Seq<char>,
) -> Seq<Seq<char>> {
    Seq::new(
        reqs.len(),
        |i: int|
            if bundled[i] {
                spec_require_rewrite(name, reqs[i]@)
            } else {
                reqs[i]@
            },
    )
}

impl Resolver {
    /// Every requirement's name has a registered source.
    pub open spec fn wf(self) -> bool {
        &&& spec_distinct_names(self.source_map@)
        &&& forall|i: int|
            0 <= i < self.requirements@.len() ==> spec_lookup(
                self.source_map@,
                (#[trigger] self.requirements@[i]).name@,
            ) is Some
    }

    /// Appends a declared requirement.
    pub fn add_requirement(&mut self, dependency: Dependency)
        ensures
            final(self).requirements@ == old(self).requirements@.push(dependency),
            final(self).source_map == old(self).source_map,
            final(self).installs == old(self).installs,
            final(self).requires == old(self).requires,
    {
        self.requirements.push(dependency);
    }

    /// Registers a source under a name; a later registration for the same
    /// name wins over an earlier one.
    pub fn add_source(&mut self, name: String, source: Source)
        requires
            spec_distinct_names(old(self).source_map@),
        ensures
            final(self).requirements == old(self).requirements,
            final(self).installs == old(self).installs,
            final(self).requires == old(self).requires,
            spec_distinct_names(final(self).source_map@),
            forall|n: Seq<char>|
                #[trigger] spec_lookup(final(self).source_map@, n) == (if n == name@ {
                    Some(source)
                } else {
                    spec_lookup(old(self).source_map@, n)
                }),
    {
        let ghost m0 = self.source_map@;
        let mut i: usize = 0;
        while i < self.source_map.len()
            invariant
                i <= self.source_map.len(),
                self.source_map@ == m0,
                m0 == old(self).source_map@,
                self.requirements == old(self).requirements,
                self.installs == old(self).installs,
                self.requires == old(self).requires,
                spec_distinct_names(m0),
                forall|j: int| 0 <= j < i ==> (#[trigger] m0[j].0)@ != name@,
            decreases self.source_map.len() - i,
        {
            if self.source_map[i].0.eq(&name) {
                self.source_map[i] = (name, source);
                proof {
                    let v = self.source_map@[i as int];
                    lemma_lookup_update_all(m0, i as int, v);
                    assert forall|a: int, b: int|
                        0 <= a < b < self.source_map@.len() implies self.source_map@[a].0@
                        != self.source_map@[b].0@ by {
                        assert(m0[a].0@ != m0[b].0@);
                    }
                }
                return ;
            }
            i = i + 1;
        }
        self.source_map.push((name, source));
        proof {
            let m = self.source_map@;
            assert(m.last() == (name, source));
            assert(m.drop_last() =~= m0);
            assert forall|n: Seq<char>| #[trigger]
                spec_lookup(m, n) == (if n == name@ {
                    Some(source)
                } else {
                    spec_lookup(m0, n)
                }) by {}
            assert forall|a: int, b: int| 0 <= a < b < m.len() implies m[a].0@ != m[b].0@ by {
                if b == m.len() - 1 {
                    assert(m[a] == m0[a]);
                } else {
                    assert(m[a] == m0[a] && m[b] == m0[b]);
                }
            }
        }
    }
}

/// Helper for `add_source`: the replace case, quantified over all names.
proof fn lemma_lookup_update_all(m: Seq<(String, Source)>, idx: int, v: (String, Source))
    requires
        0 <= idx < m.len(),
        spec_distinct_names(m),
        m[idx].0@ == v.0@,
    ensures
        forall|n: Seq<char>|
            #[trigger] spec_lookup(m.update(idx, v), n) == (if n == v.0@ {
                Some(v.1)
            } else {
                spec_lookup(m, n)
            }),
{
    assert forall|n: Seq<char>| #[trigger]
        spec_lookup(m.update(idx, v), n) == (if n == v.0@ {
            Some(v.1)
        } else {
            spec_lookup(m, n)
        }) by {
        lemma_lookup_update(m, idx, v, n);
    }
}

impl Resolver {
    /// Appends a materialized dependency's declared install mapping and
    /// require list to the accumulated state: exactly one directive per
    /// declared pair, in manifest order, and exactly one require path per
    /// declared require, rewritten when the dependency bundles it.
    pub fn propagate(
        &mut self,
        dep_name: &String,
        package: &Package,
        bundled: &Vec<bool>,
        destination: &String,
    )
        requires
            bundled@.len() == package.requires@.len(),
        ensures
            final(self).requirements == old(self).requirements,
            final(self).source_map == old(self).source_map,
            installs_view(final(self).installs@) == installs_view(old(self).installs@)
                + spec_install_directives(
                package.installs@,
                spec_join(destination@, dep_name@),
                spec_parent(destination@),
            ),
            strings_view(final(self).requires@) == strings_view(old(self).requires@)
                + spec_rewritten_requires(package.requires@, bundled@, dep_name@),
    {
        let dep_root = path_join(destination.as_str(), dep_name.as_str());
        let project_dir = parent_of(destination.as_str());
        let ghost directives = spec_install_directives(
            package.installs@,
            spec_join(destination@, dep_name@),
            spec_parent(destination@),
        );
        let ghost installs0 = installs_view(self.installs@);
        let mut i: usize = 0;
        while i < package.installs.len()
            invariant
                i <= package.installs@.len(),
                directives == spec_install_directives(
                    package.installs@,
                    spec_join(destination@, dep_name@),
                    spec_parent(destination@),
                ),
                directives.len() == package.installs@.len(),
                dep_root@ == spec_join(destination@, dep_name@),
                project_dir@ == spec_parent(destination@),
                self.requirements == old(self).requirements,
                self.source_map == old(self).source_map,
                self.requires == old(self).requires,
                installs_view(self.installs@) == installs0 + directives.take(i as int),
            decreases package.installs@.len() - i,
        {
            let pair = &package.installs[i];
            let from = path_join_rel(dep_root.as_str(), pair.0.as_str());
            let to = path_join_rel(project_dir.as_str(), pair.1.as_str());
            let ghost prev = self.installs@;
            let directive = Install { from, to };
            proof {
                assert(directives[i as int] == (
                    spec_join_rel(dep_root@, package.installs@[i as int].0@),
                    spec_join_rel(project_dir@, package.installs@[i as int].1@),
                ));
                assert(install_view(directive) == directives[i as int]);
            }
            self.installs.push(directive);
            proof {
                lemma_installs_view_push(prev, directive);
                assert(directives.take(i + 1) =~= directives.take(i as int).push(
                    directives[i as int],
                ));
                assert(installs_view(self.installs@) =~= installs0 + directives.take(i + 1));
            }
            i = i + 1;
        }
        proof {
            assert(directives.take(directives.len() as int) =~= directives);
        }
        let ghost installs_done = self.installs;
        let ghost rewritten = spec_rewritten_requires(package.requires@, bundled@, dep_name@);
        let ghost requires0 = strings_view(self.requires@);
        let mut k: usize = 0;
        while k < package.requires.len()
            invariant
                k <= package.requires@.len(),
                bundled@.len() == package.requires@.len(),
                rewritten == spec_rewritten_requires(package.requires@, bundled@, dep_name@),
                rewritten.len() == package.requires@.len(),
                self.requirements == old(self).requirements,
                self.source_map == old(self).source_map,
                self.installs == installs_done,
                strings_view(self.requires@) == requires0 + rewritten.take(k as int),
            decreases package.requires@.len() - k,
        {
            let req = &package.requires[k];
            let ghost prev = self.requires@;
            if bundled[k] {
                let mut s = String::from_str("smaug/");
                s.append(dep_name.as_str());
                s.append("/");
                s.append(req.as_str());
                proof {
                    reveal_strlit("/");
                    assert("/"@ =~= seq!['/']);
                    assert(s@ =~= spec_require_rewrite(dep_name@, package.requires@[k as int]@));
                    assert(s@ == rewritten[k as int]);
                }
                self.requires.push(s);
            } else {
                proof {
                    assert(package.requires@[k as int]@ == rewritten[k as int]);
                }
                self.requires.push(req.clone());
            }
            proof {
                lemma_strings_view_push(prev, self.requires@.last());
                assert(rewritten.take(k + 1) =~= rewritten.take(k as int).push(
                    rewritten[k as int],
                ));
                assert(strings_view(self.requires@) =~= requires0 + rewritten.take(k + 1));
            }
            k = k + 1;
        }
        proof {
            assert(rewritten.take(rewritten.len() as int) =~= rewritten);
        }
    }
}

/// Builds a resolver from a manifest: one requirement and one registered
/// source per declared dependency, in manifest order; a registry
/// dependency carries its declared constraint, every other source the
/// unconstrained marker.
pub open spec fn spec_declared_version(o: DependencyOptions) -> Seq<char> {
    match o {
        DependencyOptions::Registry { version } => version@,
        _ => "*"@,
    }
}

pub fn new_from_config(config: &Config) -> (r: Resolver)
    ensures
        r.wf(),
        r.installs@.len() == 0,
        r.requires@.len() == 0,
        r.requirements@.len() == config.dependencies@.len(),
        forall|i: int|
            0 <= i < config.dependencies@.len() ==> {
                &&& (#[trigger] r.requirements@[i]).name@ == config.dependencies@[i].0@
                &&& r.requirements@[i].version@ == spec_declared_version(config.dependencies@[i].1)
            },
        forall|i: int|
            0 <= i < config.dependencies@.len() && (forall|j: int|
                i < j < config.dependencies@.len() ==> (#[trigger] config.dependencies@[j].0)@
                    != config.dependencies@[i].0@) ==> spec_lookup(
                r.source_map@,
                (#[trigger] config.dependencies@[i]).0@,
            ) == Some(spec_source_of(config.dependencies@[i].1)),
{
    let mut resolver = Resolver::default();
    let mut i: usize = 0;
    while i < config.dependencies.len()
        invariant
            i <= config.dependencies@.len(),
            resolver.installs@.len() == 0,
            resolver.requires@.len() == 0,
            spec_distinct_names(resolver.source_map@),
            resolver.requirements@.len() == i,
            forall|a: int|
                0 <= a < i ==> {
                    &&& (#[trigger] resolver.requirements@[a]).name@ == config.dependencies@[a].0@
                    &&& resolver.requirements@[a].version@ == spec_declared_version(
                        config.dependencies@[a].1,
                    )
                },
            forall|a: int|
                0 <= a < i && (forall|j: int|
                    a < j < i ==> (#[trigger] config.dependencies@[j].0)@
                        != config.dependencies@[a].0@) ==> spec_lookup(
                    resolver.source_map@,
                    (#[trigger] config.dependencies@[a]).0@,
                ) == Some(spec_source_of(config.dependencies@[a].1)),
            forall|a: int|
                0 <= a < i ==> spec_lookup(
                    resolver.source_map@,
                    (#[trigger] config.dependencies@[a]).0@,
                ) is Some,
        decreases config.dependencies@.len() - i,
    {
        let entry = &config.dependencies[i];
        let name = entry.0.clone();
        let version = match &entry.1 {
            DependencyOptions::Registry { version } => version.clone(),
            _ => String::from_str("*"),
        };
        let source = match from_dependency_options(&entry.1) {
            Some(source) => source,
            None => {
                proof {
                    assert(false);
                }
                return resolver;
            },
        };
        let dependency = Dependency { name: name.clone(), version };
        resolver.add_requirement(dependency);
        resolver.add_source(name, source);
        i = i + 1;
    }
    resolver
}


/// The install directives a whole run accumulates: each dependency's
/// contribution, in requirement order.
pub open spec fn spec_accumulated_installs(
    props: Seq<Propagated>,
    deps: Seq<Dependency>,
    destination: Seq<char>,
) -> Seq<(Seq<char>, Seq<char>)>
    decreases props.len(),
{
    if props.len() == 0 {
        Seq::empty()
    } else {
        spec_accumulated_installs(props.drop_last(), deps, destination)
            + spec_install_directives(
            props.last().installs@,
            spec_join(destination, deps[props.len() - 1].name@),
            spec_parent(destination),
        )
    }
}

/// The require paths a whole run accumulates: each dependency's rewritten
/// requires, in requirement order.
pub open spec fn spec_accumulated_requires(
    props: Seq<Propagated>,
    deps: Seq<Dependency>,
) -> Seq<Seq<char>>
    decreases props.len(),
{
    if props.len() == 0 {
        Seq::empty()
    } else {
        spec_accumulated_requires(props.drop_last(), deps) + spec_rewritten_requires(
            props.last().requires@,
            props.last().bundled@,
            deps[props.len() - 1].name@,
        )
    }
}

/// A sequence is a prefix of itself extended by anything.
proof fn lemma_prefix_extension<T>(a: Seq<T>, b: Seq<T>)
    ensures
        a.is_prefix_of(a + b),
{
    assert(a =~= (a + b).subrange(0, a.len() as int));
}

impl Resolver {
    /// Looks up the source registered under a name.
    pub fn source_for(&self, name: &String) -> (r: Option<Source>)
        ensures
            r == spec_lookup(self.source_map@, name@),
    {
        let mut i: usize = self.source_map.len();
        proof {
            assert(self.source_map@.take(i as int) =~= self.source_map@);
        }
        while i > 0
            invariant
                i <= self.source_map@.len(),
                spec_lookup(self.source_map@, name@) == spec_lookup(
                    self.source_map@.take(i as int),
                    name@,
                ),
            decreases i,
        {
            let entry = &self.source_map[i - 1];
            proof {
                assert(self.source_map@.take(i as int).last() == self.source_map@[i - 1]);
                assert(self.source_map@.take(i as int).drop_last() =~= self.source_map@.take(
                    i - 1,
                ));
            }
            if entry.0.eq(name) {
                return Some(entry.1.clone());
            }
            i = i - 1;
        }
        None
    }

    /// Decides the resolver's well-formedness at run time, for callers
    /// outside the proof: no name is registered twice, and every
    /// requirement's name has a registered source.
    pub fn is_wf(&self) -> (r: bool)
        ensures
            r == self.wf(),
    {
        let m = &self.source_map;
        let mut i: usize = 0;
        while i < m.len()
            invariant
                i <= m@.len(),
                m == &self.source_map,
                forall|a: int, b: int| 0 <= a < b < m@.len() && a < i ==> m@[a].0@ != m@[b].0@,
            decreases m@.len() - i,
        {
            let mut j: usize = i + 1;
            while j < m.len()
                invariant
                    i < j <= m@.len(),
                    m == &self.source_map,
                    forall|b: int| i < b < j ==> m@[i as int].0@ != m@[b].0@,
                decreases m@.len() - j,
            {
                if m[i].0.eq(&m[j].0) {
                    proof {
                        assert(!spec_distinct_names(self.source_map@));
                    }
                    return false;
                }
                j = j + 1;
            }
            i = i + 1;
        }
        let mut k: usize = 0;
        while k < self.requirements.len()
            invariant
                k <= self.requirements@.len(),
                spec_distinct_names(self.source_map@),
                forall|a: int|
                    0 <= a < k ==> spec_lookup(
                        self.source_map@,
                        (#[trigger] self.requirements@[a]).name@,
                    ) is Some,
            decreases self.requirements@.len() - k,
        {
            if self.source_for(&self.requirements[k].name).is_none() {
                return false;
            }
            k = k + 1;
        }
        true
    }

    /// Drives one resolution run: walks the registered requirements in
    /// declaration order; a requirement whose slot already exists is
    /// skipped, any other is materialized through its source; after either,
    /// its manifest is propagated. The first failure aborts the remaining
    /// queue; nothing already materialized is rolled back: on any outcome
    /// the accumulated directives and require paths only grow by
    /// appending, and on success they grew by exactly one propagated
    /// contribution per requirement, in requirement order. On success the
    /// declared requirements come back unchanged.
    pub fn install<H: Host>(
        &mut self,
        host: &mut H,
        destination: &String,
        cache_root: &String,
    ) -> (r: Result<Vec<Dependency>, InstallError>)
        requires
            old(self).wf(),
        ensures
            final(self).requirements == old(self).requirements,
            final(self).source_map == old(self).source_map,
            final(self).wf(),
            installs_view(old(self).installs@).is_prefix_of(installs_view(final(self).installs@)),
            strings_view(old(self).requires@).is_prefix_of(strings_view(final(self).requires@)),
            r matches Ok(deps) ==> deps@ == old(self).requirements@ && exists|
                props: Seq<Propagated>,
            |
                #![trigger spec_accumulated_installs(props, old(self).requirements@, destination@)]
                {
                    &&& props.len() == old(self).requirements@.len()
                    &&& installs_view(final(self).installs@) == installs_view(
                        old(self).installs@,
                    ) + spec_accumulated_installs(props, old(self).requirements@, destination@)
                    &&& strings_view(final(self).requires@) == strings_view(old(self).requires@)
                        + spec_accumulated_requires(props, old(self).requirements@)
                },
    {
        let mut result: Vec<Dependency> = Vec::new();
        let ghost mut props: Seq<Propagated> = Seq::empty();
        let mut i: usize = 0;
        while i < self.requirements.len()
            invariant
                i <= self.requirements@.len(),
                self.wf(),
                self.requirements == old(self).requirements,
                self.source_map == old(self).source_map,
                result@ == self.requirements@.take(i as int),
                props.len() == i,
                installs_view(self.installs@) == installs_view(old(self).installs@)
                    + spec_accumulated_installs(props, old(self).requirements@, destination@),
                strings_view(self.requires@) == strings_view(old(self).requires@)
                    + spec_accumulated_requires(props, old(self).requirements@),
            decreases self.requirements@.len() - i,
        {
            let dependency = self.requirements[i].clone();
            let source = match self.source_for(&dependency.name) {
                Some(source) => source,
                None => {
                    proof {
                        assert(false);
                    }
                    unreached()
                },
            };
            if !source.installed(host, &dependency, destination) {
                if let Err(e) = source.install(host, &dependency, destination, cache_root) {
                    proof {
                        lemma_prefix_extension(
                            installs_view(old(self).installs@),
                            spec_accumulated_installs(
                                props,
                                old(self).requirements@,
                                destination@,
                            ),
                        );
                        lemma_prefix_extension(
                            strings_view(old(self).requires@),
                            spec_accumulated_requires(props, old(self).requirements@),
                        );
                    }
                    return Err(e);
                }
            }
            let propagated = match source.update_resolver(host, self, &dependency, destination) {
                Ok(propagated) => propagated,
                Err(e) => {
                    proof {
                        lemma_prefix_extension(
                            installs_view(old(self).installs@),
                            spec_accumulated_installs(
                                props,
                                old(self).requirements@,
                                destination@,
                            ),
                        );
                        lemma_prefix_extension(
                            strings_view(old(self).requires@),
                            spec_accumulated_requires(props, old(self).requirements@),
                        );
                    }
                    return Err(e);
                },
            };
            proof {
                let props0 = props;
                props = props.push(propagated);
                assert(props.drop_last() =~= props0);
                assert(props.last() == propagated);
                assert(old(self).requirements@[props.len() - 1] == self.requirements@[i as int]);
                assert(installs_view(self.installs@) =~= installs_view(old(self).installs@)
                    + spec_accumulated_installs(props, old(self).requirements@, destination@));
                assert(strings_view(self.requires@) =~= strings_view(old(self).requires@)
                    + spec_accumulated_requires(props, old(self).requirements@));
            }
            result.push(dependency);
            proof {
                assert(result@ =~= self.requirements@.take(i + 1));
            }
            i = i + 1;
        }
        proof {
            assert(self.requirements@.take(self.requirements@.len() as int)
                =~= self.requirements@);
            lemma_prefix_extension(
                installs_view(old(self).installs@),
                spec_accumulated_installs(props, old(self).requirements@, destination@),
            );
            lemma_prefix_extension(
                strings_view(old(self).requires@),
                spec_accumulated_requires(props, old(self).requirements@),
            );
        }
        Ok(result)
    }
}

} // verus!
