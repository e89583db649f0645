use crate::error::Error;
use crate::profile::{find_last_key, keys_of, last_index, Dependency, Profile, ProfileConfig};
use vstd::prelude::*;

verus! {

/// The actions a caller can ask for on a profile and its dependencies.
#[derive(Debug, Clone, Copy, PartialEq, Eq, Structural)]
pub enum ProfileAction {
    Disable,
    Enable,
    /// A full disable pass followed by a full enable pass.
    Reset,
}

/// The actions run on a single profile.
#[derive(Debug, Clone, Copy, PartialEq, Eq, Structural)]
pub enum CoreProfileAction {
    Disable,
    Enable,
}

/// A profile to act on (by position in the configuration), with the
/// environment that a dependency asked for, if any.
#[derive(Debug)]
pub struct Target {
    pub profile: usize,
    pub environment: Option<String>,
}

/// One action on one profile, in one environment.
#[derive(Debug)]
pub struct PlannedAction {
    pub profile: usize,
    pub environment: String,
    pub action: CoreProfileAction,
}

pub open spec fn opt_str_view(s: Option<String>) -> Option<Seq<char>> {
    match s {
        Some(t) => Some(t@),
        None => None,
    }
}

/// The name and aliases of a profile, the name first.
pub open spec fn names_of(p: Profile) -> Seq<Seq<char>> {
    seq![p.name@] + match p.aliases {
        Some(a) => a@.map_values(|s: String| s@),
        None => Seq::empty(),
    }
}

/// The dependencies of a profile, in declaration order.
pub open spec fn dependencies_of(p: Profile) -> Seq<Dependency> {
    match p.dependencies {
        Some(d) => d@,
        None => Seq::empty(),
    }
}

/// The entries of the name index in insertion order: each profile's name and
/// aliases, with the profile's position.
pub open spec fn index_entries(ps: Seq<Profile>) -> Seq<(Seq<char>, int)>
    decreases ps.len(),
{
    if ps.len() == 0 {
        Seq::empty()
    } else {
        index_entries(ps.drop_last()) + names_of(ps.last()).map_values(
            |n: Seq<char>| (n, ps.len() - 1),
        )
    }
}

pub open spec fn entries_view(m: Seq<(String, usize)>) -> Seq<(Seq<char>, int)> {
    m.map_values(|e: (String, usize)| (e.0@, e.1 as int))
}

/// `m` is the name index of `ps`.
pub open spec fn is_index_of(m: Seq<(String, usize)>, ps: Seq<Profile>) -> bool {
    &&& entries_view(m) == index_entries(ps)
    &&& forall|k: int| 0 <= k < m.len() ==> (#[trigger] m[k]).1 < ps.len()
}

/// The position of the profile that a name or alias resolves to; a later
/// entry of the index replaces an earlier one.
pub open spec fn profile_index(ps: Seq<Profile>, key: Seq<char>) -> Option<int> {
    let e = index_entries(ps);
    match last_index(e.map_values(|x: (Seq<char>, int)| x.0), key) {
        Some(j) => Some(e[j].1),
        None => None,
    }
}

/// The profiles to act on for the profile at position `i`, in enable order:
/// its dependencies in declaration order, then itself unless it is a
/// composition profile.
pub open spec fn resolved(ps: Seq<Profile>, i: int) -> Seq<(int, Option<Seq<char>>)> {
    dependencies_of(ps[i]).map_values(
        |d: Dependency| (profile_index(ps, d.name@)->Some_0, opt_str_view(d.env_name)),
    ) + if ps[i].spec_is_composition() {
        Seq::empty()
    } else {
        seq![(i, None)]
    }
}

pub open spec fn targets_view(v: Seq<Target>) -> Seq<(int, Option<Seq<char>>)> {
    v.map_values(|t: Target| (t.profile as int, opt_str_view(t.environment)))
}

/// What resolving `key` against `ps` gives.
pub open spec fn resolves(ps: Seq<Profile>, key: Seq<char>, r: Result<Vec<Target>, Error>) -> bool {
    match profile_index(ps, key) {
        None => r matches Err(Error::UnknownProfile { name, known }) && name@ == key
            && known@.map_values(|s: String| s@) == ps.map_values(|p: Profile| p.name@),
        Some(i) => {
            let deps = dependencies_of(ps[i]);
            if forall|k: int| 0 <= k < deps.len() ==> profile_index(ps, #[trigger] deps[k].name@) is Some {
                r matches Ok(v) && targets_view(v@) == resolved(ps, i)
            } else {
                r matches Err(Error::UnknownDependency { profile, dependency }) && profile@
                    == ps[i].name@ && exists|k: int|
                    0 <= k < deps.len() && profile_index(ps, #[trigger] deps[k].name@) is None
                        && dependency@ == deps[k].name@ && forall|l: int|
                        0 <= l < k ==> profile_index(ps, #[trigger] deps[l].name@) is Some
            }
        },
    }
}

/// The environment a target asks for, else the default one.
pub open spec fn env_or(environment: Option<Seq<char>>, default: Seq<char>) -> Seq<char> {
    match environment {
        Some(e) => e,
        None => default,
    }
}

/// One pass of `action` over the targets, in the given order.
pub open spec fn pass(
    ts: Seq<(int, Option<Seq<char>>)>,
    default: Seq<char>,
    action: CoreProfileAction,
) -> Seq<(int, Seq<char>, CoreProfileAction)> {
    ts.map_values(|t: (int, Option<Seq<char>>)| (t.0, env_or(t.1, default), action))
}

/// The actions that a user action runs over targets in enable order: enable
/// forward; disable backward; reset a full disable pass backward, then a
/// full enable pass forward.
pub open spec fn planned(
    ts: Seq<(int, Option<Seq<char>>)>,
    action: ProfileAction,
    default: Seq<char>,
) -> Seq<(int, Seq<char>, CoreProfileAction)> {
    match action {
        ProfileAction::Enable => pass(ts, default, CoreProfileAction::Enable),
        ProfileAction::Disable => pass(ts.reverse(), default, CoreProfileAction::Disable),
        ProfileAction::Reset => pass(ts.reverse(), default, CoreProfileAction::Disable) + pass(
            ts,
            default,
            CoreProfileAction::Enable,
        ),
    }
}

pub open spec fn planned_view(v: Seq<PlannedAction>) -> Seq<(int, Seq<char>, CoreProfileAction)> {
    v.map_values(|a: PlannedAction| (a.profile as int, a.environment@, a.action))
}

/// Appends one pass of `action` over the targets, forward or backward.
fn push_pass(
    out: &mut Vec<PlannedAction>,
    targets: &Vec<Target>,
    backwards: bool,
    action: CoreProfileAction,
    default_environment: &String,
)
    ensures
        planned_view(final(out)@) == planned_view(old(out)@) + pass(
            if backwards {
                targets_view(targets@).reverse()
            } else {
                targets_view(targets@)
            },
            default_environment@,
            action,
        ),
{
    let ghost start = planned_view(out@);
    let ghost order = if backwards {
        targets_view(targets@).reverse()
    } else {
        targets_view(targets@)
    };
    let n = targets.len();
    let mut k: usize = 0;
    while k < n
        invariant
            n == targets.len(),
            k <= n,
            order == if backwards {
                targets_view(targets@).reverse()
            } else {
                targets_view(targets@)
            },
            order.len() == n,
            planned_view(out@) =~= start + pass(order, default_environment@, action).subrange(
                0,
                k as int,
            ),
        decreases n - k,
    {
        let index = if backwards {
            n - 1 - k
        } else {
            k
        };
        let target = &targets[index];
        let environment = match &target.environment {
            Some(e) => e.clone(),
            None => default_environment.clone(),
        };
        let ghost before = out@;
        out.push(PlannedAction { profile: target.profile, environment, action });
        assert(order[k as int] == targets_view(targets@)[index as int]);
        assert(planned_view(out@) =~= planned_view(before).push(
            pass(order, default_environment@, action)[k as int],
        ));
        k = k + 1;
    }
    assert(pass(order, default_environment@, action).subrange(0, k as int) =~= pass(
        order,
        default_environment@,
        action,
    ));
}

/// The per-profile actions that `action` runs over targets given in enable
/// order, each in the environment its target asks for or else in
/// `default_environment`.
pub fn plan_actions(targets: &Vec<Target>, action: ProfileAction, default_environment: &String) -> (r:
    Vec<PlannedAction>)
    ensures
        planned_view(r@) == planned(targets_view(targets@), action, default_environment@),
{
    let mut out: Vec<PlannedAction> = Vec::new();
    match action {
        ProfileAction::Enable => {
            push_pass(&mut out, targets, false, CoreProfileAction::Enable, default_environment);
        },
        ProfileAction::Disable => {
            push_pass(&mut out, targets, true, CoreProfileAction::Disable, default_environment);
        },
        ProfileAction::Reset => {
            push_pass(&mut out, targets, true, CoreProfileAction::Disable, default_environment);
            push_pass(&mut out, targets, false, CoreProfileAction::Enable, default_environment);
        },
    }
    out
}

impl ProfileConfig {
    /// Builds the index from every profile name and alias to the profile's
    /// position, in insertion order. A name used twice resolves to its later
    /// entry; `is_valid` rejects such configurations.
    pub fn transform_to_profile_map(&self) -> (r: Vec<(String, usize)>)
        ensures
            is_index_of(r@, self.profiles@),
    {
        let mut map: Vec<(String, usize)> = Vec::new();
        let mut i: usize = 0;
        while i < self.profiles.len()
            invariant
                i <= self.profiles.len(),
                entries_view(map@) =~= index_entries(self.profiles@.subrange(0, i as int)),
                forall|k: int| 0 <= k < map.len() ==> (#[trigger] map@[k]).1 < self.profiles.len(),
            decreases self.profiles.len() - i,
        {
            let profile = &self.profiles[i];
            let ghost base = entries_view(map@);
            let ghost tagged = names_of(*profile).map_values(|n: Seq<char>| (n, i as int));
            assert(self.profiles@.subrange(0, i + 1).drop_last() =~= self.profiles@.subrange(
                0,
                i as int,
            ));
            let ghost before = map@;
            map.push((profile.name.clone(), i));
            assert(entries_view(map@) =~= entries_view(before).push((profile.name@, i as int)));
            assert(entries_view(map@) =~= base + tagged.subrange(0, 1));
            match &profile.aliases {
                Some(aliases) => {
                    let mut j: usize = 0;
                    while j < aliases.len()
                        invariant
                            i < self.profiles.len(),
                            profile == &self.profiles[i as int],
                            profile.aliases == Some(*aliases),
                            j <= aliases.len(),
                            tagged == names_of(*profile).map_values(|n: Seq<char>| (n, i as int)),
                            entries_view(map@) =~= base + tagged.subrange(0, 1 + j),
                            forall|k: int|
                                0 <= k < map.len() ==> (#[trigger] map@[k]).1
                                    < self.profiles.len(),
                        decreases aliases.len() - j,
                    {
                        let ghost before = map@;
                        map.push((aliases[j].clone(), i));
                        assert(entries_view(map@) =~= entries_view(before).push(
                            (aliases@[j as int]@, i as int),
                        ));
                        assert(tagged.subrange(0, 2 + j) =~= tagged.subrange(0, 1 + j).push(
                            tagged[1 + j],
                        ));
                        j = j + 1;
                    }
                    assert(tagged.subrange(0, 1 + j) =~= tagged);
                },
                None => {
                    assert(tagged.subrange(0, 1) =~= tagged);
                },
            }
            i = i + 1;
        }
        assert(self.profiles@.subrange(0, i as int) =~= self.profiles@);
        map
    }

    /// The position of the profile that a name or alias resolves to.
    fn index_lookup(&self, profile_map: &Vec<(String, usize)>, key: &String) -> (r: Option<usize>)
        requires
            is_index_of(profile_map@, self.profiles@),
        ensures
            r matches Some(i) ==> profile_index(self.profiles@, key@) == Some(i as int) && i
                < self.profiles.len(),
            r is None ==> profile_index(self.profiles@, key@) is None,
    {
        assert(keys_of(profile_map@) =~= index_entries(self.profiles@).map_values(
            |x: (Seq<char>, int)| x.0,
        ));
        match find_last_key(profile_map, key) {
            Some(j) => {
                proof {
                    crate::profile::lemma_last_index_bounds(keys_of(profile_map@), key@);
                }
                assert(entries_view(profile_map@)[j as int].1 == profile_map@[j as int].1 as int);
                Some(profile_map[j].1)
            },
            None => None,
        }
    }

    /// Resolves a profile name or alias to the profiles to act on, in enable
    /// order: the dependencies in declaration order, each with the
    /// environment it asks for, then the profile itself unless it is a
    /// composition profile.
    pub fn get_profiles_to_action(&self, profile_map: &Vec<(String, usize)>, profile_name: &String) -> (r:
        Result<Vec<Target>, Error>)
        requires
            is_index_of(profile_map@, self.profiles@),
        ensures
            resolves(self.profiles@, profile_name@, r),
    {
        let i = match self.index_lookup(profile_map, profile_name) {
            Some(i) => i,
            None => {
                return Err(
                    Error::UnknownProfile { name: profile_name.clone(), known: self.profile_names() },
                );
            },
        };
        let profile = &self.profiles[i];
        let ghost deps = dependencies_of(*profile);
        let ghost ps = self.profiles@;
        let mut targets: Vec<Target> = Vec::new();
        match &profile.dependencies {
            Some(dependencies) => {
                let mut k: usize = 0;
                while k < dependencies.len()
                    invariant
                        deps == dependencies@,
                        deps == dependencies_of(ps[i as int]),
                        k <= dependencies.len(),
                        is_index_of(profile_map@, self.profiles@),
                        ps == self.profiles@,
                        i < ps.len(),
                        profile_index(ps, profile_name@) == Some(i as int),
                        *profile == ps[i as int],
                        forall|l: int| 0 <= l < k ==> profile_index(ps, #[trigger] deps[l].name@) is Some,
                        targets_view(targets@) =~= deps.map_values(
                            |d: Dependency| (profile_index(ps, d.name@)->Some_0, opt_str_view(d.env_name)),
                        ).subrange(0, k as int),
                    decreases dependencies.len() - k,
                {
                    let dependency = &dependencies[k];
                    match self.index_lookup(profile_map, &dependency.name) {
                        Some(j) => {
                            let environment = match &dependency.env_name {
                                Some(e) => Some(e.clone()),
                                None => None,
                            };
                            let ghost before = targets@;
                            targets.push(Target { profile: j, environment });
                            assert(targets_view(targets@) =~= targets_view(before).push(
                                (j as int, opt_str_view(dependency.env_name)),
                            ));
                        },
                        None => {
                            assert(profile_index(ps, deps[k as int].name@) is None);
                            assert(!forall|l: int|
                                0 <= l < deps.len() ==> profile_index(ps, #[trigger] deps[l].name@)
                                    is Some);
                            return Err(
                                Error::UnknownDependency {
                                    profile: profile.name.clone(),
                                    dependency: dependency.name.clone(),
                                },
                            );
                        },
                    }
                    k = k + 1;
                }
                assert(deps.map_values(
                    |d: Dependency| (profile_index(ps, d.name@)->Some_0, opt_str_view(d.env_name)),
                ).subrange(0, k as int) =~= deps.map_values(
                    |d: Dependency| (profile_index(ps, d.name@)->Some_0, opt_str_view(d.env_name)),
                ));
            },
            None => {
                assert(targets_view(targets@) =~= deps.map_values(
                    |d: Dependency| (profile_index(ps, d.name@)->Some_0, opt_str_view(d.env_name)),
                ));
            },
        }
        if !profile.is_composition_profile() {
            let ghost before = targets@;
            targets.push(Target { profile: i, environment: None });
            assert(targets_view(targets@) =~= targets_view(before).push((i as int, None)));
        }
        assert(targets_view(targets@) =~= resolved(ps, i as int));
        Ok(targets)
    }

    /// No name or alias is used twice.
    pub open spec fn spec_names_unique(&self) -> bool {
        index_entries(self.profiles@).map_values(|x: (Seq<char>, int)| x.0).no_duplicates()
    }

    /// No name or alias is used twice, and every dependency names a profile.
    pub open spec fn spec_valid(&self) -> bool {
        &&& self.spec_names_unique()
        &&& forall|i: int, k: int|
            0 <= i < self.profiles@.len() && 0 <= k < dependencies_of(self.profiles@[i]).len()
                ==> profile_index(
                self.profiles@,
                #[trigger] dependencies_of(self.profiles@[i])[k].name@,
            ) is Some
    }

    /// Checks the cross references of the configuration: names and aliases
    /// are unique across all profiles, and dependencies resolve.
    pub fn is_valid(&self) -> (r: Result<(), Error>)
        ensures
            r is Ok <==> self.spec_valid(),
            !self.spec_names_unique() ==> (r matches Err(Error::DuplicateName { name })
                && exists|x: int, y: int|
                0 <= x < y < index_entries(self.profiles@).len() && #[trigger] index_entries(
                    self.profiles@,
                )[x].0 == name@ && #[trigger] index_entries(self.profiles@)[y].0 == name@),
            self.spec_names_unique() && !self.spec_valid() ==> r matches Err(
                Error::UnknownDependency { .. },
            ),
    {
        let map = self.transform_to_profile_map();
        let ghost keys = index_entries(self.profiles@).map_values(|x: (Seq<char>, int)| x.0);
        assert(keys_of(map@) =~= keys);
        let mut a: usize = 0;
        while a < map.len()
            invariant
                keys == keys_of(map@),
                keys == index_entries(self.profiles@).map_values(|x: (Seq<char>, int)| x.0),
                is_index_of(map@, self.profiles@),
                a <= map.len(),
                forall|x: int, y: int| 0 <= x < a && x < y < map.len() ==> keys[x] != keys[y],
            decreases map.len() - a,
        {
            let mut b: usize = a + 1;
            while b < map.len()
                invariant
                    keys == keys_of(map@),
                    keys == index_entries(self.profiles@).map_values(|x: (Seq<char>, int)| x.0),
                    is_index_of(map@, self.profiles@),
                    a < b <= map.len(),
                    forall|x: int, y: int| 0 <= x < a && x < y < map.len() ==> keys[x] != keys[y],
                    forall|y: int| a < y < b ==> keys[a as int] != keys[y],
                decreases map.len() - b,
            {
                if map[a].0 == map[b].0 {
                    assert(!keys.no_duplicates()) by {
                        assert(keys[a as int] == keys[b as int]);
                    }
                    assert(index_entries(self.profiles@)[a as int].0 == map@[a as int].0@);
                    assert(index_entries(self.profiles@)[b as int].0 == map@[b as int].0@);
                    return Err(Error::DuplicateName { name: map[a].0.clone() });
                }
                b = b + 1;
            }
            a = a + 1;
        }
        assert(keys.no_duplicates());
        let mut i: usize = 0;
        while i < self.profiles.len()
            invariant
                is_index_of(map@, self.profiles@),
                keys.no_duplicates(),
                keys == index_entries(self.profiles@).map_values(|x: (Seq<char>, int)| x.0),
                i <= self.profiles.len(),
                forall|p: int, k: int|
                    0 <= p < i && 0 <= k < dependencies_of(self.profiles@[p]).len()
                        ==> profile_index(
                        self.profiles@,
                        #[trigger] dependencies_of(self.profiles@[p])[k].name@,
                    ) is Some,
            decreases self.profiles.len() - i,
        {
            let profile = &self.profiles[i];
            match &profile.dependencies {
                Some(dependencies) => {
                    let mut k: usize = 0;
                    while k < dependencies.len()
                        invariant
                            is_index_of(map@, self.profiles@),
                            keys.no_duplicates(),
                            keys == index_entries(self.profiles@).map_values(
                                |x: (Seq<char>, int)| x.0,
                            ),
                            i < self.profiles.len(),
                            *profile == self.profiles@[i as int],
                            profile.dependencies == Some(*dependencies),
                            k <= dependencies.len(),
                            forall|p: int, l: int|
                                0 <= p < i && 0 <= l < dependencies_of(self.profiles@[p]).len()
                                    ==> profile_index(
                                    self.profiles@,
                                    #[trigger] dependencies_of(self.profiles@[p])[l].name@,
                                ) is Some,
                            forall|l: int|
                                0 <= l < k ==> profile_index(
                                    self.profiles@,
                                    #[trigger] dependencies_of(self.profiles@[i as int])[l].name@,
                                ) is Some,
                        decreases dependencies.len() - k,
                    {
                        match self.index_lookup(&map, &dependencies[k].name) {
                            Some(_) => {},
                            None => {
                                assert(profile_index(
                                    self.profiles@,
                                    dependencies_of(self.profiles@[i as int])[k as int].name@,
                                ) is None);
                                return Err(
                                    Error::UnknownDependency {
                                        profile: profile.name.clone(),
                                        dependency: dependencies[k].name.clone(),
                                    },
                                );
                            },
                        }
                        k = k + 1;
                    }
                },
                None => {},
            }
            i = i + 1;
        }
        Ok(())
    }

    /// The names of all profiles, in configuration order.
    pub fn profile_names(&self) -> (r: Vec<String>)
        ensures
            r@.map_values(|s: String| s@) == self.profiles@.map_values(|p: Profile| p.name@),
    {
        let mut names: Vec<String> = Vec::new();
        let mut i: usize = 0;
        while i < self.profiles.len()
            invariant
                i <= self.profiles.len(),
                names@.map_values(|s: String| s@) =~= self.profiles@.map_values(
                    |p: Profile| p.name@,
                ).subrange(0, i as int),
            decreases self.profiles.len() - i,
        {
            let ghost before = names@;
            names.push(self.profiles[i].name.clone());
            assert(names@.map_values(|s: String| s@) =~= before.map_values(|s: String| s@).push(
                self.profiles@[i as int].name@,
            ));
            i = i + 1;
        }
        assert(self.profiles@.map_values(|p: Profile| p.name@).subrange(0, i as int)
            =~= self.profiles@.map_values(|p: Profile| p.name@));
        names
    }
}

} // verus!
