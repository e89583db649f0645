use crate::error::Error;
use crate::template::{has_complete_specs, specs_complete};
use vstd::prelude::*;

verus! {

/// The names of a sequence of keyed entries.
pub open spec fn keys_of<V>(entries: Seq<(String, V)>) -> Seq<Seq<char>> {
    entries.map_values(|e: (String, V)| e.0@)
}

/// A sequence of string pairs as pairs of character sequences.
pub open spec fn pairs_view(pairs: Seq<(String, String)>) -> Seq<(Seq<char>, Seq<char>)> {
    pairs.map_values(|p: (String, String)| (p.0@, p.1@))
}

/// The position of the last entry named `k`: later entries shadow earlier ones.
pub open spec fn last_index(keys: Seq<Seq<char>>, k: Seq<char>) -> Option<int>
    decreases keys.len(),
{
    if keys.len() == 0 {
        None
    } else if keys.last() == k {
        Some(keys.len() - 1)
    } else {
        last_index(keys.drop_last(), k)
    }
}

/// The value bound to `k` in a list of bindings, the last binding winning.
pub open spec fn lookup(pairs: Seq<(Seq<char>, Seq<char>)>, k: Seq<char>) -> Option<Seq<char>> {
    match last_index(pairs.map_values(|p: (Seq<char>, Seq<char>)| p.0), k) {
        Some(i) => Some(pairs[i].1),
        None => None,
    }
}

/// A position found by name lies in the sequence and holds that name.
pub proof fn lemma_last_index_bounds(keys: Seq<Seq<char>>, k: Seq<char>)
    ensures
        last_index(keys, k) matches Some(i) ==> 0 <= i < keys.len() && keys[i] == k,
    decreases keys.len(),
{
    if keys.len() > 0 && keys.last() != k {
        lemma_last_index_bounds(keys.drop_last(), k);
    }
}

/// Finds the last entry named `key`.
pub fn find_last_key<V>(entries: &Vec<(String, V)>, key: &String) -> (r: Option<usize>)
    ensures
        r matches Some(i) ==> last_index(keys_of(entries@), key@) == Some(i as int),
        r is None ==> last_index(keys_of(entries@), key@) is None,
{
    let mut i: usize = entries.len();
    assert(entries@.subrange(0, i as int) =~= entries@);
    while i > 0
        invariant
            i <= entries.len(),
            last_index(keys_of(entries@), key@) == last_index(
                keys_of(entries@.subrange(0, i as int)),
                key@,
            ),
        decreases i,
    {
        let ghost prefix = entries@.subrange(0, i as int);
        assert(keys_of(prefix).drop_last() =~= keys_of(entries@.subrange(0, i - 1)));
        i = i - 1;
        if entries[i].0 == *key {
            return Some(i);
        }
    }
    None
}

/// Finds the value bound to `key`, the last binding winning.
pub fn lookup_value(pairs: &Vec<(String, String)>, key: &String) -> (r: Option<String>)
    ensures
        r matches Some(v) ==> lookup(pairs_view(pairs@), key@) == Some(v@),
        r is None ==> lookup(pairs_view(pairs@), key@) is None,
{
    let found = find_last_key(pairs, key);
    assert(pairs_view(pairs@).map_values(|p: (Seq<char>, Seq<char>)| p.0) =~= keys_of(pairs@));
    proof {
        lemma_last_index_bounds(keys_of(pairs@), key@);
    }
    match found {
        Some(i) => Some(pairs[i].1.clone()),
        None => None,
    }
}


/// What `interpolator::format` makes of a template under a context of named
/// values: the text, or `None` where the template is malformed or names a value
/// that the context lacks.
pub uninterp spec fn interpolated(
    template: Seq<char>,
    context: Seq<(Seq<char>, Seq<char>)>,
) -> Option<Seq<char>>;

/// Relies on `interpolator::format`, which substitutes `{name}` placeholders
/// with the values of a map built from `context` (a later binding replaces an
/// earlier one of the same name), and fails on a malformed template or on a
/// placeholder without a value. Its parser reads past the end of a format
/// specification that the template leaves unclosed, so the template must
/// have complete specifications.
#[verifier::external_body]
fn format_template(template: &String, context: &Vec<(String, String)>) -> (r: Result<String, String>)
    requires
        specs_complete(template@),
    ensures
        r matches Ok(text) ==> interpolated(template@, pairs_view(context@)) == Some(text@),
        r is Err ==> interpolated(template@, pairs_view(context@)) is None,
{
    let values: std::collections::HashMap<&str, interpolator::Formattable<'_>> = context
        .iter()
        .map(|(k, v)| (k.as_str(), interpolator::Formattable::display(v)))
        .collect();
    interpolator::format(template, &values).map_err(|e| e.to_string())
}

/// Optional bindings as character sequences.
pub open spec fn opt_pairs_view(args: Option<&Vec<(String, String)>>) -> Option<
    Seq<(Seq<char>, Seq<char>)>,
> {
    match args {
        Some(a) => Some(pairs_view(a@)),
        None => None,
    }
}

/// The command text of a template: verbatim where no parameters are declared,
/// else interpolated with the given values; `None` for a template with an
/// incomplete format specification or one that cannot be interpolated.
pub open spec fn prepared(
    template: Seq<char>,
    values: Option<Seq<(Seq<char>, Seq<char>)>>,
) -> Option<Seq<char>> {
    match values {
        Some(v) => if specs_complete(template) {
            interpolated(template, v)
        } else {
            None
        },
        None => Some(template),
    }
}

/// The value of a declared parameter: the caller's override, else the default.
pub open spec fn parameter_value(
    name: Seq<char>,
    default: Seq<char>,
    args: Option<Seq<(Seq<char>, Seq<char>)>>,
) -> Seq<char> {
    match args {
        Some(a) => match lookup(a, name) {
            Some(v) => v,
            None => default,
        },
        None => default,
    }
}

/// The declared parameters, each with its effective value. Arguments whose
/// names are not declared do not appear.
pub open spec fn effective_parameters(
    declared: Seq<(Seq<char>, Seq<char>)>,
    args: Option<Seq<(Seq<char>, Seq<char>)>>,
) -> Seq<(Seq<char>, Seq<char>)> {
    declared.map_values(
        |p: (Seq<char>, Seq<char>)| (p.0, parameter_value(p.0, p.1, args)),
    )
}

/// A shell command template with `{name}` placeholders.
#[derive(Debug)]
pub struct CommandString(pub String);

impl CommandString {
    /// Injects the given values into the template; without values the template
    /// is returned verbatim.
    pub fn prepare_with_args(&self, args: Option<&Vec<(String, String)>>) -> (r: Result<
        String,
        Error,
    >)
        ensures
            r matches Ok(text) ==> prepared(self.0@, opt_pairs_view(args)) == Some(text@),
            r is Err ==> prepared(self.0@, opt_pairs_view(args)) is None && r matches Err(
                Error::Format { .. },
            ),
    {
        match args {
            Some(values) => {
                if !has_complete_specs(self.0.as_str()) {
                    return Err(
                        Error::Format {
                            message: String::from_str(
                                "incomplete format specification in command template",
                            ),
                        },
                    );
                }
                match format_template(&self.0, values) {
                    Ok(text) => Ok(text),
                    Err(message) => Err(Error::Format { message }),
                }
            },
            None => Ok(self.0.clone()),
        }
    }
}

/// The commands that enable and disable a profile in one environment.
#[derive(Debug)]
pub struct ProfileEnvironment {
    /// Shell that runs the commands; `None` selects the default shell.
    pub shell: Option<String>,
    /// Declared parameters with their default values. Names are meant to be
    /// unique; where one is declared twice, the later declaration is the one
    /// interpolated.
    pub parameters: Option<Vec<(String, String)>>,
    /// Exits with 0 when the profile's requirements are met.
    pub can_enable: CommandString,
    /// Exits with 0 when the profile is active; absent means never active.
    pub is_enabled: Option<CommandString>,
    /// Enables the profile.
    pub enable: CommandString,
    /// Disables the profile.
    pub disable: CommandString,
}

impl ProfileEnvironment {
    /// The parameter values that this environment's commands are prepared with.
    pub open spec fn values(&self, args: Option<&Vec<(String, String)>>) -> Option<
        Seq<(Seq<char>, Seq<char>)>,
    > {
        match self.parameters {
            Some(ps) => Some(effective_parameters(pairs_view(ps@), opt_pairs_view(args))),
            None => None,
        }
    }
}

/// A dependency: a profile name or alias, with an optional environment to
/// use for it.
#[derive(Debug)]
pub struct Dependency {
    pub name: String,
    pub env_name: Option<String>,
}

/// A named profile with its per-environment commands.
#[derive(Debug)]
pub struct Profile {
    pub name: String,
    pub aliases: Option<Vec<String>>,
    pub dependencies: Option<Vec<Dependency>>,
    /// Environments by name. Names are meant to be unique; where one is
    /// defined twice, the later definition is the one looked up.
    pub envs: Vec<(String, ProfileEnvironment)>,
}

impl Profile {
    /// The environment of the given name, if the profile defines it.
    pub open spec fn environment(&self, name: Seq<char>) -> Option<ProfileEnvironment> {
        match last_index(keys_of(self.envs@), name) {
            Some(i) => Some(self.envs@[i].1),
            None => None,
        }
    }

    /// A composition profile has no environment of its own and only bundles
    /// its dependencies.
    pub open spec fn spec_is_composition(&self) -> bool {
        self.envs@.len() == 0
    }

    pub fn is_composition_profile(&self) -> (r: bool)
        ensures
            r == self.spec_is_composition(),
    {
        self.envs.len() == 0
    }

    /// Selects, for each declared parameter, the caller's value if given and
    /// the default otherwise; undeclared arguments are dropped. Where the
    /// caller gives a name twice, the later value is taken.
    pub(crate) fn transform_args(environment: &ProfileEnvironment, args: Option<&Vec<(String, String)>>) -> (r:
        Option<Vec<(String, String)>>)
        ensures
            match r {
                Some(v) => environment.values(args) == Some(pairs_view(v@)),
                None => environment.values(args) is None,
            },
    {
        match &environment.parameters {
            None => None,
            Some(parameters) => {
                let mut values: Vec<(String, String)> = Vec::new();
                let mut i: usize = 0;
                while i < parameters.len()
                    invariant
                        i <= parameters.len(),
                        pairs_view(values@) =~= effective_parameters(
                            pairs_view(parameters@),
                            opt_pairs_view(args),
                        ).subrange(0, i as int),
                    decreases parameters.len() - i,
                {
                    let name = parameters[i].0.clone();
                    let value = match args {
                        Some(a) => match lookup_value(a, &name) {
                            Some(v) => v,
                            None => parameters[i].1.clone(),
                        },
                        None => parameters[i].1.clone(),
                    };
                    assert(effective_parameters(pairs_view(parameters@), opt_pairs_view(args))[i as int]
                        == (name@, value@));
                    let ghost before = values@;
                    let ghost entry = (name@, value@);
                    values.push((name, value));
                    assert(pairs_view(values@) =~= pairs_view(before).push(entry));
                    i = i + 1;
                }
                Some(values)
            },
        }
    }

    /// Looks up the environment of the given name.
    pub fn get_environment(&self, environment_name: &String) -> (r: Result<&ProfileEnvironment, Error>)
        ensures
            self.environment(environment_name@) matches Some(env) ==> (r matches Ok(e) && *e
                == env),
            self.environment(environment_name@) is None ==> (r matches Err(
                Error::InvalidEnvironment { environment, profile },
            ) && environment@ == environment_name@ && profile@ == self.name@),
    {
        proof {
            lemma_last_index_bounds(keys_of(self.envs@), environment_name@);
        }
        match find_last_key(&self.envs, environment_name) {
            Some(i) => Ok(&self.envs[i].1),
            None => Err(
                Error::InvalidEnvironment {
                    environment: environment_name.clone(),
                    profile: self.name.clone(),
                },
            ),
        }
    }
}


/// All profiles of a configuration.
#[derive(Debug)]
pub struct ProfileConfig {
    pub profiles: Vec<Profile>,
}

} // verus!
