use crate::action::{disable_step, enable_step, requests, CommandKind, CommandOutcome, Step};
use crate::error::Error;
use crate::profile::{effective_parameters, lookup, prepared, Profile, ProfileEnvironment};
use crate::sequence::{dependencies_of, planned, profile_index, resolved, CoreProfileAction, ProfileAction};
use vstd::prelude::*;

verus! {

/// Without a state check, enabling always runs the enable command once the
/// requirements are met, and disabling never runs the disable command.
pub proof fn lemma_no_state_check(
    env: ProfileEnvironment,
    values: Option<Seq<(Seq<char>, Seq<char>)>>,
    checked: CommandOutcome,
    enabled: Step,
    disabled: Step,
)
    requires
        env.is_enabled is None,
        checked.kind == CommandKind::CanEnable,
        checked.result matches Ok(res) && res.spec_success(),
        enable_step(env, values, Some(&checked), enabled),
        disable_step(env, values, None, disabled),
    ensures
        requests(enabled, CommandKind::Enable, env.enable, env, values),
        disabled matches Ok(None),
{
}

/// A full enable run on an inactive profile that declares a state check
/// requests exactly the requirements check, the state check and the enable
/// command, in that order, each prepared from its template with the same
/// values and run with the environment's shell, and then succeeds.
pub proof fn lemma_enable_run(
    env: ProfileEnvironment,
    values: Option<Seq<(Seq<char>, Seq<char>)>>,
    checked: CommandOutcome,
    state: CommandOutcome,
    enabled: CommandOutcome,
    first: Step,
    second: Step,
    third: Step,
    last: Step,
)
    requires
        env.is_enabled is Some,
        prepared(env.can_enable.0@, values) is Some,
        prepared(env.is_enabled->Some_0.0@, values) is Some,
        prepared(env.enable.0@, values) is Some,
        checked.kind == CommandKind::CanEnable,
        checked.result matches Ok(res) && res.spec_success(),
        state.kind == CommandKind::IsEnabled,
        state.result matches Ok(res) && !res.spec_success(),
        enabled.kind == CommandKind::Enable,
        enabled.result matches Ok(res) && res.spec_success(),
        enable_step(env, values, None, first),
        enable_step(env, values, Some(&checked), second),
        enable_step(env, values, Some(&state), third),
        enable_step(env, values, Some(&enabled), last),
    ensures
        first matches Ok(Some(q)) && q.kind == CommandKind::CanEnable && q.command@ == prepared(
            env.can_enable.0@,
            values,
        )->Some_0 && q.shell == env.shell,
        second matches Ok(Some(q)) && q.kind == CommandKind::IsEnabled && q.command@ == prepared(
            env.is_enabled->Some_0.0@,
            values,
        )->Some_0 && q.shell == env.shell,
        third matches Ok(Some(q)) && q.kind == CommandKind::Enable && q.command@ == prepared(
            env.enable.0@,
            values,
        )->Some_0 && q.shell == env.shell,
        last matches Ok(None),
{
}

/// When the requirements check fails, or cannot run, enabling fails with
/// unmet requirements and requests no further command.
pub proof fn lemma_requirements_gate(
    env: ProfileEnvironment,
    values: Option<Seq<(Seq<char>, Seq<char>)>>,
    checked: CommandOutcome,
    r: Step,
)
    requires
        checked.kind == CommandKind::CanEnable,
        !(checked.result matches Ok(res) && res.spec_success()),
        enable_step(env, values, Some(&checked), r),
    ensures
        r matches Err(Error::ProfileRequirementsNotMet { .. }),
{
}

/// When the state check reports the profile active, enabling runs the state
/// check rather than the enable command after the requirements check, and
/// then finishes without running the enable command: enabling an active
/// profile, any number of times, never runs it.
pub proof fn lemma_enable_idempotent(
    env: ProfileEnvironment,
    values: Option<Seq<(Seq<char>, Seq<char>)>>,
    checked: CommandOutcome,
    state: CommandOutcome,
    after_check: Step,
    after_state: Step,
)
    requires
        env.is_enabled is Some,
        checked.kind == CommandKind::CanEnable,
        checked.result matches Ok(res) && res.spec_success(),
        state.kind == CommandKind::IsEnabled,
        state.result matches Ok(res) && res.spec_success(),
        enable_step(env, values, Some(&checked), after_check),
        enable_step(env, values, Some(&state), after_state),
    ensures
        !(after_check matches Ok(Some(req)) && req.kind == CommandKind::Enable),
        after_state matches Ok(None),
{
}

proof fn lemma_lookup_push_other(
    args: Seq<(Seq<char>, Seq<char>)>,
    name: Seq<char>,
    value: Seq<char>,
    other: Seq<char>,
)
    requires
        other != name,
    ensures
        lookup(args.push((name, value)), other) == lookup(args, other),
{
    let keys = args.map_values(|p: (Seq<char>, Seq<char>)| p.0);
    let pushed = args.push((name, value)).map_values(|p: (Seq<char>, Seq<char>)| p.0);
    assert(pushed.drop_last() =~= keys);
    crate::profile::lemma_last_index_bounds(keys, other);
}

/// A declared parameter takes the caller's value where one is given, and its
/// default otherwise; an argument for an undeclared name changes nothing.
pub proof fn lemma_parameter_precedence(
    declared: Seq<(Seq<char>, Seq<char>)>,
    args: Seq<(Seq<char>, Seq<char>)>,
    undeclared: Seq<char>,
    value: Seq<char>,
)
    requires
        forall|k: int| 0 <= k < declared.len() ==> #[trigger] declared[k].0 != undeclared,
    ensures
        effective_parameters(declared, Some(args)).len() == declared.len(),
        forall|k: int|
            0 <= k < declared.len() ==> {
                let e = #[trigger] effective_parameters(declared, Some(args))[k];
                &&& e.0 == declared[k].0
                &&& lookup(args, declared[k].0) matches Some(v) ==> e.1 == v
                &&& lookup(args, declared[k].0) is None ==> e.1 == declared[k].1
            },
        forall|k: int|
            0 <= k < declared.len() ==> (#[trigger] effective_parameters(declared, None)[k])
                == declared[k],
        effective_parameters(declared, Some(args.push((undeclared, value))))
            == effective_parameters(declared, Some(args)),
{
    assert forall|k: int| 0 <= k < declared.len() implies lookup(
        args.push((undeclared, value)),
        #[trigger] declared[k].0,
    ) == lookup(args, declared[k].0) by {
        lemma_lookup_push_other(args, undeclared, value, declared[k].0);
    }
    assert(effective_parameters(declared, Some(args.push((undeclared, value))))
        =~= effective_parameters(declared, Some(args)));
}

/// Dependencies come first, in declaration order, each resolved by name or
/// alias; the profile itself comes last unless it is a composition profile,
/// which is never itself acted on.
pub proof fn lemma_dependencies_first(ps: Seq<Profile>, i: int)
    requires
        0 <= i < ps.len(),
    ensures
        forall|k: int|
            0 <= k < dependencies_of(ps[i]).len() ==> (#[trigger] resolved(ps, i)[k]).0
                == profile_index(ps, dependencies_of(ps[i])[k].name@)->Some_0,
        ps[i].spec_is_composition() ==> resolved(ps, i).len() == dependencies_of(ps[i]).len(),
        !ps[i].spec_is_composition() ==> resolved(ps, i).len() == dependencies_of(ps[i]).len()
            + 1 && resolved(ps, i).last() == (i, None::<Seq<char>>),
{
}

/// Enabling acts on the targets in order, disabling in reverse order, and
/// resetting runs the whole disable pass before the whole enable pass.
pub proof fn lemma_action_order(ts: Seq<(int, Option<Seq<char>>)>, default: Seq<char>)
    ensures
        planned(ts, ProfileAction::Enable, default).map_values(
            |a: (int, Seq<char>, CoreProfileAction)| a.0,
        ) == ts.map_values(|t: (int, Option<Seq<char>>)| t.0),
        planned(ts, ProfileAction::Disable, default).map_values(
            |a: (int, Seq<char>, CoreProfileAction)| a.0,
        ) == ts.map_values(|t: (int, Option<Seq<char>>)| t.0).reverse(),
        planned(ts, ProfileAction::Reset, default) == planned(ts, ProfileAction::Disable, default)
            + planned(ts, ProfileAction::Enable, default),
        forall|k: int|
            0 <= k < ts.len() ==> (#[trigger] planned(ts, ProfileAction::Enable, default)[k]).2
                == CoreProfileAction::Enable && planned(ts, ProfileAction::Disable, default)[k].2
                == CoreProfileAction::Disable,
{
    assert(planned(ts, ProfileAction::Enable, default).map_values(
        |a: (int, Seq<char>, CoreProfileAction)| a.0,
    ) =~= ts.map_values(|t: (int, Option<Seq<char>>)| t.0));
    assert(planned(ts, ProfileAction::Disable, default).map_values(
        |a: (int, Seq<char>, CoreProfileAction)| a.0,
    ) =~= ts.map_values(|t: (int, Option<Seq<char>>)| t.0).reverse());
}

} // verus!
