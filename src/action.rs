use crate::error::Error;
use crate::process::{output_text, CommandResult};
use crate::profile::{opt_pairs_view, prepared, CommandString, Profile, ProfileEnvironment};
use vstd::prelude::*;

verus! {

/// The command slots of a profile environment.
#[derive(Debug, Clone, Copy, PartialEq, Eq, Structural)]
pub enum CommandKind {
    CanEnable,
    IsEnabled,
    Enable,
    Disable,
}

/// A command that the caller is asked to run, and report on, before the
/// protocol can go on.
#[derive(Debug, PartialEq, Eq)]
pub struct CommandRequest {
    pub kind: CommandKind,
    /// The prepared command text.
    pub command: String,
    /// The shell to run it with; `None` selects the default shell.
    pub shell: Option<String>,
}

/// How the last requested command went: its result, or a description of why
/// it could not be run.
#[derive(Debug)]
pub struct CommandOutcome {
    pub kind: CommandKind,
    pub result: Result<CommandResult, String>,
}

/// The next step of a protocol: run a command (`Ok(Some(..))`), done
/// (`Ok(None)`), or failed.
pub type Step = Result<Option<CommandRequest>, Error>;

/// `r` asks to run the command of `kind` prepared from `template`, or reports
/// that the template could not be prepared.
pub open spec fn requests(
    r: Step,
    kind: CommandKind,
    template: CommandString,
    env: ProfileEnvironment,
    values: Option<Seq<(Seq<char>, Seq<char>)>>,
) -> bool {
    match prepared(template.0@, values) {
        Some(text) => r matches Ok(Some(req)) && req.kind == kind && req.command@ == text
            && req.shell == env.shell,
        None => r matches Err(Error::Format { .. }),
    }
}

/// `message` reports the failure of `res`: its standard error when readable,
/// else a note that it could not be read.
pub open spec fn reports_stderr(res: CommandResult, message: Seq<char>) -> bool {
    match output_text(res.stderr@) {
        Some(text) => message == text,
        None => exists|reason: Seq<char>|
            message == "Failed to read command error output: "@ + reason,
    }
}

/// `r` is what a mutating command's outcome leads to: done on exit code 0,
/// else a command failure; a command that could not run is an I/O error.
pub open spec fn finishes(result: Result<CommandResult, String>, r: Step) -> bool {
    match result {
        Err(m) => r matches Err(Error::Io { message }) && message@ == m@,
        Ok(res) => if res.spec_success() {
            r matches Ok(None)
        } else {
            r matches Err(Error::CommandFailure { code, message }) && code == res.spec_exit_code()
                && reports_stderr(res, message@)
        },
    }
}

/// The step of the enable protocol that follows `last`.
pub open spec fn enable_step(
    env: ProfileEnvironment,
    values: Option<Seq<(Seq<char>, Seq<char>)>>,
    last: Option<&CommandOutcome>,
    r: Step,
) -> bool {
    match last {
        None => requests(r, CommandKind::CanEnable, env.can_enable, env, values),
        Some(o) => match o.kind {
            CommandKind::CanEnable => match o.result {
                Err(m) => r matches Err(Error::ProfileRequirementsNotMet { message }) && message@
                    == m@,
                Ok(res) => if res.spec_success() {
                    match env.is_enabled {
                        Some(t) => requests(r, CommandKind::IsEnabled, t, env, values),
                        None => requests(r, CommandKind::Enable, env.enable, env, values),
                    }
                } else {
                    r matches Err(Error::ProfileRequirementsNotMet { message }) && reports_stderr(
                        res,
                        message@,
                    )
                },
            },
            CommandKind::IsEnabled => match o.result {
                Err(m) => r matches Err(Error::Io { message }) && message@ == m@,
                Ok(res) => if res.spec_success() {
                    r matches Ok(None)
                } else {
                    requests(r, CommandKind::Enable, env.enable, env, values)
                },
            },
            CommandKind::Enable => finishes(o.result, r),
            CommandKind::Disable => false,
        },
    }
}

/// The step of the disable protocol that follows `last`.
pub open spec fn disable_step(
    env: ProfileEnvironment,
    values: Option<Seq<(Seq<char>, Seq<char>)>>,
    last: Option<&CommandOutcome>,
    r: Step,
) -> bool {
    match last {
        None => match env.is_enabled {
            Some(t) => requests(r, CommandKind::IsEnabled, t, env, values),
            None => r matches Ok(None),
        },
        Some(o) => match o.kind {
            CommandKind::IsEnabled => match o.result {
                Err(m) => r matches Err(Error::Io { message }) && message@ == m@,
                Ok(res) => if res.spec_success() {
                    requests(r, CommandKind::Disable, env.disable, env, values)
                } else {
                    r matches Ok(None)
                },
            },
            CommandKind::Disable => finishes(o.result, r),
            _ => false,
        },
    }
}

/// `r` is the error for an environment that the profile does not define.
pub open spec fn rejects_environment(profile: Profile, name: Seq<char>, r: Step) -> bool {
    r matches Err(Error::InvalidEnvironment { environment, profile: p }) && environment@ == name
        && p@ == profile.name@
}

/// Prepares the command of `kind` from `template` as a request.
fn request(
    kind: CommandKind,
    template: &CommandString,
    env: &ProfileEnvironment,
    values: Option<&Vec<(String, String)>>,
) -> (r: Step)
    ensures
        requests(r, kind, *template, *env, opt_pairs_view(values)),
{
    let command = match template.prepare_with_args(values) {
        Ok(text) => text,
        Err(e) => {
            return Err(e);
        },
    };
    let shell = match &env.shell {
        Some(s) => Some(s.clone()),
        None => None,
    };
    Ok(Some(CommandRequest { kind, command, shell }))
}

/// Interprets the outcome of a mutating command.
fn finish(result: &Result<CommandResult, String>) -> (r: Step)
    ensures
        finishes(*result, r),
{
    match result {
        Err(m) => Err(Error::Io { message: m.clone() }),
        Ok(res) => if res.success() {
            Ok(None)
        } else {
            Err(Error::CommandFailure { code: res.exit_code(), message: res.failure_message() })
        },
    }
}

impl Profile {
    /// One step of enabling the profile in the named environment.
    ///
    /// Called first with `last == None`, then with the outcome of each
    /// requested command, until it returns `Ok(None)` (enabled) or an error.
    /// The requirements check runs first; the state check, where declared,
    /// next; the enable command only where the profile is not already active.
    pub fn enable(
        &self,
        environment_name: &String,
        args: Option<&Vec<(String, String)>>,
        last: Option<&CommandOutcome>,
    ) -> (r: Step)
        requires
            last matches Some(o) ==> o.kind != CommandKind::Disable,
        ensures
            self.environment(environment_name@) is None ==> rejects_environment(
                *self,
                environment_name@,
                r,
            ),
            self.environment(environment_name@) matches Some(env) ==> enable_step(
                env,
                env.values(args),
                last,
                r,
            ),
    {
        let env = match self.get_environment(environment_name) {
            Ok(env) => env,
            Err(e) => {
                return Err(e);
            },
        };
        let values = Self::transform_args(env, args);
        match last {
            None => request(CommandKind::CanEnable, &env.can_enable, env, values.as_ref()),
            Some(o) => match o.kind {
                CommandKind::CanEnable => match &o.result {
                    Err(m) => Err(Error::ProfileRequirementsNotMet { message: m.clone() }),
                    Ok(res) => if res.success() {
                        match &env.is_enabled {
                            Some(t) => request(CommandKind::IsEnabled, t, env, values.as_ref()),
                            None => request(CommandKind::Enable, &env.enable, env, values.as_ref()),
                        }
                    } else {
                        Err(Error::ProfileRequirementsNotMet { message: res.failure_message() })
                    },
                },
                CommandKind::IsEnabled => match &o.result {
                    Err(m) => Err(Error::Io { message: m.clone() }),
                    Ok(res) => if res.success() {
                        Ok(None)
                    } else {
                        request(CommandKind::Enable, &env.enable, env, values.as_ref())
                    },
                },
                _ => finish(&o.result),
            },
        }
    }

    /// One step of disabling the profile in the named environment.
    ///
    /// Called first with `last == None`, then with the outcome of each
    /// requested command, until it returns `Ok(None)` (disabled) or an error.
    /// The disable command runs only where the declared state check reports
    /// the profile active; without a state check nothing runs.
    pub fn disable(
        &self,
        environment_name: &String,
        args: Option<&Vec<(String, String)>>,
        last: Option<&CommandOutcome>,
    ) -> (r: Step)
        requires
            last matches Some(o) ==> (o.kind == CommandKind::IsEnabled || o.kind
                == CommandKind::Disable),
        ensures
            self.environment(environment_name@) is None ==> rejects_environment(
                *self,
                environment_name@,
                r,
            ),
            self.environment(environment_name@) matches Some(env) ==> disable_step(
                env,
                env.values(args),
                last,
                r,
            ),
    {
        let env = match self.get_environment(environment_name) {
            Ok(env) => env,
            Err(e) => {
                return Err(e);
            },
        };
        let values = Self::transform_args(env, args);
        match last {
            None => match &env.is_enabled {
                Some(t) => request(CommandKind::IsEnabled, t, env, values.as_ref()),
                None => Ok(None),
            },
            Some(o) => match o.kind {
                CommandKind::IsEnabled => match &o.result {
                    Err(m) => Err(Error::Io { message: m.clone() }),
                    Ok(res) => if res.success() {
                        request(CommandKind::Disable, &env.disable, env, values.as_ref())
                    } else {
                        Ok(None)
                    },
                },
                _ => finish(&o.result),
            },
        }
    }
}

} // verus!
