//! The launch configuration: path validation, the exact invocation the
//! runner is started with, and the mapping from the child's exit status to
//! the overall result.

use vstd::prelude::*;

use crate::error::{error_here, ErrorKind, LaunchError};

verus! {

/// A fully resolved launch configuration, owned by exactly one launch
/// attempt: `check` may read it any number of times, and planning the launch
/// consumes it.
#[derive(Debug)]
pub struct Proton {
    /// Path to the compatibility platform's client installation.
    pub steam: String,
    /// Path to the runner executable.
    pub proton: String,
    /// Path to the target (guest) executable.
    pub executable: String,
    /// Extra arguments forwarded verbatim to the runner, order-preserving.
    pub passed_args: Vec<String>,
    /// Path to the working-data directory the runner uses at runtime.
    pub data: String,
    /// Whether verbose runner logging is requested.
    pub log: bool,
}

/// Exactly what a launch hands to the operating system: the program to
/// spawn, its argument list, and the environment variables to set on the
/// child.
#[derive(Debug)]
pub struct LaunchPlan {
    /// The program to spawn: the runner executable's path.
    pub program: String,
    /// The child's argument list, in order.
    pub args: Vec<String>,
    /// The environment variables set on the child, as name-value pairs.
    pub env: Vec<(String, String)>,
}

/// The logging flag handed to the runner: `"1"` when verbose logging is
/// requested, `"0"` otherwise.
pub open spec fn flag_seq(log: bool) -> Seq<char> {
    if log {
        "1"@
    } else {
        "0"@
    }
}

/// The child's argument list: the `run` subcommand, the target executable's
/// path, then every extra argument unmodified and in its original order.
pub open spec fn invocation_args(executable: Seq<char>, extra: Seq<Seq<char>>) -> Seq<Seq<char>> {
    seq!["run"@, executable] + extra
}

/// The three environment variables set on the child, as name-value pairs:
/// the logging flag, the installation root, and the working-data directory.
/// The names are part of the wire contract with the runner.
pub open spec fn child_env(log: bool, steam: Seq<char>, data: Seq<char>) -> Seq<
    (Seq<char>, Seq<char>),
> {
    seq![
        ("PROTON_LOG"@, flag_seq(log)),
        ("STEAM_COMPAT_CLIENT_INSTALL_PATH"@, steam),
        ("STEAM_COMPAT_DATA_PATH"@, data),
    ]
}

/// Relies on std::path::Path::exists to ask the filesystem whether `path`
/// names an existing entry. The answer depends on the machine's disk, so
/// nothing is promised of it.
#[verifier::external_body]
fn path_exists(path: &String) -> bool {
    std::path::Path::new(path).exists()
}

impl Proton {
    /// Gathers already-resolved configuration values into a launch
    /// configuration, field for field.
    pub fn new(
        steam: String,
        proton: String,
        executable: String,
        passed_args: Vec<String>,
        data: String,
        log: bool,
    ) -> (p: Proton)
        ensures
            p == (Proton { steam, proton, executable, passed_args, data, log }),
    {
        Proton { steam, proton, executable, passed_args, data, log }
    }

    /// The verdict of `check`, given whether each of the two required paths
    /// exists: success exactly when both do; otherwise a `NotFound` error
    /// carrying the missing path, the runner's path reported first when both
    /// are missing.
    pub fn check_verdict(&self, runner_exists: bool, target_exists: bool) -> (r: Result<
        (),
        LaunchError,
    >)
        ensures
            r is Ok <==> (runner_exists && target_exists),
            !runner_exists ==> (r matches Err(e) && e.kind == ErrorKind::NotFound && e.message@
                == self.proton@),
            (runner_exists && !target_exists) ==> (r matches Err(e) && e.kind
                == ErrorKind::NotFound && e.message@ == self.executable@),
    {
        if !runner_exists {
            error_here(ErrorKind::NotFound, self.proton.clone())
        } else if !target_exists {
            error_here(ErrorKind::NotFound, self.executable.clone())
        } else {
            Ok(())
        }
    }

    /// Checks that the runner and the target executable both exist on the
    /// filesystem. Which paths exist only the disk can answer; whatever it
    /// answers, a failure is a `NotFound` error naming one of the two
    /// checked paths, and the verdict follows `check_verdict` on the two
    /// answers. Neither `steam` nor `data` is checked: a missing data
    /// directory may legitimately be created by the runner itself.
    pub fn check(&self) -> (r: Result<(), LaunchError>)
        ensures
            r matches Err(e) ==> e.kind == ErrorKind::NotFound && (e.message@ == self.proton@
                || e.message@ == self.executable@),
    {
        let runner_exists = path_exists(&self.proton);
        let target_exists = path_exists(&self.executable);
        self.check_verdict(runner_exists, target_exists)
    }

    /// Consumes the configuration and lays out exactly what the launch
    /// hands to the operating system: the runner as the program; `run`, the
    /// target and then the extra arguments, in order, as the argument list;
    /// and exactly the three environment variables, carrying the logging
    /// flag, the installation root and the data directory.
    pub fn launch_plan(self) -> (plan: LaunchPlan)
        ensures
            plan.program@ == self.proton@,
            plan.args.deep_view() == invocation_args(
                self.executable@,
                self.passed_args.deep_view(),
            ),
            plan.env.deep_view() == child_env(self.log, self.steam@, self.data@),
    {
        let Proton { steam, proton, executable, passed_args, data, log } = self;
        let ghost exe0: Seq<char> = executable@;
        let ghost extra0: Seq<Seq<char>> = passed_args.deep_view();
        let ghost steam0: Seq<char> = steam@;
        let ghost data0: Seq<char> = data@;

        let flag: String = if log {
            "1".to_owned()
        } else {
            "0".to_owned()
        };

        let mut args: Vec<String> = Vec::new();
        args.push("run".to_owned());
        args.push(executable);
        let mut extra: Vec<String> = passed_args;
        args.append(&mut extra);
        proof {
            assert(args.deep_view() =~= invocation_args(exe0, extra0));
        }

        let mut env: Vec<(String, String)> = Vec::new();
        env.push(("PROTON_LOG".to_owned(), flag));
        env.push(("STEAM_COMPAT_CLIENT_INSTALL_PATH".to_owned(), steam));
        env.push(("STEAM_COMPAT_DATA_PATH".to_owned(), data));
        proof {
            assert(env.deep_view() =~= child_env(log, steam0, data0));
        }

        LaunchPlan { program: proton, args, env }
    }
}

/// Maps the child's termination to the overall result: success exactly when
/// the child exited cleanly; any non-zero or abnormal termination is a
/// `NonZeroExit` error. Spawn and wait failures never reach this point: the
/// shell reports them as they are.
pub fn exit_verdict(exited_cleanly: bool) -> (r: Result<(), LaunchError>)
    ensures
        r is Ok <==> exited_cleanly,
        !exited_cleanly ==> (r matches Err(e) && e.kind == ErrorKind::NonZeroExit && e.message@
            == "Proton exited with error"@),
{
    if exited_cleanly {
        Ok(())
    } else {
        error_here(ErrorKind::NonZeroExit, "Proton exited with error".to_owned())
    }
}

} // verus!
