//! Staged construction of a launch configuration: field values arrive one at
//! a time, and `build` yields a `Proton` only when every required field has
//! been supplied.

use vstd::prelude::*;

use crate::error::{error_here, ErrorKind, LaunchError};
use crate::launch::Proton;

verus! {

/// Accumulates the fields of a `Proton` one at a time. Every field is
/// required: `build` fails, naming the first absent field, until all six
/// have been supplied.
#[derive(Debug)]
pub struct ProtonBuilder {
    /// Path to the compatibility platform's client installation, once
    /// supplied.
    pub steam: Option<String>,
    /// Path to the runner executable, once supplied.
    pub proton: Option<String>,
    /// Path to the target executable, once supplied.
    pub executable: Option<String>,
    /// Extra arguments for the runner, once supplied.
    pub passed_args: Option<Vec<String>>,
    /// Path to the working-data directory, once supplied.
    pub data: Option<String>,
    /// Whether verbose runner logging is requested, once supplied.
    pub log: Option<bool>,
}

impl ProtonBuilder {
    /// True when every required field has been supplied.
    pub open spec fn complete(self) -> bool {
        &&& self.steam is Some
        &&& self.proton is Some
        &&& self.executable is Some
        &&& self.passed_args is Some
        &&& self.data is Some
        &&& self.log is Some
    }

    /// The name of the first field still missing, in the order `build`
    /// reports them.
    pub open spec fn first_missing(self) -> Seq<char>
        recommends
            !self.complete(),
    {
        if self.steam is None {
            "steam"@
        } else if self.proton is None {
            "proton"@
        } else if self.executable is None {
            "executable"@
        } else if self.passed_args is None {
            "passed_args"@
        } else if self.data is None {
            "data"@
        } else {
            "log"@
        }
    }

    /// The configuration a complete builder yields: each field taken as it
    /// was supplied.
    pub open spec fn built(self) -> Proton
        recommends
            self.complete(),
    {
        Proton {
            steam: self.steam->Some_0,
            proton: self.proton->Some_0,
            executable: self.executable->Some_0,
            passed_args: self.passed_args->Some_0,
            data: self.data->Some_0,
            log: self.log->Some_0,
        }
    }

    /// Starts a builder with no field supplied.
    pub fn new() -> (b: Self)
        ensures
            b == (ProtonBuilder {
                steam: None,
                proton: None,
                executable: None,
                passed_args: None,
                data: None,
                log: None,
            }),
    {
        Self { steam: None, proton: None, executable: None, passed_args: None, data: None, log: None }
    }

    /// Supplies the installation root, leaving every other field as it was.
    pub fn steam(self, steam: String) -> (r: Self)
        ensures
            r == (ProtonBuilder { steam: Some(steam), ..self }),
    {
        Self { steam: Some(steam), ..self }
    }

    /// Supplies the runner executable's path, leaving every other field as
    /// it was.
    pub fn proton(self, proton: String) -> (r: Self)
        ensures
            r == (ProtonBuilder { proton: Some(proton), ..self }),
    {
        Self { proton: Some(proton), ..self }
    }

    /// Supplies the target executable's path, leaving every other field as
    /// it was.
    pub fn executable(self, exe: String) -> (r: Self)
        ensures
            r == (ProtonBuilder { executable: Some(exe), ..self }),
    {
        Self { executable: Some(exe), ..self }
    }

    /// Supplies the extra arguments, leaving every other field as it was.
    pub fn args(self, args: Vec<String>) -> (r: Self)
        ensures
            r == (ProtonBuilder { passed_args: Some(args), ..self }),
    {
        Self { passed_args: Some(args), ..self }
    }

    /// Supplies the working-data directory, leaving every other field as it
    /// was.
    pub fn data(self, data: String) -> (r: Self)
        ensures
            r == (ProtonBuilder { data: Some(data), ..self }),
    {
        Self { data: Some(data), ..self }
    }

    /// Supplies the logging flag, leaving every other field as it was.
    pub fn log(self, log: bool) -> (r: Self)
        ensures
            r == (ProtonBuilder { log: Some(log), ..self }),
    {
        Self { log: Some(log), ..self }
    }

    /// Finalizes the builder: succeeds with the accumulated configuration
    /// exactly when every required field has been supplied, and otherwise
    /// fails with a `MissingField` error naming the first absent field.
    pub fn build(self) -> (r: Result<Proton, LaunchError>)
        ensures
            r is Ok <==> self.complete(),
            self.complete() ==> (r matches Ok(p) && p == self.built()),
            !self.complete() ==> (r matches Err(e) && e.kind == ErrorKind::MissingField
                && e.message@ == self.first_missing()),
    {
        let ProtonBuilder { steam, proton, executable, passed_args, data, log } = self;
        let steam = match steam {
            Some(v) => v,
            None => { return error_here(ErrorKind::MissingField, "steam".to_owned()) },
        };
        let proton = match proton {
            Some(v) => v,
            None => { return error_here(ErrorKind::MissingField, "proton".to_owned()) },
        };
        let executable = match executable {
            Some(v) => v,
            None => { return error_here(ErrorKind::MissingField, "executable".to_owned()) },
        };
        let passed_args = match passed_args {
            Some(v) => v,
            None => { return error_here(ErrorKind::MissingField, "passed_args".to_owned()) },
        };
        let data = match data {
            Some(v) => v,
            None => { return error_here(ErrorKind::MissingField, "data".to_owned()) },
        };
        let log = match log {
            Some(v) => v,
            None => { return error_here(ErrorKind::MissingField, "log".to_owned()) },
        };
        Ok(Proton { steam, proton, executable, passed_args, data, log })
    }
}

/// Law of staged construction: supplying every field and finalizing yields
/// exactly the configuration that direct construction yields from the same
/// values.
pub proof fn lemma_staged_build_matches_direct(
    steam: String,
    proton: String,
    executable: String,
    passed_args: Vec<String>,
    data: String,
    log: bool,
)
    ensures
        ({
            let b = ProtonBuilder {
                steam: Some(steam),
                proton: Some(proton),
                executable: Some(executable),
                passed_args: Some(passed_args),
                data: Some(data),
                log: Some(log),
            };
            b.complete() && b.built() == (Proton {
                steam,
                proton,
                executable,
                passed_args,
                data,
                log,
            })
        }),
{
}

} // verus!
