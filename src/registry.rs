//! What the extension registers with the host engine: each function's SQL
//! name, its number of arguments and its flags.
use vstd::prelude::*;

verus! {

/// The three scalar functions of the extension.
#[derive(Clone, Copy, Debug, PartialEq, Eq, Structural)]
pub enum ScalarFunction {
    Version,
    Debug,
    At,
}

impl ScalarFunction {
    /// The name under which the function is known in SQL.
    pub open spec fn sql_name_spec(self) -> Seq<char> {
        match self {
            ScalarFunction::Version => "path_version"@,
            ScalarFunction::Debug => "path_debug"@,
            ScalarFunction::At => "path_at"@,
        }
    }

    /// The number of arguments the function takes.
    pub open spec fn arity_spec(self) -> int {
        match self {
            ScalarFunction::Version => 0,
            ScalarFunction::Debug => 0,
            ScalarFunction::At => 2,
        }
    }

    pub fn sql_name(&self) -> (r: &'static str)
        ensures
            r@ == self.sql_name_spec(),
    {
        match self {
            ScalarFunction::Version => "path_version",
            ScalarFunction::Debug => "path_debug",
            ScalarFunction::At => "path_at",
        }
    }

    pub fn arity(&self) -> (r: i32)
        ensures
            r as int == self.arity_spec(),
    {
        match self {
            ScalarFunction::Version => 0,
            ScalarFunction::Debug => 0,
            ScalarFunction::At => 2,
        }
    }
}

/// One entry of the registration table.
#[derive(Clone, Copy, Debug, PartialEq, Eq, Structural)]
pub struct Registration {
    pub function: ScalarFunction,
    pub n_args: i32,
    /// The result depends on the arguments alone.
    pub deterministic: bool,
    /// Text arguments are handed over as UTF-8.
    pub utf8: bool,
}

/// The registrations the extension makes when it is loaded, in order: the
/// version function, the debug function, then the path function. All three
/// are deterministic; only the path function asks for UTF-8 text.
pub fn registrations() -> (r: Vec<Registration>)
    ensures
        r@.len() == 3,
        r@[0].function == ScalarFunction::Version,
        r@[1].function == ScalarFunction::Debug,
        r@[2].function == ScalarFunction::At,
        forall|k: int| 0 <= k < 3 ==> r@[k].n_args as int == (#[trigger] r@[k]).function.arity_spec(),
        forall|k: int| 0 <= k < 3 ==> (#[trigger] r@[k]).deterministic,
        !r@[0].utf8 && !r@[1].utf8 && r@[2].utf8,
{
    let mut r: Vec<Registration> = Vec::new();
    let v = ScalarFunction::Version;
    r.push(Registration { function: v, n_args: v.arity(), deterministic: true, utf8: false });
    let d = ScalarFunction::Debug;
    r.push(Registration { function: d, n_args: d.arity(), deterministic: true, utf8: false });
    let a = ScalarFunction::At;
    r.push(Registration { function: a, n_args: a.arity(), deterministic: true, utf8: true });
    r
}

} // verus!
