//! The API environments.

use vstd::prelude::*;

use crate::text::{ascii_lowercase, eq_ignore_ascii_case, same_name, to_ascii_lowercase};

verus! {

/// API environments: `Sandbox` and `Development` for testing, `Production`
/// for live, billed, unrestricted access.
#[derive(PartialEq, Eq, Structural, Clone, Copy, Debug)]
pub enum Environment {
    /// Sandbox environment, for developer testing.
    Sandbox,
    /// Development environment, which supports up to 100 live Items.
    Development,
    /// Live production environment; all activity in it is billed.
    Production,
}

/// The environment that `s` names, ASCII case ignored, or the message that
/// rejects it.
pub open spec fn parsed_environment(s: Seq<char>) -> Result<Environment, Seq<char>> {
    if same_name(s, "production"@) {
        Ok(Environment::Production)
    } else if same_name(s, "development"@) {
        Ok(Environment::Development)
    } else if same_name(s, "sandbox"@) {
        Ok(Environment::Sandbox)
    } else {
        Err("invalid Plaid Environment: `"@ + ascii_lowercase(s) + "`"@)
    }
}

/// The lower-case name of an environment.
pub open spec fn environment_name(e: Environment) -> Seq<char> {
    match e {
        Environment::Production => "production"@,
        Environment::Development => "development"@,
        Environment::Sandbox => "sandbox"@,
    }
}

impl Environment {
    /// Parses an environment name, ASCII case ignored.
    pub fn parse(s: &str) -> (r: Result<Environment, String>)
        ensures
            match r {
                Ok(e) => parsed_environment(s@) == Ok::<Environment, Seq<char>>(e),
                Err(m) => parsed_environment(s@) == Err::<Environment, Seq<char>>(m@),
            },
    {
        if eq_ignore_ascii_case(s, "production") {
            Ok(Environment::Production)
        } else if eq_ignore_ascii_case(s, "development") {
            Ok(Environment::Development)
        } else if eq_ignore_ascii_case(s, "sandbox") {
            Ok(Environment::Sandbox)
        } else {
            let lower = to_ascii_lowercase(s);
            let message = String::from_str("invalid Plaid Environment: `").concat(
                lower.as_str(),
            ).concat("`");
            Err(message)
        }
    }

    /// The lower-case name of the environment.
    pub fn to_string(&self) -> (r: String)
        ensures
            r@ == environment_name(*self),
    {
        match self {
            Environment::Production => String::from_str("production"),
            Environment::Development => String::from_str("development"),
            Environment::Sandbox => String::from_str("sandbox"),
        }
    }
}

impl std::str::FromStr for Environment {
    type Err = String;

    fn from_str(s: &str) -> (r: Result<Self, Self::Err>)
        ensures
            match r {
                Ok(e) => parsed_environment(s@) == Ok::<Environment, Seq<char>>(e),
                Err(m) => parsed_environment(s@) == Err::<Environment, Seq<char>>(m@),
            },
    {
        Environment::parse(s)
    }
}

impl TryFrom<String> for Environment {
    type Error = String;

    fn try_from(value: String) -> (r: Result<Self, Self::Error>)
        ensures
            match r {
                Ok(e) => parsed_environment(value@) == Ok::<Environment, Seq<char>>(e),
                Err(m) => parsed_environment(value@) == Err::<Environment, Seq<char>>(m@),
            },
    {
        Environment::parse(value.as_str())
    }
}

impl vstd::std_specs::convert::TryFromSpecImpl<String> for Environment {
    open spec fn obeys_try_from_spec() -> bool {
        false
    }

    open spec fn try_from_spec(value: String) -> Result<Self, String> {
        arbitrary()
    }
}

impl<'a> TryFrom<&'a str> for Environment {
    type Error = String;

    fn try_from(value: &'a str) -> (r: Result<Self, Self::Error>)
        ensures
            match r {
                Ok(e) => parsed_environment(value@) == Ok::<Environment, Seq<char>>(e),
                Err(m) => parsed_environment(value@) == Err::<Environment, Seq<char>>(m@),
            },
    {
        Environment::parse(value)
    }
}

impl<'a> vstd::std_specs::convert::TryFromSpecImpl<&'a str> for Environment {
    open spec fn obeys_try_from_spec() -> bool {
        false
    }

    open spec fn try_from_spec(value: &'a str) -> Result<Self, String> {
        arbitrary()
    }
}

} // verus!
