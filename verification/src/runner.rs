//! The plain runner: credentials come from the environment alone, and the
//! command is run on every matched host with its output passed through.
use vstd::prelude::*;

verus! {

/// How an environment variable could not be read.
#[derive(Debug)]
pub enum VarError {
    NotPresent,
    /// The variable is set but is not valid Unicode; its lossy text.
    NotUnicode(String),
}

/// Why the `ssh` process could not be started; the operating system's text.
#[derive(Debug)]
pub enum SshError {
    ExecuteError(String),
}

/// The Foreman login of the plain runner.
pub struct Credentials {
    pub user: String,
    pub password: String,
}

/// Picks the Foreman login from `$FOREMAN_USER`, `$USER` and
/// `$FOREMAN_PASS`. The user is `$FOREMAN_USER` when it can be read, else
/// `$USER`; the password is `$FOREMAN_PASS`. `$USER` must be readable even
/// when `$FOREMAN_USER` is set: it is looked at first, and its error is
/// the one returned.
pub fn credentials_from_env(
    foreman_user: Result<String, VarError>,
    user: Result<String, VarError>,
    foreman_pass: Result<String, VarError>,
) -> (r: Result<Credentials, VarError>)
    ensures
        user matches Err(e) ==> r == Err::<Credentials, VarError>(e),
        user is Ok ==> (foreman_pass matches Err(e) ==> r == Err::<Credentials, VarError>(e)),
        user matches Ok(u) ==> (foreman_pass matches Ok(p) ==> (r matches Ok(c) && c.password == p
            && c.user == (match foreman_user {
            Ok(f) => f,
            Err(_) => u,
        }))),
{
    let fallback = match user {
        Ok(u) => u,
        Err(e) => {
            return Err(e);
        },
    };
    let user_name = match foreman_user {
        Ok(f) => f,
        Err(_) => fallback,
    };
    let password = match foreman_pass {
        Ok(p) => p,
        Err(e) => {
            return Err(e);
        },
    };
    Ok(Credentials { user: user_name, password })
}

} // verus!
