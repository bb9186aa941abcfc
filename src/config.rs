use vstd::prelude::*;
use crate::records::opt_text;
use crate::text::{trim_of, trimmed};

verus! {

/// A value without surrounding white space, if anything is left of it.
pub open spec fn nonblank(raw: Option<Seq<char>>) -> Option<Seq<char>> {
    match raw {
        Some(v) => if trim_of(v).len() > 0 {
            Some(trim_of(v))
        } else {
            None
        },
        None => None,
    }
}

/// The trimmed value of `raw`, or `None` where it is absent or blank.
pub fn nonblank_value(raw: Option<String>) -> (r: Option<String>)
    ensures
        opt_text(r) == nonblank(opt_text(raw)),
{
    match raw {
        Some(v) => {
            let t = trimmed(v.as_str());
            if t.as_str().unicode_len() > 0 {
                Some(t)
            } else {
                None
            }
        },
        None => None,
    }
}

/// Reads environment variables from the values the environment holds.
pub struct EnvVarGetter;

impl EnvVarGetter {
    /// The value of the variable `key`, given `raw`, what the environment
    /// holds for it: trimmed, or an error that names the variable when it is
    /// not set.
    pub fn get(key: &str, raw: Option<String>) -> (r: Result<String, String>)
        ensures
            match raw {
                Some(v) => r matches Ok(s) && s@ == trim_of(v@),
                None => r matches Err(m) && m@ == "Environment variable '"@ + key@ + "' is not set"@,
            },
    {
        match raw {
            Some(v) => Ok(trimmed(v.as_str())),
            None => Err(
                String::from_str("Environment variable '").concat(key).concat("' is not set"),
            ),
        }
    }
}

pub open spec fn missing_credentials_text() -> Seq<char> {
    "Missing credentials env var: set 'GOOGLE_APPLICATION_CREDENTIALS' (or 'GOOGLE_CREDENTIALS') to the service-account JSON path"@
}

/// The credential file path from the standard variable (`primary`) or,
/// failing that, its alias: the first that is set and not blank, trimmed.
pub fn credentials_path_from_values(primary: Option<String>, alias: Option<String>) -> (r: Result<
    String,
    String,
>)
    ensures
        match (nonblank(opt_text(primary)), nonblank(opt_text(alias))) {
            (Some(p), _) => r matches Ok(s) && s@ == p,
            (None, Some(a)) => r matches Ok(s) && s@ == a,
            (None, None) => r matches Err(m) && m@ == missing_credentials_text(),
        },
{
    match nonblank_value(primary) {
        Some(p) => Ok(p),
        None => match nonblank_value(alias) {
            Some(a) => Ok(a),
            None => Err(
                String::from_str(
                    "Missing credentials env var: set 'GOOGLE_APPLICATION_CREDENTIALS' (or 'GOOGLE_CREDENTIALS') to the service-account JSON path",
                ),
            ),
        },
    }
}

/// The project identifier from an explicit value or, failing that, from
/// the environment: the first that is given and not blank, trimmed. `None`
/// leaves the identity provider's own setting to be asked.
pub fn choose_project_id(provided: Option<String>, from_env: Option<String>) -> (r: Option<String>)
    ensures
        opt_text(r) == match nonblank(opt_text(provided)) {
            Some(p) => Some(p),
            None => nonblank(opt_text(from_env)),
        },
{
    match nonblank_value(provided) {
        Some(p) => Some(p),
        None => nonblank_value(from_env),
    }
}

/// The project identifier from what the identity provider's tool printed
/// when asked for its configured project.
pub fn project_id_from_gcloud_output(succeeded: bool, stdout: &str, stderr: &str) -> (r: Result<
    String,
    String,
>)
    ensures
        !succeeded ==> (r matches Err(m) && m@
            == "gcloud failed to read project (is gcloud installed/logged in?): "@ + trim_of(
            stderr@,
        )),
        succeeded && trim_of(stdout@).len() == 0 ==> (r matches Err(m) && m@
            == "gcloud returned an empty project id"@),
        succeeded && trim_of(stdout@).len() > 0 ==> (r matches Ok(s) && s@ == trim_of(stdout@)),
{
    if !succeeded {
        let detail = trimmed(stderr);
        return Err(
            String::from_str(
                "gcloud failed to read project (is gcloud installed/logged in?): ",
            ).concat(detail.as_str()),
        );
    }
    let project_id = trimmed(stdout);
    if project_id.as_str().unicode_len() == 0 {
        return Err(String::from_str("gcloud returned an empty project id"));
    }
    Ok(project_id)
}

} // verus!
