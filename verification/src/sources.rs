//! Resolution of settings and secrets that may come from the environment or from files.
//! The environment and the files are read by the caller; these functions decide what
//! to read and what the values read resolve to.
use crate::config::{opt_view, sanitized_opt, SecretSource, ValueSource};
use crate::text::{concat3, trim, trim_str};
use vstd::prelude::*;

verus! {

/// Why a setting or secret could not be resolved.
#[derive(Debug, Clone, PartialEq, Eq)]
pub enum SourceError {
    /// No source gave a value for a required setting.
    Required { field: String },
    /// The secret file could not be read.
    SecretFileUnreadable { field: String, path: String },
    /// The secret file holds only whitespace.
    SecretFileEmpty { field: String, path: String },
}

/// Mathematical model of a `SourceError`.
pub enum SourceErrorModel {
    Required(Seq<char>),
    SecretFileUnreadable(Seq<char>, Seq<char>),
    SecretFileEmpty(Seq<char>, Seq<char>),
}

impl View for SourceError {
    type V = SourceErrorModel;

    open spec fn view(&self) -> SourceErrorModel {
        match self {
            SourceError::Required { field } => SourceErrorModel::Required(field@),
            SourceError::SecretFileUnreadable { field, path } => SourceErrorModel::SecretFileUnreadable(
                field@,
                path@,
            ),
            SourceError::SecretFileEmpty { field, path } => SourceErrorModel::SecretFileEmpty(
                field@,
                path@,
            ),
        }
    }
}

/// The message that describes a `SourceError`.
pub open spec fn source_error_message(e: SourceErrorModel) -> Seq<char> {
    match e {
        SourceErrorModel::Required(f) => f + " is required"@,
        SourceErrorModel::SecretFileUnreadable(f, p) => "Failed to read "@ + f + " secret file: "@
            + p,
        SourceErrorModel::SecretFileEmpty(f, p) => f + " secret file is empty: "@ + p,
    }
}

impl SourceError {
    /// The message that describes this error.
    pub fn message(&self) -> (r: String)
        ensures
            r@ == source_error_message(self@),
    {
        match self {
            SourceError::Required { field } => {
                let r = String::from_str(field.as_str());
                r.concat(" is required")
            },
            SourceError::SecretFileUnreadable { field, path } => {
                let r = concat3("Failed to read ", field.as_str(), " secret file: ");
                r.concat(path.as_str())
            },
            SourceError::SecretFileEmpty { field, path } => {
                let r = concat3(field.as_str(), " secret file is empty: ", path.as_str());
                r
            },
        }
    }
}

/// The value taken from an environment variable: the variable's value, trimmed, when a
/// variable is named and its value is not blank.
pub open spec fn from_env(name: Option<String>, env_value: Option<Seq<char>>) -> Option<Seq<char>> {
    if sanitized_opt(opt_view(name)) is Some {
        sanitized_opt(env_value)
    } else {
        None
    }
}

/// What a `ValueSource` resolves to, given the value of the variable it names: the
/// trimmed variable value when not blank, else the trimmed literal value when not blank.
pub open spec fn resolved_value(s: ValueSource, env_value: Option<Seq<char>>) -> Option<Seq<char>> {
    match from_env(s.env, env_value) {
        Some(v) => Some(v),
        None => sanitized_opt(opt_view(s.value)),
    }
}

/// The secret file to read, given the value of the variable named by `file_env`: that
/// value, trimmed, when a variable is named and its value is not blank; else `file`,
/// trimmed, when not blank.
pub open spec fn secret_file_path_of(s: SecretSource, file_env_value: Option<Seq<char>>) -> Option<
    Seq<char>,
> {
    match from_env(s.file_env, file_env_value) {
        Some(p) => Some(p),
        None => sanitized_opt(opt_view(s.file)),
    }
}

/// The text or absence of an optional text.
pub open spec fn opt_str_view(o: Option<&str>) -> Option<Seq<char>> {
    match o {
        Some(s) => Some(s@),
        None => None,
    }
}

/// The trimmed text, or `None` when it is absent or blank.
fn sanitize_opt(o: Option<&str>) -> (r: Option<String>)
    ensures
        opt_view(r) == sanitized_opt(opt_str_view(o)),
{
    match o {
        Some(v) => {
            let t = trim_str(v);
            if t.unicode_len() == 0 {
                None
            } else {
                Some(String::from_str(t))
            }
        },
        None => None,
    }
}

/// The name of an environment variable: trimmed, or `None` when absent or blank.
fn env_var_name(name: &Option<String>) -> (r: Option<String>)
    ensures
        opt_view(r) == sanitized_opt(opt_view(*name)),
{
    match name {
        Some(n) => sanitize_opt(Some(n.as_str())),
        None => None,
    }
}

impl ValueSource {
    /// The environment variable to consult: `env`, trimmed, unless absent or blank.
    pub fn env_name(&self) -> (r: Option<String>)
        ensures
            opt_view(r) == sanitized_opt(opt_view(self.env)),
    {
        env_var_name(&self.env)
    }

    /// Resolves the setting, given `env_value`, the value of the variable `env_name`
    /// names (`None` when it is unset or none is named): a non-blank variable value
    /// wins over the literal value; with neither, the setting `field_name` is required.
    pub fn resolve(&self, field_name: &str, env_value: Option<&str>) -> (r: Result<
        String,
        SourceError,
    >)
        ensures
            match r {
                Ok(v) => resolved_value(*self, opt_str_view(env_value)) == Some(v@),
                Err(e) => resolved_value(*self, opt_str_view(env_value)) is None && e@
                    == SourceErrorModel::Required(field_name@),
            },
    {
        if self.env_name().is_some() {
            if let Some(v) = sanitize_opt(env_value) {
                return Ok(v);
            }
        }
        match &self.value {
            Some(v) => {
                if let Some(v) = sanitize_opt(Some(v.as_str())) {
                    return Ok(v);
                }
            },
            None => {},
        }
        Err(SourceError::Required { field: String::from_str(field_name) })
    }
}

impl SecretSource {
    /// The variable that names a secret file: `file_env`, trimmed, unless absent or blank.
    pub fn file_env_name(&self) -> (r: Option<String>)
        ensures
            opt_view(r) == sanitized_opt(opt_view(self.file_env)),
    {
        env_var_name(&self.file_env)
    }

    /// The variable that holds the secret: `env`, trimmed, unless absent or blank.
    pub fn env_name(&self) -> (r: Option<String>)
        ensures
            opt_view(r) == sanitized_opt(opt_view(self.env)),
    {
        env_var_name(&self.env)
    }

    /// The secret file to read, given `file_env_value`, the value of the variable
    /// `file_env_name` names: a file named by that variable comes before `file`.
    pub fn secret_file_path(&self, file_env_value: Option<&str>) -> (r: Option<String>)
        ensures
            opt_view(r) == secret_file_path_of(*self, opt_str_view(file_env_value)),
    {
        if self.file_env_name().is_some() {
            if let Some(p) = sanitize_opt(file_env_value) {
                return Some(p);
            }
        }
        match &self.file {
            Some(f) => sanitize_opt(Some(f.as_str())),
            None => None,
        }
    }

    /// Resolves the secret `field_name`. `file_env_value` and `env_value` are the values
    /// of the variables `file_env_name` and `env_name` name; `file_contents` is the
    /// content of the file `secret_file_path` names, `None` when it could not be read.
    /// A secret file, when there is one, decides: its trimmed content, an error when it
    /// is blank or unreadable. Otherwise the trimmed value of `env`'s variable, or no
    /// secret at all when that is unset or blank.
    pub fn resolve(
        &self,
        field_name: &str,
        file_env_value: Option<&str>,
        env_value: Option<&str>,
        file_contents: Option<&str>,
    ) -> (r: Result<Option<String>, SourceError>)
        ensures
            match secret_file_path_of(*self, opt_str_view(file_env_value)) {
                Some(path) => match file_contents {
                    None => r matches Err(e) && e@ == SourceErrorModel::SecretFileUnreadable(
                        field_name@,
                        path,
                    ),
                    Some(c) => if trim(c@).len() == 0 {
                        r matches Err(e) && e@ == SourceErrorModel::SecretFileEmpty(
                            field_name@,
                            path,
                        )
                    } else {
                        r matches Ok(Some(v)) && v@ == trim(c@)
                    },
                },
                None => r matches Ok(v) && opt_view(v) == from_env(self.env, opt_str_view(env_value)),
            },
    {
        match self.secret_file_path(file_env_value) {
            Some(path) => match Self::read_secret_file(path.as_str(), field_name, file_contents) {
                Ok(v) => Ok(Some(v)),
                Err(e) => Err(e),
            },
            None => {
                if self.env_name().is_some() {
                    Ok(sanitize_opt(env_value))
                } else {
                    Ok(None)
                }
            },
        }
    }

    /// The secret held in the file `path`, given its `contents` (`None` when it could not
    /// be read): the trimmed content, which must not be blank.
    pub fn read_secret_file(path: &str, field_name: &str, contents: Option<&str>) -> (r: Result<
        String,
        SourceError,
    >)
        ensures
            match contents {
                None => r matches Err(e) && e@ == SourceErrorModel::SecretFileUnreadable(
                    field_name@,
                    path@,
                ),
                Some(c) => if trim(c@).len() == 0 {
                    r matches Err(e) && e@ == SourceErrorModel::SecretFileEmpty(field_name@, path@)
                } else {
                    r matches Ok(v) && v@ == trim(c@)
                },
            },
    {
        match contents {
            None => Err(
                SourceError::SecretFileUnreadable {
                    field: String::from_str(field_name),
                    path: String::from_str(path),
                },
            ),
            Some(c) => {
                let t = trim_str(c);
                if t.unicode_len() == 0 {
                    Err(
                        SourceError::SecretFileEmpty {
                            field: String::from_str(field_name),
                            path: String::from_str(path),
                        },
                    )
                } else {
                    Ok(String::from_str(t))
                }
            },
        }
    }
}

} // verus!
