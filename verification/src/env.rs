//! Interpretation of environment-variable values: trimming, the blank /
//! literal distinction, `file:` indirection, and the fail-fast requirement
//! check. The process layer reads the environment and the file system and
//! hands the raw values here; every decision and every diagnostic text is
//! computed, and verified, in this module.

use vstd::prelude::*;
use vstd::string::StrSliceExecFns;
use vstd::string::StringExecFns;

use crate::text::trim;
use crate::text::trim_spec;

verus! {

/// The marker prefix that redirects a value to a file's contents.
pub open spec fn file_marker() -> Seq<char> {
    seq!['f', 'i', 'l', 'e', ':']
}

/// Whether a trimmed value asks for file indirection.
pub open spec fn is_file_directive(t: Seq<char>) -> bool {
    t.len() >= 5 && t.subrange(0, 5) == file_marker()
}

/// Diagnostic for a variable that is set but blank.
pub open spec fn blank_diagnostic(key: Seq<char>) -> Seq<char> {
    "Env var "@ + key + " set but empty."@
}

/// Diagnostic for a required variable that is not set.
pub open spec fn unset_diagnostic(key: Seq<char>) -> Seq<char> {
    "Env var "@ + key + " not set."@
}

/// Diagnostic for a file named by an indirected value that could not be read.
pub open spec fn unreadable_diagnostic(path: Seq<char>, err: Seq<char>) -> Seq<char> {
    "Failed to read file "@ + path + ": "@ + err
}

/// What an environment lookup means, before any file is touched.
#[derive(Debug)]
pub enum EnvValue {
    /// The variable is not set: an empty result, with no diagnostic.
    Absent,
    /// The variable is set but blank: an empty result, after one error
    /// diagnostic.
    Blank { diagnostic: String },
    /// The value names a file whose contents stand for the value; the caller
    /// reads it and hands the outcome to `value_from_file`.
    FileRef { path: String },
    /// An ordinary value, already trimmed.
    Literal { value: String },
}

/// Interprets the raw result of an environment lookup for `key`: an unset
/// variable is absent; a set one is trimmed, a blank one rejected with a
/// diagnostic, and a `file:`-prefixed one turned into the path to read.
pub fn value_from_env_var(key: &str, raw: Option<&str>) -> (r: EnvValue)
    ensures
        raw is None ==> r is Absent,
        raw matches Some(v) ==> {
            let t = trim_spec(v@);
            if t.len() == 0 {
                r matches EnvValue::Blank { diagnostic } && diagnostic@ == blank_diagnostic(key@)
            } else if is_file_directive(t) {
                r matches EnvValue::FileRef { path } && path@ == t.skip(5)
            } else {
                r matches EnvValue::Literal { value } && value@ == t
            }
        },
{
    match raw {
        None => EnvValue::Absent,
        Some(v) => {
            let t = trim(v);
            let n = t.unicode_len();
            if n == 0 {
                let mut diagnostic = "Env var ".to_owned();
                diagnostic.append(key);
                diagnostic.append(" set but empty.");
                EnvValue::Blank { diagnostic }
            } else if n >= 5 && t.get_char(0) == 'f' && t.get_char(1) == 'i' && t.get_char(2)
                == 'l' && t.get_char(3) == 'e' && t.get_char(4) == ':' {
                proof {
                    assert(t@.subrange(0, 5) =~= file_marker());
                }
                let path = t.substring_char(5, n).to_owned();
                proof {
                    assert(t@.subrange(5, n as int) =~= t@.skip(5));
                }
                EnvValue::FileRef { path }
            } else {
                proof {
                    if trim_spec(v@).len() >= 5 && t@.subrange(0, 5) == file_marker() {
                        assert(t@[0] == file_marker()[0]);
                        assert(t@[1] == file_marker()[1]);
                        assert(t@[2] == file_marker()[2]);
                        assert(t@[3] == file_marker()[3]);
                        assert(t@[4] == file_marker()[4]);
                    }
                }
                EnvValue::Literal { value: t.to_owned() }
            }
        },
    }
}

/// What reading an indirected file yields.
#[derive(Debug)]
pub enum FileValue {
    /// The file was read: its trimmed contents stand for the value.
    Content { value: String },
    /// The file could not be read: an empty result, after one error
    /// diagnostic naming the path and the underlying error.
    Unreadable { diagnostic: String },
}

/// Interprets the outcome of reading the file a `file:` value named, the
/// error already rendered as text by the caller.
pub fn value_from_file(path: &str, contents: Result<String, String>) -> (r: FileValue)
    ensures
        contents matches Ok(c) ==> (r matches FileValue::Content { value } && value@ == trim_spec(
            c@,
        )),
        contents matches Err(e) ==> (r matches FileValue::Unreadable { diagnostic }
            && diagnostic@ == unreadable_diagnostic(path@, e@)),
{
    match contents {
        Ok(c) => FileValue::Content { value: trim(c.as_str()).to_owned() },
        Err(e) => {
            let mut diagnostic = "Failed to read file ".to_owned();
            diagnostic.append(path);
            diagnostic.append(": ");
            diagnostic.append(e.as_str());
            FileValue::Unreadable { diagnostic }
        },
    }
}

/// The fail-fast requirement on a configuration variable.
#[derive(Debug)]
pub enum RequiredEnv {
    /// The variable had a usable value.
    Present { value: String },
    /// It did not: the process is to stop with this status, after one error
    /// diagnostic.
    Missing { status: u8, diagnostic: String },
}

/// Decides the fail-fast path for a required variable: a missing or invalid
/// value means a diagnostic and process exit with status 2; otherwise the
/// value passes through unchanged.
pub fn require_env(key: &str, value: Option<String>) -> (r: RequiredEnv)
    ensures
        value matches Some(v) ==> (r matches RequiredEnv::Present { value: p } && p == v),
        value is None ==> (r matches RequiredEnv::Missing { status, diagnostic } && status == 2
            && diagnostic@ == unset_diagnostic(key@)),
{
    match value {
        Some(v) => RequiredEnv::Present { value: v },
        None => {
            let mut diagnostic = "Env var ".to_owned();
            diagnostic.append(key);
            diagnostic.append(" not set.");
            RequiredEnv::Missing { status: 2, diagnostic }
        },
    }
}

} // verus!
