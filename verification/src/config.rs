//! Static description of the processes to supervise.

use vstd::prelude::*;

verus! {

/// Governs whether a terminated process is launched again.
#[derive(Clone, Copy, Debug, PartialEq, Eq, Structural)]
pub enum RestartPolicy {
    /// The process is never launched again.
    Never,
    /// The process is launched again only after an erroneous termination.
    OnError,
    /// The process is launched again after every termination.
    Always,
}

/// Validated, immutable description of one process to supervise.
pub struct ProcessSpec {
    /// Identifier used when reporting events; the supervisor does not
    /// require it to be unique.
    pub name: String,
    /// Location of the executable to launch.
    pub path: String,
    /// Ordered arguments belonging to the executable.  They are part of the
    /// spec's contract, though a launch currently conveys only the path.
    pub arguments: Vec<String>,
    /// Exit codes declared acceptable by the operator.  Classification of a
    /// termination deliberately ignores this set: any explicit exit code
    /// counts as an orderly stop, matching the supervisor's observed
    /// behaviour rather than the evidently intended one.
    pub non_error_codes: Vec<i8>,
    /// Governs relaunching after a termination.
    pub policy: RestartPolicy,
}

/// A startup failure: the supervisor refuses to run.
#[derive(Clone, Copy, Debug, PartialEq, Eq, Structural)]
pub enum ConfigError {
    /// The configuration path does not point at a readable file.
    InvalidPath,
    /// The configuration path does not end in the expected extension.
    WrongExtension,
    /// The configuration file could not be decoded.
    Unparsable,
}

impl ConfigError {
    /// The fixed operator-facing description of this error.
    pub open spec fn spec_message(self) -> Seq<char> {
        match self {
            ConfigError::InvalidPath => "Invalid path"@,
            ConfigError::WrongExtension => "Configuration file must be in toml format"@,
            ConfigError::Unparsable => "Configuration file could not be parsed"@,
        }
    }

    /// Returns the fixed operator-facing description of this error.
    pub fn message(&self) -> (r: &'static str)
        ensures
            r@ == self.spec_message(),
    {
        match self {
            ConfigError::InvalidPath => "Invalid path",
            ConfigError::WrongExtension => "Configuration file must be in toml format",
            ConfigError::Unparsable => "Configuration file could not be parsed",
        }
    }
}

/// The file extension of a path: the characters after the last dot of its
/// final component, provided at least one character of that component
/// precedes the dot.  A component whose only dot leads (a hidden file) has
/// no extension; a trailing dot yields an empty one.
pub open spec fn path_extension(path: Seq<char>) -> Option<Seq<char>>
    decreases path.len(),
{
    if path.len() == 0 {
        None
    } else if path.last() == '/' {
        None
    } else if path.last() == '.' {
        if path.len() >= 2 && path[path.len() - 2] != '/' {
            Some(seq![])
        } else {
            None
        }
    } else {
        match path_extension(path.drop_last()) {
            None => None,
            Some(ext) => Some(ext.push(path.last())),
        }
    }
}

/// Where the extension of `path`'s prefix of length `n` starts, as a
/// character index: the extension is the prefix's suffix from that index on.
fn extension_start(path: &str, n: usize) -> (r: Option<usize>)
    requires
        n <= path@.len(),
    ensures
        match r {
            Some(start) => start <= n && path_extension(path@.subrange(0, n as int)) == Some(
                path@.subrange(start as int, n as int),
            ),
            None => path_extension(path@.subrange(0, n as int)) is None,
        },
    decreases n,
{
    if n == 0 {
        None
    } else {
        let last = path.get_char(n - 1);
        if last == '/' {
            None
        } else if last == '.' {
            if n >= 2 && path.get_char(n - 2) != '/' {
                Some(n)
            } else {
                None
            }
        } else {
            let prefix = extension_start(path, n - 1);
            proof {
                assert(path@.subrange(0, n as int).drop_last() =~= path@.subrange(
                    0,
                    n as int - 1,
                ));
                match prefix {
                    Some(start) => {
                        assert(path@.subrange(start as int, n as int - 1).push(path@[n - 1])
                            =~= path@.subrange(start as int, n as int));
                    },
                    None => {},
                }
            }
            prefix
        }
    }
}

/// Whether the path ends in the `toml` extension the loader expects.
pub fn has_toml_extension(path: &str) -> (r: bool)
    ensures
        r == (path_extension(path@) == Some("toml"@)),
{
    proof {
        reveal_strlit("toml");
    }
    let n = path.unicode_len();
    proof {
        assert(path@.subrange(0, n as int) =~= path@);
    }
    match extension_start(path, n) {
        None => false,
        Some(start) => {
            if n - start == 4 {
                let matches = path.get_char(start) == 't' && path.get_char(start + 1) == 'o'
                    && path.get_char(start + 2) == 'm' && path.get_char(start + 3) == 'l';
                proof {
                    let ext = path@.subrange(start as int, n as int);
                    assert(ext[0] == path@[start as int]);
                    assert(ext[1] == path@[start as int + 1]);
                    assert(ext[2] == path@[start as int + 2]);
                    assert(ext[3] == path@[start as int + 3]);
                    if matches {
                        assert(ext =~= "toml"@);
                    } else {
                        assert(ext != "toml"@);
                    }
                }
                matches
            } else {
                proof {
                    assert(path@.subrange(start as int, n as int).len() != "toml"@.len());
                }
                false
            }
        },
    }
}

/// Checks the configuration path the operator supplied: accepted exactly
/// when it carries the `toml` extension, refused with `WrongExtension`
/// otherwise.
pub fn check_config_path(path: &str) -> (r: Result<(), ConfigError>)
    ensures
        r is Ok <==> path_extension(path@) == Some("toml"@),
        r is Err ==> r->Err_0 == ConfigError::WrongExtension,
{
    if has_toml_extension(path) {
        Ok(())
    } else {
        Err(ConfigError::WrongExtension)
    }
}

} // verus!
