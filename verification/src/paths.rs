//! Derivation of the store's file paths from the user's home directory.
//!
//! The host application discovers the home directory; everything after that
//! is plain string arithmetic and is computed here.

use vstd::prelude::*;
use vstd::string::StringExecFns;

use crate::errors::AuthError;

verus! {

/// The data directory: `<home>/.local/share/opencode`.
pub open spec fn data_dir_of(home: Seq<char>) -> Seq<char> {
    home + "/.local/share/opencode"@
}

/// The auth file: `<data dir>/auth.json`.
pub open spec fn auth_file_of(home: Seq<char>) -> Seq<char> {
    data_dir_of(home) + "/auth.json"@
}

/// The backup file: the auth file's name with a fixed suffix, in the same
/// directory.
pub open spec fn backup_file_of(home: Seq<char>) -> Seq<char> {
    auth_file_of(home) + ".openchamber.backup"@
}

/// Computes the per-user data directory path.
pub fn get_data_dir(home: &str) -> (r: String)
    ensures
        r@ == data_dir_of(home@),
{
    let mut s = home.to_owned();
    s.append("/.local/share/opencode");
    s
}

/// Computes the auth file path.
pub fn get_auth_file(home: &str) -> (r: String)
    ensures
        r@ == auth_file_of(home@),
{
    let mut s = get_data_dir(home);
    s.append("/auth.json");
    s
}

/// Computes the backup file path, a sibling of the auth file.
pub fn get_backup_file(home: &str) -> (r: String)
    ensures
        r@ == backup_file_of(home@),
{
    let mut s = get_auth_file(home);
    s.append(".openchamber.backup");
    s
}

/// The three paths the store works with, fixed once the home directory is
/// known.
pub struct StorePaths {
    pub data_dir: String,
    pub auth_file: String,
    pub backup_file: String,
}

impl StorePaths {
    /// Resolves the store's paths.  `home` is the home directory as the
    /// host discovered it, or `None` when it could not be determined; the
    /// latter is the one unrecoverable environment failure.
    pub fn resolve(home: Option<&str>) -> (r: Result<StorePaths, AuthError>)
        ensures
            match home {
                None => r matches Err(e) && e is EnvironmentError,
                Some(h) => r matches Ok(p) && p.data_dir@ == data_dir_of(h@)
                    && p.auth_file@ == auth_file_of(h@) && p.backup_file@ == backup_file_of(
                    h@,
                ),
            },
    {
        match home {
            None => Err(AuthError::EnvironmentError),
            Some(h) => Ok(
                StorePaths {
                    data_dir: get_data_dir(h),
                    auth_file: get_auth_file(h),
                    backup_file: get_backup_file(h),
                },
            ),
        }
    }
}

} // verus!
