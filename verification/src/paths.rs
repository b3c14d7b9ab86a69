//! The location of the application database.
//!
//! Resolving the platform configuration directory — environment variables,
//! creating directories — is I/O that happens outside the library; the
//! library computes the database file's path inside that directory.

use vstd::prelude::*;

verus! {

use crate::text::{append, push_char};
use vstd::string::StrSliceExecFns;

/// The database file's path inside the configuration directory: the
/// directory, a path separator unless the directory already ends in one,
/// then the file name `syggrel-chat.db`.
pub open spec fn database_path_spec(config_dir: Seq<char>) -> Seq<char> {
    if config_dir.len() > 0 && config_dir.last() == '/' {
        config_dir + "syggrel-chat.db"@
    } else {
        config_dir + "/"@ + "syggrel-chat.db"@
    }
}

/// The path of the application database inside the given configuration
/// directory.
pub fn get_database_path(config_dir: &str) -> (path: String)
    ensures
        path@ == database_path_spec(config_dir@),
{
    let mut path = config_dir.to_owned();
    let n = config_dir.unicode_len();
    let ends_in_separator = n > 0 && config_dir.get_char(n - 1) == '/';
    if !ends_in_separator {
        push_char(&mut path, '/');
        proof {
            reveal_strlit("/");
            assert(path@ =~= config_dir@ + "/"@);
        }
    }
    append(&mut path, "syggrel-chat.db");
    path
}

} // verus!
