//! Where a database lives on disk.

use vstd::prelude::*;
use vstd::string::StringExecFns;

verus! {

/// The address under which the SQLite database at `database_path` is opened
/// for reading and writing.
pub fn sqlite_url(database_path: &str) -> (url: String)
    ensures
        url@ == "sqlite:"@ + database_path@ + "?mode=rw"@,
{
    let mut url = "sqlite:".to_owned();
    url.append(database_path);
    url.append("?mode=rw");
    url
}

/// The address under which the SQLite database at `database_path` is opened:
/// for reading and writing where the file exists, and so that the file is
/// created where it does not.
pub fn database_url(database_path: &str, exists: bool) -> (url: String)
    ensures
        url@ == "sqlite:"@ + database_path@ + (if exists {
            "?mode=rw"@
        } else {
            "?mode=rwc"@
        }),
{
    if exists {
        sqlite_url(database_path)
    } else {
        let mut url = "sqlite:".to_owned();
        url.append(database_path);
        url.append("?mode=rwc");
        url
    }
}

} // verus!
