//! The paths and default names the tracker derives from its arguments and
//! its environment.
use vstd::prelude::*;

use crate::text::concat_str;

verus! {

/// The task file of the database in `db_dir`.
pub fn tasks_file_path(db_dir: &str) -> (p: String)
    ensures
        p@ == db_dir@ + "/tasks.json"@,
{
    concat_str(db_dir, "/tasks.json")
}

/// The configuration file under the configuration home directory.
pub fn config_file_path(config_home: &str) -> (p: String)
    ensures
        p@ == config_home@ + "/snowtracks/snowtracks.toml"@,
{
    concat_str(config_home, "/snowtracks/snowtracks.toml")
}

/// The configuration directory: under the configuration home directory
/// when there is one, else `./snowtracks-cfg`.
pub fn config_dir(config_home: Option<&str>) -> (d: String)
    ensures
        d@ == match config_home {
            Some(h) => h@ + "/snowtracks"@,
            None => "./snowtracks-cfg"@,
        },
{
    match config_home {
        Some(h) => concat_str(h, "/snowtracks"),
        None => "./snowtracks-cfg".to_owned(),
    }
}

/// The directory of a new database: the given path, else the data home
/// directory, else `./snowtracks-db`.
pub fn database_dir(path_arg: Option<String>, data_home: Option<String>) -> (d: String)
    ensures
        d@ == match path_arg {
            Some(p) => p@,
            None => match data_home {
                Some(h) => h@,
                None => "./snowtracks-db"@,
            },
        },
{
    match path_arg {
        Some(p) => p,
        None => match data_home {
            Some(h) => h,
            None => "./snowtracks-db".to_owned(),
        },
    }
}

/// The name of a new database: the given name, else the user's name
/// followed by `_db` (`unknown_db` when the user's name is not known).
pub fn database_name(name_arg: Option<String>, user_name: Option<String>) -> (n: String)
    ensures
        n@ == match name_arg {
            Some(a) => a@,
            None => match user_name {
                Some(u) => u@ + "_db"@,
                None => "unknown"@ + "_db"@,
            },
        },
{
    match name_arg {
        Some(a) => a,
        None => match user_name {
            Some(u) => concat_str(u.as_str(), "_db"),
            None => concat_str("unknown", "_db"),
        },
    }
}

/// What setup does with the directory of a new database.
#[derive(Clone, Copy, Debug, PartialEq, Eq, Structural)]
pub enum DatabaseDirAction {
    /// The directory does not exist yet: create it.
    Create,
    /// The directory exists and is empty: use it.
    Reuse,
    /// The directory exists and holds something: setup fails.
    Refuse,
}

/// Setup creates a missing database directory, uses an empty one, and fails
/// on one that is not empty.
pub fn database_dir_action(exists: bool, is_empty: bool) -> (a: DatabaseDirAction)
    ensures
        a == (if !exists {
            DatabaseDirAction::Create
        } else if is_empty {
            DatabaseDirAction::Reuse
        } else {
            DatabaseDirAction::Refuse
        }),
{
    if !exists {
        DatabaseDirAction::Create
    } else if is_empty {
        DatabaseDirAction::Reuse
    } else {
        DatabaseDirAction::Refuse
    }
}

} // verus!
