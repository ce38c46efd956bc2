//! Application configuration: the OMDB key and the list of movie folders.
//!
//! Reading and writing the configuration file is input/output and lives
//! outside the verified library; this module holds the configuration
//! values themselves and the defaults used when no file exists yet.

use vstd::prelude::*;

verus! {

/// The application's configuration values.
pub struct Config {
    pub omdb_key: Option<String>,
    pub movie_folders: Vec<String>,
}

impl Config {
    /// The configuration written when none exists yet: no OMDB key and
    /// no movie folders.
    pub fn base() -> (c: Config)
        ensures
            c.omdb_key is None,
            c.movie_folders@.len() == 0,
    {
        Config { omdb_key: None, movie_folders: Vec::new() }
    }
}

} // verus!
