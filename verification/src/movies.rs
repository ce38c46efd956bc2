//! The movie data model and the folder loader.
//!
//! A movie folder is a directory chosen by the user; every immediate
//! subdirectory of it counts as one movie, titled by the subdirectory's
//! base name. Metadata extraction is not implemented: every movie carries
//! the placeholder year and rating.

use vstd::prelude::*;

verus! {

/// A film's certification rating.
#[derive(Debug, Clone, Copy, PartialEq, Eq, Structural)]
pub enum MovieRating {
    G,
    PG,
    PG13,
    R,
    NC17,
    Unrated,
}

impl MovieRating {
    /// The rating as it is shown to the user.
    pub fn as_str(&self) -> (r: &'static str)
        ensures
            *self == MovieRating::G ==> r@ == "G"@,
            *self == MovieRating::PG ==> r@ == "PG"@,
            *self == MovieRating::PG13 ==> r@ == "PG-13"@,
            *self == MovieRating::R ==> r@ == "R"@,
            *self == MovieRating::NC17 ==> r@ == "NC-17"@,
            *self == MovieRating::Unrated ==> r@ == "Unrated"@,
    {
        match self {
            MovieRating::G => "G",
            MovieRating::PG => "PG",
            MovieRating::PG13 => "PG-13",
            MovieRating::R => "R",
            MovieRating::NC17 => "NC-17",
            MovieRating::Unrated => "Unrated",
        }
    }
}

/// One movie entry: a subdirectory of the chosen folder.
#[derive(Debug, Clone, PartialEq)]
pub struct Movie {
    pub path: String,
    pub title: String,
    pub year: u32,
    pub rated: MovieRating,
}

/// A successfully loaded folder with its movie entries.
#[derive(Debug, Clone, PartialEq)]
pub struct MovieFolder {
    pub path: String,
    pub movies: Vec<Movie>,
}

/// The two failure kinds: a metadata-service failure (declared, unused)
/// and a system failure (dialog cancellation or filesystem error).
#[derive(Debug, Clone, Copy, PartialEq, Eq, Structural)]
pub enum Error {
    APIError,
    SystemError,
}

/// What the filesystem scan reports of one immediate child of the chosen
/// folder: its absolute path, its base name, and whether it is a
/// directory (symbolic links already followed).
#[derive(Debug, Clone, PartialEq)]
pub struct ScanEntry {
    pub path: String,
    pub name: String,
    pub is_dir: bool,
}

/// Metadata extraction is not implemented: every movie carries this year.
pub const PLACEHOLDER_YEAR: u32 = 2002;

/// The movie record built for one subdirectory: titled by the base name,
/// with the placeholder year and rating.
pub open spec fn movie_of(e: ScanEntry) -> Movie {
    Movie { path: e.path, title: e.name, year: PLACEHOLDER_YEAR, rated: MovieRating::R }
}

/// Whether every entry of the scan was read successfully.
pub open spec fn all_ok(entries: Seq<Result<ScanEntry, Error>>) -> bool {
    forall|i: int| 0 <= i < entries.len() ==> entries[i] is Ok
}

/// The subdirectory entries of a scan, in scan order.
pub open spec fn dirs_of(entries: Seq<Result<ScanEntry, Error>>) -> Seq<ScanEntry>
    decreases entries.len(),
{
    if entries.len() == 0 {
        Seq::empty()
    } else {
        let rest = dirs_of(entries.drop_last());
        match entries.last() {
            Ok(e) => if e.is_dir {
                rest.push(e)
            } else {
                rest
            },
            Err(_) => rest,
        }
    }
}

/// The movie records of a scan: one per subdirectory, in scan order.
pub open spec fn movies_of(entries: Seq<Result<ScanEntry, Error>>) -> Seq<Movie>
    decreases entries.len(),
{
    if entries.len() == 0 {
        Seq::empty()
    } else {
        let rest = movies_of(entries.drop_last());
        match entries.last() {
            Ok(e) => if e.is_dir {
                rest.push(movie_of(e))
            } else {
                rest
            },
            Err(_) => rest,
        }
    }
}

impl MovieFolder {
    /// The outcome of the folder dialog: the chosen path, or a system
    /// error when the dialog was cancelled.
    pub fn selected(choice: Option<String>) -> (r: Result<String, Error>)
        ensures
            choice matches Some(p) ==> r == Ok::<String, Error>(p),
            choice is None ==> r == Err::<String, Error>(Error::SystemError),
    {
        match choice {
            Some(p) => Ok(p),
            None => Err(Error::SystemError),
        }
    }

    /// Builds the folder from a scan of the immediate children of `path`.
    ///
    /// Every subdirectory becomes one movie, in scan order; other
    /// children are ignored. A single failed entry read fails the whole
    /// load: no partial folder is ever returned.
    pub fn load(path: String, entries: Vec<Result<ScanEntry, Error>>) -> (r: Result<
        MovieFolder,
        Error,
    >)
        ensures
            all_ok(entries@) ==> (r matches Ok(f) && f.path == path && f.movies@ == movies_of(
                entries@,
            )),
            !all_ok(entries@) ==> r == Err::<MovieFolder, Error>(Error::SystemError),
    {
        let n = entries.len();
        let mut movies: Vec<Movie> = Vec::new();
        let mut i: usize = 0;
        while i < n
            invariant
                0 <= i <= n,
                n == entries@.len(),
                forall|k: int| 0 <= k < i ==> entries@[k] is Ok,
                movies@ == movies_of(entries@.take(i as int)),
            decreases n - i,
        {
            match &entries[i] {
                Ok(e) => {
                    if e.is_dir {
                        movies.push(
                            Movie {
                                path: e.path.clone(),
                                title: e.name.clone(),
                                year: PLACEHOLDER_YEAR,
                                rated: MovieRating::R,
                            },
                        );
                    }
                },
                Err(_) => {
                    return Err(Error::SystemError);
                },
            }
            proof {
                assert(entries@.take(i + 1).drop_last() =~= entries@.take(i as int));
                assert(entries@.take(i + 1).last() == entries@[i as int]);
            }
            i = i + 1;
        }
        proof {
            assert(entries@.take(n as int) =~= entries@);
        }
        Ok(MovieFolder { path, movies })
    }
}

/// A successful scan yields exactly one movie record per subdirectory,
/// in scan order: each titled by the subdirectory's base name, at its
/// path, with the placeholder year and rating. Other children contribute
/// nothing.
pub proof fn lemma_one_movie_per_subdirectory(entries: Seq<Result<ScanEntry, Error>>)
    ensures
        movies_of(entries).len() == dirs_of(entries).len(),
        forall|i: int| 0 <= i < movies_of(entries).len() ==> movies_of(entries)[i] == movie_of(
            dirs_of(entries)[i],
        ),
    decreases entries.len(),
{
    if entries.len() > 0 {
        lemma_one_movie_per_subdirectory(entries.drop_last());
    }
}

} // verus!
