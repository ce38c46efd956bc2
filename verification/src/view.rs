//! The rendered view, as plain data.
//!
//! Rendering is a pure function of the current state. The result is a
//! widget tree described by plain values; the presentation layer maps it
//! onto real widgets without adding or reordering anything. In the loaded
//! state the movies are wrapped into rows of four tiles; the last row may
//! be shorter.

use vstd::prelude::*;
use crate::movies::Movie;
use crate::state::MovieViewer;
use crate::theme::{Button, Container};

verus! {

/// One movie tile: the title over the year, in a bordered container.
#[derive(Debug, Clone, PartialEq)]
pub struct Tile {
    pub title: String,
    pub year: u32,
    pub style: Container,
}

/// One row of at most four tiles.
#[derive(Debug, Clone, PartialEq)]
pub struct TileRow {
    pub tiles: Vec<Tile>,
}

/// The widget tree for one state, as plain data.
#[derive(Debug, PartialEq)]
pub enum ViewTree {
    /// A heading and a button that requests the folder dialog.
    SelectPrompt { button_style: Button },
    /// A heading naming the path being loaded.
    LoadingNotice { path: String },
    /// The folder's path as a heading over the grid of movie tiles.
    Grid { path: String, rows: Vec<TileRow> },
    /// A generic error heading, with no detail of the cause.
    ErrorNotice,
}

/// How many tiles stand in one full row.
pub const ROW_WIDTH: usize = 4;

/// The tile for one movie.
pub open spec fn tile_of(m: Movie) -> Tile {
    Tile { title: m.title, year: m.year, style: Container::Bordered }
}

/// The width of row `i` of a grid of `k` tiles: four, except in a
/// shorter last row.
pub open spec fn row_len(k: int, i: int) -> int {
    if 4 * i + 4 <= k {
        4
    } else {
        k - 4 * i
    }
}

/// Whether `rows` wraps the movies' tiles four to a row, in order, with
/// no padding in the last row.
pub open spec fn rows_match(movies: Seq<Movie>, rows: Seq<TileRow>) -> bool {
    &&& rows.len() == (movies.len() + 3) / 4
    &&& forall|i: int|
        0 <= i < rows.len() ==> (#[trigger] rows[i].tiles@).len() == row_len(
            movies.len() as int,
            i,
        )
    &&& forall|i: int, j: int|
        0 <= i < rows.len() && 0 <= j < rows[i].tiles@.len() ==> (#[trigger] rows[i].tiles@[j])
            == tile_of(movies[4 * i + j])
}

/// What the rendered tree for a state must be: rendering is total and
/// fully determined by the state.
pub open spec fn renders(s: MovieViewer, v: ViewTree) -> bool {
    match s {
        MovieViewer::Selecting => v == (ViewTree::SelectPrompt { button_style: Button::Primary }),
        MovieViewer::Loading { path } => v == (ViewTree::LoadingNotice { path }),
        MovieViewer::Loaded { folder } => v matches ViewTree::Grid { path, rows } && path
            == folder.path && rows_match(folder.movies@, rows@),
        MovieViewer::Errored => v == ViewTree::ErrorNotice,
    }
}

/// Wraps the movies into rows of four tiles; the last row keeps the
/// remainder without padding.
pub fn chunk_movies(movies: &Vec<Movie>) -> (rows: Vec<TileRow>)
    ensures
        rows_match(movies@, rows@),
{
    let n = movies.len();
    let mut rows: Vec<TileRow> = Vec::new();
    let mut current: Vec<Tile> = Vec::new();
    let mut i: usize = 0;
    while i < n
        invariant
            0 <= i <= n,
            n == movies@.len(),
            rows@.len() == i / 4,
            current@.len() == i % 4,
            forall|a: int| 0 <= a < rows@.len() ==> (#[trigger] rows@[a].tiles@).len() == 4,
            forall|a: int, b: int|
                0 <= a < rows@.len() && 0 <= b < 4 ==> (#[trigger] rows@[a].tiles@[b]) == tile_of(
                    movies@[4 * a + b],
                ),
            forall|b: int|
                0 <= b < current@.len() ==> (#[trigger] current@[b]) == tile_of(
                    movies@[4 * (i / 4) + b],
                ),
        decreases n - i,
    {
        let m = &movies[i];
        current.push(Tile { title: m.title.clone(), year: m.year, style: Container::Bordered });
        i = i + 1;
        if current.len() == ROW_WIDTH {
            rows.push(TileRow { tiles: current });
            current = Vec::new();
        }
    }
    if current.len() > 0 {
        rows.push(TileRow { tiles: current });
    }
    rows
}

/// Renders the current state as plain widget data.
pub fn render(s: &MovieViewer) -> (v: ViewTree)
    ensures
        renders(*s, v),
{
    match s {
        MovieViewer::Selecting => ViewTree::SelectPrompt { button_style: Button::Primary },
        MovieViewer::Loading { path } => ViewTree::LoadingNotice { path: path.clone() },
        MovieViewer::Loaded { folder } => ViewTree::Grid {
            path: folder.path.clone(),
            rows: chunk_movies(&folder.movies),
        },
        MovieViewer::Errored => ViewTree::ErrorNotice,
    }
}

/// The chunking law: a grid of `k` movies has `ceil(k / 4)` rows; every
/// row holds four tiles except possibly the last, which holds `k mod 4`
/// of them (four when `k` is a positive multiple of four).
pub proof fn lemma_grid_shape(movies: Seq<Movie>, rows: Seq<TileRow>)
    requires
        rows_match(movies, rows),
    ensures
        rows.len() == (movies.len() + 3) / 4,
        4 * rows.len() >= movies.len(),
        4 * (rows.len() - 1) < movies.len() || movies.len() == 0,
        forall|i: int| 0 <= i < rows.len() - 1 ==> (#[trigger] rows[i].tiles@).len() == 4,
        movies.len() % 4 == 0 && movies.len() > 0 ==> rows[rows.len() - 1].tiles@.len() == 4,
        movies.len() % 4 != 0 ==> rows[rows.len() - 1].tiles@.len() == movies.len() % 4,
{
    let k = movies.len() as int;
    assert forall|i: int| 0 <= i < rows.len() - 1 implies (#[trigger] rows[i].tiles@).len()
        == 4 by {
        assert(rows[i].tiles@.len() == row_len(k, i));
    }
    if k > 0 {
        assert(rows[rows.len() - 1].tiles@.len() == row_len(k, rows.len() - 1));
    }
}

/// Whether two rendered trees hold the same widgets, leaf by leaf.
pub open spec fn same_tree(a: ViewTree, b: ViewTree) -> bool {
    match (a, b) {
        (
            ViewTree::SelectPrompt { button_style: s1 },
            ViewTree::SelectPrompt { button_style: s2 },
        ) => s1 == s2,
        (ViewTree::LoadingNotice { path: p1 }, ViewTree::LoadingNotice { path: p2 }) => p1 == p2,
        (ViewTree::Grid { path: p1, rows: r1 }, ViewTree::Grid { path: p2, rows: r2 }) => p1 == p2
            && r1@.len() == r2@.len() && forall|i: int|
            0 <= i < r1@.len() ==> (#[trigger] r1@[i].tiles@) == r2@[i].tiles@,
        (ViewTree::ErrorNotice, ViewTree::ErrorNotice) => true,
        _ => false,
    }
}

/// Rendering is a pure function of the state: two trees rendered from
/// the same, unchanged state agree in every widget.
pub proof fn lemma_render_deterministic(s: MovieViewer, v1: ViewTree, v2: ViewTree)
    requires
        renders(s, v1),
        renders(s, v2),
    ensures
        same_tree(v1, v2),
{
    match s {
        MovieViewer::Loaded { folder } => {
            let k = folder.movies@.len() as int;
            match (v1, v2) {
                (ViewTree::Grid { path: p1, rows: r1 }, ViewTree::Grid { path: p2, rows: r2 }) => {
                    assert forall|i: int| 0 <= i < r1@.len() implies (#[trigger] r1@[i].tiles@)
                        == r2@[i].tiles@ by {
                        assert(r1@[i].tiles@.len() == row_len(k, i));
                        assert(r2@[i].tiles@.len() == row_len(k, i));
                        assert(r1@[i].tiles@ =~= r2@[i].tiles@);
                    }
                },
                _ => {},
            }
        },
        _ => {},
    }
}

} // verus!
