use movie_viewer::config::Config;
use movie_viewer::movies::{Error, Movie, MovieFolder, MovieRating, ScanEntry};
use movie_viewer::state::{Effect, Key, Message, MovieViewer};
use movie_viewer::theme::{Button, Container, Theme};
use movie_viewer::view::{chunk_movies, render, ViewTree};

fn dir_entry(path: &str, name: &str) -> Result<ScanEntry, Error> {
    Ok(ScanEntry { path: path.to_string(), name: name.to_string(), is_dir: true })
}

fn file_entry(path: &str, name: &str) -> Result<ScanEntry, Error> {
    Ok(ScanEntry { path: path.to_string(), name: name.to_string(), is_dir: false })
}

fn movie(path: &str, title: &str) -> Movie {
    Movie { path: path.to_string(), title: title.to_string(), year: 2002, rated: MovieRating::R }
}

fn loaded(path: &str, movies: Vec<Movie>) -> MovieViewer {
    MovieViewer::Loaded { folder: MovieFolder { path: path.to_string(), movies } }
}

// The example scenario: /movies with subdirectories Alien and Blade Runner
// loads into two movie records with the placeholder metadata, rendered as
// a single row of two tiles.
#[test]
fn example_folder_loads_and_renders() {
    let entries = vec![
        dir_entry("/movies/Alien", "Alien"),
        dir_entry("/movies/Blade Runner", "Blade Runner"),
    ];
    let folder = MovieFolder::load("/movies".to_string(), entries).unwrap();
    assert_eq!(folder.path, "/movies");
    assert_eq!(
        folder.movies,
        vec![movie("/movies/Alien", "Alien"), movie("/movies/Blade Runner", "Blade Runner")]
    );
    assert_eq!(folder.movies[0].rated, MovieRating::R);
    assert_eq!(folder.movies[0].year, 2002);

    let mut state = MovieViewer::Selecting;
    let effect = state.update(Message::FolderLoaded(Ok(folder)));
    assert_eq!(effect, Effect::Nothing);
    match render(&state) {
        ViewTree::Grid { path, rows } => {
            assert_eq!(path, "/movies");
            assert_eq!(rows.len(), 1);
            assert_eq!(rows[0].tiles.len(), 2);
            assert_eq!(rows[0].tiles[0].title, "Alien");
            assert_eq!(rows[0].tiles[0].year, 2002);
            assert_eq!(rows[0].tiles[1].title, "Blade Runner");
            assert_eq!(rows[0].tiles[1].style, Container::Bordered);
        }
        other => panic!("expected a grid, got {:?}", other),
    }
}

// One movie record per subdirectory: regular files contribute nothing,
// and the records keep the scan order.
#[test]
fn loader_keeps_only_subdirectories() {
    let entries = vec![
        file_entry("/m/readme.md", "readme.md"),
        dir_entry("/m/A", "A"),
        file_entry("/m/cover.jpg", "cover.jpg"),
        dir_entry("/m/B", "B"),
        dir_entry("/m/C", "C"),
    ];
    let folder = MovieFolder::load("/m".to_string(), entries).unwrap();
    let titles: Vec<&str> = folder.movies.iter().map(|m| m.title.as_str()).collect();
    assert_eq!(titles, vec!["A", "B", "C"]);
}

#[test]
fn loader_of_empty_scan_is_empty() {
    let folder = MovieFolder::load("/empty".to_string(), vec![]).unwrap();
    assert_eq!(folder.path, "/empty");
    assert!(folder.movies.is_empty());
}

// A single failed entry read fails the whole load with a system error.
#[test]
fn loader_fails_on_any_bad_entry() {
    let entries = vec![
        dir_entry("/m/A", "A"),
        Err(Error::SystemError),
        dir_entry("/m/B", "B"),
    ];
    assert_eq!(MovieFolder::load("/m".to_string(), entries), Err(Error::SystemError));
}

#[test]
fn selection_outcomes() {
    assert_eq!(MovieFolder::selected(Some("/movies".to_string())), Ok("/movies".to_string()));
    assert_eq!(MovieFolder::selected(None), Err(Error::SystemError));
}

// A selection or load failure collapses any state into Errored.
#[test]
fn errors_are_terminal_from_any_state() {
    let states = || {
        vec![
            MovieViewer::Selecting,
            MovieViewer::Loading { path: "/p".to_string() },
            loaded("/p", vec![movie("/p/A", "A")]),
            MovieViewer::Errored,
        ]
    };
    for mut s in states() {
        let e = s.update(Message::FolderSelected(Err(Error::SystemError)));
        assert_eq!(s, MovieViewer::Errored);
        assert_eq!(e, Effect::Nothing);
    }
    for mut s in states() {
        let e = s.update(Message::FolderLoaded(Err(Error::APIError)));
        assert_eq!(s, MovieViewer::Errored);
        assert_eq!(e, Effect::Nothing);
    }
}

// Escape requests a window close exactly once, in every state, and the
// state is unchanged.
#[test]
fn escape_always_closes_window() {
    let states = vec![
        MovieViewer::Selecting,
        MovieViewer::Loading { path: "/p".to_string() },
        loaded("/p", vec![]),
        MovieViewer::Errored,
    ];
    for mut s in states {
        let before = format!("{:?}", s);
        let e = s.update(Message::KeyPressed { key: Key::Escape });
        assert_eq!(e, Effect::CloseWindow);
        assert_eq!(format!("{:?}", s), before);
    }
}

// Enter requests the folder dialog only while selecting.
#[test]
fn enter_selects_only_when_selecting() {
    let mut s = MovieViewer::Selecting;
    assert_eq!(s.update(Message::KeyPressed { key: Key::Enter }), Effect::OpenFolderDialog);
    assert_eq!(s, MovieViewer::Selecting);

    let mut s = MovieViewer::Errored;
    assert_eq!(s.update(Message::KeyPressed { key: Key::Enter }), Effect::Nothing);

    let mut s = MovieViewer::Selecting;
    assert_eq!(s.update(Message::KeyPressed { key: Key::Other }), Effect::Nothing);
}

#[test]
fn select_button_requests_dialog() {
    let mut s = MovieViewer::Selecting;
    assert_eq!(s.update(Message::FolderSelect), Effect::OpenFolderDialog);
    assert_eq!(s, MovieViewer::Selecting);
}

// A successful selection starts the load of the chosen path.
#[test]
fn selection_starts_load() {
    let mut s = MovieViewer::Selecting;
    let e = s.update(Message::FolderSelected(Ok("/movies".to_string())));
    assert_eq!(s, MovieViewer::Loading { path: "/movies".to_string() });
    assert_eq!(e, Effect::LoadFolder { path: "/movies".to_string() });
}

#[test]
fn initial_state_and_title() {
    let (s, e) = MovieViewer::new();
    assert_eq!(s, MovieViewer::Selecting);
    assert_eq!(e, Effect::EnterFullscreen);
    assert_eq!(s.title(), "MovieViewer");
}

// The chunking law on concrete sizes: nine movies make rows of 4, 4, 1;
// a multiple of four fills every row; an empty list makes no rows.
#[test]
fn grid_rows_of_four() {
    let movies: Vec<Movie> = (0..9).map(|i| movie(&format!("/m/{}", i), &format!("{}", i))).collect();
    let rows = chunk_movies(&movies);
    let widths: Vec<usize> = rows.iter().map(|r| r.tiles.len()).collect();
    assert_eq!(widths, vec![4, 4, 1]);
    assert_eq!(rows[2].tiles[0].title, "8");

    let movies: Vec<Movie> = (0..8).map(|i| movie(&format!("/m/{}", i), &format!("{}", i))).collect();
    let widths: Vec<usize> = chunk_movies(&movies).iter().map(|r| r.tiles.len()).collect();
    assert_eq!(widths, vec![4, 4]);

    assert!(chunk_movies(&vec![]).is_empty());
}

// Re-rendering an unchanged state gives an identical tree.
#[test]
fn rendering_is_deterministic() {
    let states = vec![
        MovieViewer::Selecting,
        MovieViewer::Loading { path: "/p".to_string() },
        loaded("/p", vec![movie("/p/A", "A"), movie("/p/B", "B")]),
        MovieViewer::Errored,
    ];
    for s in states {
        assert_eq!(render(&s), render(&s));
    }
}

#[test]
fn render_of_simple_states() {
    assert_eq!(
        render(&MovieViewer::Selecting),
        ViewTree::SelectPrompt { button_style: Button::Primary }
    );
    assert_eq!(
        render(&MovieViewer::Loading { path: "/p".to_string() }),
        ViewTree::LoadingNotice { path: "/p".to_string() }
    );
    assert_eq!(render(&MovieViewer::Errored), ViewTree::ErrorNotice);
}

#[test]
fn rating_names() {
    assert_eq!(MovieRating::G.as_str(), "G");
    assert_eq!(MovieRating::PG.as_str(), "PG");
    assert_eq!(MovieRating::PG13.as_str(), "PG-13");
    assert_eq!(MovieRating::R.as_str(), "R");
    assert_eq!(MovieRating::NC17.as_str(), "NC-17");
    assert_eq!(MovieRating::Unrated.as_str(), "Unrated");
}

#[test]
fn base_config_is_empty() {
    let c = Config::base();
    assert!(c.omdb_key.is_none());
    assert!(c.movie_folders.is_empty());
}

#[test]
fn theme_defaults() {
    assert_eq!(Theme::default(), Theme);
    assert_eq!(Container::default(), Container::Plain);
    assert_eq!(Button::default(), Button::Primary);
}
