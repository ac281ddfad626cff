use dotilim::config::{Config, Order};
use dotilim::expand::expand_sources;
use dotilim::pool::build_pool;
use dotilim::scheme::ColorScheme;
use dotilim::tick::{choose_wallpaper, run_tick, TickError};

/// Creates a fresh scratch directory and makes it the working directory, so
/// the relative patterns below resolve against it.
fn enter_scratch(base: &str) {
    let _ = fs_err::remove_dir_all(base);
    fs_err::create_dir_all(base).unwrap();
    nix::unistd::chdir(base).unwrap();
}

fn leave_scratch(base: &str) {
    nix::unistd::chdir("/tmp").unwrap();
    let _ = fs_err::remove_dir_all(base);
}

#[test]
fn tick_scenario_appearance_unavailable() {
    // Default patterns only, appearance unavailable: the pool is exactly the
    // expansion of the default patterns, and selection returns one of them.
    let base = "/tmp/dotilim-tick-unavailable";
    enter_scratch(base);
    fs_err::create_dir_all("fixtures").unwrap();
    fs_err::write("fixtures/one.jpg", b"").unwrap();
    fs_err::write("fixtures/two.jpg", b"").unwrap();
    let patterns = Some(vec![String::from("./fixtures/*.jpg")]);
    let expanded = expand_sources(&patterns).unwrap();
    assert_eq!(
        expanded,
        [String::from("fixtures/one.jpg"), String::from("fixtures/two.jpg")]
    );
    let pool = build_pool(expanded.clone(), vec![], vec![], None);
    assert_eq!(pool, expanded);
    let choice = choose_wallpaper(expanded.clone(), vec![], vec![], None, Order::random).unwrap();
    assert!(expanded.contains(&choice));
    leave_scratch(base);
}

#[test]
fn tick_scenario_prefer_dark() {
    // Default and dark patterns with a dark preference: the pool is the
    // default expansion followed by the dark expansion, in that order.
    let base = "/tmp/dotilim-tick-dark";
    enter_scratch(base);
    fs_err::create_dir_all("a").unwrap();
    fs_err::write("a/base.jpg", b"").unwrap();
    fs_err::create_dir_all("dark").unwrap();
    fs_err::write("dark/night.jpg", b"").unwrap();
    let default = expand_sources(&Some(vec![String::from("./a/*.jpg")])).unwrap();
    let dark = expand_sources(&Some(vec![String::from("./dark/*.jpg")])).unwrap();
    let pool = build_pool(
        default.clone(),
        vec![],
        dark.clone(),
        Some(ColorScheme::PreferDark),
    );
    assert_eq!(pool, [String::from("a/base.jpg"), String::from("dark/night.jpg")]);
    let choice = choose_wallpaper(
        default,
        vec![],
        dark,
        Some(ColorScheme::PreferDark),
        Order::alphabetical,
    )
    .unwrap();
    assert_eq!(choice, String::from("a/base.jpg"));
    leave_scratch(base);
}

#[test]
fn run_tick_no_sources_is_empty_pool() {
    let config = Config::new(1, None, None, None, 60, Order::random).unwrap();
    assert_eq!(run_tick(&config, None), Err(TickError::EmptyPool));
}

#[test]
fn run_tick_selects_from_configured_sources() {
    let base = "/tmp/dotilim-tick-run";
    enter_scratch(base);
    fs_err::create_dir_all("walls").unwrap();
    fs_err::write("walls/p.jpg", b"").unwrap();
    fs_err::write("walls/q.jpg", b"").unwrap();
    let config = Config::new(
        1,
        Some(vec![String::from("./walls/*.jpg")]),
        None,
        None,
        60,
        Order::random,
    )
    .unwrap();
    let choice = run_tick(&config, Some(ColorScheme::NoPreference)).unwrap();
    assert!(
        choice == String::from("walls/p.jpg") || choice == String::from("walls/q.jpg")
    );
    leave_scratch(base);
}
