use bronze_magpie::add;
use bronze_magpie::website::asset;

#[test]
fn lib_it_works() {
    let result = add(2, 2);
    assert_eq!(result, 4);

    assert!(asset("index.html").is_some());
    assert!(asset("not_real.html").is_none());
}

#[test]
fn add_sums() {
    assert_eq!(add(0, 0), 0);
    assert_eq!(add(u64::MAX - 1, 1), u64::MAX);
}

#[test]
fn every_embedded_file_is_found() {
    for path in [
        "index.html",
        "styles.css",
        "logo.svg",
        "favicon.ico",
        "projects/index.html",
        "fonts/bodoni_moda.ttf",
    ] {
        assert!(asset(path).is_some(), "{path}");
    }
}

#[test]
fn lookups_match_whole_paths() {
    assert!(asset("").is_none());
    assert!(asset("index.htm").is_none());
    assert!(asset("/index.html").is_none());
    assert!(asset("projects").is_none());
    assert!(asset("fonts/").is_none());
    assert!(asset("INDEX.HTML").is_none());
}
