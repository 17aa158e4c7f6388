use bronze_magpie::content::{asset_response, content_type, extension, AssetResponse};

#[test]
fn content_types_of_known_extensions() {
    assert_eq!(content_type("ico"), "image/vnd.microsoft.icon");
    assert_eq!(content_type("css"), "text/css");
    assert_eq!(content_type("html"), "text/html");
    assert_eq!(content_type("ttf"), "font/truetype");
    assert_eq!(content_type("otf"), "font/opentype");
    assert_eq!(content_type("svg"), "image/svg+xml");
}

#[test]
fn extensions_of_paths() {
    assert_eq!(extension("index.html"), Some("html"));
    assert_eq!(extension("fonts/bodoni_moda.ttf"), Some("ttf"));
    assert_eq!(extension("archive.tar.gz"), Some("gz"));
    assert_eq!(extension("trailing."), Some(""));
    assert_eq!(extension("README"), None);
    assert_eq!(extension(".hidden"), None);
    assert_eq!(extension("dir.d/file"), None);
    assert_eq!(extension("dir/.profile"), None);
    assert_eq!(extension("dir/.config.toml"), Some("toml"));
}

fn found(path: &str) -> (&'static str, &'static [u8]) {
    match asset_response(path) {
        AssetResponse::Found { content_type, body } => (content_type, body),
        AssetResponse::NotFound => panic!("{path} not found"),
    }
}

#[test]
fn embedded_files_are_served_with_their_content_types() {
    assert_eq!(found("index.html").0, "text/html");
    assert_eq!(found("styles.css").0, "text/css");
    assert_eq!(found("logo.svg").0, "image/svg+xml");
    assert_eq!(found("favicon.ico").0, "image/vnd.microsoft.icon");
    assert_eq!(found("projects/index.html").0, "text/html");
    assert_eq!(found("fonts/bodoni_moda.ttf").0, "font/truetype");
    assert_eq!(found("index.html").1, bronze_magpie::website::asset("index.html").unwrap());
}

#[test]
fn unknown_files_are_not_found() {
    assert!(matches!(asset_response("not_real.html"), AssetResponse::NotFound));
    assert!(matches!(asset_response("projects/"), AssetResponse::NotFound));
    assert!(matches!(asset_response("fonts/other.otf"), AssetResponse::NotFound));
}
