//! The website's files, embedded in the library and looked up by path.
//!
//! The files themselves belong to the site's `assets/` folder, which is not part of this
//! crate's sources: the table below lists each file's path, but holds no bytes for it, and
//! `embedded_contents` says so. Serving the site's real pages needs those files' bytes in the
//! table.

use vstd::prelude::*;
use crate::text::str_equal;

verus! {

/// The paths of the embedded files, in lookup order.
pub open spec fn asset_paths() -> Seq<Seq<char>> {
    seq![
        "index.html"@,
        "styles.css"@,
        "logo.svg"@,
        "favicon.ico"@,
        "projects/index.html"@,
        "fonts/bodoni_moda.ttf"@,
    ]
}

/// The bytes embedded for the file at `path`: none, since the `assets/` folder is not part of
/// this crate's sources.
pub open spec fn embedded_contents(path: Seq<char>) -> Seq<u8> {
    seq![]
}

/// The embedded files: each path with its contents.
fn embedded_assets() -> (table: Vec<(&'static str, &'static [u8])>)
    ensures
        table@.len() == asset_paths().len(),
        forall|i: int|
            0 <= i < table@.len() ==> (#[trigger] table@[i]).0@ == asset_paths()[i]
                && table@[i].1@ == embedded_contents(asset_paths()[i]),
{
    let mut table: Vec<(&'static str, &'static [u8])> = Vec::new();
    table.push(("index.html", &[]));
    table.push(("styles.css", &[]));
    table.push(("logo.svg", &[]));
    table.push(("favicon.ico", &[]));
    table.push(("projects/index.html", &[]));
    table.push(("fonts/bodoni_moda.ttf", &[]));
    table
}

/// Given a path (e.g. `"index.html"`) to something in the asset folder, return the raw bytes.
pub fn asset(path: &str) -> (found: Option<&'static [u8]>)
    ensures
        found is Some <==> asset_paths().contains(path@),
        found matches Some(bytes) ==> bytes@ == embedded_contents(path@),
{
    let table = embedded_assets();
    let mut i: usize = 0;
    while i < table.len()
        invariant
            table@.len() == asset_paths().len(),
            forall|k: int|
                0 <= k < table@.len() ==> (#[trigger] table@[k]).0@ == asset_paths()[k]
                    && table@[k].1@ == embedded_contents(asset_paths()[k]),
            i <= table@.len(),
            forall|k: int| 0 <= k < i ==> asset_paths()[k] != path@,
        decreases table.len() - i,
    {
        let (content_path, content) = table[i];
        if str_equal(content_path, path) {
            return Some(content);
        }
        i = i + 1;
    }
    None
}

/// The home page and the projects page are among the embedded files, so looking them up
/// always finds them.
pub proof fn lemma_pages_embedded()
    ensures
        asset_paths().contains("index.html"@),
        asset_paths().contains("projects/index.html"@),
{
    assert(asset_paths()[0] == "index.html"@);
    assert(asset_paths()[4] == "projects/index.html"@);
}

} // verus!
