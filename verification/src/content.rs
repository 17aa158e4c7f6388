//! Which bytes and which content type answer a request for a file of the website.

use vstd::prelude::*;
use vstd::string::StrSliceExecFns;
use crate::text::{find_last, last_index_of, lemma_last_index_of, str_equal};
use crate::website::{asset, asset_paths, embedded_contents};

verus! {

/// The last `/`-separated segment of a path.
pub open spec fn file_name_of(path: Seq<char>) -> Seq<char> {
    match last_index_of(path, '/') {
        Some(i) => path.subrange(i + 1, path.len() as int),
        None => path,
    }
}

/// The extension of a path: the text after the last `.` of its file name, provided
/// that `.` is not the file name's first character.
pub open spec fn extension_of(path: Seq<char>) -> Option<Seq<char>> {
    let name = file_name_of(path);
    match last_index_of(name, '.') {
        Some(i) => if i == 0 {
            None
        } else {
            Some(name.subrange(i + 1, name.len() as int))
        },
        None => None,
    }
}

/// The content type served for a file extension, for the extensions the site knows.
pub open spec fn content_type_of(extension: Seq<char>) -> Option<Seq<char>> {
    if extension == "ico"@ {
        Some("image/vnd.microsoft.icon"@)
    } else if extension == "css"@ {
        Some("text/css"@)
    } else if extension == "html"@ {
        Some("text/html"@)
    } else if extension == "ttf"@ {
        Some("font/truetype"@)
    } else if extension == "otf"@ {
        Some("font/opentype"@)
    } else if extension == "svg"@ {
        Some("image/svg+xml"@)
    } else {
        None
    }
}

/// The extension of `path` (see `extension_of`).
pub fn extension(path: &str) -> (ext: Option<&str>)
    ensures
        match ext {
            Some(e) => extension_of(path@) == Some(e@),
            None => extension_of(path@) is None,
        },
{
    let len = path.unicode_len();
    let start = match find_last(path, '/') {
        Some(i) => {
            proof {
                lemma_last_index_of(path@, '/');
            }
            i + 1
        },
        None => 0,
    };
    let name = path.substring_char(start, len);
    assert(name@ == file_name_of(path@));
    let name_len = name.unicode_len();
    match find_last(name, '.') {
        Some(i) => {
            proof {
                lemma_last_index_of(name@, '.');
            }
            if i == 0 {
                None
            } else {
                Some(name.substring_char(i + 1, name_len))
            }
        },
        None => None,
    }
}

/// The content type of a file with the given extension.
pub fn content_type(extension: &str) -> (content_type: &'static str)
    requires
        content_type_of(extension@) is Some,
    ensures
        content_type_of(extension@) == Some(content_type@),
{
    if str_equal(extension, "ico") {
        "image/vnd.microsoft.icon"
    } else if str_equal(extension, "css") {
        "text/css"
    } else if str_equal(extension, "html") {
        "text/html"
    } else if str_equal(extension, "ttf") {
        "font/truetype"
    } else if str_equal(extension, "otf") {
        "font/opentype"
    } else {
        "image/svg+xml"
    }
}

proof fn lemma_html_extensions()
    ensures
        extension_of("index.html"@) == Some("html"@),
        extension_of("projects/index.html"@) == Some("html"@),
{
    reveal_strlit("index.html");
    reveal_strlit("projects/index.html");
    reveal_strlit("html");
    reveal_with_fuel(last_index_of, 20);
}

proof fn lemma_styles_extension()
    ensures
        extension_of("styles.css"@) == Some("css"@),
{
    reveal_strlit("styles.css");
    reveal_strlit("css");
    reveal_with_fuel(last_index_of, 11);
}

proof fn lemma_logo_extension()
    ensures
        extension_of("logo.svg"@) == Some("svg"@),
{
    reveal_strlit("logo.svg");
    reveal_strlit("svg");
    reveal_with_fuel(last_index_of, 9);
}

proof fn lemma_favicon_extension()
    ensures
        extension_of("favicon.ico"@) == Some("ico"@),
{
    reveal_strlit("favicon.ico");
    reveal_strlit("ico");
    reveal_with_fuel(last_index_of, 12);
}

proof fn lemma_font_extension()
    ensures
        extension_of("fonts/bodoni_moda.ttf"@) == Some("ttf"@),
{
    reveal_strlit("fonts/bodoni_moda.ttf");
    reveal_strlit("ttf");
    reveal_with_fuel(last_index_of, 22);
}

/// Every embedded file has an extension, and the site knows that extension's content type.
pub proof fn lemma_embedded_assets_have_content_types(path: Seq<char>)
    requires
        asset_paths().contains(path),
    ensures
        extension_of(path) is Some,
        content_type_of(extension_of(path)->0) is Some,
{
    lemma_html_extensions();
    lemma_styles_extension();
    lemma_logo_extension();
    lemma_favicon_extension();
    lemma_font_extension();
    let i = choose|i: int| 0 <= i < asset_paths().len() && asset_paths()[i] == path;
    assert(0 <= i < 6);
}

/// The answer to a request for a file of the website.
pub enum AssetResponse {
    /// The file exists: its content type and its bytes.
    Found { content_type: &'static str, body: &'static [u8] },
    /// No file has that path.
    NotFound,
}

/// Answers a request for the file at `filename`: its bytes and the content type given by its
/// extension, or `NotFound` when the site holds no such file.
pub fn asset_response(filename: &str) -> (response: AssetResponse)
    ensures
        match response {
            AssetResponse::Found { content_type, body } => {
                &&& asset_paths().contains(filename@)
                &&& body@ == embedded_contents(filename@)
                &&& extension_of(filename@) is Some
                &&& content_type_of(extension_of(filename@)->0) == Some(content_type@)
            },
            AssetResponse::NotFound => !asset_paths().contains(filename@),
        },
{
    match asset(filename) {
        Some(body) => {
            proof {
                lemma_embedded_assets_have_content_types(filename@);
            }
            let ext = extension(filename);
            match ext {
                Some(e) => AssetResponse::Found { content_type: content_type(e), body },
                None => AssetResponse::NotFound,
            }
        },
        None => AssetResponse::NotFound,
    }
}

} // verus!
