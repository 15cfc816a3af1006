//! Static assets: where a request URI lies under the public folder, and
//! the content type that goes with a file name.
use crate::http::headers::{has_name, position, value_of};
use crate::text::{find_last, find_other, index_of_other, last_index_of, str_eq, to_chars};
use vstd::prelude::*;

verus! {

/// The file name extensions that have a content type of their own, each
/// with that type.
pub open spec fn supported_filetypes() -> Seq<(Seq<char>, Seq<char>)> {
    seq![
        ("html"@, "text/html"@),
        ("css"@, "text/css"@),
        ("js"@, "text/javascript"@),
        ("png"@, "image/png"@),
        ("jpg"@, "image/jpeg"@),
        ("jpeg"@, "image/jpeg"@),
        ("gif"@, "image/gif"@),
        ("svg"@, "image/svg+xml"@),
        ("ico"@, "image/x-icon"@),
        ("json"@, "application/json"@),
        ("xml"@, "application/xml"@),
        ("pdf"@, "application/pdf"@),
        ("zip"@, "application/zip"@),
        ("txt"@, "text/plain"@),
        ("md"@, "text/markdown"@),
        ("wasm"@, "application/wasm"@),
        ("mp3"@, "audio/mpeg"@),
        ("wav"@, "audio/wav"@),
        ("mp4"@, "video/mp4"@),
    ]
}

/// The pairs that a vector of string slices holds.
pub open spec fn pairs_of(table: Seq<(&'static str, &'static str)>) -> Seq<(Seq<char>, Seq<char>)> {
    Seq::new(table.len(), |i: int| (table[i].0@, table[i].1@))
}

/// The content type for a file name extension: that of the table, or
/// `text/plain` where the extension is absent or unknown.
pub open spec fn content_type_of(extension: Option<Seq<char>>) -> Seq<char> {
    match extension {
        Some(name) if has_name(supported_filetypes(), name) => value_of(
            supported_filetypes(),
            name,
        ),
        _ => "text/plain"@,
    }
}

/// The last component of a path: what follows its last `/`.
pub open spec fn file_name_of(path: Seq<char>) -> Seq<char> {
    path.skip(last_index_of(path, '/') + 1)
}

/// The extension of a path: what follows the last `.` of its file name.
/// A file name without `.`, or with none but at its start, has none.
pub open spec fn extension_of(path: Seq<char>) -> Option<Seq<char>> {
    let name = file_name_of(path);
    let dot = last_index_of(name, '.');
    if dot <= 0 {
        None
    } else {
        Some(name.skip(dot + 1))
    }
}

/// The URI as a relative path: without the `/` that it begins with.
pub open spec fn relative_of(uri: Seq<char>) -> Seq<char> {
    uri.skip(index_of_other(uri, '/', 0))
}

/// The path of `uri` under `root`: the root, a `/` unless the root is empty
/// or ends with one, and the URI as a relative path.
pub open spec fn joined(root: Seq<char>, uri: Seq<char>) -> Seq<char> {
    if root.len() == 0 || root.last() == '/' {
        root + relative_of(uri)
    } else {
        root + "/"@ + relative_of(uri)
    }
}

/// The file name extensions that have a content type of their own, each
/// with that type.
pub fn get_supported_filetypes() -> (table: Vec<(&'static str, &'static str)>)
    ensures
        pairs_of(table@) == supported_filetypes(),
{
    let mut table: Vec<(&'static str, &'static str)> = Vec::new();
    table.push(("html", "text/html"));
    table.push(("css", "text/css"));
    table.push(("js", "text/javascript"));
    table.push(("png", "image/png"));
    table.push(("jpg", "image/jpeg"));
    table.push(("jpeg", "image/jpeg"));
    table.push(("gif", "image/gif"));
    table.push(("svg", "image/svg+xml"));
    table.push(("ico", "image/x-icon"));
    table.push(("json", "application/json"));
    table.push(("xml", "application/xml"));
    table.push(("pdf", "application/pdf"));
    table.push(("zip", "application/zip"));
    table.push(("txt", "text/plain"));
    table.push(("md", "text/markdown"));
    table.push(("wasm", "application/wasm"));
    table.push(("mp3", "audio/mpeg"));
    table.push(("wav", "audio/wav"));
    table.push(("mp4", "video/mp4"));
    table
}

/// The content type for a file name extension.
pub fn content_type(extension: Option<&str>) -> (r: &'static str)
    ensures
        r@ == content_type_of(
            match extension {
                Some(name) => Some(name@),
                None => None,
            },
        ),
{
    match extension {
        None => "text/plain",
        Some(name) => {
            let table = get_supported_filetypes();
            let ghost pairs = supported_filetypes();
            let mut i: usize = 0;
            while i < table.len() && !str_eq(table[i].0, name)
                invariant
                    i <= table.len(),
                    pairs == supported_filetypes(),
                    pairs_of(table@) == pairs,
                    position(pairs, name@, 0) == position(pairs, name@, i as int),
                decreases table.len() - i,
            {
                i += 1;
            }
            if i < table.len() {
                table[i].1
            } else {
                "text/plain"
            }
        },
    }
}

/// The extension of a path, where it has one.
pub fn extension(path: &str) -> (r: Option<String>)
    ensures
        match r {
            Some(name) => extension_of(path@) == Some(name@),
            None => extension_of(path@) is None,
        },
{
    let chars = to_chars(path);
    let start: usize = match find_last(&chars, '/') {
        Some(slash) => slash + 1,
        None => 0,
    };
    let name = path.substring_char(start, chars.len());
    let name_chars = to_chars(name);
    match find_last(&name_chars, '.') {
        Some(dot) => {
            if dot == 0 {
                None
            } else {
                Some(name.substring_char(dot + 1, name_chars.len()).to_owned())
            }
        },
        None => None,
    }
}

/// The path of `uri` under `root`.
pub fn join(root: &str, uri: &str) -> (path: String)
    ensures
        path@ == joined(root@, uri@),
{
    let root_chars = to_chars(root);
    let uri_chars = to_chars(uri);
    let start = find_other(&uri_chars, '/', 0);
    let mut path = String::from_str(root);
    if root_chars.len() > 0 && root_chars[root_chars.len() - 1] != '/' {
        path.append("/");
    }
    path.append(uri.substring_char(start, uri_chars.len()));
    path
}

} // verus!
