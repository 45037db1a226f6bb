//! The static asset resolver: from a request path to the file it names under
//! the root, and from what the host found there to the response.

use crate::delivery::{
    http_accepts, http_header_value, response_is_taken, text_response_is_taken,
    visible_text_is_header_value,
};
use crate::message::{
    not_yet_implemented, page_not_found, response, text_response, Response, ResponseView,
    NOT_FOUND_TEXT, NOT_IMPLEMENTED_TEXT, STATUS_NOT_FOUND, STATUS_NOT_IMPLEMENTED, STATUS_OK,
};
use crate::text::{
    chars_end_with, chars_of, contains_parent_segment, has_parent_segment, is_separator,
    parent_segment_at, same_text,
};
use vstd::prelude::*;

verus! {

/// The document that the path `/` names.
pub const INDEX_DOCUMENT: &'static str = "index.html";

/// What the host found when it resolved a relative path under the root: the
/// root and the file, each as the segments of its canonical path, and the
/// bytes of the file.
pub struct Asset {
    /// The segments of the root's canonical path.
    pub root: Vec<String>,
    /// The segments of the file's canonical path.
    pub location: Vec<String>,
    /// The bytes of the file.
    pub content: Vec<u8>,
}

/// `path` without the separator it starts with, if it starts with one.
pub open spec fn without_leading_separator(path: Seq<char>) -> Seq<char> {
    if path.len() > 0 && path[0] == '/' {
        path.skip(1)
    } else {
        path
    }
}

/// The path under the root that the request path names: the index document
/// for `/`, else the path without its leading separator.
pub open spec fn relative_path(path: Seq<char>) -> Seq<char> {
    if path == seq!['/'] {
        INDEX_DOCUMENT@
    } else {
        without_leading_separator(path)
    }
}

/// A relative path that cannot leave the directory it is joined to: none of
/// its segments is `..`, and it does not start at a root of its own.
pub open spec fn is_confined(relative: Seq<char>) -> bool {
    &&& !has_parent_segment(relative)
    &&& !(relative.len() > 0 && is_separator(relative[0]))
}

/// The media type that the extension of `relative` stands for, if it is one
/// of the known extensions.
pub open spec fn media_type_of(relative: Seq<char>) -> Option<Seq<char>> {
    if ".html"@.is_suffix_of(relative) {
        Some("text/html"@)
    } else if ".js"@.is_suffix_of(relative) {
        Some("text/javascript"@)
    } else if ".png"@.is_suffix_of(relative) {
        Some("image/png"@)
    } else if ".wasm"@.is_suffix_of(relative) {
        Some("application/wasm"@)
    } else if ".css"@.is_suffix_of(relative) {
        Some("text/css"@)
    } else if ".svg"@.is_suffix_of(relative) {
        Some("image/svg+xml"@)
    } else {
        None
    }
}

/// The file at `location` is the root or lies below it.
pub open spec fn lies_under(root: Seq<Seq<char>>, location: Seq<Seq<char>>) -> bool {
    root.is_prefix_of(location)
}

/// The response that serves the bytes of the file that `relative` names: 200
/// with the media type of its extension, or 501 where the extension has none.
pub open spec fn asset_view(relative: Seq<char>, content: Seq<u8>) -> ResponseView {
    match media_type_of(relative) {
        Some(media_type) => response(STATUS_OK, media_type, content),
        None => text_response(STATUS_NOT_IMPLEMENTED, NOT_IMPLEMENTED_TEXT@),
    }
}

/// The request path is answered from the root: it names a confined relative
/// path, the host resolved it, and what it resolved to lies under the root.
pub open spec fn is_served(path: Seq<char>, asset: Option<Asset>) -> bool {
    &&& asset matches Some(found)
    &&& is_confined(relative_path(path))
    &&& lies_under(found.root.deep_view(), found.location.deep_view())
}

/// The response of the resolver to a request path and what the host found.
pub open spec fn static_view(path: Seq<char>, asset: Option<Asset>) -> ResponseView {
    if is_served(path, asset) {
        asset_view(relative_path(path), asset->0.content@)
    } else {
        text_response(STATUS_NOT_FOUND, NOT_FOUND_TEXT@)
    }
}

/// `path` without the separator it starts with, if it starts with one.
pub fn strip_leading_separator(path: &str) -> (stripped: String)
    ensures
        stripped@ == without_leading_separator(path@),
{
    let n: usize = path.unicode_len();
    if n > 0 && path.get_char(0) == '/' {
        String::from_str(path.substring_char(1, n))
    } else {
        String::from_str(path)
    }
}

/// The path under the root that the request path names.
pub fn relative_path_of(path: &str) -> (relative: String)
    ensures
        relative@ == relative_path(path@),
{
    proof {
        reveal_strlit("/");
    }
    if same_text(path, "/") {
        assert(path@ =~= seq!['/']);
        String::from_str(INDEX_DOCUMENT)
    } else {
        assert("/"@ =~= seq!['/']);
        strip_leading_separator(path)
    }
}

/// Whether a relative path cannot leave the directory it is joined to.
pub fn confined(relative: &str) -> (safe: bool)
    ensures
        safe == is_confined(relative@),
{
    if contains_parent_segment(relative) {
        return false;
    }
    let n: usize = relative.unicode_len();
    if n > 0 {
        let first = relative.get_char(0);
        if first == '/' || first == '\\' {
            return false;
        }
    }
    true
}

/// The relative path that the host is to resolve under the root for a
/// request path, or nothing where that path could leave the root.
pub fn asset_path(path: &str) -> (candidate: Option<String>)
    ensures
        match candidate {
            Some(relative) => relative@ == relative_path(path@) && is_confined(relative@),
            None => !is_confined(relative_path(path@)),
        },
{
    let relative = relative_path_of(path);
    if confined(relative.as_str()) {
        Some(relative)
    } else {
        None
    }
}

/// The media type that the extension of `relative` stands for, if it is one
/// of the known extensions.
pub fn mime_type(relative: &str) -> (known: Option<&'static str>)
    ensures
        match known {
            Some(media_type) => media_type_of(relative@) == Some(media_type@),
            None => media_type_of(relative@) is None,
        },
{
    let chars = chars_of(relative);
    if chars_end_with(&chars, ".html") {
        Some("text/html")
    } else if chars_end_with(&chars, ".js") {
        Some("text/javascript")
    } else if chars_end_with(&chars, ".png") {
        Some("image/png")
    } else if chars_end_with(&chars, ".wasm") {
        Some("application/wasm")
    } else if chars_end_with(&chars, ".css") {
        Some("text/css")
    } else if chars_end_with(&chars, ".svg") {
        Some("image/svg+xml")
    } else {
        None
    }
}

/// Whether the file at `location` is the root or lies below it.
pub fn is_under(root: &Vec<String>, location: &Vec<String>) -> (under: bool)
    ensures
        under == lies_under(root.deep_view(), location.deep_view()),
{
    if root.len() > location.len() {
        return false;
    }
    let mut at: usize = 0;
    while at < root.len()
        invariant
            root.len() <= location.len(),
            at <= root.len(),
            forall|k: int| 0 <= k < at ==> root.deep_view()[k] == location.deep_view()[k],
        decreases root.len() - at,
    {
        if root[at] != location[at] {
            assert(location.deep_view().subrange(0, root.len() as int)[at as int]
                == location.deep_view()[at as int]);
            return false;
        }
        at += 1;
    }
    true
}

/// The response that serves the bytes of the file that `relative` names.
pub fn asset_response(relative: &str, content: Vec<u8>) -> (r: Response)
    ensures
        r@ == asset_view(relative@, content@),
{
    match mime_type(relative) {
        Some(media_type) => Response::new(STATUS_OK, media_type, content),
        None => not_yet_implemented(),
    }
}

/// The response that serves the request path from the root, where it is
/// served from there.
pub fn serve_asset(path: &str, asset: Option<Asset>) -> (served: Option<Response>)
    ensures
        match served {
            Some(r) => is_served(path@, asset) && r@ == static_view(path@, asset),
            None => !is_served(path@, asset),
        },
{
    match asset {
        Some(found) => {
            match asset_path(path) {
                Some(relative) => {
                    if is_under(&found.root, &found.location) {
                        Some(asset_response(relative.as_str(), found.content))
                    } else {
                        None
                    }
                },
                None => None,
            }
        },
        None => None,
    }
}

/// The response of the resolver: the asset where the request path is served
/// from the root, else 404.
pub fn response_static(path: &str, asset: Option<Asset>) -> (r: Response)
    ensures
        r@ == static_view(path@, asset),
{
    match serve_asset(path, asset) {
        Some(r) => r,
        None => page_not_found(),
    }
}

/// The media types of the known extensions are values that `http` takes.
pub proof fn media_types_are_taken(relative: Seq<char>)
    ensures
        media_type_of(relative) matches Some(media_type) ==> http_header_value(media_type),
{
    reveal_strlit("text/html");
    visible_text_is_header_value("text/html"@);
    reveal_strlit("text/javascript");
    visible_text_is_header_value("text/javascript"@);
    reveal_strlit("image/png");
    visible_text_is_header_value("image/png"@);
    reveal_strlit("application/wasm");
    visible_text_is_header_value("application/wasm"@);
    reveal_strlit("text/css");
    visible_text_is_header_value("text/css"@);
    reveal_strlit("image/svg+xml");
    visible_text_is_header_value("image/svg+xml"@);
}

/// Whatever the resolver answers is a response that `http` takes.
pub proof fn static_response_is_taken(path: Seq<char>, asset: Option<Asset>)
    ensures
        http_accepts(static_view(path, asset)),
{
    if is_served(path, asset) {
        let relative = relative_path(path);
        media_types_are_taken(relative);
        match media_type_of(relative) {
            Some(media_type) => {
                response_is_taken(STATUS_OK, media_type, asset->0.content@);
            },
            None => {
                text_response_is_taken(STATUS_NOT_IMPLEMENTED, NOT_IMPLEMENTED_TEXT@);
            },
        }
    } else {
        text_response_is_taken(STATUS_NOT_FOUND, NOT_FOUND_TEXT@);
    }
}

/// The path `/` is answered as the index document is, asked for with or
/// without a leading separator: the same status, media type and bytes.
pub proof fn root_is_index_document(asset: Option<Asset>)
    ensures
        relative_path("/"@) == INDEX_DOCUMENT@,
        static_view("/"@, asset) == static_view("/index.html"@, asset),
        static_view("/"@, asset) == static_view("index.html"@, asset),
{
    reveal_strlit("/");
    reveal_strlit("/index.html");
    reveal_strlit("index.html");
    assert("/"@ =~= seq!['/']);
}

/// A parent segment of a request path is one of the relative path it names.
proof fn parent_segment_stays(path: Seq<char>)
    requires
        has_parent_segment(path),
    ensures
        has_parent_segment(relative_path(path)),
{
    let at = choose|at: int| parent_segment_at(path, at);
    if path.len() > 0 && path[0] == '/' {
        assert(parent_segment_at(path.skip(1), at - 1));
    }
}

/// A request path with a segment `..` is answered with 404, whatever the host
/// found.
pub proof fn traversal_is_not_found(path: Seq<char>, asset: Option<Asset>)
    requires
        has_parent_segment(path),
    ensures
        static_view(path, asset) == text_response(STATUS_NOT_FOUND, NOT_FOUND_TEXT@),
{
    parent_segment_stays(path);
}

/// What the host resolved outside the root is answered with 404: no response
/// carries bytes of a file that does not lie under the root.
pub proof fn outside_root_is_not_found(path: Seq<char>, asset: Asset)
    requires
        !lies_under(asset.root.deep_view(), asset.location.deep_view()),
    ensures
        static_view(path, Some(asset)) == text_response(STATUS_NOT_FOUND, NOT_FOUND_TEXT@),
{
}

} // verus!
