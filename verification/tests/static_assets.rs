use webview_bridge::message::Response;
use webview_bridge::static_assets::{
    asset_path, asset_response, confined, is_under, mime_type, relative_path_of, response_static,
    serve_asset, strip_leading_separator, Asset,
};

fn segments(path: &str) -> Vec<String> {
    path.split('/').filter(|s| !s.is_empty()).map(|s| s.to_string()).collect()
}

fn found(location: &str, content: &[u8]) -> Option<Asset> {
    Some(Asset {
        root: segments("/srv/app/dist"),
        location: segments(location),
        content: content.to_vec(),
    })
}

fn media_type(response: &Response) -> String {
    response.header("content-type").cloned().unwrap_or_default()
}

#[test]
fn leading_separator_is_stripped_once() {
    assert_eq!(strip_leading_separator("/app.js"), "app.js");
    assert_eq!(strip_leading_separator("//app.js"), "/app.js");
    assert_eq!(strip_leading_separator("app.js"), "app.js");
    assert_eq!(strip_leading_separator("/"), "");
    assert_eq!(strip_leading_separator(""), "");
    assert_eq!(strip_leading_separator("/ü/x"), "ü/x");
}

#[test]
fn root_path_names_the_index_document() {
    assert_eq!(relative_path_of("/"), "index.html");
    assert_eq!(relative_path_of("/index.html"), "index.html");
    assert_eq!(relative_path_of("index.html"), "index.html");
    assert_eq!(relative_path_of("/assets/app.js"), "assets/app.js");
    assert_eq!(relative_path_of(""), "");
    assert_eq!(relative_path_of("//"), "/");
}

#[test]
fn confined_paths_stay_under_the_root() {
    assert!(confined("index.html"));
    assert!(confined("assets/app.js"));
    assert!(confined("a..b/c"));
    assert!(confined(""));
    assert!(!confined("../index.html"));
    assert!(!confined("assets/../../secret"));
    assert!(!confined("/etc/passwd"));
    assert!(!confined("\\\\host\\share"));
    assert!(!confined("assets\\..\\..\\secret"));
}

#[test]
fn asset_path_gives_no_path_that_could_leave_the_root() {
    assert_eq!(asset_path("/"), Some("index.html".to_string()));
    assert_eq!(asset_path("/assets/app.js"), Some("assets/app.js".to_string()));
    assert_eq!(asset_path("/../secret.html"), None);
    assert_eq!(asset_path("/assets/../../secret.html"), None);
    assert_eq!(asset_path("/.."), None);
    assert_eq!(asset_path("//etc/passwd"), None);
}

#[test]
fn known_extensions_have_their_media_types() {
    assert_eq!(mime_type("index.html"), Some("text/html"));
    assert_eq!(mime_type("assets/app.js"), Some("text/javascript"));
    assert_eq!(mime_type("style.css"), Some("text/css"));
    assert_eq!(mime_type("logo.svg"), Some("image/svg+xml"));
    assert_eq!(mime_type("logo.png"), Some("image/png"));
    assert_eq!(mime_type("module.wasm"), Some("application/wasm"));
    assert_eq!(mime_type(".html"), Some("text/html"));
}

#[test]
fn other_extensions_have_no_media_type() {
    assert_eq!(mime_type("about.xyz"), None);
    assert_eq!(mime_type("data.json"), None);
    assert_eq!(mime_type("INDEX.HTML"), None);
    assert_eq!(mime_type("html"), None);
    assert_eq!(mime_type("index.html.bak"), None);
    assert_eq!(mime_type(""), None);
}

#[test]
fn location_under_the_root_is_told_by_segments() {
    let root = segments("/srv/app/dist");
    assert!(is_under(&root, &segments("/srv/app/dist/index.html")));
    assert!(is_under(&root, &segments("/srv/app/dist/assets/app.js")));
    assert!(is_under(&root, &segments("/srv/app/dist")));
    assert!(!is_under(&root, &segments("/srv/app/distant/index.html")));
    assert!(!is_under(&root, &segments("/srv/app/secret.html")));
    assert!(!is_under(&root, &segments("/etc/passwd")));
    assert!(!is_under(&root, &segments("/srv/app")));
    assert!(is_under(&Vec::new(), &segments("/anything")));
}

#[test]
fn asset_response_serves_the_bytes_with_the_media_type() {
    let response = asset_response("assets/app.js", b"let x = 1".to_vec());
    assert_eq!(response.status(), 200);
    assert_eq!(media_type(&response), "text/javascript");
    assert_eq!(response.header("access-control-allow-origin"), Some(&"*".to_string()));
    assert_eq!(response.body(), &b"let x = 1".to_vec());
}

#[test]
fn asset_response_for_an_unknown_extension_is_501() {
    let response = asset_response("about.xyz", b"whatever".to_vec());
    assert_eq!(response.status(), 501);
    assert_eq!(media_type(&response), "text/plain");
    assert_eq!(response.body(), &b"not yet implemented for the ext of the path".to_vec());
}

#[test]
fn index_document_is_served_for_the_root_path() {
    let response = response_static("/", found("/srv/app/dist/index.html", b"<html></html>"));
    assert_eq!(response.status(), 200);
    assert_eq!(media_type(&response), "text/html");
    assert_eq!(response.header("access-control-allow-origin"), Some(&"*".to_string()));
    assert_eq!(response.body(), &b"<html></html>".to_vec());
}

#[test]
fn root_path_and_index_document_are_answered_alike() {
    let content = b"<html>same</html>";
    let by_root = response_static("/", found("/srv/app/dist/index.html", content));
    let by_name = response_static("/index.html", found("/srv/app/dist/index.html", content));
    let by_bare_name = response_static("index.html", found("/srv/app/dist/index.html", content));
    for other in [&by_name, &by_bare_name] {
        assert_eq!(by_root.status(), other.status());
        assert_eq!(by_root.headers(), other.headers());
        assert_eq!(by_root.body(), other.body());
    }
    assert_eq!(by_root.status(), 200);
    assert_eq!(media_type(&by_root), "text/html");
    let missing_by_root = response_static("/", None);
    let missing_by_name = response_static("/index.html", None);
    assert_eq!(missing_by_root.status(), 404);
    assert_eq!(missing_by_root.status(), missing_by_name.status());
    assert_eq!(missing_by_root.body(), missing_by_name.body());
}

#[test]
fn file_that_does_not_resolve_is_404() {
    let response = response_static("/about.xyz", None);
    assert_eq!(response.status(), 404);
    assert_eq!(media_type(&response), "text/plain");
    assert_eq!(response.body(), &b"page not found".to_vec());
    assert_eq!(response.header("access-control-allow-origin"), Some(&"*".to_string()));
}

#[test]
fn file_with_an_unknown_extension_is_501_if_it_exists_and_404_if_not() {
    let exists = response_static("/about.xyz", found("/srv/app/dist/about.xyz", b"about"));
    assert_eq!(exists.status(), 501);
    assert_eq!(exists.body(), &b"not yet implemented for the ext of the path".to_vec());
    let missing = response_static("/about.xyz", None);
    assert_eq!(missing.status(), 404);
}

#[test]
fn traversal_is_404_even_if_the_host_found_a_file() {
    for path in ["/../secret.html", "/assets/../../secret.html", "/..", "/a/../index.html"] {
        let outside = response_static(path, found("/srv/app/secret.html", b"secret"));
        assert_eq!(outside.status(), 404, "path {:?}", path);
        assert_eq!(outside.body(), &b"page not found".to_vec());
        let inside = response_static(path, found("/srv/app/dist/index.html", b"secret"));
        assert_eq!(inside.status(), 404, "path {:?}", path);
        assert_eq!(inside.body(), &b"page not found".to_vec());
    }
}

#[test]
fn file_outside_the_root_is_404() {
    let through_link = response_static("/link.html", found("/etc/secret.html", b"secret"));
    assert_eq!(through_link.status(), 404);
    assert_eq!(through_link.body(), &b"page not found".to_vec());
    let sibling = response_static("/x.html", found("/srv/app/distant/x.html", b"secret"));
    assert_eq!(sibling.status(), 404);
}

#[test]
fn serve_asset_says_whether_the_root_answers() {
    assert!(serve_asset("/index.html", None).is_none());
    assert!(serve_asset("/../x.html", found("/srv/app/dist/x.html", b"x")).is_none());
    assert!(serve_asset("/x.html", found("/srv/x.html", b"x")).is_none());
    match serve_asset("/style.css", found("/srv/app/dist/style.css", b"p{}")) {
        Some(response) => {
            assert_eq!(response.status(), 200);
            assert_eq!(media_type(&response), "text/css");
            assert_eq!(response.body(), &b"p{}".to_vec());
        },
        None => panic!("the file lies under the root"),
    }
}
