use dav::route::route;
use dav::DavConfig;

#[test]
fn path_under_prefix_is_stripped() {
    assert_eq!(route("/dav/", "/dav/readme.txt"), Some("/readme.txt"));
    assert_eq!(route("/dav/", "/dav/a/b/c"), Some("/a/b/c"));
    assert_eq!(route("/a/b/", "/a/b/c"), Some("/c"));
}

#[test]
fn path_outside_prefix_is_unmatched() {
    assert_eq!(route("/dav/", "/other/x"), None);
    assert_eq!(route("/dav/", "/dav"), None);
    assert_eq!(route("/dav/", "/davx/readme.txt"), None);
    assert_eq!(route("/dav/", "/"), None);
    assert_eq!(route("/dav/", ""), None);
    assert_eq!(route("/dav/", "/DAV/readme.txt"), None);
}

#[test]
fn prefix_itself_is_the_root() {
    assert_eq!(route("/dav/", "/dav/"), Some("/"));
    assert_eq!(route("/", "/"), Some("/"));
}

#[test]
fn root_prefix_keeps_the_path() {
    assert_eq!(route("/", "/readme.txt"), Some("/readme.txt"));
    assert_eq!(route("/", "/dav/readme.txt"), Some("/dav/readme.txt"));
    assert_eq!(route("/", "readme.txt"), None);
}

#[test]
fn malformed_prefix_matches_nothing() {
    assert_eq!(route("dav", "dav/readme.txt"), None);
    assert_eq!(route("/dav", "/dav/readme.txt"), None);
    assert_eq!(route("dav/", "dav/readme.txt"), None);
    assert_eq!(route("", "/readme.txt"), None);
}

#[test]
fn characters_outside_ascii_count_once() {
    assert_eq!(route("/\u{e9}t\u{e9}/", "/\u{e9}t\u{e9}/caf\u{e9}.txt"), Some("/caf\u{e9}.txt"));
    assert_eq!(route("/\u{e9}/", "/e/x"), None);
}

#[test]
fn server_routes_under_its_prefix() {
    let server = DavConfig::new().root("/srv/files".to_string()).http_path("/dav/".to_string()).build();
    assert_eq!(server.route("/dav/readme.txt"), Some("/readme.txt"));
    assert_eq!(server.route("/other/x"), None);
    let plain = DavConfig::new().root("/srv/files".to_string()).build();
    assert_eq!(plain.route("/dav/readme.txt"), Some("/dav/readme.txt"));
    let broken = DavConfig::new().root("/srv/files".to_string()).http_path("dav".to_string()).build();
    assert_eq!(broken.route("dav/readme.txt"), None);
}
