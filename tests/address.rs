use url_handler::{
    file_address, scp_address, try_build_url_from_path_buf,
    try_build_url_from_path_buf_with_hostname, Address, HandlerError,
};

#[test]
fn parse_reads_the_parts_of_a_url() {
    let a = Address::parse("https://example.org/data/rec.json").expect("Could not parse");
    assert_eq!(a.scheme(), "https");
    assert_eq!(a.host(), Some("example.org"));
    assert_eq!(a.path(), "/data/rec.json");
    assert_eq!(a.as_str(), "https://example.org/data/rec.json");
    assert_eq!(a.local_path(), None);
}

#[test]
fn parse_of_a_file_url_gives_its_local_path() {
    let a = Address::parse("file:///tmp/a%20b.toml").expect("Could not parse");
    assert_eq!(a.scheme(), "file");
    assert_eq!(a.host(), None);
    assert_eq!(a.path(), "/tmp/a%20b.toml");
    assert_eq!(a.local_path(), Some("/tmp/a b.toml"));
}

#[test]
fn parse_rejects_text_without_scheme() {
    assert_eq!(Address::parse("no scheme here"), Err(HandlerError::AddressResolution));
}

#[test]
fn file_address_of_absolute_path() {
    let a = file_address("/tmp/foo.txt").expect("Could not build url");
    assert_eq!(a.as_str(), "file:///tmp/foo.txt");
    assert_eq!(a.local_path(), Some("/tmp/foo.txt"));
    assert_eq!(file_address("../foo.txt"), Err(HandlerError::AddressResolution));
}

#[test]
fn relative_path_is_made_absolute() {
    let a = try_build_url_from_path_buf("some/dir/../rec.json").expect("Could not build url");
    assert_eq!(a.scheme(), "file");
    let local = a.local_path().expect("no local path");
    assert!(local.starts_with('/'));
    assert!(local.ends_with("/some/rec.json"));
}

#[test]
fn scp_address_joins_host_and_path() {
    let a = scp_address("/srv/rec.toml", "backup").expect("Could not build url");
    assert_eq!(a.scheme(), "scp");
    assert_eq!(a.host(), Some("backup"));
    assert_eq!(a.path(), "/srv/rec.toml");
    assert_eq!(a.as_str(), "scp://backup/srv/rec.toml");
    assert_eq!(a.local_path(), None);
}

#[test]
fn scp_address_from_local_path() {
    let a = try_build_url_from_path_buf_with_hostname("/srv/./x/rec.toml", "backup")
        .expect("Could not build url");
    assert_eq!(a.as_str(), "scp://backup/srv/x/rec.toml");
}

#[test]
fn extension_of_last_segment() {
    let ext = |s: &str| Address::parse(s).expect("Could not parse").extension();
    assert_eq!(ext("file:///tmp/test.toml"), Some("toml".to_string()));
    assert_eq!(ext("file:///tmp/a.b/archive.tar.json"), Some("json".to_string()));
    assert_eq!(ext("file:///tmp/a.b/plain"), None);
    assert_eq!(ext("file:///tmp/.hidden"), None);
    assert_eq!(ext("file:///tmp/.hidden.json"), Some("json".to_string()));
    assert_eq!(ext("file:///tmp/trailing."), Some("".to_string()));
    assert_eq!(ext("file:///tmp/dir/"), None);
    assert_eq!(ext("scp://host/srv/rec.json"), Some("json".to_string()));
}
