use mdnotes::path_guard::sanitize_path;

#[test]
fn traversal_rejected() {
    assert!(sanitize_path("/root", "../etc/passwd").is_none());
    assert!(sanitize_path("/root", "..").is_none());
    assert!(sanitize_path("/root", "a/../b").is_none());
    assert!(sanitize_path("/root", "a/..").is_none());
    assert!(sanitize_path("/root", "..hidden/x").is_none());
}

#[test]
fn encoded_traversal_rejected() {
    // the decoder turns %2e%2e and %2f back into ".." and "/"
    assert!(sanitize_path("/root", "%2e%2e/etc").is_none());
    assert!(sanitize_path("/root", "a%2f..%2fb").is_none());
}

#[test]
fn backslash_rejected() {
    assert!(sanitize_path("/root", "a\\b").is_none());
    assert!(sanitize_path("/root", "css/..\\..\\win").is_none());
    assert!(sanitize_path("/root", "%5c").is_none());
}

#[test]
fn plain_tails_join_onto_root() {
    assert_eq!(sanitize_path("/root", "css/style.css").unwrap(), "/root/css/style.css");
    assert_eq!(sanitize_path("/root", "index.html").unwrap(), "/root/index.html");
    assert_eq!(sanitize_path("/root", "").unwrap(), "/root");
    // repeated slashes act as no-op joins
    assert_eq!(sanitize_path("/root", "a//b").unwrap(), "/root/a/b");
    assert_eq!(sanitize_path("/root", "a/b/").unwrap(), "/root/a/b");
    // ".." not at the head of a segment is an ordinary name
    assert_eq!(sanitize_path("/root", "a..b").unwrap(), "/root/a..b");
    assert_eq!(sanitize_path("/root", "v1.2..3").unwrap(), "/root/v1.2..3");
}

#[test]
fn percent_decoding_is_applied() {
    // would fail if the decoder handed its argument back unchanged
    assert_eq!(sanitize_path("/root", "%61/b%20c").unwrap(), "/root/a/b c");
}

#[test]
fn undecodable_tail_is_not_found() {
    // %ff is no valid character sequence: decode failure collapses to a rejection
    assert!(sanitize_path("/root", "%ff").is_none());
}
