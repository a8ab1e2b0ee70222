use brownhttpd::url::{decode, index_path, link_base, lookup_path, parent_link, parent_target};

#[test]
fn escaped_space_becomes_a_space() {
    assert_eq!(decode("/a%20b.txt"), "/a b.txt");
    assert_eq!(decode("%20"), " ");
    assert_eq!(decode("%20%20x%20"), "  x ");
    assert_eq!(decode("/my%20files/new%20file"), "/my files/new file");
}

#[test]
fn other_escapes_pass_through() {
    assert_eq!(decode("/a%2Fb"), "/a%2Fb");
    assert_eq!(decode("/caf%C3%A9"), "/caf%C3%A9");
    assert_eq!(decode("%2520"), "%2520");
    assert_eq!(decode("100%"), "100%");
    assert_eq!(decode("%2"), "%2");
    assert_eq!(decode("%%20"), "% ");
    assert_eq!(decode("%2%200"), "%2 0");
}

#[test]
fn plain_paths_are_their_own_decoding() {
    assert_eq!(decode(""), "");
    assert_eq!(decode("/"), "/");
    assert_eq!(decode("/sub/b.txt"), "/sub/b.txt");
    assert_eq!(decode("/däta/ß"), "/däta/ß");
}

#[test]
fn decoding_goes_piece_by_piece() {
    let first = "/a%20b/";
    let second = "c%20d";
    let whole = format!("{}{}", first, second);
    assert_eq!(decode(&whole), format!("{}{}", decode(first), decode(second)));
}

#[test]
fn lookup_path_is_relative_to_the_served_directory() {
    assert_eq!(lookup_path("/a.txt"), "./a.txt");
    assert_eq!(lookup_path("/sub/"), "./sub/");
    assert_eq!(lookup_path("/a%20b.txt"), "./a b.txt");
    assert_eq!(lookup_path("/"), "./");
    assert_eq!(lookup_path(""), ".");
}

#[test]
fn index_file_is_looked_for_inside_the_directory() {
    assert_eq!(index_path("/sub/", "index.html"), "./sub/index.html");
    assert_eq!(index_path("/sub", "index.html"), "./sub/index.html");
    assert_eq!(index_path("/", "index.html"), "./index.html");
    assert_eq!(index_path("", "index.html"), "./index.html");
    assert_eq!(index_path("/my%20site/", "home.htm"), "./my site/home.htm");
}

#[test]
fn links_begin_at_the_directory() {
    assert_eq!(link_base("/sub/"), "/sub/");
    assert_eq!(link_base("/sub"), "/sub/");
    assert_eq!(link_base("/"), "/");
    assert_eq!(link_base(""), "/");
    assert_eq!(link_base("/a/b"), "/a/b/");
    assert_eq!(link_base("/a%20b/"), "/a b/");
}

#[test]
fn links_drop_leading_slashes_and_dot_segments() {
    assert_eq!(link_base("//sub/"), "/sub/");
    assert_eq!(link_base("/./sub/"), "/sub/");
    assert_eq!(link_base("/.//./sub"), "/sub/");
    assert_eq!(link_base("/.hidden/"), "/.hidden/");
    assert_eq!(link_base("/a/./b/"), "/a/./b/");
}

#[test]
fn parent_link_strips_the_last_segment() {
    assert_eq!(parent_link("/sub/"), "/");
    assert_eq!(parent_link("/sub"), "/");
    assert_eq!(parent_link("/a/b"), "/a");
    assert_eq!(parent_link("/a/b/"), "/a");
    assert_eq!(parent_link("/a/b/c.txt"), "/a/b");
    assert_eq!(parent_link("a"), "");
}

#[test]
fn parent_link_of_a_path_without_parent_goes_up() {
    assert_eq!(parent_link("/"), "..");
    assert_eq!(parent_link(""), "..");
    assert_eq!(parent_target(None), "..");
    assert_eq!(parent_target(Some("/a".to_string())), "/a");
}
