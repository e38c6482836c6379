use rserve::path::{collapse_separators, extension_of, join_path, locate_path};

#[test]
fn collapse_replaces_a_doubled_separator() {
    assert_eq!(collapse_separators("/a//b.txt"), "/a/b.txt");
    assert_eq!(collapse_separators("/css//site.css"), "/css/site.css");
}

#[test]
fn collapse_leaves_single_separators() {
    assert_eq!(collapse_separators("/a/b.txt"), "/a/b.txt");
    assert_eq!(collapse_separators(""), "");
    assert_eq!(collapse_separators("/"), "/");
    assert_eq!(collapse_separators("plain"), "plain");
}

#[test]
fn collapse_reads_each_character_once() {
    assert_eq!(collapse_separators("//"), "/");
    assert_eq!(collapse_separators("///"), "//");
    assert_eq!(collapse_separators("////"), "//");
    assert_eq!(collapse_separators("a///b"), "a//b");
    assert_eq!(collapse_separators("/////"), "///");
}

#[test]
fn collapse_agrees_with_text_replacement() {
    let samples = [
        "", "/", "//", "///", "a//b//c", "//a", "a//", "/a/b/", "é//ü", "a///b////c/////d",
    ];
    for s in samples {
        assert_eq!(collapse_separators(s), s.replace("//", "/"));
    }
}

#[test]
fn join_puts_one_separator_between() {
    assert_eq!(join_path("root", "a.txt"), "root/a.txt");
    assert_eq!(join_path("root/", "a.txt"), "root/a.txt");
    assert_eq!(join_path("/srv/www", "css/site.css"), "/srv/www/css/site.css");
}

#[test]
fn join_appends_a_path_that_begins_with_a_separator() {
    assert_eq!(join_path("/srv", "/a.txt"), "/srv/a.txt");
    assert_eq!(join_path("root", "/etc/passwd"), "root/etc/passwd");
    assert_eq!(join_path("root/", "/a"), "root//a");
    assert_eq!(join_path("", "/a"), "/a");
}

#[test]
fn join_always_begins_with_the_base() {
    let bases = ["", "root", "root/", "/", "/srv/www", "./"];
    let rels = ["", "a", "a/", "/a", "//a", "a/b.txt", "../x", "/../x", "index.html"];
    for b in bases {
        for r in rels {
            let joined = join_path(b, r);
            assert!(joined.starts_with(b));
            assert!(joined.ends_with(r));
        }
    }
}

#[test]
fn join_with_nothing_ends_in_a_separator() {
    assert_eq!(join_path("root", ""), "root/");
    assert_eq!(join_path("root/", ""), "root/");
    assert_eq!(join_path("", ""), "");
    assert_eq!(join_path("", "a"), "a");
}

#[test]
fn join_agrees_with_std_on_relative_paths() {
    let bases = ["", "root", "root/", "/", "/srv/www", "./"];
    let rels = ["", "a", "a/", "a/b.txt", "../x", "index.html"];
    for b in bases {
        for r in rels {
            let expected = std::path::Path::new(b).join(r);
            assert_eq!(join_path(b, r), expected.to_str().unwrap());
        }
    }
}

#[test]
fn locate_strips_one_leading_separator() {
    assert_eq!(locate_path("root", "/index.html"), "root/index.html");
    assert_eq!(locate_path("root", "index.html"), "root/index.html");
    assert_eq!(locate_path("root", "/"), "root/");
    assert_eq!(locate_path("root", ""), "root/");
}

#[test]
fn locate_ignores_a_doubled_separator() {
    assert_eq!(locate_path("root", "/a//b.txt"), locate_path("root", "/a/b.txt"));
    assert_eq!(locate_path("root", "/css//site.css"), "root/css/site.css");
    assert_eq!(locate_path("root", "//a"), "root/a");
}

#[test]
fn locate_leaves_parent_segments_as_they_are() {
    assert_eq!(locate_path("root", "/../secret"), "root/../secret");
    assert_eq!(locate_path("root", "/a/../../b"), "root/a/../../b");
}

#[test]
fn locate_stays_prefixed_by_the_root() {
    assert_eq!(locate_path("/srv", "///a.txt"), "/srv/a.txt");
    assert_eq!(locate_path("root", "///etc/passwd"), "root/etc/passwd");
    assert_eq!(locate_path("root", "////etc/passwd"), "root/etc/passwd");
    assert_eq!(locate_path("root/", "///a"), "root//a");
    for request in ["", "/", "//", "///", "/a", "///a", "/../..", "a//b///c"] {
        assert!(locate_path("/srv/www", request).starts_with("/srv/www"));
    }
}

#[test]
fn extension_is_what_follows_the_last_dot_of_the_last_segment() {
    assert_eq!(extension_of("index.html"), "html");
    assert_eq!(extension_of("root/css/site.css"), "css");
    assert_eq!(extension_of("archive.tar.gz"), "gz");
    assert_eq!(extension_of("/srv/v1.2/photo.PNG"), "PNG");
    assert_eq!(extension_of("a/b.c/d.e"), "e");
}

#[test]
fn extension_is_empty_where_there_is_none() {
    assert_eq!(extension_of(""), "");
    assert_eq!(extension_of("README"), "");
    assert_eq!(extension_of("/srv/v1.2/README"), "");
    assert_eq!(extension_of("root/.bashrc"), "");
    assert_eq!(extension_of(".bashrc"), "");
    assert_eq!(extension_of("name."), "");
    assert_eq!(extension_of("root.d/"), "");
    assert_eq!(extension_of(".."), "");
}

#[test]
fn extension_agrees_with_std_on_file_paths() {
    let paths = [
        "index.html", "root/css/site.css", "a.tar.gz", "/srv/v1.2/README", ".bashrc",
        "root/.config.toml", "name.", "a/b.c/d", "x/..", "é.ü", "/", "",
    ];
    for p in paths {
        let expected = std::path::Path::new(p).extension().and_then(|e| e.to_str()).unwrap_or("");
        assert_eq!(extension_of(p), expected);
    }
}
