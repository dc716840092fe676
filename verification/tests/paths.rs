use satysfi_watch::path::{extension, file_name, parent, with_extension};
use std::path::{Path, PathBuf};

fn texts_over(alphabet: &[char], max_len: usize) -> Vec<String> {
    let mut all = vec![String::new()];
    let mut last = vec![String::new()];
    for _ in 0..max_len {
        let mut next = Vec::new();
        for prefix in &last {
            for c in alphabet {
                let mut s = prefix.clone();
                s.push(*c);
                next.push(s);
            }
        }
        all.extend(next.iter().cloned());
        last = next;
    }
    all
}

fn std_text(p: Option<&Path>) -> Option<String> {
    p.map(|q| q.to_str().unwrap().to_string())
}

fn std_set_extension(p: &str, ext: &str) -> String {
    let mut buf = PathBuf::from(p);
    buf.set_extension(ext);
    buf.to_str().unwrap().to_string()
}

#[test]
fn file_name_of_plain_and_nested_paths() {
    assert_eq!(file_name("doc.saty"), Some("doc.saty".to_string()));
    assert_eq!(file_name("a/b/doc.saty"), Some("doc.saty".to_string()));
    assert_eq!(file_name("/usr/bin/"), Some("bin".to_string()));
    assert_eq!(file_name("tmp/foo.txt/."), Some("foo.txt".to_string()));
    assert_eq!(file_name("foo.txt/.//"), Some("foo.txt".to_string()));
}

#[test]
fn file_name_is_missing_where_nothing_is_named() {
    assert_eq!(file_name(""), None);
    assert_eq!(file_name("/"), None);
    assert_eq!(file_name("."), None);
    assert_eq!(file_name("./"), None);
    assert_eq!(file_name(".."), None);
    assert_eq!(file_name("foo/.."), None);
}

#[test]
fn extension_follows_the_last_dot() {
    assert_eq!(extension("doc.saty"), Some("saty".to_string()));
    assert_eq!(extension("archive.tar.gz"), Some("gz".to_string()));
    assert_eq!(extension("dir.d/file"), None);
    assert_eq!(extension("dir.d/file.x/"), Some("x".to_string()));
    assert_eq!(extension("name."), Some(String::new()));
    assert_eq!(extension("..x"), Some("x".to_string()));
}

#[test]
fn extension_is_missing_without_a_dot_or_with_a_leading_dot_only() {
    assert_eq!(extension("Makefile"), None);
    assert_eq!(extension(".bashrc"), None);
    assert_eq!(extension("a/.hidden"), None);
    assert_eq!(extension(""), None);
    assert_eq!(extension(".."), None);
    assert_eq!(extension("a.saty/.."), None);
}

#[test]
fn extension_counts_characters_not_bytes() {
    assert_eq!(extension("文書/報告.saty"), Some("saty".to_string()));
    assert_eq!(extension("日本語.テキスト"), Some("テキスト".to_string()));
}

#[test]
fn with_extension_replaces_adds_and_removes() {
    assert_eq!(with_extension("report.saty", "pdf"), "report.pdf");
    assert_eq!(with_extension("a/b/report.saty", "pdf"), "a/b/report.pdf");
    assert_eq!(with_extension("report", "pdf"), "report.pdf");
    assert_eq!(with_extension("archive.tar.gz", "pdf"), "archive.tar.pdf");
    assert_eq!(with_extension(".bashrc", "pdf"), ".bashrc.pdf");
    assert_eq!(with_extension("report.saty", ""), "report");
    assert_eq!(with_extension("report.saty/", "pdf"), "report.pdf");
    assert_eq!(with_extension("日本語.saty", "pdf"), "日本語.pdf");
}

#[test]
fn with_extension_keeps_a_path_without_a_final_name() {
    assert_eq!(with_extension("", "pdf"), "");
    assert_eq!(with_extension("/", "pdf"), "/");
    assert_eq!(with_extension("..", "pdf"), "..");
    assert_eq!(with_extension("a/..", "pdf"), "a/..");
}

#[test]
fn parent_drops_the_last_segment() {
    assert_eq!(parent("a/b/doc.saty"), Some("a/b".to_string()));
    assert_eq!(parent("/doc.saty"), Some("/".to_string()));
    assert_eq!(parent("doc.saty"), Some(String::new()));
    assert_eq!(parent("./doc.saty"), Some(".".to_string()));
    assert_eq!(parent("../doc.saty"), Some("..".to_string()));
    assert_eq!(parent("a//b/./doc.saty"), Some("a//b".to_string()));
    assert_eq!(parent("a/b/"), Some("a".to_string()));
    assert_eq!(parent("."), Some(String::new()));
}

#[test]
fn parent_is_missing_for_the_empty_path_and_the_root() {
    assert_eq!(parent(""), None);
    assert_eq!(parent("/"), None);
    assert_eq!(parent("//"), None);
    assert_eq!(parent("/."), None);
}

#[test]
fn file_name_agrees_with_std_on_all_short_paths() {
    for p in texts_over(&['/', '.', 'a', 'b'], 6) {
        let expected = Path::new(&p).file_name().map(|n| n.to_str().unwrap().to_string());
        assert_eq!(file_name(&p), expected, "path {:?}", p);
    }
}

#[test]
fn extension_agrees_with_std_on_all_short_paths() {
    for p in texts_over(&['/', '.', 'a', 'b'], 6) {
        let expected = Path::new(&p).extension().map(|n| n.to_str().unwrap().to_string());
        assert_eq!(extension(&p), expected, "path {:?}", p);
    }
}

#[test]
fn parent_agrees_with_std_on_all_short_paths() {
    for p in texts_over(&['/', '.', 'a', 'b'], 6) {
        let expected = std_text(Path::new(&p).parent());
        assert_eq!(parent(&p), expected, "path {:?}", p);
    }
}

#[test]
fn with_extension_agrees_with_std_set_extension_on_all_short_paths() {
    for p in texts_over(&['/', '.', 'a', 'b'], 6) {
        for ext in ["pdf", "", "x"] {
            let expected = std_set_extension(&p, ext);
            assert_eq!(with_extension(&p, ext), expected, "path {:?}, extension {:?}", p, ext);
        }
    }
}

#[test]
fn with_extension_agrees_with_std_where_the_name_has_no_two_leading_dots() {
    for p in texts_over(&['/', '.', 'a', 'b'], 6) {
        let two_dots = file_name(&p).map_or(false, |n| n.starts_with(".."));
        if !two_dots {
            let expected = Path::new(&p).with_extension("pdf").to_str().unwrap().to_string();
            assert_eq!(with_extension(&p, "pdf"), expected, "path {:?}", p);
        }
    }
}

#[test]
fn with_extension_keeps_the_stem_of_a_name_with_two_leading_dots() {
    assert_eq!(with_extension("..a", "pdf"), "..pdf");
    assert_eq!(with_extension("dir/..a", "pdf"), "dir/..pdf");
    assert_eq!(with_extension("...a", "pdf"), "...pdf");
}

#[test]
fn longer_paths_agree_with_std() {
    for p in texts_over(&['/', '.', 'x'], 9) {
        let q = Path::new(&p);
        assert_eq!(parent(&p), std_text(q.parent()), "path {:?}", p);
        assert_eq!(
            extension(&p),
            q.extension().map(|n| n.to_str().unwrap().to_string()),
            "path {:?}",
            p
        );
        assert_eq!(with_extension(&p, "pdf"), std_set_extension(&p, "pdf"), "path {:?}", p);
    }
}
