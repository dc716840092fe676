use satysfi_watch::error::FatalError;
use satysfi_watch::watch::{watch_list, WatchRequest, WatchTarget, DEBOUNCE_MILLIS};

fn texts(items: &[&str]) -> Vec<String> {
    items.iter().map(|s| s.to_string()).collect()
}

fn recursive(dirs: &[&str]) -> Vec<WatchRequest> {
    dirs.iter().map(|d| WatchRequest { directory: d.to_string(), recursive: true }).collect()
}

fn target(path: &str) -> WatchTarget {
    match WatchTarget::new(path) {
        Ok(t) => t,
        Err(e) => panic!("no target for {:?}: {:?}", path, e),
    }
}

#[test]
fn debounce_window_is_half_a_second() {
    assert_eq!(DEBOUNCE_MILLIS, 500);
}

#[test]
fn target_in_the_current_directory_watches_the_current_directory() {
    let t = target("./doc.saty");
    assert_eq!(watch_list(&t, &Vec::new()), recursive(&["."]));
}

#[test]
fn bare_file_name_watches_the_current_directory() {
    let t = target("doc.saty");
    assert_eq!(t.parent(), "");
    assert_eq!(t.watch_dir(), ".");
    assert_eq!(watch_list(&t, &Vec::new()), recursive(&["."]));
}

#[test]
fn target_in_a_directory_watches_that_directory() {
    assert_eq!(target("thesis/main.saty").watch_dir(), "thesis");
    assert_eq!(target("/home/me/thesis/main.saty").watch_dir(), "/home/me/thesis");
    assert_eq!(target("/main.saty").watch_dir(), "/");
    assert_eq!(target("../main.saty").watch_dir(), "..");
}

#[test]
fn watch_dir_is_never_empty() {
    for path in ["doc.saty", "./doc.saty", "a/doc.saty", ".", "..", "a", "/a", "a/", "./"] {
        assert!(!target(path).watch_dir().is_empty(), "target {:?}", path);
    }
}

#[test]
fn extra_directories_follow_the_target_directory_in_order() {
    let t = target("src/doc.saty");
    let extra = texts(&["lib", "../shared", "lib"]);
    assert_eq!(watch_list(&t, &extra), recursive(&["src", "lib", "../shared", "lib"]));
}

#[test]
fn every_directory_is_watched_with_its_subdirectories() {
    let t = target("/work/doc.saty");
    for request in watch_list(&t, &texts(&["a", "b/c"])) {
        assert!(request.recursive, "directory {:?}", request.directory);
    }
}

#[test]
fn target_keeps_its_path_and_derives_the_default_output() {
    let t = target("thesis/main.saty");
    assert_eq!(t.path(), "thesis/main.saty");
    assert_eq!(t.parent(), "thesis");
    assert_eq!(t.default_output(), "thesis/main.pdf");
}

#[test]
fn default_output_of_report_saty_is_report_pdf() {
    assert_eq!(target("report.saty").default_output(), "report.pdf");
}

#[test]
fn target_without_parent_is_refused() {
    assert!(matches!(WatchTarget::new(""), Err(FatalError::NoParentDirectory)));
    assert!(matches!(WatchTarget::new("/"), Err(FatalError::NoParentDirectory)));
    assert!(matches!(WatchTarget::new("///"), Err(FatalError::NoParentDirectory)));
}

#[test]
fn fatal_errors_have_their_diagnostics() {
    assert_eq!(
        FatalError::NoParentDirectory.message(),
        "Not a file but a directory was specified"
    );
    assert_eq!(
        FatalError::PathConversionFailed.message(),
        "Failed to convert wsl path to windows path"
    );
}
