use satysfi_watch::command::{build_invocation, CommandLine};
use satysfi_watch::opener::{
    cross_namespace_viewer, default_viewer, resolve_artifact, to_backslashes, ArtifactOpener,
};

fn texts(items: &[&str]) -> Vec<String> {
    items.iter().map(|s| s.to_string()).collect()
}

#[test]
fn invocation_with_target_only() {
    let cmd = build_invocation("doc.saty", None, None);
    assert_eq!(cmd.program, "satysfi");
    assert_eq!(cmd.args, texts(&["doc.saty"]));
}

#[test]
fn invocation_with_output_path() {
    let cmd = build_invocation("doc.saty", Some("out/final.pdf"), None);
    assert_eq!(cmd.program, "satysfi");
    assert_eq!(cmd.args, texts(&["doc.saty", "-o", "out/final.pdf"]));
}

#[test]
fn invocation_with_extra_arguments_split_at_whitespace() {
    let cmd = build_invocation("doc.saty", None, Some("  --full-path\t-b  --debug-show-bbox "));
    assert_eq!(cmd.args, texts(&["doc.saty", "--full-path", "-b", "--debug-show-bbox"]));
}

#[test]
fn invocation_with_output_and_extra_arguments_in_order() {
    let cmd = build_invocation("src/doc.saty", Some("doc.pdf"), Some("-C lib --type-check-only"));
    assert_eq!(
        cmd,
        CommandLine {
            program: "satysfi".to_string(),
            args: texts(&["src/doc.saty", "-o", "doc.pdf", "-C", "lib", "--type-check-only"]),
        }
    );
}

#[test]
fn invocation_with_blank_extra_arguments_adds_none() {
    assert_eq!(build_invocation("doc.saty", None, Some("")).args, texts(&["doc.saty"]));
    assert_eq!(build_invocation("doc.saty", None, Some(" \t ")).args, texts(&["doc.saty"]));
}

#[test]
fn invocation_keeps_a_target_with_blanks_as_one_argument() {
    let cmd = build_invocation("my doc.saty", Some("my out.pdf"), Some("-b"));
    assert_eq!(cmd.args, texts(&["my doc.saty", "-o", "my out.pdf", "-b"]));
}

#[test]
fn invocation_is_the_same_for_the_same_configuration() {
    let first = build_invocation("doc.saty", Some("o.pdf"), Some("-b"));
    let second = build_invocation("doc.saty", Some("o.pdf"), Some("-b"));
    assert_eq!(first, second);
}

#[test]
fn artifact_of_report_saty_is_report_pdf() {
    assert_eq!(resolve_artifact("report.saty", None), "report.pdf");
}

#[test]
fn artifact_without_output_keeps_the_directory() {
    assert_eq!(resolve_artifact("./doc.saty", None), "./doc.pdf");
    assert_eq!(resolve_artifact("thesis/main.saty", None), "thesis/main.pdf");
    assert_eq!(resolve_artifact("/home/me/a.b.saty", None), "/home/me/a.b.pdf");
}

#[test]
fn artifact_with_output_is_the_output_verbatim() {
    assert_eq!(resolve_artifact("report.saty", Some("out/final.pdf")), "out/final.pdf");
    assert_eq!(resolve_artifact("other/name.saty", Some("out/final.pdf")), "out/final.pdf");
    assert_eq!(resolve_artifact("", Some("out/final.pdf")), "out/final.pdf");
}

#[test]
fn artifact_with_output_is_not_normalised() {
    assert_eq!(resolve_artifact("report.saty", Some("./out//final.txt/")), "./out//final.txt/");
    assert_eq!(resolve_artifact("report.saty", Some("")), "");
}

#[test]
fn backslashes_replace_every_slash() {
    assert_eq!(to_backslashes("C:/Users/me/doc.pdf"), "C:\\Users\\me\\doc.pdf");
    assert_eq!(to_backslashes("//wsl$/Ubuntu/home/me/doc.pdf"), "\\\\wsl$\\Ubuntu\\home\\me\\doc.pdf");
    assert_eq!(to_backslashes("/"), "\\");
    assert_eq!(to_backslashes(""), "");
    assert_eq!(to_backslashes("no-slash.pdf"), "no-slash.pdf");
    assert_eq!(to_backslashes("a\\b/c"), "a\\b\\c");
    assert_eq!(to_backslashes("文書/報告.pdf"), "文書\\報告.pdf");
}

#[test]
fn backslashes_agree_with_std_replace() {
    let alphabet = ['/', '\\', 'a', 'é'];
    let mut texts = vec![String::new()];
    for _ in 0..6 {
        let mut next = Vec::new();
        for prefix in &texts {
            for c in alphabet {
                let mut s = prefix.clone();
                s.push(c);
                next.push(s);
            }
        }
        for s in &next {
            assert_eq!(to_backslashes(s), s.replace('/', "\\"), "text {:?}", s);
        }
        texts = next;
    }
}

#[test]
fn opener_follows_the_host() {
    assert_eq!(ArtifactOpener::for_host(false), ArtifactOpener::DefaultOpen);
    assert_eq!(ArtifactOpener::for_host(true), ArtifactOpener::CrossNamespace);
}

#[test]
fn only_the_cross_namespace_opener_converts() {
    assert!(!ArtifactOpener::DefaultOpen.needs_conversion());
    assert!(ArtifactOpener::CrossNamespace.needs_conversion());
}

#[test]
fn default_viewer_opens_with_skim() {
    let cmd = default_viewer("report.pdf");
    assert_eq!(cmd.program, "open");
    assert_eq!(cmd.args, texts(&["-a", "Skim", "report.pdf"]));
}

#[test]
fn cross_namespace_viewer_opens_with_explorer() {
    let cmd = cross_namespace_viewer("C:/Users/me/report.pdf");
    assert_eq!(cmd.program, "explorer.exe");
    assert_eq!(cmd.args, texts(&["C:\\Users\\me\\report.pdf"]));
}
