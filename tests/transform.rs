use evalrs::manifest::{dependency_line_of, dependency_lines, make_manifest, MANIFEST_HEAD};
use evalrs::text::{contains_char, strip_markers, trim_bounds};
use evalrs::wrap::{hoisted_lines, make_source_code, wrap_body, Args};

fn args(print_result: bool) -> Args {
    Args {
        snippet: None,
        print_result,
        quiet: false,
        release: false,
    }
}

fn manifest_of(deps: &str) -> String {
    format!("{}{}\n", MANIFEST_HEAD, deps)
}

#[test]
fn no_entry_point_no_dependencies() {
    let input = "println!(\"hi\")";
    assert_eq!(make_manifest(input).unwrap(), manifest_of(""));
    assert_eq!(
        make_source_code(input, &args(false)).unwrap(),
        "\n\nfn main() {\nprintln!(\"hi\")\n}"
    );
}

#[test]
fn declaration_is_hoisted_with_wildcard_version() {
    let input = "extern crate foo; foo::go();";
    assert_eq!(make_manifest(input).unwrap(), manifest_of("foo = \"*\"\n"));
    assert_eq!(
        make_source_code(input, &args(false)).unwrap(),
        "\nextern crate foo;\n\nfn main() {\n foo::go();\n}"
    );
}

#[test]
fn override_comment_is_taken_verbatim() {
    let input = "extern crate foo; // foo = \"1.2\"";
    let manifest = make_manifest(input).unwrap();
    assert!(manifest.contains("foo = \"1.2\""));
    assert_eq!(manifest, manifest_of(" foo = \"1.2\"\n"));
}

#[test]
fn version_comment_is_quoted() {
    let input = "extern crate foo; // 1.2 ";
    assert_eq!(make_manifest(input).unwrap(), manifest_of("foo = \"1.2\"\n"));
}

#[test]
fn entry_point_snippet_is_unchanged() {
    let input = "extern crate foo;\nfn main() { a(); }";
    assert_eq!(make_source_code(input, &args(true)).unwrap(), input);
    assert_eq!(make_source_code(input, &args(false)).unwrap(), input);
    let indented = "  fn  main ( ) { a(); }";
    assert_eq!(make_source_code(indented, &args(true)).unwrap(), indented);
}

#[test]
fn entry_point_snippet_loses_only_markers() {
    let input = "# use std::fmt;\nfn main() { a(); }";
    assert_eq!(
        make_source_code(input, &args(true)).unwrap(),
        "use std::fmt;\nfn main() { a(); }"
    );
}

#[test]
fn print_result_wraps_body() {
    assert_eq!(
        make_source_code("1 + 1", &args(true)).unwrap(),
        "\n\nfn main() {\nprintln!(\"{:?}\", { 1 + 1 });\n}"
    );
}

#[test]
fn several_declarations_keep_their_order() {
    let input = "extern crate b;\nextern crate a; // 0.3\nextern crate b;\nx();";
    assert_eq!(
        make_manifest(input).unwrap(),
        manifest_of("b = \"*\"\na = \"0.3\"\nb = \"*\"\n")
    );
    assert_eq!(
        make_source_code(input, &args(false)).unwrap(),
        "\nextern crate b;\nextern crate a;\nextern crate b;\n\nfn main() {\n\n // 0.3\n\nx();\n}"
    );
}

#[test]
fn extraction_twice_gives_the_same() {
    let input = "extern crate x1; extern crate y_2; // =3\n";
    assert_eq!(make_manifest(input).unwrap(), make_manifest(input).unwrap());
    assert_eq!(
        make_manifest(input).unwrap(),
        manifest_of("x1 = \"*\"\n =3\n")
    );
}

#[test]
fn uppercase_name_is_not_a_declaration() {
    let input = "extern crate Foo;";
    assert_eq!(make_manifest(input).unwrap(), manifest_of(""));
}

#[test]
fn empty_snippet() {
    assert_eq!(make_manifest("").unwrap(), manifest_of(""));
    assert_eq!(
        make_source_code("", &args(false)).unwrap(),
        "\n\nfn main() {\n\n}"
    );
}

#[test]
fn markers_are_stripped_at_line_starts_only() {
    assert_eq!(strip_markers("# a\nb # c\n# d"), "a\nb # c\nd");
    assert_eq!(strip_markers("#x\n #y"), "#x\n #y");
    assert_eq!(strip_markers("# # a"), "# a");
    assert_eq!(strip_markers(""), "");
}

#[test]
fn stripping_stripped_text_changes_nothing() {
    let once = strip_markers("# let x = 1;\nx\n# y");
    assert_eq!(strip_markers(&once), once);
}

#[test]
fn hidden_declaration_is_hoisted() {
    let input = "# extern crate foo;\nfoo::go();";
    assert_eq!(make_manifest(input).unwrap(), manifest_of("foo = \"*\"\n"));
    assert_eq!(
        make_source_code(input, &args(false)).unwrap(),
        "\nextern crate foo;\n\nfn main() {\n\nfoo::go();\n}"
    );
}

#[test]
fn dependency_line_cases() {
    let name = Some("foo".to_string());
    let whole = Some("x".to_string());
    assert_eq!(dependency_line_of(&vec![whole.clone(), name.clone()]), "foo = \"*\"\n");
    assert_eq!(
        dependency_line_of(&vec![whole.clone(), name.clone(), None, None]),
        "foo = \"*\"\n"
    );
    assert_eq!(
        dependency_line_of(&vec![whole.clone(), name.clone(), None, Some(" 0.1\t".to_string())]),
        "foo = \"0.1\"\n"
    );
    assert_eq!(
        dependency_line_of(&vec![whole.clone(), name, None, Some("bar = \"2\"".to_string())]),
        "bar = \"2\"\n"
    );
    assert_eq!(dependency_line_of(&vec![]), " = \"*\"\n");
}

#[test]
fn dependency_lines_concatenate() {
    let caps = vec![
        vec![None, Some("a".to_string())],
        vec![None, Some("b".to_string()), None, Some("1".to_string())],
    ];
    assert_eq!(dependency_lines(&caps), "a = \"*\"\nb = \"1\"\n");
    assert_eq!(dependency_lines(&vec![]), "");
}

#[test]
fn wrap_body_from_matches() {
    let caps = vec![vec![None, Some("extern crate a;".to_string())]];
    assert_eq!(hoisted_lines(&caps), "extern crate a;\n");
    assert_eq!(
        wrap_body(&caps, "go()", false),
        "\nextern crate a;\n\nfn main() {\ngo()\n}"
    );
    assert_eq!(
        wrap_body(&caps, "go()", true),
        "\nextern crate a;\n\nfn main() {\nprintln!(\"{:?}\", { go() });\n}"
    );
}

#[test]
fn trimming_and_searching() {
    let c: Vec<char> = "  ab c \n".chars().collect();
    assert_eq!(trim_bounds(&c), (2, 6));
    let blank: Vec<char> = " \t".chars().collect();
    let (lo, hi) = trim_bounds(&blank);
    assert_eq!(lo, hi);
    assert!(contains_char(&c, 'c'));
    assert!(!contains_char(&c, '='));
}

#[test]
fn entry_point_after_declaration_on_one_line_is_wrapped() {
    // `fn main` is not at a line start until the declaration is removed.
    let input = "extern crate a;fn main() {}";
    assert_eq!(
        make_source_code(input, &args(false)).unwrap(),
        "\nextern crate a;\n\nfn main() {\nfn main() {}\n}"
    );
}
