use zugferd::cli::{default_output_path, Cli};
use zugferd::matcher::{str_ends_with, FileMatcher};
use zugferd::model::{
    DisplayName, EmbeddedContent, ErrorKind, FileDescriptor, NameTree, StreamRef,
};
use zugferd::resolver::{list_exact_pass, list_suffix_pass, tree_exact_pass, tree_suffix_pass};

fn named(name: &str, id: u64) -> FileDescriptor {
    FileDescriptor {
        name_plain: Some(DisplayName::Decoded(String::from(name))),
        name_unicode: None,
        embedded: Some(EmbeddedContent {
            primary: Some(StreamRef { id, gen: 0 }),
            unicode: None,
        }),
    }
}

#[test]
fn matcher_is_case_sensitive_and_exact() {
    let m = FileMatcher::from_name("factur-x.xml");
    assert!(m.matches(&DisplayName::Decoded(String::from("factur-x.xml"))));
    assert!(!m.matches(&DisplayName::Decoded(String::from("Factur-X.xml"))));
    assert!(!m.matches(&DisplayName::Decoded(String::from("factur-x.xml "))));
    assert!(!m.matches(&DisplayName::Decoded(String::from("afactur-x.xml"))));
    assert!(!m.matches(&DisplayName::Undecodable));
}

#[test]
fn default_matcher_accepts_both_builtin_names() {
    let m = FileMatcher::from_default();
    assert!(m.matches(&DisplayName::Decoded(String::from("factur-x.xml"))));
    assert!(m.matches(&DisplayName::Decoded(String::from("xrechnung.xml"))));
    assert!(!m.matches(&DisplayName::Decoded(String::from("invoice.xml"))));
}

#[test]
fn from_uses_explicit_name_or_defaults() {
    let explicit = FileMatcher::from(&Some(String::from("mine.xml")));
    assert!(explicit.matches(&DisplayName::Decoded(String::from("mine.xml"))));
    assert!(!explicit.matches(&DisplayName::Decoded(String::from("factur-x.xml"))));
    let defaulted = FileMatcher::from(&None);
    assert!(defaulted.matches(&DisplayName::Decoded(String::from("xrechnung.xml"))));
}

#[test]
fn matching_name_prefers_the_plain_field() {
    let m = FileMatcher::from_name("a.xml");
    let both = FileDescriptor {
        name_plain: Some(DisplayName::Decoded(String::from("a.xml"))),
        name_unicode: Some(DisplayName::Decoded(String::from("a.xml"))),
        embedded: None,
    };
    assert_eq!(m.matching_name(&both), Some(&String::from("a.xml")));
    let unicode_only = FileDescriptor {
        name_plain: Some(DisplayName::Undecodable),
        name_unicode: Some(DisplayName::Decoded(String::from("a.xml"))),
        embedded: None,
    };
    assert_eq!(m.matching_name(&unicode_only), Some(&String::from("a.xml")));
    let neither = FileDescriptor {
        name_plain: Some(DisplayName::Decoded(String::from("b.xml"))),
        name_unicode: None,
        embedded: None,
    };
    assert_eq!(m.matching_name(&neither), None);
}

#[test]
fn suffix_match_is_matcher_independent() {
    let d = named("anything.xml", 1);
    assert_eq!(
        FileMatcher::matching_suffix(&d, ".xml"),
        Some(&String::from("anything.xml"))
    );
    let pdf = named("scan.pdf", 2);
    assert_eq!(FileMatcher::matching_suffix(&pdf, ".xml"), None);
    // Case-sensitive, as decoded.
    let upper = named("LOUD.XML", 3);
    assert_eq!(FileMatcher::matching_suffix(&upper, ".xml"), None);
}

#[test]
fn ends_with_checks_the_character_suffix() {
    assert!(str_ends_with("report.xml", ".xml"));
    assert!(!str_ends_with(".xm", ".xml"));
    assert!(str_ends_with("x", ""));
}

#[test]
fn list_passes_take_the_first_hit_in_order() {
    let m = FileMatcher::from_default();
    let list = vec![
        named("other.txt", 1),
        named("xrechnung.xml", 2),
        named("factur-x.xml", 3),
    ];
    let (name, d) = list_exact_pass(&m, &list).unwrap();
    assert_eq!(name.as_str(), "xrechnung.xml");
    assert_eq!(d.embedded.unwrap().primary, Some(StreamRef { id: 2, gen: 0 }));
    let (sname, sd) = list_suffix_pass(&list, ".xml").unwrap();
    assert_eq!(sname.as_str(), "xrechnung.xml");
    assert_eq!(sd.embedded.unwrap().primary, Some(StreamRef { id: 2, gen: 0 }));
}

#[test]
fn tree_search_is_depth_first_and_short_circuits() {
    let m = FileMatcher::from_name("hit.xml");
    let tree = NameTree::Interior(vec![
        NameTree::Interior(vec![NameTree::Leaf(vec![named("miss.xml", 1), named("hit.xml", 2)])]),
        NameTree::Leaf(vec![named("hit.xml", 3)]),
    ]);
    let r = tree_exact_pass(&m, &tree).unwrap().unwrap();
    assert_eq!(r.0.as_str(), "hit.xml");
    assert_eq!(r.1.embedded.unwrap().primary, Some(StreamRef { id: 2, gen: 0 }));
}

#[test]
fn malformed_subtree_before_any_hit_is_an_error() {
    let m = FileMatcher::from_name("hit.xml");
    let tree = NameTree::Interior(vec![
        NameTree::Malformed,
        NameTree::Leaf(vec![named("hit.xml", 2)]),
    ]);
    assert!(matches!(
        tree_exact_pass(&m, &tree),
        Err(ErrorKind::RegistryMalformed)
    ));
    assert!(matches!(
        tree_suffix_pass(&tree, ".xml"),
        Err(ErrorKind::RegistryMalformed)
    ));
}

#[test]
fn malformed_subtree_after_the_hit_is_never_reached() {
    let m = FileMatcher::from_name("hit.xml");
    let tree = NameTree::Interior(vec![
        NameTree::Leaf(vec![named("hit.xml", 2)]),
        NameTree::Malformed,
    ]);
    let r = tree_exact_pass(&m, &tree).unwrap().unwrap();
    assert_eq!(r.1.embedded.unwrap().primary, Some(StreamRef { id: 2, gen: 0 }));
}

#[test]
fn empty_tree_finds_nothing() {
    let m = FileMatcher::from_default();
    let tree = NameTree::Interior(vec![NameTree::Leaf(vec![])]);
    assert!(matches!(tree_exact_pass(&m, &tree), Ok(None)));
    assert!(matches!(tree_suffix_pass(&tree, ".xml"), Ok(None)));
}

#[test]
fn default_output_replaces_the_extension() {
    assert_eq!(default_output_path("invoice.pdf"), "invoice.pdf.xml");
    assert_eq!(default_output_path("dir/invoice.pdf"), "dir/invoice.pdf.xml");
    assert_eq!(default_output_path("archive.tar.gz"), "archive.tar.pdf.xml");
}

#[test]
fn default_output_appends_when_no_extension() {
    assert_eq!(default_output_path("invoice"), "invoice.pdf.xml");
    assert_eq!(default_output_path("dir.v1/invoice"), "dir.v1/invoice.pdf.xml");
    assert_eq!(default_output_path(".hidden"), ".hidden.pdf.xml");
}

#[test]
fn cli_paths_follow_the_arguments() {
    let given = Cli {
        pdf_input: String::from("in.pdf"),
        attachment_output: Some(String::from("out.xml")),
        name: None,
        verbose: false,
        strict: false,
    };
    assert_eq!(given.input_path().as_str(), "in.pdf");
    assert_eq!(given.output_path(), "out.xml");
    let defaulted = Cli {
        pdf_input: String::from("in.pdf"),
        attachment_output: None,
        name: Some(String::from("n.xml")),
        verbose: true,
        strict: true,
    };
    assert_eq!(defaulted.output_path(), "in.pdf.xml");
}
