use zugferd::extractor::{finish_extraction, select_stream_ref, StreamOutcome};
use zugferd::model::{
    DisplayName, Document, EmbeddedContent, ErrorKind, FileDescriptor, MetadataState, NameTree,
    Policy, StreamRef,
};
use zugferd::pipeline::resolve;

fn named(name: &str, id: u64) -> FileDescriptor {
    FileDescriptor {
        name_plain: Some(DisplayName::Decoded(String::from(name))),
        name_unicode: None,
        embedded: Some(EmbeddedContent {
            primary: Some(StreamRef { id, gen: 0 }),
            unicode: None,
        }),
    }
}

fn metadata_with(name_decl: &str) -> MetadataState {
    MetadataState::Text(format!(
        "<rdf:RDF>\n<rdf:Description rdf:about=\"\" xmlns:fx=\"urn:factur-x:pdfa:CrossIndustryDocument:invoice:1p0#\">\n{}\n</rdf:Description>\n</rdf:RDF>",
        name_decl
    ))
}

#[test]
fn lenient_defaults_resolve_second_entry() {
    // No metadata at all: the lenient policy falls back to the default pair
    // and the exact pass picks the factur-x entry, not the first list entry.
    let doc = Document {
        metadata: MetadataState::Missing,
        associated_files: Some(vec![named("invoice.pdf", 7), named("factur-x.xml", 9)]),
        embedded_files: None,
    };
    let r = resolve(&doc, &None, Policy::Lenient);
    let sel = r.outcome.expect("lenient resolution should succeed");
    assert_eq!(sel.display_name, "factur-x.xml");
    assert_eq!(sel.stream_ref, StreamRef { id: 9, gen: 0 });
    assert_eq!(r.notes, vec![ErrorKind::MetadataMissing]);
}

#[test]
fn strict_fails_on_missing_metadata() {
    let doc = Document {
        metadata: MetadataState::Missing,
        associated_files: Some(vec![named("invoice.pdf", 7), named("factur-x.xml", 9)]),
        embedded_files: None,
    };
    let r = resolve(&doc, &None, Policy::Strict);
    assert_eq!(r.outcome.err(), Some(ErrorKind::MetadataMissing));
    assert!(r.notes.is_empty());
}

#[test]
fn metadata_derived_name_resolves_in_both_modes() {
    let mk = || Document {
        metadata: metadata_with("<fx:DocumentFileName>custom.xml</fx:DocumentFileName>"),
        associated_files: Some(vec![named("invoice.pdf", 3), named("custom.xml", 5)]),
        embedded_files: None,
    };
    for policy in [Policy::Strict, Policy::Lenient] {
        let r = resolve(&mk(), &None, policy);
        let sel = r.outcome.expect("resolution should succeed in both modes");
        assert_eq!(sel.display_name, "custom.xml");
        assert_eq!(sel.stream_ref, StreamRef { id: 5, gen: 0 });
        assert!(r.notes.is_empty());
    }
}

#[test]
fn absent_registry_falls_back_to_tree_suffix() {
    // No associated files; the tree holds only a non-matching .xml entry.
    let mk = || Document {
        metadata: MetadataState::Missing,
        associated_files: None,
        embedded_files: Some(NameTree::Leaf(vec![named("report.xml", 11)])),
    };
    let explicit = Some(String::from("factur-x.xml"));
    let lenient = resolve(&mk(), &explicit, Policy::Lenient);
    let sel = lenient.outcome.expect("suffix pass should succeed");
    assert_eq!(sel.display_name, "report.xml");
    assert_eq!(sel.stream_ref, StreamRef { id: 11, gen: 0 });
    // The registry failure and the failed exact pass were surfaced as notes.
    assert_eq!(
        lenient.notes,
        vec![ErrorKind::RegistryMissing, ErrorKind::NoMatch]
    );

    let strict = resolve(&mk(), &explicit, Policy::Strict);
    assert_eq!(strict.outcome.err(), Some(ErrorKind::RegistryMissing));
}

#[test]
fn incomplete_descriptor_is_terminal_even_in_lenient_mode() {
    // The matched entry has no embedded-content reference; a usable .xml
    // entry stands right behind it, but no retry may happen.
    let broken = FileDescriptor {
        name_plain: Some(DisplayName::Decoded(String::from("factur-x.xml"))),
        name_unicode: None,
        embedded: None,
    };
    let doc = Document {
        metadata: MetadataState::Missing,
        associated_files: Some(vec![broken, named("report.xml", 2)]),
        embedded_files: None,
    };
    for policy in [Policy::Strict, Policy::Lenient] {
        let explicit = Some(String::from("factur-x.xml"));
        let r = resolve(&doc, &explicit, policy);
        assert_eq!(r.outcome.err(), Some(ErrorKind::DescriptorIncomplete));
    }
}

#[test]
fn missing_reference_variants_reported_incomplete() {
    let empty_refs = FileDescriptor {
        name_plain: Some(DisplayName::Decoded(String::from("factur-x.xml"))),
        name_unicode: None,
        embedded: Some(EmbeddedContent { primary: None, unicode: None }),
    };
    assert_eq!(
        select_stream_ref(&empty_refs).err(),
        Some(ErrorKind::DescriptorIncomplete)
    );
}

#[test]
fn unicode_reference_is_the_fallback() {
    let d = FileDescriptor {
        name_plain: Some(DisplayName::Decoded(String::from("factur-x.xml"))),
        name_unicode: None,
        embedded: Some(EmbeddedContent {
            primary: None,
            unicode: Some(StreamRef { id: 4, gen: 1 }),
        }),
    };
    assert_eq!(select_stream_ref(&d), Ok(StreamRef { id: 4, gen: 1 }));
    let both = FileDescriptor {
        embedded: Some(EmbeddedContent {
            primary: Some(StreamRef { id: 6, gen: 0 }),
            unicode: Some(StreamRef { id: 4, gen: 1 }),
        }),
        ..d
    };
    assert_eq!(select_stream_ref(&both), Ok(StreamRef { id: 6, gen: 0 }));
}

#[test]
fn dangling_reference_classified_by_outcome() {
    assert_eq!(
        finish_extraction(StreamOutcome::ResolutionFailed).err(),
        Some(ErrorKind::StreamResolutionFailed)
    );
    assert_eq!(
        finish_extraction(StreamOutcome::DecodeFailed).err(),
        Some(ErrorKind::StreamDecodeFailed)
    );
    let bytes = finish_extraction(StreamOutcome::Resolved(vec![60u8, 63, 120])).unwrap();
    assert_eq!(bytes, vec![60u8, 63, 120]);
}

#[test]
fn resolution_is_idempotent() {
    let doc = Document {
        metadata: metadata_with("<fx:DocumentFileName>custom.xml</fx:DocumentFileName>"),
        associated_files: Some(vec![named("custom.xml", 5)]),
        embedded_files: None,
    };
    for policy in [Policy::Strict, Policy::Lenient] {
        let a = resolve(&doc, &None, policy);
        let b = resolve(&doc, &None, policy);
        match (a.outcome, b.outcome) {
            (Ok(x), Ok(y)) => {
                assert_eq!(x.display_name, y.display_name);
                assert_eq!(x.stream_ref, y.stream_ref);
            }
            (Err(x), Err(y)) => assert_eq!(x, y),
            _ => panic!("the two runs disagree"),
        }
        assert_eq!(a.notes, b.notes);
    }
}

#[test]
fn strict_and_lenient_agree_on_well_formed_documents() {
    let mk = || Document {
        metadata: metadata_with("<fx:DocumentFileName>custom.xml</fx:DocumentFileName>"),
        associated_files: Some(vec![named("other.xml", 1), named("custom.xml", 2)]),
        embedded_files: None,
    };
    let s = resolve(&mk(), &None, Policy::Strict).outcome.unwrap();
    let l = resolve(&mk(), &None, Policy::Lenient).outcome.unwrap();
    assert_eq!(s.display_name, l.display_name);
    assert_eq!(s.stream_ref, l.stream_ref);
}

#[test]
fn suffix_pass_never_preempts_exact_pass() {
    // The suffix candidate stands first in the list, the exact match last:
    // the exact pass must still win.
    let doc = Document {
        metadata: MetadataState::Missing,
        associated_files: Some(vec![named("anything.xml", 1), named("factur-x.xml", 2)]),
        embedded_files: None,
    };
    let r = resolve(&doc, &None, Policy::Lenient);
    let sel = r.outcome.unwrap();
    assert_eq!(sel.display_name, "factur-x.xml");
    assert_eq!(sel.stream_ref, StreamRef { id: 2, gen: 0 });
}

#[test]
fn explicit_name_skips_metadata_entirely() {
    // The metadata would derive custom.xml, but the explicit name wins and
    // the strict policy accepts a document with unreadable metadata.
    let doc = Document {
        metadata: MetadataState::Unreadable,
        associated_files: Some(vec![named("wanted.xml", 8)]),
        embedded_files: None,
    };
    let explicit = Some(String::from("wanted.xml"));
    let r = resolve(&doc, &explicit, Policy::Strict);
    assert_eq!(r.outcome.unwrap().stream_ref, StreamRef { id: 8, gen: 0 });
}

#[test]
fn error_kinds_map_to_stable_exit_codes() {
    assert_eq!(ErrorKind::MetadataMissing.exit_code(), 10);
    assert_eq!(ErrorKind::MetadataUnreadable.exit_code(), 11);
    assert_eq!(ErrorKind::MetadataUndecodable.exit_code(), 12);
    assert_eq!(ErrorKind::MetadataNameNotFound.exit_code(), 13);
    assert_eq!(ErrorKind::RegistryMissing.exit_code(), 20);
    assert_eq!(ErrorKind::RegistryMalformed.exit_code(), 21);
    assert_eq!(ErrorKind::NoMatch.exit_code(), 22);
    assert_eq!(ErrorKind::DescriptorIncomplete.exit_code(), 40);
    assert_eq!(ErrorKind::StreamResolutionFailed.exit_code(), 41);
    assert_eq!(ErrorKind::StreamDecodeFailed.exit_code(), 42);
    assert!(!ErrorKind::NoMatch.describe().is_empty());
}
