//! The resolution orchestrator: derive the attachment name, search the
//! associated-files list, fall back to the embedded-files tree, select the
//! stream reference — a strict forward pipeline whose fallback branches are
//! gated by the policy.  Failures that the lenient policy converts into a
//! fallback are collected as non-fatal notes for diagnostic output.
use vstd::prelude::*;
use crate::extractor::{select_stream_ref, spec_select_ref};
use crate::matcher::FileMatcher;
use crate::metadata::{extract_document_file_name, spec_extract_name};
use crate::model::{
    Document, ErrorKind, FileDescriptor, MetadataState, NameTree, Policy, Selection, StreamRef,
};
use crate::resolver::{
    list_exact_pass, list_suffix_pass, spec_list_exact, spec_list_suffix, spec_tree_exact,
    spec_tree_suffix, tree_exact_pass, tree_suffix_pass,
};

verus! {

/// The built-in default attachment names, used when no explicit name is
/// given and none can be derived from the metadata.
pub open spec fn default_names() -> Seq<Seq<char>> {
    seq!["factur-x.xml"@, "xrechnung.xml"@]
}

/// Why no name can be derived from the metadata, or `None` when one can.
pub open spec fn spec_metadata_failure(meta: MetadataState) -> Option<ErrorKind> {
    match meta {
        MetadataState::Missing => Some(ErrorKind::MetadataMissing),
        MetadataState::Unreadable => Some(ErrorKind::MetadataUnreadable),
        MetadataState::Undecodable => Some(ErrorKind::MetadataUndecodable),
        MetadataState::Text(t) => match spec_extract_name(t@) {
            Ok(_) => None,
            Err(_) => Some(ErrorKind::MetadataNameNotFound),
        },
    }
}

/// The acceptable names once derivation is allowed to fall back: the
/// explicit name, else the metadata-derived name, else the default pair.
pub open spec fn spec_derived_names(explicit: Option<String>, meta: MetadataState) -> Seq<
    Seq<char>,
> {
    match explicit {
        Some(n) => seq![n@],
        None => match meta {
            MetadataState::Text(t) => match spec_extract_name(t@) {
                Ok(v) => seq![v],
                Err(_) => default_names(),
            },
            _ => default_names(),
        },
    }
}

/// The name-derivation stage: an explicit name skips the metadata entirely;
/// a metadata failure is terminal under the strict policy and falls back to
/// the default pair under the lenient one.
pub open spec fn spec_derive(
    explicit: Option<String>,
    meta: MetadataState,
    policy: Policy,
) -> Result<Seq<Seq<char>>, ErrorKind> {
    if explicit is Some {
        Ok(spec_derived_names(explicit, meta))
    } else {
        match spec_metadata_failure(meta) {
            None => Ok(spec_derived_names(explicit, meta)),
            Some(k) => if policy is Strict {
                Err(k)
            } else {
                Ok(default_names())
            },
        }
    }
}

/// The non-fatal note the derivation stage surfaces: the metadata failure
/// that the lenient policy converted into the default-name fallback.
pub open spec fn spec_derive_warnings(
    explicit: Option<String>,
    meta: MetadataState,
    policy: Policy,
) -> Seq<ErrorKind> {
    if explicit is None && policy is Lenient && spec_metadata_failure(meta) is Some {
        seq![spec_metadata_failure(meta).unwrap()]
    } else {
        Seq::empty()
    }
}

/// The associated-files stage: the exact pass, then — lenient only — the
/// suffix pass over the same list.  An absent list and an unmatched list are
/// distinct failures.
pub open spec fn spec_af_stage(
    af: Option<Vec<FileDescriptor>>,
    names: Seq<Seq<char>>,
    policy: Policy,
) -> Result<(Seq<char>, FileDescriptor), ErrorKind> {
    match af {
        None => Err(ErrorKind::RegistryMissing),
        Some(list) => match spec_list_exact(names, list@) {
            Some(x) => Ok(x),
            None => if policy is Strict {
                Err(ErrorKind::NoMatch)
            } else {
                match spec_list_suffix(list@, ".xml"@) {
                    Some(y) => Ok(y),
                    None => Err(ErrorKind::NoMatch),
                }
            },
        },
    }
}

/// The note the associated-files stage surfaces: the failed exact pass that
/// the lenient policy converted into the suffix pass.
pub open spec fn spec_af_warnings(
    af: Option<Vec<FileDescriptor>>,
    names: Seq<Seq<char>>,
    policy: Policy,
) -> Seq<ErrorKind> {
    match af {
        Some(list) => if policy is Lenient && spec_list_exact(names, list@) is None {
            seq![ErrorKind::NoMatch]
        } else {
            Seq::empty()
        },
        None => Seq::empty(),
    }
}

/// The embedded-files stage, reached only under the lenient policy: the
/// exact pass over the tree, then the suffix pass.  A malformed subtree is a
/// propagated error of its own.
pub open spec fn spec_tree_stage(tree: Option<NameTree>, names: Seq<Seq<char>>) -> Result<
    (Seq<char>, FileDescriptor),
    ErrorKind,
> {
    match tree {
        None => Err(ErrorKind::RegistryMissing),
        Some(t) => match spec_tree_exact(names, t) {
            Err(e) => Err(e),
            Ok(Some(x)) => Ok(x),
            Ok(None) => match spec_tree_suffix(t, ".xml"@) {
                Err(e) => Err(e),
                Ok(Some(y)) => Ok(y),
                Ok(None) => Err(ErrorKind::NoMatch),
            },
        },
    }
}

/// The note the embedded-files stage surfaces: the failed exact pass that
/// was converted into the suffix pass.
pub open spec fn spec_tree_warnings(tree: Option<NameTree>, names: Seq<Seq<char>>) -> Seq<
    ErrorKind,
> {
    match tree {
        Some(t) => if spec_tree_exact(names, t) matches Ok(None) {
            seq![ErrorKind::NoMatch]
        } else {
            Seq::empty()
        },
        None => Seq::empty(),
    }
}

/// Both search tiers under the policy: the associated-files stage, and — on
/// its failure, lenient only — the embedded-files stage.
pub open spec fn spec_search(
    af: Option<Vec<FileDescriptor>>,
    tree: Option<NameTree>,
    names: Seq<Seq<char>>,
    policy: Policy,
) -> Result<(Seq<char>, FileDescriptor), ErrorKind> {
    match spec_af_stage(af, names, policy) {
        Ok(x) => Ok(x),
        Err(k) => if policy is Strict {
            Err(k)
        } else {
            spec_tree_stage(tree, names)
        },
    }
}

/// The notes of both search tiers, in the order they are surfaced.
pub open spec fn spec_search_warnings(
    af: Option<Vec<FileDescriptor>>,
    tree: Option<NameTree>,
    names: Seq<Seq<char>>,
    policy: Policy,
) -> Seq<ErrorKind> {
    match spec_af_stage(af, names, policy) {
        Ok(_) => spec_af_warnings(af, names, policy),
        Err(k) => if policy is Strict {
            Seq::empty()
        } else {
            spec_af_warnings(af, names, policy) + seq![k] + spec_tree_warnings(tree, names)
        },
    }
}

/// The whole pipeline: the derived display name and stream reference of the
/// matched descriptor, or the classified failure.
pub open spec fn spec_resolve(doc: Document, explicit: Option<String>, policy: Policy) -> Result<
    (Seq<char>, StreamRef),
    ErrorKind,
> {
    match spec_derive(explicit, doc.metadata, policy) {
        Err(k) => Err(k),
        Ok(names) => match spec_search(doc.associated_files, doc.embedded_files, names, policy) {
            Err(k) => Err(k),
            Ok(x) => match spec_select_ref(x.1) {
                Err(k) => Err(k),
                Ok(r) => Ok((x.0, r)),
            },
        },
    }
}

/// Every non-fatal note the pipeline surfaces, in order.
pub open spec fn spec_resolve_warnings(
    doc: Document,
    explicit: Option<String>,
    policy: Policy,
) -> Seq<ErrorKind> {
    match spec_derive(explicit, doc.metadata, policy) {
        Err(_) => spec_derive_warnings(explicit, doc.metadata, policy),
        Ok(names) => spec_derive_warnings(explicit, doc.metadata, policy)
            + spec_search_warnings(doc.associated_files, doc.embedded_files, names, policy),
    }
}

/// What one run of the pipeline produced: the outcome, and the non-fatal
/// notes that lenient fallbacks surfaced on the way (for diagnostic output;
/// they never influence the outcome).
pub struct Resolution {
    pub outcome: Result<Selection, ErrorKind>,
    pub notes: Vec<ErrorKind>,
}

/// The name-derivation stage.  An explicit name is used as given and the
/// metadata is not consulted; otherwise the name is extracted from the
/// metadata text.  On a metadata failure the strict policy stops with that
/// failure, the lenient policy surfaces it as a note and falls back to the
/// default name pair.
pub fn derive_matcher(
    explicit: &Option<String>,
    meta: &MetadataState,
    policy: Policy,
    notes: &mut Vec<ErrorKind>,
) -> (r: Result<FileMatcher, ErrorKind>)
    ensures
        final(notes)@ == old(notes)@ + spec_derive_warnings(*explicit, *meta, policy),
        match r {
            Ok(m) => spec_derive(*explicit, *meta, policy) == Ok::<_, ErrorKind>(m.spec_names())
                && m.wf(),
            Err(k) => spec_derive(*explicit, *meta, policy) == Err::<Seq<Seq<char>>, _>(k),
        },
{
    proof {
        assert(old(notes)@ + Seq::<ErrorKind>::empty() =~= old(notes)@);
    }
    match explicit {
        Some(name) => {
            return Ok(FileMatcher::from_name(name.as_str()));
        },
        None => {},
    }
    let failure: ErrorKind = match meta {
        MetadataState::Missing => ErrorKind::MetadataMissing,
        MetadataState::Unreadable => ErrorKind::MetadataUnreadable,
        MetadataState::Undecodable => ErrorKind::MetadataUndecodable,
        MetadataState::Text(t) => {
            match extract_document_file_name(t.as_str()) {
                Ok(name) => {
                    return Ok(FileMatcher::from_name(name.as_str()));
                },
                Err(_) => ErrorKind::MetadataNameNotFound,
            }
        },
    };
    if policy == Policy::Strict {
        Err(failure)
    } else {
        notes.push(failure);
        proof {
            assert(old(notes)@.push(failure) =~= old(notes)@ + seq![failure]);
        }
        Ok(FileMatcher::from_default())
    }
}

/// The two-tier registry search.  The associated-files list is searched
/// first, exact pass then — lenient only — suffix pass; on its failure the
/// lenient policy surfaces the cause as a note and retries entirely in the
/// embedded-files tree.  The strict policy stops at the first failure.
pub fn search_registries<'a>(
    af: &'a Option<Vec<FileDescriptor>>,
    tree: &'a Option<NameTree>,
    m: &FileMatcher,
    policy: Policy,
    notes: &mut Vec<ErrorKind>,
) -> (r: Result<(&'a String, &'a FileDescriptor), ErrorKind>)
    ensures
        final(notes)@ == old(notes)@ + spec_search_warnings(*af, *tree, m.spec_names(), policy),
        match r {
            Ok((s, d)) => spec_search(*af, *tree, m.spec_names(), policy) == Ok::<_, ErrorKind>(
                (s@, *d),
            ),
            Err(k) => spec_search(*af, *tree, m.spec_names(), policy) == Err::<
                (Seq<char>, FileDescriptor),
                _,
            >(k),
        },
{
    proof {
        assert(old(notes)@ + Seq::<ErrorKind>::empty() =~= old(notes)@);
    }
    let af_result: Result<(&'a String, &'a FileDescriptor), ErrorKind> = match af {
        None => Err(ErrorKind::RegistryMissing),
        Some(list) => match list_exact_pass(m, list) {
            Some(x) => Ok(x),
            None => {
                if policy == Policy::Strict {
                    Err(ErrorKind::NoMatch)
                } else {
                    notes.push(ErrorKind::NoMatch);
                    match list_suffix_pass(list, ".xml") {
                        Some(y) => Ok(y),
                        None => Err(ErrorKind::NoMatch),
                    }
                }
            },
        },
    };
    proof {
        assert(notes@ == old(notes)@ + spec_af_warnings(*af, m.spec_names(), policy) || (notes@
            == old(notes)@ && spec_af_warnings(*af, m.spec_names(), policy) =~= Seq::<
            ErrorKind,
        >::empty()));
        assert(notes@ =~= old(notes)@ + spec_af_warnings(*af, m.spec_names(), policy));
    }
    match af_result {
        Ok(x) => Ok(x),
        Err(k) => {
            if policy == Policy::Strict {
                return Err(k);
            }
            notes.push(k);
            proof {
                assert(notes@ =~= old(notes)@ + spec_af_warnings(*af, m.spec_names(), policy)
                    + seq![k]);
            }
            match tree {
                None => {
                    proof {
                        assert(notes@ =~= old(notes)@ + spec_search_warnings(
                            *af,
                            *tree,
                            m.spec_names(),
                            policy,
                        ));
                    }
                    Err(ErrorKind::RegistryMissing)
                },
                Some(t) => match tree_exact_pass(m, t) {
                    Err(e) => {
                        proof {
                            assert(notes@ =~= old(notes)@ + spec_search_warnings(
                                *af,
                                *tree,
                                m.spec_names(),
                                policy,
                            ));
                        }
                        Err(e)
                    },
                    Ok(Some(x)) => {
                        proof {
                            assert(notes@ =~= old(notes)@ + spec_search_warnings(
                                *af,
                                *tree,
                                m.spec_names(),
                                policy,
                            ));
                        }
                        Ok(x)
                    },
                    Ok(None) => {
                        notes.push(ErrorKind::NoMatch);
                        proof {
                            assert(notes@ =~= old(notes)@ + spec_search_warnings(
                                *af,
                                *tree,
                                m.spec_names(),
                                policy,
                            ));
                        }
                        match tree_suffix_pass(t, ".xml") {
                            Err(e) => Err(e),
                            Ok(Some(y)) => Ok(y),
                            Ok(None) => Err(ErrorKind::NoMatch),
                        }
                    },
                },
            }
        },
    }
}

/// One full run of the resolution pipeline over the document model: derive
/// the acceptable names, search the registries under the policy, and select
/// the matched descriptor's stream reference.  No stage is ever revisited,
/// and a matched descriptor with an unusable reference is terminal even
/// under the lenient policy.
pub fn resolve(doc: &Document, explicit: &Option<String>, policy: Policy) -> (r: Resolution)
    ensures
        r.notes@ == spec_resolve_warnings(*doc, *explicit, policy),
        match r.outcome {
            Ok(sel) => spec_resolve(*doc, *explicit, policy) == Ok::<_, ErrorKind>(
                (sel.display_name@, sel.stream_ref),
            ),
            Err(k) => spec_resolve(*doc, *explicit, policy) == Err::<(Seq<char>, StreamRef), _>(
                k,
            ),
        },
{
    let mut notes: Vec<ErrorKind> = Vec::new();
    let m = match derive_matcher(explicit, &doc.metadata, policy, &mut notes) {
        Err(k) => {
            return Resolution { outcome: Err(k), notes };
        },
        Ok(m) => m,
    };
    let found = match search_registries(
        &doc.associated_files,
        &doc.embedded_files,
        &m,
        policy,
        &mut notes,
    ) {
        Err(k) => {
            return Resolution { outcome: Err(k), notes };
        },
        Ok(x) => x,
    };
    match select_stream_ref(found.1) {
        Err(k) => Resolution { outcome: Err(k), notes },
        Ok(sref) => Resolution {
            outcome: Ok(Selection { display_name: found.0.clone(), stream_ref: sref }),
            notes,
        },
    }
}

} // verus!
