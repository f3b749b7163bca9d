//! The properties the pipeline guarantees across policies and passes, as
//! proved statements over the pipeline's specification.
use vstd::prelude::*;
use crate::extractor::spec_select_ref;
use crate::model::{Document, ErrorKind, FileDescriptor, NameTree, Policy, StreamRef};
use crate::pipeline::{
    spec_af_stage, spec_derive, spec_derived_names, spec_metadata_failure, spec_resolve,
    spec_tree_stage,
};
use crate::resolver::{spec_list_exact, spec_list_suffix, spec_tree_exact, spec_tree_suffix};

verus! {

/// Whenever the strict policy resolves a document, the lenient policy
/// resolves it to the identical display name and stream reference: the two
/// policies differ only in which failures they tolerate, never in the
/// payload a well-formed document yields.
pub proof fn lemma_strict_success_agrees_with_lenient(doc: Document, explicit: Option<String>)
    requires
        spec_resolve(doc, explicit, Policy::Strict) is Ok,
    ensures
        spec_resolve(doc, explicit, Policy::Lenient) == spec_resolve(
            doc,
            explicit,
            Policy::Strict,
        ),
{
    match spec_derive(explicit, doc.metadata, Policy::Strict) {
        Err(_) => {
            assert(false);
        },
        Ok(names) => {
            assert(spec_derive(explicit, doc.metadata, Policy::Lenient) == Ok::<_, ErrorKind>(
                names,
            ));
            match spec_af_stage(doc.associated_files, names, Policy::Strict) {
                Err(_) => {
                    assert(false);
                },
                Ok(x) => {
                    assert(spec_af_stage(doc.associated_files, names, Policy::Lenient) == Ok::<
                        _,
                        ErrorKind,
                    >(x));
                },
            }
        },
    }
}

/// When the associated-files registry is entirely absent but the
/// embedded-files tree holds a usable match for the derived names, the
/// lenient policy succeeds while the strict policy fails with the absent
/// registry — provided name derivation itself needed no fallback.
pub proof fn lemma_tree_fallback_on_absent_registry(doc: Document, explicit: Option<String>)
    requires
        explicit is Some || spec_metadata_failure(doc.metadata) is None,
        doc.associated_files is None,
        ({
            let names = spec_derived_names(explicit, doc.metadata);
            spec_tree_stage(doc.embedded_files, names) matches Ok(x) && spec_select_ref(x.1)
                is Ok
        }),
    ensures
        spec_resolve(doc, explicit, Policy::Strict) == Err::<(Seq<char>, StreamRef), ErrorKind>(
            ErrorKind::RegistryMissing,
        ),
        spec_resolve(doc, explicit, Policy::Lenient) is Ok,
{
    let names = spec_derived_names(explicit, doc.metadata);
    assert(spec_derive(explicit, doc.metadata, Policy::Strict) == Ok::<_, ErrorKind>(names));
    assert(spec_derive(explicit, doc.metadata, Policy::Lenient) == Ok::<_, ErrorKind>(names));
    assert(spec_af_stage(doc.associated_files, names, Policy::Strict) == Err::<
        (Seq<char>, FileDescriptor),
        _,
    >(ErrorKind::RegistryMissing));
}

/// Resolution is a pure function of the document, the explicit name and the
/// policy: two runs over the same immutable inputs yield identical outcomes.
pub proof fn lemma_resolution_deterministic(
    doc: Document,
    explicit: Option<String>,
    policy: Policy,
    r1: Result<(Seq<char>, StreamRef), ErrorKind>,
    r2: Result<(Seq<char>, StreamRef), ErrorKind>,
)
    requires
        r1 == spec_resolve(doc, explicit, policy),
        r2 == spec_resolve(doc, explicit, policy),
    ensures
        r1 == r2,
{
}

/// The suffix pass never pre-empts the exact pass over the associated-files
/// list: whenever the exact pass finds a match, the stage returns exactly
/// that match, under either policy and whatever the suffix pass would find.
pub proof fn lemma_exact_wins_list(
    af: Option<Vec<FileDescriptor>>,
    names: Seq<Seq<char>>,
    policy: Policy,
    x: (Seq<char>, FileDescriptor),
)
    requires
        af matches Some(list) && spec_list_exact(names, list@) == Some(x),
    ensures
        spec_af_stage(af, names, policy) == Ok::<_, ErrorKind>(x),
{
}

/// The suffix pass never pre-empts the exact pass over the embedded-files
/// tree: whenever the exact pass finds a match, the stage returns exactly
/// that match.
pub proof fn lemma_exact_wins_tree(
    tree: Option<NameTree>,
    names: Seq<Seq<char>>,
    x: (Seq<char>, FileDescriptor),
)
    requires
        tree matches Some(t) && spec_tree_exact(names, t) == Ok::<
            Option<(Seq<char>, FileDescriptor)>,
            ErrorKind,
        >(Some(x)),
    ensures
        spec_tree_stage(tree, names) == Ok::<_, ErrorKind>(x),
{
}

/// Every match the associated-files stage returns is accounted for: it is
/// the exact pass's match, or — only under the lenient policy, and only
/// once the exact pass has exhausted the whole list — the suffix pass's.
pub proof fn lemma_list_stage_provenance(
    list: Vec<FileDescriptor>,
    names: Seq<Seq<char>>,
    policy: Policy,
    y: (Seq<char>, FileDescriptor),
)
    requires
        spec_af_stage(Some(list), names, policy) == Ok::<_, ErrorKind>(y),
    ensures
        spec_list_exact(names, list@) == Some(y) || (spec_list_exact(names, list@) is None
            && policy is Lenient && spec_list_suffix(list@, ".xml"@) == Some(y)),
{
}

/// Every match the embedded-files stage returns is accounted for in the
/// same way: it is the exact pass's match, or — only once the exact pass
/// has walked the whole tree without a hit or an error — the suffix pass's.
pub proof fn lemma_tree_stage_provenance(
    t: NameTree,
    names: Seq<Seq<char>>,
    y: (Seq<char>, FileDescriptor),
)
    requires
        spec_tree_stage(Some(t), names) == Ok::<_, ErrorKind>(y),
    ensures
        spec_tree_exact(names, t) == Ok::<_, ErrorKind>(Some(y)) || (spec_tree_exact(names, t)
            matches Ok(None) && spec_tree_suffix(t, ".xml"@) == Ok::<_, ErrorKind>(Some(y))),
{
}

} // verus!
