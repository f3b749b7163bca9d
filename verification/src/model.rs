//! The data model of the resolution core: display names, file descriptors,
//! the two registries, the metadata stream state and the error taxonomy.
use vstd::prelude::*;

verus! {

/// The resolution policy: `Strict` forbids every fallback pass, `Lenient`
/// allows the default name pair, the suffix passes and the retry in the
/// embedded-files tree.
#[derive(Clone, Copy, PartialEq, Eq, Structural, Debug)]
pub enum Policy {
    Strict,
    Lenient,
}

/// A candidate display name of an attachment entry, as handed over by the
/// document model: either text that could be decoded, or a value whose
/// decoding failed.  An undecodable name is never a match, but it is not an
/// error either.
#[derive(Clone, Debug)]
pub enum DisplayName {
    Decoded(String),
    Undecodable,
}

impl DisplayName {
    /// The decoded text, if there is one.
    pub open spec fn spec_text(self) -> Option<Seq<char>> {
        match self {
            DisplayName::Decoded(s) => Some(s@),
            DisplayName::Undecodable => None,
        }
    }
}

/// A reference to a byte stream inside the document, by object id and
/// generation number.
#[derive(Clone, Copy, PartialEq, Eq, Structural, Debug)]
pub struct StreamRef {
    pub id: u64,
    pub gen: u64,
}

/// The embedded-content entry of a file descriptor.  It may expose the
/// reference in a primary and in a Unicode-preferred variant; at least one of
/// the two must be present for the descriptor to be usable.
#[derive(Clone, Copy, PartialEq, Eq, Structural, Debug)]
pub struct EmbeddedContent {
    pub primary: Option<StreamRef>,
    pub unicode: Option<StreamRef>,
}

/// One attachment entry of a registry: up to two candidate display names and
/// the reference to its embedded content.
#[derive(Clone, Debug)]
pub struct FileDescriptor {
    pub name_plain: Option<DisplayName>,
    pub name_unicode: Option<DisplayName>,
    pub embedded: Option<EmbeddedContent>,
}

/// The embedded-files name tree: interior nodes hold further subtrees, leaf
/// nodes hold the file descriptors.  A subtree that the document model could
/// not resolve into either shape is `Malformed`; meeting one during a search
/// is an error distinct from finding no match.
pub enum NameTree {
    Leaf(Vec<FileDescriptor>),
    Interior(Vec<NameTree>),
    Malformed,
}

/// What reading the document's metadata stream yielded: the stream may be
/// absent, its reference may fail to resolve, its bytes may not form valid
/// text, or its full text is available.
#[derive(Clone, Debug)]
pub enum MetadataState {
    Missing,
    Unreadable,
    Undecodable,
    Text(String),
}

/// The classified failures of the resolution pipeline.  Each kind maps to a
/// stable process exit code, see `exit_code`.
#[derive(Clone, Copy, PartialEq, Eq, Structural, Debug)]
pub enum ErrorKind {
    /// The document has no metadata stream.
    MetadataMissing,
    /// The metadata stream reference did not resolve or its bytes could not
    /// be read.
    MetadataUnreadable,
    /// The metadata stream bytes are not valid text.
    MetadataUndecodable,
    /// The metadata text holds no invoice description block, or the block
    /// holds no usable file-name declaration.
    MetadataNameNotFound,
    /// The searched registry (associated-files list or embedded-files tree)
    /// is absent.
    RegistryMissing,
    /// A malformed subtree was met while searching the embedded-files tree.
    RegistryMalformed,
    /// The registry is present but no descriptor satisfied the search.
    NoMatch,
    /// The matched descriptor lacks a usable embedded-content reference.
    DescriptorIncomplete,
    /// The embedded-content reference did not resolve to a stream.
    StreamResolutionFailed,
    /// The stream resolved but its bytes could not be read.
    StreamDecodeFailed,
}

/// The exit code of each failure kind, so that calling scripts can branch on
/// the cause.  Codes 1 to 9 are left to the surrounding program for plain
/// input/output failures.
pub open spec fn spec_exit_code(kind: ErrorKind) -> u8 {
    match kind {
        ErrorKind::MetadataMissing => 10,
        ErrorKind::MetadataUnreadable => 11,
        ErrorKind::MetadataUndecodable => 12,
        ErrorKind::MetadataNameNotFound => 13,
        ErrorKind::RegistryMissing => 20,
        ErrorKind::RegistryMalformed => 21,
        ErrorKind::NoMatch => 22,
        ErrorKind::DescriptorIncomplete => 40,
        ErrorKind::StreamResolutionFailed => 41,
        ErrorKind::StreamDecodeFailed => 42,
    }
}

impl ErrorKind {
    /// The stable exit code of this failure kind.
    pub fn exit_code(&self) -> (code: u8)
        ensures
            code == spec_exit_code(*self),
    {
        match self {
            ErrorKind::MetadataMissing => 10,
            ErrorKind::MetadataUnreadable => 11,
            ErrorKind::MetadataUndecodable => 12,
            ErrorKind::MetadataNameNotFound => 13,
            ErrorKind::RegistryMissing => 20,
            ErrorKind::RegistryMalformed => 21,
            ErrorKind::NoMatch => 22,
            ErrorKind::DescriptorIncomplete => 40,
            ErrorKind::StreamResolutionFailed => 41,
            ErrorKind::StreamDecodeFailed => 42,
        }
    }

    /// A human-readable diagnostic for this failure kind.  Classification is
    /// the enum itself; this is only the wording.
    pub fn describe(&self) -> (r: &'static str)
        ensures
            r@.len() > 0,
    {
        proof {
            reveal_strlit("no metadata stream found");
            reveal_strlit("failed to resolve the metadata stream");
            reveal_strlit("metadata stream is not valid text");
            reveal_strlit("no attachment file name declared in the metadata");
            reveal_strlit("no attachment registry found");
            reveal_strlit("malformed embedded-files tree");
            reveal_strlit("no matching embedded file found");
            reveal_strlit("matched entry lacks an embedded-content reference");
            reveal_strlit("embedded-content reference did not resolve");
            reveal_strlit("failed to read the embedded-content stream");
        }
        match self {
            ErrorKind::MetadataMissing => "no metadata stream found",
            ErrorKind::MetadataUnreadable => "failed to resolve the metadata stream",
            ErrorKind::MetadataUndecodable => "metadata stream is not valid text",
            ErrorKind::MetadataNameNotFound => "no attachment file name declared in the metadata",
            ErrorKind::RegistryMissing => "no attachment registry found",
            ErrorKind::RegistryMalformed => "malformed embedded-files tree",
            ErrorKind::NoMatch => "no matching embedded file found",
            ErrorKind::DescriptorIncomplete => "matched entry lacks an embedded-content reference",
            ErrorKind::StreamResolutionFailed => "embedded-content reference did not resolve",
            ErrorKind::StreamDecodeFailed => "failed to read the embedded-content stream",
        }
    }
}

/// Everything the core reads of one document: the metadata stream state and
/// the two candidate registries.
pub struct Document {
    pub metadata: MetadataState,
    pub associated_files: Option<Vec<FileDescriptor>>,
    pub embedded_files: Option<NameTree>,
}

/// The outcome of a successful search: the display name under which the
/// descriptor matched and the selected embedded-content reference.
#[derive(Clone, Debug)]
pub struct Selection {
    pub display_name: String,
    pub stream_ref: StreamRef,
}

} // verus!
