//! The final extraction step: selecting the embedded-content reference of a
//! matched descriptor, and classifying what resolving that reference through
//! the document model yielded.
use vstd::prelude::*;
use crate::model::{ErrorKind, FileDescriptor, StreamRef};

verus! {

/// The reference a matched descriptor's content is read from: the primary
/// variant is preferred, the Unicode-preferred variant is the fallback, and
/// a descriptor exposing neither is unusable.
pub open spec fn spec_select_ref(d: FileDescriptor) -> Result<StreamRef, ErrorKind> {
    match d.embedded {
        None => Err(ErrorKind::DescriptorIncomplete),
        Some(e) => match e.primary {
            Some(r) => Ok(r),
            None => match e.unicode {
                Some(r) => Ok(r),
                None => Err(ErrorKind::DescriptorIncomplete),
            },
        },
    }
}

/// Selects the embedded-content reference of a matched descriptor.  Absence
/// of any usable reference is terminal for the whole resolution, not only
/// for this descriptor: no other candidate is retried.
pub fn select_stream_ref(d: &FileDescriptor) -> (r: Result<StreamRef, ErrorKind>)
    ensures
        r == spec_select_ref(*d),
{
    match &d.embedded {
        None => Err(ErrorKind::DescriptorIncomplete),
        Some(e) => match e.primary {
            Some(r) => Ok(r),
            None => match e.unicode {
                Some(r) => Ok(r),
                None => Err(ErrorKind::DescriptorIncomplete),
            },
        },
    }
}

/// What resolving the selected reference through the document model yielded:
/// the fully decoded bytes, a reference that resolved to nothing, or a
/// stream whose bytes could not be read.
pub enum StreamOutcome {
    Resolved(Vec<u8>),
    ResolutionFailed,
    DecodeFailed,
}

/// The classified result of the extraction step for each possible outcome.
pub open spec fn spec_finish(o: StreamOutcome) -> Result<Seq<u8>, ErrorKind> {
    match o {
        StreamOutcome::Resolved(b) => Ok(b@),
        StreamOutcome::ResolutionFailed => Err(ErrorKind::StreamResolutionFailed),
        StreamOutcome::DecodeFailed => Err(ErrorKind::StreamDecodeFailed),
    }
}

/// Turns the outcome of the reference resolution into the pipeline's result:
/// the raw payload bytes pass through untouched, the two failure shapes are
/// classified as distinct terminal errors.
pub fn finish_extraction(o: StreamOutcome) -> (r: Result<Vec<u8>, ErrorKind>)
    ensures
        match r {
            Ok(b) => spec_finish(o) == Ok::<_, ErrorKind>(b@),
            Err(e) => spec_finish(o) == Err::<Seq<u8>, _>(e),
        },
{
    match o {
        StreamOutcome::Resolved(b) => Ok(b),
        StreamOutcome::ResolutionFailed => Err(ErrorKind::StreamResolutionFailed),
        StreamOutcome::DecodeFailed => Err(ErrorKind::StreamDecodeFailed),
    }
}

} // verus!
