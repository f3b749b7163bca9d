//! Extraction of an embedded e-invoice XML attachment (Factur-X / ZUGFeRD /
//! XRechnung conventions) from a PDF container's registries.
//!
//! The crate holds the resolution core: deriving the attachment name, the
//! two-registry candidate search with exact and suffix passes, and the final
//! stream-reference selection, all under a strict or lenient policy. Reading
//! PDF bytes, resolving object references and file output belong to the
//! surrounding program.
pub mod cli;
pub mod extractor;
pub mod laws;
pub mod matcher;
pub mod metadata;
pub mod model;
pub mod pipeline;
pub mod resolver;
