//! The error taxonomy. Every failure is a value returned to the caller; the
//! library never panics and never retries.
use vstd::prelude::*;

verus! {

/// How a schema requirement was broken: the field is absent, or present with
/// an unusable shape.
#[derive(Debug, Clone, Copy, PartialEq, Eq, Structural)]
pub enum SchemaFault {
    /// A required field is missing.
    MissingField,
    /// A field is present but has the wrong type or shape.
    WrongType,
}

/// Everything that can go wrong while resolving or decoding a table.
#[derive(Debug, Clone, PartialEq, Eq)]
pub enum TableError {
    /// Network or transport failure, reported by the caller's transport and
    /// carried through unchanged.
    TransportFailure {
        /// The transport's own words.
        detail: String,
    },
    /// Neither the verbatim text nor its sanitized form decodes as JSON.
    MalformedDocument {
        /// The reader's words for the verbatim attempt.
        raw_cause: String,
        /// The reader's words for the sanitized attempt.
        sanitized_cause: String,
    },
    /// The document decodes as JSON but breaks the schema.
    SchemaViolation {
        /// The offending field.
        path: String,
        /// The offending entry's position, for list documents.
        index: Option<usize>,
        /// What was wrong with the field.
        fault: SchemaFault,
    },
    /// HTML held no discoverable header pointer through any cascade stage.
    PointerNotFound,
    /// A response was neither a header document nor HTML with a pointer.
    HeaderNotResolvable {
        /// Why the JSON attempt failed.
        cause: String,
    },
    /// The second resolution hop produced another pointer instead of a
    /// document.
    CyclicHeaderReference {
        /// The entry location.
        web_url: String,
        /// The pointer found there.
        header_url: String,
    },
    /// A relative location could not be resolved against its base.
    UrlResolutionFailure {
        /// The base location.
        base: String,
        /// The relative part.
        rel: String,
    },
}

/// The mathematical shape of a schema error: which field, at which entry,
/// broken how.
pub struct DecErr {
    pub path: Seq<char>,
    pub index: Option<int>,
    pub fault: SchemaFault,
}

/// Whether the exec error `e` is the schema violation that `d` describes.
pub open spec fn is_schema_err(e: TableError, d: DecErr) -> bool {
    match e {
        TableError::SchemaViolation { path, index, fault } => {
            &&& path@ == d.path
            &&& match (index, d.index) {
                (Some(i), Some(k)) => i as int == k,
                (None, None) => true,
                _ => false,
            }
            &&& fault == d.fault
        },
        _ => false,
    }
}

} // verus!
