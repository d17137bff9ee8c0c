//! The persistence layer's entities and its error taxonomy: store-native
//! failures are mapped onto a small closed set of provider errors.
use vstd::prelude::*;
use vstd::string::StringExecFns;

use crate::error::Error;

verus! {

/// The identity of a stored row, as a plain 128-bit value.
pub type EntityId = u128;

/// Where an index stands in its processing progression.
#[derive(Clone, Copy, Debug, PartialEq, Eq, Structural)]
pub enum IndexStatus {
    NotAvailable,
    DownloadingInProgress,
    DownloadingError,
    Downloaded,
    ProcessingInProgress,
    ProcessingError,
    Processed,
    IndexingInProgress,
    IndexingError,
    Indexed,
    ValidationInProgress,
    ValidationError,
    Available,
}

/// The tag under which the store writes each status value.
pub open spec fn spec_status_tag(s: IndexStatus) -> Seq<char> {
    match s {
        IndexStatus::NotAvailable => "not_available"@,
        IndexStatus::DownloadingInProgress => "downloading_in_progress"@,
        IndexStatus::DownloadingError => "downloading_error"@,
        IndexStatus::Downloaded => "downloaded"@,
        IndexStatus::ProcessingInProgress => "processing_in_progress"@,
        IndexStatus::ProcessingError => "processing_error"@,
        IndexStatus::Processed => "processed"@,
        IndexStatus::IndexingInProgress => "indexing_in_progress"@,
        IndexStatus::IndexingError => "indexing_error"@,
        IndexStatus::Indexed => "indexed"@,
        IndexStatus::ValidationInProgress => "validation_in_progress"@,
        IndexStatus::ValidationError => "validation_error"@,
        IndexStatus::Available => "available"@,
    }
}

impl IndexStatus {
    /// The tag this status is stored under.
    pub fn tag(self) -> (r: String)
        ensures
            r@ == spec_status_tag(self),
    {
        match self {
            IndexStatus::NotAvailable => String::from_str("not_available"),
            IndexStatus::DownloadingInProgress => String::from_str("downloading_in_progress"),
            IndexStatus::DownloadingError => String::from_str("downloading_error"),
            IndexStatus::Downloaded => String::from_str("downloaded"),
            IndexStatus::ProcessingInProgress => String::from_str("processing_in_progress"),
            IndexStatus::ProcessingError => String::from_str("processing_error"),
            IndexStatus::Processed => String::from_str("processed"),
            IndexStatus::IndexingInProgress => String::from_str("indexing_in_progress"),
            IndexStatus::IndexingError => String::from_str("indexing_error"),
            IndexStatus::Indexed => String::from_str("indexed"),
            IndexStatus::ValidationInProgress => String::from_str("validation_in_progress"),
            IndexStatus::ValidationError => String::from_str("validation_error"),
            IndexStatus::Available => String::from_str("available"),
        }
    }

    /// Read a stored tag back as a status; an unknown tag reads as nothing.
    pub fn from_tag(s: &str) -> (r: Option<IndexStatus>)
        ensures
            match r {
                Some(st) => s@ == spec_status_tag(st),
                None => forall|st: IndexStatus| s@ != spec_status_tag(st),
            },
    {
        let t = String::from_str(s);
        let r = if t.eq(&String::from_str("not_available")) {
            Some(IndexStatus::NotAvailable)
        } else if t.eq(&String::from_str("downloading_in_progress")) {
            Some(IndexStatus::DownloadingInProgress)
        } else if t.eq(&String::from_str("downloading_error")) {
            Some(IndexStatus::DownloadingError)
        } else if t.eq(&String::from_str("downloaded")) {
            Some(IndexStatus::Downloaded)
        } else if t.eq(&String::from_str("processing_in_progress")) {
            Some(IndexStatus::ProcessingInProgress)
        } else if t.eq(&String::from_str("processing_error")) {
            Some(IndexStatus::ProcessingError)
        } else if t.eq(&String::from_str("processed")) {
            Some(IndexStatus::Processed)
        } else if t.eq(&String::from_str("indexing_in_progress")) {
            Some(IndexStatus::IndexingInProgress)
        } else if t.eq(&String::from_str("indexing_error")) {
            Some(IndexStatus::IndexingError)
        } else if t.eq(&String::from_str("indexed")) {
            Some(IndexStatus::Indexed)
        } else if t.eq(&String::from_str("validation_in_progress")) {
            Some(IndexStatus::ValidationInProgress)
        } else if t.eq(&String::from_str("validation_error")) {
            Some(IndexStatus::ValidationError)
        } else if t.eq(&String::from_str("available")) {
            Some(IndexStatus::Available)
        } else {
            None
        };
        proof {
            if r is None {
                assert forall|st: IndexStatus| s@ != spec_status_tag(st) by {
                    match st {
                        IndexStatus::NotAvailable => assert(s@ != "not_available"@),
                        IndexStatus::DownloadingInProgress => assert(s@
                            != "downloading_in_progress"@),
                        IndexStatus::DownloadingError => assert(s@ != "downloading_error"@),
                        IndexStatus::Downloaded => assert(s@ != "downloaded"@),
                        IndexStatus::ProcessingInProgress => assert(s@
                            != "processing_in_progress"@),
                        IndexStatus::ProcessingError => assert(s@ != "processing_error"@),
                        IndexStatus::Processed => assert(s@ != "processed"@),
                        IndexStatus::IndexingInProgress => assert(s@
                            != "indexing_in_progress"@),
                        IndexStatus::IndexingError => assert(s@ != "indexing_error"@),
                        IndexStatus::Indexed => assert(s@ != "indexed"@),
                        IndexStatus::ValidationInProgress => assert(s@
                            != "validation_in_progress"@),
                        IndexStatus::ValidationError => assert(s@ != "validation_error"@),
                        IndexStatus::Available => assert(s@ != "available"@),
                    }
                }
            }
        }
        r
    }
}

/// An environment stored in the database.
pub struct EnvironmentEntity {
    pub id: EntityId,
    pub name: String,
    pub signature: String,
    pub port: i32,
    pub indexes: Vec<IndexEntity>,
    pub created_at: i64,
    pub updated_at: i64,
}

/// The input data necessary to create an environment.
pub struct InputEnvironmentEntity {
    pub name: String,
    pub port: i32,
}

/// An index stored in the database.
pub struct IndexEntity {
    pub id: EntityId,
    pub index_type: String,
    pub data_source: String,
    pub regions: Vec<String>,
    pub signature: String,
    pub status: IndexStatus,
    pub created_at: i64,
    pub updated_at: i64,
}

/// The input data necessary to create an index.
pub struct InputIndexEntity {
    pub environment: EntityId,
    pub index_type: String,
    pub data_source: String,
    pub regions: Vec<String>,
}

/// An error returned by a provider.
#[derive(Debug, PartialEq, Eq)]
pub enum ProvideError {
    /// The requested entity does not exist.
    NotFound,
    /// The operation violates a uniqueness constraint.
    UniqueViolation { details: String },
    /// The requested operation violates the data model.
    ModelViolation { details: String },
    /// Any other store error, carried through opaquely.
    UnHandledError { source: String },
}

pub type ProvideResult<T> = Result<T, ProvideError>;

/// A store-native failure, reduced to the plain values the mapping reads: the
/// raised condition kind, the server error code, and its texts.
pub enum StoreFailure {
    /// The query found no row where one was required.
    RowNotFound,
    /// The server rejected the statement with a coded error.
    Database { code: Option<String>, message: String, details: Option<String> },
    /// Anything else: connection, protocol or client-side failure.
    Other { description: String },
}

/// The code of a uniqueness-constraint violation.
pub open spec fn spec_is_unique_code(c: Seq<char>) -> bool {
    c == "23505"@
}

/// A code of the integrity-constraint family.
pub open spec fn spec_is_constraint_code(c: Seq<char>) -> bool {
    c.len() >= 2 && c.subrange(0, 2) == "23"@
}

/// How a provider error reads in the pipeline's taxonomy, kind for kind.
pub open spec fn spec_maps_provide_error(pe: ProvideError, r: Error) -> bool {
    match pe {
        ProvideError::NotFound => r == Error::NotFound,
        ProvideError::UniqueViolation { details } => r matches Error::UniqueViolation {
            details: d,
        } && d == details,
        ProvideError::ModelViolation { details } => r matches Error::ModelViolation { details: d }
            && d == details,
        ProvideError::UnHandledError { source } => r matches Error::UnhandledError { source: s }
            && s == source,
    }
}

impl ProvideError {
    /// Map a store-native failure onto the provider taxonomy: a missing row is
    /// `NotFound`; code `23505` is `UniqueViolation` carrying the server's
    /// details; any other code of the `23` constraint family is
    /// `ModelViolation` carrying the message; everything else passes through
    /// as `UnHandledError`.
    pub fn from_failure(f: StoreFailure) -> (r: ProvideError)
        ensures
            match f {
                StoreFailure::RowNotFound => r == ProvideError::NotFound,
                StoreFailure::Database { code, message, details } => match code {
                    Some(c) => if spec_is_unique_code(c@) {
                        r matches ProvideError::UniqueViolation { details: d } && d@ == (
                        match details {
                            Some(dd) => dd@,
                            None => Seq::<char>::empty(),
                        })
                    } else if spec_is_constraint_code(c@) {
                        r matches ProvideError::ModelViolation { details: d } && d@ == message@
                    } else {
                        r matches ProvideError::UnHandledError { source } && source@ == message@
                    },
                    None => r matches ProvideError::UnHandledError { source } && source@
                        == message@,
                },
                StoreFailure::Other { description } => r matches ProvideError::UnHandledError {
                    source,
                } && source@ == description@,
            },
    {
        match f {
            StoreFailure::RowNotFound => ProvideError::NotFound,
            StoreFailure::Database { code, message, details } => match code {
                Some(c) => {
                    if c.eq(&String::from_str("23505")) {
                        let d = match details {
                            Some(dd) => dd,
                            None => String::new(),
                        };
                        ProvideError::UniqueViolation { details: d }
                    } else {
                        let n = c.as_str().unicode_len();
                        let family = n >= 2 && c.as_str().get_char(0) == '2'
                            && c.as_str().get_char(1) == '3';
                        proof {
                            reveal_strlit("23");
                            if family {
                                assert(c@.subrange(0, 2) =~= "23"@);
                            } else if n >= 2 {
                                if c@.subrange(0, 2) == "23"@ {
                                    assert(c@.subrange(0, 2)[0] == '2');
                                    assert(c@.subrange(0, 2)[1] == '3');
                                }
                            }
                        }
                        if family {
                            ProvideError::ModelViolation { details: message }
                        } else {
                            ProvideError::UnHandledError { source: message }
                        }
                    }
                },
                None => ProvideError::UnHandledError { source: message },
            },
            StoreFailure::Other { description } => ProvideError::UnHandledError {
                source: description,
            },
        }
    }

    /// Carry a provider error into the pipeline's taxonomy, kind for kind.
    pub fn to_error(self) -> (r: Error)
        ensures
            spec_maps_provide_error(self, r),
    {
        match self {
            ProvideError::NotFound => Error::NotFound,
            ProvideError::UniqueViolation { details } => Error::UniqueViolation { details },
            ProvideError::ModelViolation { details } => Error::ModelViolation { details },
            ProvideError::UnHandledError { source } => Error::UnhandledError { source },
        }
    }
}

} // verus!
