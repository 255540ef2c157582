//! Structured, resource-tagged errors returned to the caller.

use vstd::prelude::*;

verus! {

/// The kind of resource a request or an error speaks about.
#[derive(Clone, Copy, Debug, PartialEq, Eq, Structural)]
pub enum ResourceKind {
    /// Unknown or not applicable.
    Unknown,
    /// A storage node.
    Node,
    /// A storage pool.
    Pool,
    /// A replica of a volume.
    Replica,
    /// A nexus.
    Nexus,
    /// A child of a nexus.
    Child,
    /// A volume.
    Volume,
}

/// The kind of failure a reply reports.
#[derive(Clone, Copy, Debug, PartialEq, Eq, Structural)]
pub enum ReplyErrorKind {
    /// An internal failure.
    Internal,
    /// Malformed input was rejected by a validation rule.
    InvalidArgument,
    /// The addressed resource does not exist.
    NotFound,
    /// The operation is not implemented.
    Unimplemented,
}

/// A descriptive, resource-tagged request error.
#[derive(Debug)]
pub struct ReplyError {
    /// What went wrong.
    pub kind: ReplyErrorKind,
    /// The resource the error is about.
    pub resource: ResourceKind,
    /// The field or call that raised the error.
    pub source: String,
    /// Human-readable detail.
    pub extra: String,
}

impl ReplyError {
    /// A validation error for a malformed argument.
    pub fn invalid_argument(resource: ResourceKind, source: &str, extra: String) -> (r: Self)
        ensures
            r.kind == ReplyErrorKind::InvalidArgument,
            r.resource == resource,
            r.source@ == source@,
            r.extra@ == extra@,
    {
        ReplyError { kind: ReplyErrorKind::InvalidArgument, resource, source: source.to_owned(), extra }
    }

    /// An independent copy of the error.
    pub fn dup(&self) -> (r: Self)
        ensures
            r == *self,
    {
        ReplyError {
            kind: self.kind,
            resource: self.resource,
            source: self.source.clone(),
            extra: self.extra.clone(),
        }
    }
}

} // verus!
