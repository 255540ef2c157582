//! Reply decisions for the pool operations of the io-engine node client.
//!
//! The remote calls themselves are I/O and live with the caller; what is
//! here is the decision logic: how each call outcome maps to the reply the
//! node client hands upward, with its resource tag and operation name.

use crate::errors::ResourceKind;
use crate::pool::{CreatePool, Pool};
use vstd::prelude::*;
use vstd::string::StringExecFns;

verus! {

/// Status code of a remote call, as the transport reports it.
#[derive(Clone, Copy, Debug, PartialEq, Eq, Structural)]
pub enum GrpcCode {
    /// An unlisted code.
    Unknown,
    /// The request was malformed.
    InvalidArgument,
    /// The addressed resource does not exist.
    NotFound,
    /// The remote side failed internally.
    Internal,
    /// The operation is not implemented on the remote side.
    Unimplemented,
    /// The remote side is not reachable.
    Unavailable,
}

/// Status of a failed remote call: its code and message.
#[derive(Debug)]
pub struct GrpcStatus {
    /// The transport's status code.
    pub code: GrpcCode,
    /// The remote side's message.
    pub message: String,
}

/// Structured failure of a node-client request.
#[derive(Debug)]
pub enum SvcError {
    /// The remote call failed.
    GrpcRequestError {
        /// The resource the request was about.
        resource: ResourceKind,
        /// The operation's name.
        request: String,
        /// The transport's status.
        source: GrpcStatus,
    },
}

/// The message with which the io-engine reports that a disk could not be
/// opened as a block device.
pub open spec fn spec_bdev_error_message(disk: Seq<char>) -> Seq<char> {
    "Failed to create a BDEV '"@ + disk + "'"@
}

/// The first disk of a create-pool request, or empty text when the request
/// names none.
pub open spec fn spec_first_disk(request: CreatePool) -> Seq<char> {
    if request.disks@.len() > 0 {
        request.disks@[0]@
    } else {
        Seq::<char>::empty()
    }
}

/// Whether a failed create-pool call reported that the request's first
/// disk could not be opened as a block device: an internal error whose
/// message names that disk.
pub open spec fn spec_bdev_failure(request: CreatePool, status: GrpcStatus) -> bool {
    status.code == GrpcCode::Internal && status.message@ == spec_bdev_error_message(
        spec_first_disk(request),
    )
}

/// The io-engine's message for a disk it could not open as a block device.
fn bdev_error_message(disk: &str) -> (r: String)
    ensures
        r@ == spec_bdev_error_message(disk@),
{
    String::from_str("Failed to create a BDEV '").concat(disk).concat("'")
}

/// Decide the reply of a create-pool request from the remote call's
/// outcome.  A success passes through.  An internal error whose message
/// says the request's first disk could not be opened as a block device is
/// reported as not-found; every other failure keeps its status.  Either
/// way a failure is tagged with the pool resource and the operation name.
pub fn create_pool_reply(request: &CreatePool, outcome: Result<Pool, GrpcStatus>) -> (r: Result<
    Pool,
    SvcError,
>)
    ensures
        outcome is Ok <==> r is Ok,
        outcome is Ok ==> r->Ok_0 == outcome->Ok_0,
        outcome is Err ==> (r->Err_0 matches SvcError::GrpcRequestError {
            resource: res,
            request: req,
            source: src,
        } && res == ResourceKind::Pool && req@ == "create_pool"@ && src.message@
            == outcome->Err_0.message@ && src.code == (
        if spec_bdev_failure(*request, outcome->Err_0) {
            GrpcCode::NotFound
        } else {
            outcome->Err_0.code
        })),
{
    match outcome {
        Ok(pool) => Ok(pool),
        Err(status) => {
            let first_disk = if request.disks.len() > 0 {
                request.disks[0].as_str()
            } else {
                ""
            };
            proof {
                reveal_strlit("");
                assert(""@ =~= Seq::<char>::empty());
            }
            let expected = bdev_error_message(first_disk);
            let is_internal = matches!(status.code, GrpcCode::Internal);
            if is_internal && status.message == expected {
                Err(SvcError::GrpcRequestError {
                    resource: ResourceKind::Pool,
                    request: "create_pool".to_owned(),
                    source: GrpcStatus { code: GrpcCode::NotFound, message: status.message },
                })
            } else {
                Err(SvcError::GrpcRequestError {
                    resource: ResourceKind::Pool,
                    request: "create_pool".to_owned(),
                    source: status,
                })
            }
        },
    }
}

/// Decide the reply of a list-pools request: a success hands the reported
/// pool states through; a failure is tagged with the pool resource and the
/// operation name.
pub fn list_pools_reply(outcome: Result<Vec<Pool>, GrpcStatus>) -> (r: Result<
    Vec<Pool>,
    SvcError,
>)
    ensures
        outcome is Ok <==> r is Ok,
        outcome is Ok ==> r->Ok_0 == outcome->Ok_0,
        outcome is Err ==> (r->Err_0 matches SvcError::GrpcRequestError {
            resource: res,
            request: req,
            source: src,
        } && res == ResourceKind::Pool && req@ == "list_pools"@ && src == outcome->Err_0),
{
    match outcome {
        Ok(pools) => Ok(pools),
        Err(status) => Err(SvcError::GrpcRequestError {
            resource: ResourceKind::Pool,
            request: "list_pools".to_owned(),
            source: status,
        }),
    }
}

/// Decide the reply of a destroy-pool request: a success passes through; a
/// failure is tagged with the pool resource and the operation name.
pub fn destroy_pool_reply(outcome: Result<(), GrpcStatus>) -> (r: Result<(), SvcError>)
    ensures
        outcome is Ok <==> r is Ok,
        outcome is Err ==> (r->Err_0 matches SvcError::GrpcRequestError {
            resource: res,
            request: req,
            source: src,
        } && res == ResourceKind::Pool && req@ == "destroy_pool"@ && src == outcome->Err_0),
{
    match outcome {
        Ok(()) => Ok(()),
        Err(status) => Err(SvcError::GrpcRequestError {
            resource: ResourceKind::Pool,
            request: "destroy_pool".to_owned(),
            source: status,
        }),
    }
}

/// The reply of an import-pool request: the operation is not implemented,
/// so every request fails with an unimplemented status tagged with the
/// pool resource and the operation name.
pub fn import_pool_reply() -> (r: Result<Pool, SvcError>)
    ensures
        r is Err,
        (r->Err_0 matches SvcError::GrpcRequestError {
            resource: res,
            request: req,
            source: src,
        } && res == ResourceKind::Pool && req@ == "import_pool"@ && src.code
            == GrpcCode::Unimplemented && src.message@ == Seq::<char>::empty()),
{
    proof {
        reveal_strlit("");
        assert(""@ =~= Seq::<char>::empty());
    }
    Err(SvcError::GrpcRequestError {
        resource: ResourceKind::Pool,
        request: "import_pool".to_owned(),
        source: GrpcStatus { code: GrpcCode::Unimplemented, message: "".to_owned() },
    })
}

} // verus!
