//! The node agent's error taxonomy and its mapping onto RPC status codes.

use vstd::prelude::*;

verus! {

/// Failure of a VM-manager operation. Outside failures reach the library as
/// their messages; each kind maps to exactly one RPC status.
#[derive(Debug)]
pub enum VmManagerError {
    /// The id is absent from the in-memory map.
    VmNotFound(String),
    /// The id is already present during create.
    VmAlreadyExists(String),
    /// The hypervisor child could not be spawned or its socket never appeared.
    SpawnError(String),
    /// The hypervisor-API client failed.
    SdkError(String),
    /// The id does not parse, a required field is missing, or encoding failed.
    InvalidConfig(String),
    /// A non-2xx reply from the hypervisor, or its body could not be read.
    ProcessError(String),
    /// A host-side network command failed.
    TapError(String),
}

/// RPC status code classes for the node service.
#[derive(Clone, Copy, Debug, PartialEq, Eq, Structural)]
pub enum RpcCode {
    NotFound,
    AlreadyExists,
    InvalidArgument,
    Internal,
}

/// The RPC status an error kind maps to.
pub open spec fn rpc_code_spec(e: VmManagerError) -> RpcCode {
    match e {
        VmManagerError::VmNotFound(_) => RpcCode::NotFound,
        VmManagerError::VmAlreadyExists(_) => RpcCode::AlreadyExists,
        VmManagerError::InvalidConfig(_) => RpcCode::InvalidArgument,
        VmManagerError::SpawnError(_) => RpcCode::Internal,
        VmManagerError::SdkError(_) => RpcCode::Internal,
        VmManagerError::ProcessError(_) => RpcCode::Internal,
        VmManagerError::TapError(_) => RpcCode::Internal,
    }
}

/// Maps a manager error onto the RPC status the service reports.
pub fn map_manager_error(e: &VmManagerError) -> (r: RpcCode)
    ensures
        r == rpc_code_spec(*e),
{
    match e {
        VmManagerError::VmNotFound(_) => RpcCode::NotFound,
        VmManagerError::VmAlreadyExists(_) => RpcCode::AlreadyExists,
        VmManagerError::InvalidConfig(_) => RpcCode::InvalidArgument,
        VmManagerError::SpawnError(_) => RpcCode::Internal,
        VmManagerError::SdkError(_) => RpcCode::Internal,
        VmManagerError::ProcessError(_) => RpcCode::Internal,
        VmManagerError::TapError(_) => RpcCode::Internal,
    }
}

} // verus!
