//! Storage pools, storage objects and transfers: the enumerations, the
//! transfer-type inference, and the destination a filesystem transfer
//! writes to.

use vstd::prelude::*;

use crate::text::{starts_with, str_starts_with};

verus! {

/// Kind of a storage object.
#[derive(Clone, Copy, Debug, PartialEq, Eq, Structural)]
pub enum StorageObjectType {
    Disk,
    Kernel,
    Initrd,
    Iso,
    Snapshot,
}

/// Kind of a storage pool.
#[derive(Clone, Copy, Debug, PartialEq, Eq, Structural)]
pub enum StoragePoolType {
    Local,
    Nfs,
    Ceph,
    Lvm,
    Zfs,
}

/// Health of a storage pool.
#[derive(Clone, Copy, Debug, PartialEq, Eq, Structural)]
pub enum StoragePoolStatus {
    Active,
    Inactive,
    Error,
}

/// Kind of a transfer.
#[derive(Clone, Copy, Debug, PartialEq, Eq, Structural)]
pub enum TransferType {
    Download,
    LocalCopy,
}

/// Lifecycle status of a transfer.
#[derive(Clone, Copy, Debug, PartialEq, Eq, Structural)]
pub enum TransferStatus {
    Pending,
    Running,
    Completed,
    Failed,
}

/// A transfer to create against a storage pool.
#[derive(Debug)]
pub struct NewTransfer {
    pub name: String,
    pub source: String,
    pub object_type: StorageObjectType,
}

/// Whether a source names a download.
pub open spec fn is_download_source(s: Seq<char>) -> bool {
    starts_with(s, "http://"@) || starts_with(s, "https://"@)
}

/// Infers the transfer type from the source: HTTP and HTTPS sources are
/// downloads, everything else is a local copy.
pub fn infer_transfer_type(source: &str) -> (r: TransferType)
    ensures
        r == TransferType::Download <==> is_download_source(source@),
        r == TransferType::LocalCopy <==> !is_download_source(source@),
{
    if str_starts_with(source, "http://") || str_starts_with(source, "https://") {
        TransferType::Download
    } else {
        TransferType::LocalCopy
    }
}

/// The executor for local and network filesystem pools: the node copies or
/// downloads into the pool's directory.
pub struct FilesystemTransferExecutor;

impl FilesystemTransferExecutor {
    /// The path a transfer writes to: the pool's directory joined with the
    /// transfer's name.
    pub fn destination(&self, pool_path: &str, transfer_name: &str) -> (r: String)
        ensures
            r@ == pool_path@ + "/"@ + transfer_name@,
    {
        let mut s = String::from_str(pool_path);
        s.append("/");
        s.append(transfer_name);
        s
    }

    /// Whether this executor serves a pool type: it serves exactly the
    /// filesystem-backed kinds.
    pub fn serves(&self, pool_type: StoragePoolType) -> (r: bool)
        ensures
            r == (pool_type == StoragePoolType::Local || pool_type == StoragePoolType::Nfs),
    {
        matches!(pool_type, StoragePoolType::Local | StoragePoolType::Nfs)
    }
}

} // verus!
