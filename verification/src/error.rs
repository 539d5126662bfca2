use vstd::prelude::*;

use crate::utility::{as_signed32, bits_to_signed};

verus! {

/// The result type of the sync filter callbacks.
pub type CResult<T> = Result<T, CloudErrorKind>;

/// Predefined error types provided by the operating system.
#[derive(Debug, Clone, Copy, PartialEq, Eq, Structural)]
pub enum CloudErrorKind {
    /// Access to the cloud file is denied.
    AccessDenied,
    /// The cloud sync root is already connected with another cloud sync provider.
    AlreadyConnected,
    /// The cloud sync provider failed user authentication.
    AuthenticationFailed,
    /// The operation is reserved for a connected cloud sync provider.
    ConnectedProviderOnly,
    /// Dehydration of the cloud file is disallowed by the cloud sync provider.
    DehydrationDisallowed,
    /// The cloud operation cannot be performed on a file with incompatible hardlinks.
    IncompatibleHardlinks,
    /// The cloud sync provider failed to perform the operation due to low system resources.
    InsufficientResources,
    /// The cloud operation is invalid.
    InvalidRequest,
    /// The operation cannot be performed on cloud files in use.
    InUse,
    /// The cloud file metadata is corrupt and unreadable.
    MetadataCorrupt,
    /// The cloud file metadata is too large.
    MetadataTooLarge,
    /// The cloud sync provider failed to perform the operation due to network being unavailable.
    NetworkUnavailable,
    /// The file is not in sync with the cloud.
    NotInSync,
    /// The operation is not supported by the cloud sync provider.
    NotSupported,
    /// The operation is only supported on files under a cloud sync root.
    NotUnderSyncRoot,
    /// The operation cannot be performed on pinned cloud files.
    Pinned,
    /// The cloud file property is possibly corrupt. The on-disk checksum does not match the
    /// computed checksum.
    PropertyBlobChecksumMismatch,
    /// The cloud file property is too large.
    PropertyBlobTooLarge,
    /// The cloud file's property store is corrupt.
    PropertyCorrupt,
    /// The operation failed due to a conflicting cloud file property lock.
    PropertyLockConflict,
    /// The version of the cloud file property store is not supported.
    PropertyVersionNotSupported,
    /// The cloud file provider is not running.
    ProviderNotRunning,
    /// The cloud file provider exited unexpectedly.
    ProviderTerminated,
    /// The cloud operation is not supported on a read-only volume.
    ReadOnlyVolume,
    /// The cloud operation was aborted.
    RequestAborted,
    /// The cloud operation was canceled by user.
    RequestCancelled,
    /// The cloud operation was not completed before the time-out period expired.
    RequestTimeout,
    /// The cloud sync root metadata is corrupted.
    SyncRootMetadataCorrupt,
    /// The maximum number of cloud file properties has been reached.
    TooManyPropertyBlobs,
    /// The cloud operation was unsuccessful.
    Unsuccessful,
    /// The cloud sync provider failed to validate the downloaded data.
    ValidationFailed,
}

/// The `NTSTATUS` value, as an unsigned 32-bit pattern, that the platform
/// defines for each error kind (the `STATUS_CLOUD_FILE_*` family).
pub open spec fn ntstatus_bits(kind: CloudErrorKind) -> u32 {
    match kind {
        CloudErrorKind::AccessDenied => 0xC000CF18u32,
        CloudErrorKind::AlreadyConnected => 0xC000CF09u32,
        CloudErrorKind::AuthenticationFailed => 0xC000CF0Fu32,
        CloudErrorKind::ConnectedProviderOnly => 0xC000CF0Du32,
        CloudErrorKind::DehydrationDisallowed => 0xC000CF20u32,
        CloudErrorKind::IncompatibleHardlinks => 0xC000CF19u32,
        CloudErrorKind::InsufficientResources => 0xC000CF10u32,
        CloudErrorKind::InvalidRequest => 0xC000CF0Bu32,
        CloudErrorKind::InUse => 0xC000CF14u32,
        CloudErrorKind::MetadataCorrupt => 0xC000CF02u32,
        CloudErrorKind::MetadataTooLarge => 0xC000CF03u32,
        CloudErrorKind::NetworkUnavailable => 0xC000CF11u32,
        CloudErrorKind::NotInSync => 0xC000CF08u32,
        CloudErrorKind::NotSupported => 0xC000CF0Au32,
        CloudErrorKind::NotUnderSyncRoot => 0xC000CF13u32,
        CloudErrorKind::Pinned => 0xC000CF15u32,
        CloudErrorKind::PropertyBlobChecksumMismatch => 0x8000CF00u32,
        CloudErrorKind::PropertyBlobTooLarge => 0x8000CF04u32,
        CloudErrorKind::PropertyCorrupt => 0xC000CF17u32,
        CloudErrorKind::PropertyLockConflict => 0xC000CF1Au32,
        CloudErrorKind::PropertyVersionNotSupported => 0xC000CF06u32,
        CloudErrorKind::ProviderNotRunning => 0xC000CF01u32,
        CloudErrorKind::ProviderTerminated => 0xC000CF1Du32,
        CloudErrorKind::ReadOnlyVolume => 0xC000CF0Cu32,
        CloudErrorKind::RequestAborted => 0xC000CF16u32,
        CloudErrorKind::RequestCancelled => 0xC000CF1Bu32,
        CloudErrorKind::RequestTimeout => 0xC000CF1Fu32,
        CloudErrorKind::SyncRootMetadataCorrupt => 0xC000CF00u32,
        CloudErrorKind::TooManyPropertyBlobs => 0x8000CF05u32,
        CloudErrorKind::Unsuccessful => 0xC000CF12u32,
        CloudErrorKind::ValidationFailed => 0xC000CF0Eu32,
    }
}

/// The completion status that reports `kind` to the platform.
pub open spec fn ntstatus_of(kind: CloudErrorKind) -> i32 {
    as_signed32(ntstatus_bits(kind))
}

impl CloudErrorKind {
    /// The `NTSTATUS` completion code that reports this error to the platform.
    pub fn to_ntstatus(self) -> (status: i32)
        ensures
            status == ntstatus_of(self),
    {
        let bits: u32 = match self {
            CloudErrorKind::AccessDenied => 0xC000CF18u32,
            CloudErrorKind::AlreadyConnected => 0xC000CF09u32,
            CloudErrorKind::AuthenticationFailed => 0xC000CF0Fu32,
            CloudErrorKind::ConnectedProviderOnly => 0xC000CF0Du32,
            CloudErrorKind::DehydrationDisallowed => 0xC000CF20u32,
            CloudErrorKind::IncompatibleHardlinks => 0xC000CF19u32,
            CloudErrorKind::InsufficientResources => 0xC000CF10u32,
            CloudErrorKind::InvalidRequest => 0xC000CF0Bu32,
            CloudErrorKind::InUse => 0xC000CF14u32,
            CloudErrorKind::MetadataCorrupt => 0xC000CF02u32,
            CloudErrorKind::MetadataTooLarge => 0xC000CF03u32,
            CloudErrorKind::NetworkUnavailable => 0xC000CF11u32,
            CloudErrorKind::NotInSync => 0xC000CF08u32,
            CloudErrorKind::NotSupported => 0xC000CF0Au32,
            CloudErrorKind::NotUnderSyncRoot => 0xC000CF13u32,
            CloudErrorKind::Pinned => 0xC000CF15u32,
            CloudErrorKind::PropertyBlobChecksumMismatch => 0x8000CF00u32,
            CloudErrorKind::PropertyBlobTooLarge => 0x8000CF04u32,
            CloudErrorKind::PropertyCorrupt => 0xC000CF17u32,
            CloudErrorKind::PropertyLockConflict => 0xC000CF1Au32,
            CloudErrorKind::PropertyVersionNotSupported => 0xC000CF06u32,
            CloudErrorKind::ProviderNotRunning => 0xC000CF01u32,
            CloudErrorKind::ProviderTerminated => 0xC000CF1Du32,
            CloudErrorKind::ReadOnlyVolume => 0xC000CF0Cu32,
            CloudErrorKind::RequestAborted => 0xC000CF16u32,
            CloudErrorKind::RequestCancelled => 0xC000CF1Bu32,
            CloudErrorKind::RequestTimeout => 0xC000CF1Fu32,
            CloudErrorKind::SyncRootMetadataCorrupt => 0xC000CF00u32,
            CloudErrorKind::TooManyPropertyBlobs => 0x8000CF05u32,
            CloudErrorKind::Unsuccessful => 0xC000CF12u32,
            CloudErrorKind::ValidationFailed => 0xC000CF0Eu32,
        };
        bits_to_signed(bits)
    }
}

/// Distinct error kinds are reported with distinct completion codes, so the
/// platform can always tell which error a sync provider meant.
pub proof fn lemma_ntstatus_injective(a: CloudErrorKind, b: CloudErrorKind)
    requires
        a != b,
    ensures
        ntstatus_of(a) != ntstatus_of(b),
{
}

/// Every completion code that reports an error is negative (an error or a
/// warning severity) and lies in the platform's cloud-file range `0x..00CFxx`.
pub proof fn lemma_ntstatus_is_cloud_failure(kind: CloudErrorKind)
    ensures
        ntstatus_of(kind) < 0,
        ntstatus_bits(kind) % 0x1_0000 / 0x100 == 0xCF,
{
}

} // verus!
