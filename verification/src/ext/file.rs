use vstd::prelude::*;

use crate::layout::{copy_counted, counted_bytes, le_i32, le_i64, le_u16_array, le_u32, read_i32, read_i64, read_u16_array, read_u32};
use crate::utility::{prefix_before_nul, truncate_at_nul, RangeBound};

verus! {

/// `CF_DEHYDRATE_FLAG_BACKGROUND`.
pub const DEHYDRATE_FLAG_BACKGROUND: u32 = 0x1;

/// The first offset of a range that starts at `bound` (an excluded start
/// saturates at `u64::MAX`).
pub open spec fn range_first(bound: RangeBound) -> u64 {
    match bound {
        RangeBound::Included(x) => x,
        RangeBound::Excluded(x) => if x == u64::MAX { x } else { (x + 1) as u64 },
        RangeBound::Unbounded => 0,
    }
}

/// The offset just past a range that ends at `bound`, where it has an end (an
/// included end saturates at `u64::MAX`).
pub open spec fn range_past_end(bound: RangeBound) -> u64 {
    match bound {
        RangeBound::Included(x) => if x == u64::MAX { x } else { (x + 1) as u64 },
        RangeBound::Excluded(x) => x,
        RangeBound::Unbounded => u64::MAX,
    }
}

/// The last offset of a range that ends at `bound`, where it has an end (an
/// excluded end of 0 saturates at 0).
pub open spec fn range_last(bound: RangeBound) -> u64 {
    match bound {
        RangeBound::Included(x) => x,
        RangeBound::Excluded(x) => if x == 0 { 0 } else { (x - 1) as u64 },
        RangeBound::Unbounded => u64::MAX,
    }
}

/// The starting offset that `CfDehydratePlaceholder` gets for a range that
/// starts at `bound`: its first offset, read as a signed value.
pub open spec fn dehydrate_start(bound: RangeBound) -> i64 {
    range_first(bound) as i64
}

/// The length that `CfDehydratePlaceholder` gets for the range from `start`
/// to `end`, read as a signed value: -1 (to the end of the file) when the
/// range has no end, the number of bytes in it when it has one, and its last
/// offset when it ends before it starts.
pub open spec fn dehydrate_length(start: RangeBound, end: RangeBound) -> i64 {
    match end {
        RangeBound::Unbounded => -1i64,
        _ => if range_first(start) <= range_past_end(end) {
            (range_past_end(end) - range_first(start)) as i64
        } else {
            range_last(end) as i64
        },
    }
}

/// A range with an end has a finite length, the number of bytes from its
/// first offset `first` up to the offset `past` just past it: a missing start
/// counts from 0, an excluded start from the offset after it, an included end
/// ends just past it. Only a range with no end gets -1 (to the end of the
/// file).
pub proof fn lemma_dehydrate_length_counts_bytes(
    start: RangeBound,
    end: RangeBound,
    first: u64,
    past: u64,
)
    requires
        start == RangeBound::Unbounded && first == 0 || start == RangeBound::Included(first) || (
        start matches RangeBound::Excluded(x) && first == x + 1),
        end == RangeBound::Excluded(past) || (end matches RangeBound::Included(y) && past == y + 1),
        first <= past,
        past - first <= i64::MAX,
    ensures
        dehydrate_length(start, end) == past - first,
        dehydrate_length(start, end) >= 0,
        dehydrate_length(start, RangeBound::Unbounded) == -1,
{
}

/// The arguments of `CfDehydratePlaceholder` for the range `start..end`: the
/// starting offset, the length, and the flags, which ask for a background
/// dehydration when `background` is set and for one on behalf of the
/// logged-in user otherwise.
pub fn dehydrate_arguments(start: RangeBound, end: RangeBound, background: bool) -> (r: (
    i64,
    i64,
    u32,
))
    ensures
        r.0 == dehydrate_start(start),
        r.1 == dehydrate_length(start, end),
        r.2 == if background { DEHYDRATE_FLAG_BACKGROUND } else { 0 },
{
    let first: u64 = match start {
        RangeBound::Included(x) => x,
        RangeBound::Excluded(x) => x.saturating_add(1),
        RangeBound::Unbounded => 0,
    };
    let length: i64 = match end {
        RangeBound::Unbounded => -1,
        RangeBound::Included(x) => {
            let past: u64 = x.saturating_add(1);
            if first <= past {
                (past - first) as i64
            } else {
                x as i64
            }
        },
        RangeBound::Excluded(x) => {
            if first <= x {
                (x - first) as i64
            } else {
                x.saturating_sub(1) as i64
            }
        },
    };
    let flags: u32 = if background {
        DEHYDRATE_FLAG_BACKGROUND
    } else {
        0
    };
    (first as i64, length, flags)
}

/// Sync provider status.
#[derive(Debug, Clone, Copy, PartialEq, Eq, Structural)]
pub enum ProviderStatus {
    /// The sync provider is disconnected.
    Disconnected,
    /// The sync provider is idle.
    Idle,
    /// The sync provider is populating a namespace.
    PopulateNamespace,
    /// The sync provider is populating placeholder metadata.
    PopulateMetadata,
    /// The sync provider is populating placeholder content.
    PopulateContent,
    /// The sync provider is incrementally syncing placeholder content.
    SyncIncremental,
    /// The sync provider has fully synced placeholder data.
    SyncFull,
    /// The sync provider has lost connectivity.
    ConnectivityLost,
    /// The sync provider has been terminated.
    Terminated,
    /// The sync provider had an error.
    Error,
}

/// The `CF_SYNC_PROVIDER_STATUS` value of each status.
pub open spec fn provider_status_code(status: ProviderStatus) -> u32 {
    match status {
        ProviderStatus::Disconnected => 0x0,
        ProviderStatus::Idle => 0x1,
        ProviderStatus::PopulateNamespace => 0x2,
        ProviderStatus::PopulateMetadata => 0x4,
        ProviderStatus::PopulateContent => 0x8,
        ProviderStatus::SyncIncremental => 0x10,
        ProviderStatus::SyncFull => 0x20,
        ProviderStatus::ConnectivityLost => 0x40,
        ProviderStatus::Terminated => 0xC000_0001,
        ProviderStatus::Error => 0xC000_0002,
    }
}

/// The `CF_SYNC_PROVIDER_STATUS` values this enumeration reads.
pub open spec fn is_provider_status_code(code: u32) -> bool {
    code == 0x0 || code == 0x1 || code == 0x2 || code == 0x4 || code == 0x8 || code == 0x10
        || code == 0x20 || code == 0x40 || code == 0xC000_0001 || code == 0xC000_0002
}

/// The status a `CF_SYNC_PROVIDER_STATUS` value stands for.
pub open spec fn provider_status_of(code: u32) -> ProviderStatus {
    if code == 0x0 {
        ProviderStatus::Disconnected
    } else if code == 0x1 {
        ProviderStatus::Idle
    } else if code == 0x2 {
        ProviderStatus::PopulateNamespace
    } else if code == 0x4 {
        ProviderStatus::PopulateMetadata
    } else if code == 0x8 {
        ProviderStatus::PopulateContent
    } else if code == 0x10 {
        ProviderStatus::SyncIncremental
    } else if code == 0x20 {
        ProviderStatus::SyncFull
    } else if code == 0x40 {
        ProviderStatus::ConnectivityLost
    } else if code == 0xC000_0001 {
        ProviderStatus::Terminated
    } else {
        ProviderStatus::Error
    }
}

impl ProviderStatus {
    /// The `CF_SYNC_PROVIDER_STATUS` value of this status.
    pub fn to_code(self) -> (r: u32)
        ensures
            r == provider_status_code(self),
    {
        match self {
            ProviderStatus::Disconnected => 0x0,
            ProviderStatus::Idle => 0x1,
            ProviderStatus::PopulateNamespace => 0x2,
            ProviderStatus::PopulateMetadata => 0x4,
            ProviderStatus::PopulateContent => 0x8,
            ProviderStatus::SyncIncremental => 0x10,
            ProviderStatus::SyncFull => 0x20,
            ProviderStatus::ConnectivityLost => 0x40,
            ProviderStatus::Terminated => 0xC000_0001,
            ProviderStatus::Error => 0xC000_0002,
        }
    }

    /// The status of a `CF_SYNC_PROVIDER_STATUS` value; the value must be one
    /// this enumeration reads.
    pub fn from_code(code: u32) -> (r: ProviderStatus)
        requires
            is_provider_status_code(code),
        ensures
            r == provider_status_of(code),
    {
        if code == 0x0 {
            ProviderStatus::Disconnected
        } else if code == 0x1 {
            ProviderStatus::Idle
        } else if code == 0x2 {
            ProviderStatus::PopulateNamespace
        } else if code == 0x4 {
            ProviderStatus::PopulateMetadata
        } else if code == 0x8 {
            ProviderStatus::PopulateContent
        } else if code == 0x10 {
            ProviderStatus::SyncIncremental
        } else if code == 0x20 {
            ProviderStatus::SyncFull
        } else if code == 0x40 {
            ProviderStatus::ConnectivityLost
        } else if code == 0xC000_0001 {
            ProviderStatus::Terminated
        } else {
            ProviderStatus::Error
        }
    }
}

/// Writing a status and reading it back gives the same status, and every
/// value the platform defines is the encoding of the status it reads as.
pub proof fn lemma_provider_status_round_trip(status: ProviderStatus, code: u32)
    ensures
        is_provider_status_code(provider_status_code(status)),
        provider_status_of(provider_status_code(status)) == status,
        is_provider_status_code(code) ==> provider_status_code(provider_status_of(code)) == code,
{
}

/// The size of `CF_SYNC_ROOT_STANDARD_INFO`, the fixed part of the block that
/// `CfGetSyncRootInfoByHandle` fills in, padded to its alignment; the register
/// blob extends it.
pub const SYNC_ROOT_STANDARD_INFO_SIZE: usize = 1064;

/// The offset of the `SyncRootIdentityLength` field, the blob's length.
pub const SYNC_ROOT_IDENTITY_LENGTH_OFFSET: usize = 1052;

/// The offset of the `SyncRootIdentity` field, where the blob starts.
pub const SYNC_ROOT_IDENTITY_OFFSET: usize = 1056;

/// The number of UTF-16 units of the name and of the version fields.
pub const SYNC_ROOT_NAME_UNITS: usize = 256;

/// What a `CF_SYNC_ROOT_STANDARD_INFO` block says of a sync root.
pub ghost struct SyncRootInfoView {
    pub sync_root_file_id: i64,
    pub hardlink_policy: i32,
    pub provider_status: u32,
    pub provider_name: Seq<u16>,
    pub provider_version: Seq<u16>,
    pub blob: Seq<u8>,
}

/// The fields of a `CF_SYNC_ROOT_STANDARD_INFO` block, at the offsets of the
/// platform's (C) layout; the blob is the `SyncRootIdentity` field, as long as
/// `SyncRootIdentityLength` says, or as much of it as the block holds.
pub open spec fn decode_sync_root_info(data: Seq<u8>) -> SyncRootInfoView {
    SyncRootInfoView {
        sync_root_file_id: le_i64(data, 0),
        hardlink_policy: le_i32(data, 20),
        provider_status: le_u32(data, 24),
        provider_name: le_u16_array(data, 28, SYNC_ROOT_NAME_UNITS as nat),
        provider_version: le_u16_array(data, 540, SYNC_ROOT_NAME_UNITS as nat),
        blob: counted_bytes(
            data,
            SYNC_ROOT_IDENTITY_OFFSET as int,
            le_u32(data, SYNC_ROOT_IDENTITY_LENGTH_OFFSET as int) as int,
        ),
    }
}

/// `CF_HARDLINK_POLICY_ALLOWED`.
pub const HARDLINK_POLICY_ALLOWED: i32 = 1;

/// Information about a sync root.
#[derive(Debug, Clone)]
pub struct SyncRootInfo {
    sync_root_file_id: i64,
    hardlink_policy: i32,
    provider_status: u32,
    provider_name: Vec<u16>,
    provider_version: Vec<u16>,
    blob: Vec<u8>,
}

impl View for SyncRootInfo {
    type V = SyncRootInfoView;

    closed spec fn view(&self) -> SyncRootInfoView {
        SyncRootInfoView {
            sync_root_file_id: self.sync_root_file_id,
            hardlink_policy: self.hardlink_policy,
            provider_status: self.provider_status,
            provider_name: self.provider_name@,
            provider_version: self.provider_version@,
            blob: self.blob@,
        }
    }
}

impl SyncRootInfo {
    /// Reads the block that `CfGetSyncRootInfoByHandle` filled in; the block
    /// must hold at least its fixed part.
    pub fn from_bytes(data: &[u8]) -> (r: SyncRootInfo)
        requires
            data@.len() >= SYNC_ROOT_STANDARD_INFO_SIZE,
        ensures
            r@ == decode_sync_root_info(data@),
    {
        SyncRootInfo {
            sync_root_file_id: read_i64(data, 0),
            hardlink_policy: read_i32(data, 20),
            provider_status: read_u32(data, 24),
            provider_name: read_u16_array(data, 28, SYNC_ROOT_NAME_UNITS),
            provider_version: read_u16_array(data, 540, SYNC_ROOT_NAME_UNITS),
            blob: copy_counted(
                data,
                SYNC_ROOT_IDENTITY_OFFSET,
                read_u32(data, SYNC_ROOT_IDENTITY_LENGTH_OFFSET),
            ),
        }
    }

    /// The file ID of the sync root.
    pub fn file_id(&self) -> (r: u64)
        ensures
            r == self@.sync_root_file_id as u64,
    {
        self.sync_root_file_id as u64
    }

    /// Whether or not hardlinks are allowed by the sync root.
    pub fn hardlinks_allowed(&self) -> (r: bool)
        ensures
            r == (self@.hardlink_policy == HARDLINK_POLICY_ALLOWED),
    {
        self.hardlink_policy == HARDLINK_POLICY_ALLOWED
    }

    /// The `CF_SYNC_PROVIDER_STATUS` value the platform reported.
    pub fn raw_status(&self) -> (r: u32)
        ensures
            r == self@.provider_status,
    {
        self.provider_status
    }

    /// The status of the sync provider; the platform must have reported a
    /// status this enumeration reads.
    pub fn status(&self) -> (r: ProviderStatus)
        requires
            is_provider_status_code(self@.provider_status),
        ensures
            r == provider_status_of(self@.provider_status),
    {
        ProviderStatus::from_code(self.provider_status)
    }

    /// The name of the sync provider: the name field up to its first nul,
    /// which the field must hold.
    pub fn provider_name(&self) -> (r: Vec<u16>)
        requires
            truncate_at_nul(self@.provider_name) is Some,
        ensures
            truncate_at_nul(self@.provider_name) == Some(r@),
    {
        match prefix_before_nul(self.provider_name.as_slice()) {
            Some(name) => name,
            None => Vec::new(),
        }
    }

    /// The version of the sync provider: the version field up to its first
    /// nul, which the field must hold.
    pub fn version(&self) -> (r: Vec<u16>)
        requires
            truncate_at_nul(self@.provider_version) is Some,
        ensures
            truncate_at_nul(self@.provider_version) == Some(r@),
    {
        match prefix_before_nul(self.provider_version.as_slice()) {
            Some(version) => version,
            None => Vec::new(),
        }
    }

    /// The register blob associated with the sync root.
    pub fn blob(&self) -> (r: &[u8])
        ensures
            r@ == self@.blob,
    {
        self.blob.as_slice()
    }
}

} // verus!
