use vstd::prelude::*;

use crate::layout::{copy_counted, counted_bytes, le_i32, le_i64, le_u32, read_i32, read_i64, read_u32};
use crate::metadata::Metadata;
use crate::utility::{
    win32_error_to_hresult, win32_hresult, RangeBound, ERROR_NOT_A_CLOUD_FILE,
};

verus! {

/// The type of handle that the placeholder file/directory owns.
#[derive(Debug, Clone, Copy, PartialEq, Eq, Structural)]
pub enum PlaceholderHandleType {
    /// A handle that was opened with `CfOpenFileWithOplock`.
    CfApi,
    /// A handle that was opened with `CreateFile` etc.
    Win32,
}

/// The `HRESULT` `E_HANDLE`, reported when a Win32 handle is asked of a
/// handle that is not protected.
pub const E_HANDLE: i32 = -2147024890i32;

impl PlaceholderHandleType {
    /// Whether a Win32 handle may be taken from a handle of this type: only a
    /// protected (`CfApi`) handle has one; for the other the answer is
    /// `Err(E_HANDLE)`.
    pub fn win32_handle_access(&self) -> (r: Result<(), i32>)
        ensures
            *self is CfApi ==> r is Ok,
            *self is Win32 ==> r == Err::<(), i32>(E_HANDLE),
    {
        match self {
            PlaceholderHandleType::CfApi => Ok(()),
            PlaceholderHandleType::Win32 => Err(E_HANDLE),
        }
    }
}

/// The pin state of a placeholder.
///
/// [Read more
/// here](https://docs.microsoft.com/en-us/windows/win32/api/cfapi/ne-cfapi-cf_pin_state#remarks)
#[derive(Debug, Clone, Copy, PartialEq, Eq, Structural)]
pub enum PinState {
    /// The platform could decide freely.
    Unspecified,
    /// The rest of the placeholder's data will be fetched; any dehydration
    /// requests will fail automatically.
    Pinned,
    /// The rest of the placeholder's data will be dehydrated.
    Unpinned,
    /// The placeholder will never sync to the cloud.
    Excluded,
    /// The placeholder will inherit the parent placeholder's pin state.
    Inherit,
}

/// The `CF_PIN_STATE` code of each pin state.
pub open spec fn pin_state_code(state: PinState) -> i32 {
    match state {
        PinState::Unspecified => 0,
        PinState::Pinned => 1,
        PinState::Unpinned => 2,
        PinState::Excluded => 3,
        PinState::Inherit => 4,
    }
}

/// The `CF_PIN_STATE` codes that the platform defines.
pub open spec fn is_pin_state_code(code: i32) -> bool {
    0 <= code <= 4
}

/// The pin state that a `CF_PIN_STATE` code stands for.
pub open spec fn pin_state_of_code(code: i32) -> PinState {
    if code == 0 {
        PinState::Unspecified
    } else if code == 1 {
        PinState::Pinned
    } else if code == 2 {
        PinState::Unpinned
    } else if code == 3 {
        PinState::Excluded
    } else {
        PinState::Inherit
    }
}

impl PinState {
    /// The `CF_PIN_STATE` code of this pin state.
    pub fn to_code(self) -> (r: i32)
        ensures
            r == pin_state_code(self),
    {
        match self {
            PinState::Unspecified => 0,
            PinState::Pinned => 1,
            PinState::Unpinned => 2,
            PinState::Excluded => 3,
            PinState::Inherit => 4,
        }
    }

    /// The pin state of a `CF_PIN_STATE` code; the code must be one that the
    /// platform defines.
    pub fn from_code(code: i32) -> (r: PinState)
        requires
            is_pin_state_code(code),
        ensures
            r == pin_state_of_code(code),
    {
        if code == 0 {
            PinState::Unspecified
        } else if code == 1 {
            PinState::Pinned
        } else if code == 2 {
            PinState::Unpinned
        } else if code == 3 {
            PinState::Excluded
        } else {
            PinState::Inherit
        }
    }
}

/// Encoding a pin state and decoding the code gives the same pin state back,
/// and every defined code is the encoding of the state it decodes to.
pub proof fn lemma_pin_state_round_trip(state: PinState, code: i32)
    ensures
        is_pin_state_code(pin_state_code(state)),
        pin_state_of_code(pin_state_code(state)) == state,
        is_pin_state_code(code) ==> pin_state_code(pin_state_of_code(code)) == code,
{
}

/// `CF_SET_PIN_FLAG_RECURSE`.
pub const SET_PIN_FLAG_RECURSE: u32 = 0x1;
/// `CF_SET_PIN_FLAG_RECURSE_ONLY`.
pub const SET_PIN_FLAG_RECURSE_ONLY: u32 = 0x2;
/// `CF_SET_PIN_FLAG_RECURSE_STOP_ON_ERROR`.
pub const SET_PIN_FLAG_RECURSE_STOP_ON_ERROR: u32 = 0x4;

/// The placeholder pin flags.
#[derive(Debug, Clone, Copy)]
pub struct PinOptions {
    flags: u32,
}

impl PinOptions {
    /// The `CF_SET_PIN_FLAGS` bits.
    pub closed spec fn spec_flags(&self) -> u32 {
        self.flags
    }

    /// The `CF_SET_PIN_FLAGS` bits to hand to the platform.
    pub fn flags(&self) -> (r: u32)
        ensures
            r == self.spec_flags(),
    {
        self.flags
    }

    /// Applies the pin state to all descendants of the placeholder (if the placeholder is a
    /// directory).
    pub fn recurse(&mut self) -> (r: &mut Self)
        ensures
            r.spec_flags() == old(self).spec_flags() | SET_PIN_FLAG_RECURSE,
            *final(self) == *final(r),
    {
        self.flags = self.flags | SET_PIN_FLAG_RECURSE;
        self
    }

    /// Applies the pin state to all descendants of the placeholder excluding the current one (if
    /// the placeholder is a directory).
    pub fn recurse_children(&mut self) -> (r: &mut Self)
        ensures
            r.spec_flags() == old(self).spec_flags() | SET_PIN_FLAG_RECURSE_ONLY,
            *final(self) == *final(r),
    {
        self.flags = self.flags | SET_PIN_FLAG_RECURSE_ONLY;
        self
    }

    /// Stop applying the pin state when the first error is encountered. Otherwise, skip over it
    /// and keep applying.
    pub fn stop_on_error(&mut self) -> (r: &mut Self)
        ensures
            r.spec_flags() == old(self).spec_flags() | SET_PIN_FLAG_RECURSE_STOP_ON_ERROR,
            *final(self) == *final(r),
    {
        self.flags = self.flags | SET_PIN_FLAG_RECURSE_STOP_ON_ERROR;
        self
    }
}

impl Default for PinOptions {
    fn default() -> (r: Self)
        ensures
            r.spec_flags() == 0,
    {
        PinOptions { flags: 0 }
    }
}

/// The largest file identity (blob) that the platform stores with a placeholder, in bytes.
pub const PLACEHOLDER_MAX_FILE_IDENTITY_LENGTH: usize = 4096;

/// `CF_CONVERT_FLAG_MARK_IN_SYNC`.
pub const CONVERT_FLAG_MARK_IN_SYNC: u32 = 0x1;
/// `CF_CONVERT_FLAG_DEHYDRATE`.
pub const CONVERT_FLAG_DEHYDRATE: u32 = 0x2;
/// `CF_CONVERT_FLAG_ENABLE_ON_DEMAND_POPULATION`.
pub const CONVERT_FLAG_ENABLE_ON_DEMAND_POPULATION: u32 = 0x4;
/// `CF_CONVERT_FLAG_ALWAYS_FULL`.
pub const CONVERT_FLAG_ALWAYS_FULL: u32 = 0x8;
/// `CF_CONVERT_FLAG_FORCE_CONVERT_TO_CLOUD_FILE`.
pub const CONVERT_FLAG_FORCE_CONVERT_TO_CLOUD_FILE: u32 = 0x10;

/// File to placeholder file conversion parameters.
#[derive(Debug, Clone)]
pub struct ConvertOptions {
    flags: u32,
    blob: Vec<u8>,
}

impl ConvertOptions {
    /// The `CF_CONVERT_FLAGS` bits.
    pub closed spec fn spec_flags(&self) -> u32 {
        self.flags
    }

    /// The file identity stored with the placeholder.
    pub closed spec fn spec_blob(&self) -> Seq<u8> {
        self.blob@
    }

    /// The `CF_CONVERT_FLAGS` bits to hand to the platform.
    pub fn flags(&self) -> (r: u32)
        ensures
            r == self.spec_flags(),
    {
        self.flags
    }

    /// The file identity to hand to the platform (empty when none was given).
    pub fn blob_bytes(&self) -> (r: &[u8])
        ensures
            r@ == self.spec_blob(),
    {
        self.blob.as_slice()
    }

    /// Marks a placeholder as in sync.
    ///
    /// See also
    /// [SetInSyncState](https://learn.microsoft.com/en-us/windows/win32/api/cfapi/nf-cfapi-cfsetinsyncstate),
    /// [What does "In-Sync" Mean?](https://www.userfilesystem.com/programming/faq/#nav_whatdoesin-syncmean)
    pub fn mark_in_sync(self) -> (r: Self)
        ensures
            r.spec_flags() == self.spec_flags() | CONVERT_FLAG_MARK_IN_SYNC,
            r.spec_blob() == self.spec_blob(),
    {
        ConvertOptions { flags: self.flags | CONVERT_FLAG_MARK_IN_SYNC, blob: self.blob }
    }

    /// Dehydrate the placeholder after conversion.
    ///
    /// This flag is only applicable to files.
    pub fn dehydrate(self) -> (r: Self)
        ensures
            r.spec_flags() == self.spec_flags() | CONVERT_FLAG_DEHYDRATE,
            r.spec_blob() == self.spec_blob(),
    {
        ConvertOptions { flags: self.flags | CONVERT_FLAG_DEHYDRATE, blob: self.blob }
    }

    /// Marks the placeholder as "partially full", so that the remaining
    /// placeholders are fetched when this directory is next accessed.
    ///
    /// Only applicable to placeholder directories.
    pub fn has_children(self) -> (r: Self)
        ensures
            r.spec_flags() == self.spec_flags() | CONVERT_FLAG_ENABLE_ON_DEMAND_POPULATION,
            r.spec_blob() == self.spec_blob(),
    {
        ConvertOptions {
            flags: self.flags | CONVERT_FLAG_ENABLE_ON_DEMAND_POPULATION,
            blob: self.blob,
        }
    }

    /// Blocks this placeholder from being dehydrated.
    ///
    /// This flag does not work on directories.
    pub fn block_dehydration(self) -> (r: Self)
        ensures
            r.spec_flags() == self.spec_flags() | CONVERT_FLAG_ALWAYS_FULL,
            r.spec_blob() == self.spec_blob(),
    {
        ConvertOptions { flags: self.flags | CONVERT_FLAG_ALWAYS_FULL, blob: self.blob }
    }

    /// Forces the conversion of a non-cloud placeholder file to a cloud placeholder file.
    ///
    /// Placeholder files are built into the NTFS file system and thus, a placeholder not associated
    /// with the sync root is possible.
    pub fn force(self) -> (r: Self)
        ensures
            r.spec_flags() == self.spec_flags() | CONVERT_FLAG_FORCE_CONVERT_TO_CLOUD_FILE,
            r.spec_blob() == self.spec_blob(),
    {
        ConvertOptions {
            flags: self.flags | CONVERT_FLAG_FORCE_CONVERT_TO_CLOUD_FILE,
            blob: self.blob,
        }
    }

    /// A buffer of bytes stored with the file.
    ///
    /// The buffer must not exceed
    /// [4KiB](https://microsoft.github.io/windows-docs-rs/doc/windows/Win32/Storage/CloudFilters/constant.CF_PLACEHOLDER_MAX_FILE_IDENTITY_LENGTH.html).
    pub fn blob(self, blob: Vec<u8>) -> (r: Self)
        requires
            blob@.len() <= PLACEHOLDER_MAX_FILE_IDENTITY_LENGTH,
        ensures
            r.spec_flags() == self.spec_flags(),
            r.spec_blob() == blob@,
    {
        ConvertOptions { flags: self.flags, blob }
    }
}

impl Default for ConvertOptions {
    fn default() -> (r: Self)
        ensures
            r.spec_flags() == 0,
            r.spec_blob() == Seq::<u8>::empty(),
    {
        ConvertOptions { flags: 0, blob: Vec::new() }
    }
}

/// The size of `CF_PLACEHOLDER_STANDARD_INFO`, the fixed part of the block
/// that `CfGetPlaceholderInfo` fills in, padded to its alignment; the
/// placeholder's blob extends it.
pub const PLACEHOLDER_STANDARD_INFO_SIZE: usize = 64;

/// The offset of the `FileIdentityLength` field, the blob's length.
pub const PLACEHOLDER_IDENTITY_LENGTH_OFFSET: usize = 56;

/// The offset of the `FileIdentity` field, where the blob starts.
pub const PLACEHOLDER_IDENTITY_OFFSET: usize = 60;

/// What a `CF_PLACEHOLDER_STANDARD_INFO` block says of a placeholder.
pub ghost struct PlaceholderInfoView {
    pub on_disk_data_size: i64,
    pub validated_data_size: i64,
    pub modified_data_size: i64,
    pub properties_size: i64,
    pub pin_state: i32,
    pub in_sync_state: i32,
    pub file_id: i64,
    pub sync_root_file_id: i64,
    pub blob: Seq<u8>,
}

/// The fields that a `CF_PLACEHOLDER_STANDARD_INFO` block holds, read at the
/// offsets of the platform's (C) layout; the blob is the `FileIdentity` field,
/// as long as `FileIdentityLength` says, or as much of it as the block holds.
pub open spec fn decode_placeholder_info(data: Seq<u8>) -> PlaceholderInfoView {
    PlaceholderInfoView {
        on_disk_data_size: le_i64(data, 0),
        validated_data_size: le_i64(data, 8),
        modified_data_size: le_i64(data, 16),
        properties_size: le_i64(data, 24),
        pin_state: le_i32(data, 32),
        in_sync_state: le_i32(data, 36),
        file_id: le_i64(data, 40),
        sync_root_file_id: le_i64(data, 48),
        blob: counted_bytes(
            data,
            PLACEHOLDER_IDENTITY_OFFSET as int,
            le_u32(data, PLACEHOLDER_IDENTITY_LENGTH_OFFSET as int) as int,
        ),
    }
}

/// Information about a placeholder, as the platform reported it.
#[derive(Debug, Clone)]
pub struct PlaceholderInfo {
    on_disk_data_size: i64,
    validated_data_size: i64,
    modified_data_size: i64,
    properties_size: i64,
    pin_state: i32,
    in_sync_state: i32,
    file_id: i64,
    sync_root_file_id: i64,
    blob: Vec<u8>,
}

impl View for PlaceholderInfo {
    type V = PlaceholderInfoView;

    closed spec fn view(&self) -> PlaceholderInfoView {
        PlaceholderInfoView {
            on_disk_data_size: self.on_disk_data_size,
            validated_data_size: self.validated_data_size,
            modified_data_size: self.modified_data_size,
            properties_size: self.properties_size,
            pin_state: self.pin_state,
            in_sync_state: self.in_sync_state,
            file_id: self.file_id,
            sync_root_file_id: self.sync_root_file_id,
            blob: self.blob@,
        }
    }
}

/// The number of bytes to hand to `CfGetPlaceholderInfo` for a placeholder
/// whose blob holds `blob_size` bytes.
pub fn placeholder_info_buffer_len(blob_size: usize) -> (r: usize)
    requires
        blob_size + PLACEHOLDER_STANDARD_INFO_SIZE <= usize::MAX,
    ensures
        r == PLACEHOLDER_STANDARD_INFO_SIZE + blob_size,
{
    PLACEHOLDER_STANDARD_INFO_SIZE + blob_size
}

impl PlaceholderInfo {
    /// Reads the block that `CfGetPlaceholderInfo` filled in; the block must
    /// hold at least its fixed part.
    pub fn from_bytes(data: &[u8]) -> (r: PlaceholderInfo)
        requires
            data@.len() >= PLACEHOLDER_STANDARD_INFO_SIZE,
        ensures
            r@ == decode_placeholder_info(data@),
    {
        PlaceholderInfo {
            on_disk_data_size: read_i64(data, 0),
            validated_data_size: read_i64(data, 8),
            modified_data_size: read_i64(data, 16),
            properties_size: read_i64(data, 24),
            pin_state: read_i32(data, 32),
            in_sync_state: read_i32(data, 36),
            file_id: read_i64(data, 40),
            sync_root_file_id: read_i64(data, 48),
            blob: copy_counted(
                data,
                PLACEHOLDER_IDENTITY_OFFSET,
                read_u32(data, PLACEHOLDER_IDENTITY_LENGTH_OFFSET),
            ),
        }
    }

    /// What a call of `CfGetPlaceholderInfo` amounts to: the decoded block
    /// when it succeeded, `None` when the file is not a placeholder
    /// (`ERROR_NOT_A_CLOUD_FILE`), and the failure otherwise.
    pub fn from_query(call: Result<(), i32>, data: &[u8]) -> (r: Result<Option<PlaceholderInfo>, i32>)
        requires
            call is Ok ==> data@.len() >= PLACEHOLDER_STANDARD_INFO_SIZE,
        ensures
            match call {
                Ok(()) => match r {
                    Ok(Some(info)) => info@ == decode_placeholder_info(data@),
                    _ => false,
                },
                Err(code) => if code == win32_hresult(ERROR_NOT_A_CLOUD_FILE) {
                    r matches Ok(None)
                } else {
                    r == Err::<Option<PlaceholderInfo>, i32>(code)
                },
            },
    {
        match call {
            Ok(()) => Ok(Some(PlaceholderInfo::from_bytes(data))),
            Err(code) => {
                if code == win32_error_to_hresult(ERROR_NOT_A_CLOUD_FILE) {
                    Ok(None)
                } else {
                    Err(code)
                }
            },
        }
    }

    /// The number of bytes of the placeholder's content that are on disk.
    pub fn on_disk_data_size(&self) -> (r: i64)
        ensures
            r == self@.on_disk_data_size,
    {
        self.on_disk_data_size
    }

    /// The number of bytes of the placeholder's content that are in sync with the cloud.
    pub fn validated_data_size(&self) -> (r: i64)
        ensures
            r == self@.validated_data_size,
    {
        self.validated_data_size
    }

    /// The number of bytes of the placeholder's content that were modified locally.
    pub fn modified_data_size(&self) -> (r: i64)
        ensures
            r == self@.modified_data_size,
    {
        self.modified_data_size
    }

    /// The size of the placeholder's properties.
    pub fn properties_size(&self) -> (r: i64)
        ensures
            r == self@.properties_size,
    {
        self.properties_size
    }

    /// The pin state of the placeholder; the platform must have reported a
    /// defined pin state.
    pub fn pin_state(&self) -> (r: PinState)
        requires
            is_pin_state_code(self@.pin_state),
        ensures
            r == pin_state_of_code(self@.pin_state),
    {
        PinState::from_code(self.pin_state)
    }

    /// Whether the placeholder is in sync (`CF_IN_SYNC_STATE_IN_SYNC`).
    pub fn is_in_sync(&self) -> (r: bool)
        ensures
            r == (self@.in_sync_state == IN_SYNC_STATE_IN_SYNC),
    {
        self.in_sync_state == IN_SYNC_STATE_IN_SYNC
    }

    /// The NTFS file ID of the placeholder.
    pub fn file_id(&self) -> (r: i64)
        ensures
            r == self@.file_id,
    {
        self.file_id
    }

    /// The NTFS file ID of the sync root the placeholder is in.
    pub fn sync_root_file_id(&self) -> (r: i64)
        ensures
            r == self@.sync_root_file_id,
    {
        self.sync_root_file_id
    }

    /// The blob stored with the placeholder, its file identity.
    pub fn blob(&self) -> (r: &[u8])
        ensures
            r@ == self@.blob,
    {
        self.blob.as_slice()
    }
}

/// `CF_IN_SYNC_STATE_NOT_IN_SYNC`.
pub const IN_SYNC_STATE_NOT_IN_SYNC: i32 = 0;
/// `CF_IN_SYNC_STATE_IN_SYNC`.
pub const IN_SYNC_STATE_IN_SYNC: i32 = 1;

/// The `CF_IN_SYNC_STATE` code that marks a placeholder as in sync or not.
pub fn in_sync_state(in_sync: bool) -> (r: i32)
    ensures
        r == if in_sync { IN_SYNC_STATE_IN_SYNC } else { IN_SYNC_STATE_NOT_IN_SYNC },
{
    if in_sync {
        IN_SYNC_STATE_IN_SYNC
    } else {
        IN_SYNC_STATE_NOT_IN_SYNC
    }
}

/// A range of a placeholder's content, as `CF_FILE_RANGE` describes it.
#[derive(Debug, Clone, Copy, PartialEq, Eq, Structural)]
pub struct FileRange {
    /// The offset of the first byte.
    pub starting_offset: i64,
    /// The number of bytes.
    pub length: i64,
}

/// `CF_UPDATE_FLAG_VERIFY_IN_SYNC`.
pub const UPDATE_FLAG_VERIFY_IN_SYNC: u32 = 0x1;
/// `CF_UPDATE_FLAG_MARK_IN_SYNC`.
pub const UPDATE_FLAG_MARK_IN_SYNC: u32 = 0x2;
/// `CF_UPDATE_FLAG_DEHYDRATE`.
pub const UPDATE_FLAG_DEHYDRATE: u32 = 0x4;
/// `CF_UPDATE_FLAG_ENABLE_ON_DEMAND_POPULATION`.
pub const UPDATE_FLAG_ENABLE_ON_DEMAND_POPULATION: u32 = 0x8;
/// `CF_UPDATE_FLAG_DISABLE_ON_DEMAND_POPULATION`.
pub const UPDATE_FLAG_DISABLE_ON_DEMAND_POPULATION: u32 = 0x10;
/// `CF_UPDATE_FLAG_REMOVE_FILE_IDENTITY`.
pub const UPDATE_FLAG_REMOVE_FILE_IDENTITY: u32 = 0x20;
/// `CF_UPDATE_FLAG_CLEAR_IN_SYNC`.
pub const UPDATE_FLAG_CLEAR_IN_SYNC: u32 = 0x40;
/// `CF_UPDATE_FLAG_REMOVE_PROPERTY`.
pub const UPDATE_FLAG_REMOVE_PROPERTY: u32 = 0x80;
/// `CF_UPDATE_FLAG_PASSTHROUGH_FS_METADATA`.
pub const UPDATE_FLAG_PASSTHROUGH_FS_METADATA: u32 = 0x100;

/// What an [UpdateOptions] holds.
pub ghost struct UpdateOptionsView {
    pub metadata: Option<Metadata>,
    pub dehydrate_ranges: Seq<FileRange>,
    pub flags: u32,
    pub blob: Seq<u8>,
}

/// The `CF_FILE_RANGE` that describes the byte range `start..end`.
pub open spec fn file_range_of(start: u64, end: u64) -> FileRange {
    FileRange { starting_offset: start as i64, length: (end - start) as i64 }
}

/// Placeholder update parameters.
#[derive(Debug, Clone)]
pub struct UpdateOptions<'a> {
    metadata: Option<Metadata>,
    dehydrate_ranges: Vec<FileRange>,
    flags: u32,
    blob: &'a [u8],
}

impl<'a> View for UpdateOptions<'a> {
    type V = UpdateOptionsView;

    closed spec fn view(&self) -> UpdateOptionsView {
        UpdateOptionsView {
            metadata: self.metadata,
            dehydrate_ranges: self.dehydrate_ranges@,
            flags: self.flags,
            blob: self.blob@,
        }
    }
}

impl<'a> UpdateOptions<'a> {
    /// File system metadata of the placeholder to be updated, applied the way
    /// the platform does by default: the file size is set (to 0 if not
    /// specified) and the other fields only where non-zero.
    pub fn metadata(self, metadata: Metadata) -> (r: Self)
        ensures
            r@ == (UpdateOptionsView {
                metadata: Some(metadata),
                flags: self@.flags & !UPDATE_FLAG_PASSTHROUGH_FS_METADATA,
                ..self@
            }),
    {
        UpdateOptions {
            metadata: Some(metadata),
            dehydrate_ranges: self.dehydrate_ranges,
            flags: self.flags & !UPDATE_FLAG_PASSTHROUGH_FS_METADATA,
            blob: self.blob,
        }
    }

    /// Fields in [Metadata] will all be updated.
    pub fn metadata_all(self, metadata: Metadata) -> (r: Self)
        ensures
            r@ == (UpdateOptionsView {
                metadata: Some(metadata),
                flags: self@.flags | UPDATE_FLAG_PASSTHROUGH_FS_METADATA,
                ..self@
            }),
    {
        UpdateOptions {
            metadata: Some(metadata),
            dehydrate_ranges: self.dehydrate_ranges,
            flags: self.flags | UPDATE_FLAG_PASSTHROUGH_FS_METADATA,
            blob: self.blob,
        }
    }

    /// Extended ranges to be dehydrated, each given as `start..end`; a range
    /// must not end before it starts.
    ///
    /// All the offsets and lengths should be `PAGE_SIZE` aligned.
    pub fn dehydrate_ranges(self, ranges: Vec<std::ops::Range<u64>>) -> (r: Self)
        requires
            forall|i: int| 0 <= i < ranges@.len() ==> ranges@[i].start <= ranges@[i].end,
        ensures
            r@ == (UpdateOptionsView {
                dehydrate_ranges: self@.dehydrate_ranges + Seq::new(
                    ranges@.len(),
                    |i: int| file_range_of(ranges@[i].start, ranges@[i].end),
                ),
                ..self@
            }),
    {
        let mut out = self.dehydrate_ranges;
        let ghost start = out@;
        let mut i: usize = 0;
        while i < ranges.len()
            invariant
                i <= ranges@.len(),
                forall|k: int| 0 <= k < ranges@.len() ==> ranges@[k].start <= ranges@[k].end,
                out@ =~= start + Seq::new(
                    i as nat,
                    |k: int| file_range_of(ranges@[k].start, ranges@[k].end),
                ),
            decreases ranges.len() - i,
        {
            let range = &ranges[i];
            out.push(
                FileRange {
                    starting_offset: range.start as i64,
                    length: (range.end - range.start) as i64,
                },
            );
            i = i + 1;
        }
        UpdateOptions { metadata: self.metadata, dehydrate_ranges: out, flags: self.flags, blob: self.blob }
    }

    /// The update will fail if the `IN_SYNC` attribute is not currently set on the placeholder.
    pub fn update_if_in_sync(self) -> (r: Self)
        ensures
            r@ == (UpdateOptionsView { flags: self@.flags | UPDATE_FLAG_VERIFY_IN_SYNC, ..self@ }),
    {
        UpdateOptions { flags: self.flags | UPDATE_FLAG_VERIFY_IN_SYNC, ..self }
    }

    /// Marks a placeholder as in sync.
    pub fn mark_in_sync(self) -> (r: Self)
        ensures
            r@ == (UpdateOptionsView { flags: self@.flags | UPDATE_FLAG_MARK_IN_SYNC, ..self@ }),
    {
        UpdateOptions { flags: self.flags | UPDATE_FLAG_MARK_IN_SYNC, ..self }
    }

    /// Marks a placeholder as not in sync. `Sync Pending` will be shown in explorer.
    pub fn mark_not_in_sync(self) -> (r: Self)
        ensures
            r@ == (UpdateOptionsView { flags: self@.flags | UPDATE_FLAG_CLEAR_IN_SYNC, ..self@ }),
    {
        UpdateOptions { flags: self.flags | UPDATE_FLAG_CLEAR_IN_SYNC, ..self }
    }

    /// The platform dehydrates the file after updating the placeholder successfully.
    pub fn dehydrate(self) -> (r: Self)
        ensures
            r@ == (UpdateOptionsView { flags: self@.flags | UPDATE_FLAG_DEHYDRATE, ..self@ }),
    {
        UpdateOptions { flags: self.flags | UPDATE_FLAG_DEHYDRATE, ..self }
    }

    /// Disables on-demand population for directories.
    pub fn has_no_children(self) -> (r: Self)
        ensures
            r@ == (UpdateOptionsView {
                flags: self@.flags | UPDATE_FLAG_DISABLE_ON_DEMAND_POPULATION,
                ..self@
            }),
    {
        UpdateOptions { flags: self.flags | UPDATE_FLAG_DISABLE_ON_DEMAND_POPULATION, ..self }
    }

    /// Enable on-demand population for directories.
    pub fn has_children(self) -> (r: Self)
        ensures
            r@ == (UpdateOptionsView {
                flags: self@.flags | UPDATE_FLAG_ENABLE_ON_DEMAND_POPULATION,
                ..self@
            }),
    {
        UpdateOptions { flags: self.flags | UPDATE_FLAG_ENABLE_ON_DEMAND_POPULATION, ..self }
    }

    /// Remove the file identity from the placeholder; the blob of these
    /// options is then ignored by the platform.
    pub fn remove_blob(self) -> (r: Self)
        ensures
            r@ == (UpdateOptionsView {
                flags: self@.flags | UPDATE_FLAG_REMOVE_FILE_IDENTITY,
                ..self@
            }),
    {
        UpdateOptions { flags: self.flags | UPDATE_FLAG_REMOVE_FILE_IDENTITY, ..self }
    }

    /// The platform removes all existing extrinsic properties on the placeholder.
    pub fn remove_properties(self) -> (r: Self)
        ensures
            r@ == (UpdateOptionsView { flags: self@.flags | UPDATE_FLAG_REMOVE_PROPERTY, ..self@ }),
    {
        UpdateOptions { flags: self.flags | UPDATE_FLAG_REMOVE_PROPERTY, ..self }
    }

    /// A buffer of bytes stored with the file; it must not exceed 4KiB.
    pub fn blob(self, blob: &'a [u8]) -> (r: Self)
        requires
            blob@.len() <= PLACEHOLDER_MAX_FILE_IDENTITY_LENGTH,
        ensures
            r@ == (UpdateOptionsView { blob: blob@, ..self@ }),
    {
        UpdateOptions { blob, ..self }
    }

    /// The metadata to hand to the platform, if any.
    pub fn metadata_param(&self) -> (r: Option<Metadata>)
        ensures
            r == self@.metadata,
    {
        self.metadata
    }

    /// The `CF_UPDATE_FLAGS` bits to hand to the platform.
    pub fn flags(&self) -> (r: u32)
        ensures
            r == self@.flags,
    {
        self.flags
    }

    /// The file identity to hand to the platform (empty when none was given).
    pub fn blob_bytes(&self) -> (r: &'a [u8])
        ensures
            r@ == self@.blob,
    {
        self.blob
    }

    /// The ranges to dehydrate, to hand to the platform; `None` when there
    /// are none.
    pub fn dehydrate_ranges_param(&self) -> (r: Option<&[FileRange]>)
        ensures
            self@.dehydrate_ranges.len() == 0 ==> r is None,
            self@.dehydrate_ranges.len() > 0 ==> (r matches Some(s) && s@ == self@.dehydrate_ranges),
    {
        if self.dehydrate_ranges.len() == 0 {
            None
        } else {
            Some(self.dehydrate_ranges.as_slice())
        }
    }
}

/// Of two metadata calls, the last decides whether every field is written
/// (`metadata_all`) or only the non-zero ones (`metadata`); the other flags
/// stay as they were.
pub proof fn lemma_metadata_mode_last_wins(flags: u32)
    ensures
        (flags & !UPDATE_FLAG_PASSTHROUGH_FS_METADATA) | UPDATE_FLAG_PASSTHROUGH_FS_METADATA
            == flags | UPDATE_FLAG_PASSTHROUGH_FS_METADATA,
        (flags | UPDATE_FLAG_PASSTHROUGH_FS_METADATA) & !UPDATE_FLAG_PASSTHROUGH_FS_METADATA
            == flags & !UPDATE_FLAG_PASSTHROUGH_FS_METADATA,
        (flags | UPDATE_FLAG_PASSTHROUGH_FS_METADATA) & !UPDATE_FLAG_PASSTHROUGH_FS_METADATA
            == (flags & !UPDATE_FLAG_PASSTHROUGH_FS_METADATA) & !UPDATE_FLAG_PASSTHROUGH_FS_METADATA,
{
    assert((flags & !0x100u32) | 0x100u32 == flags | 0x100u32) by (bit_vector);
    assert((flags | 0x100u32) & !0x100u32 == flags & !0x100u32) by (bit_vector);
    assert((flags & !0x100u32) & !0x100u32 == flags & !0x100u32) by (bit_vector);
}

impl Default for UpdateOptions<'_> {
    fn default() -> (r: Self)
        ensures
            r@ == (UpdateOptionsView {
                metadata: None,
                dehydrate_ranges: Seq::empty(),
                flags: 0,
                blob: Seq::empty(),
            }),
    {
        let nothing: &'static [u8; 0] = &[];
        let blob: &[u8] = nothing.as_slice();
        assert(blob@ =~= Seq::<u8>::empty());
        UpdateOptions { metadata: None, dehydrate_ranges: Vec::new(), flags: 0, blob }
    }
}

/// The type of data to read from a placeholder.
#[derive(Debug, Clone, Copy, PartialEq, Eq, Structural)]
pub enum ReadType {
    /// Any data that is saved to the disk.
    Any,
    /// Data that has been synced to the cloud.
    Validated,
    /// Data that has not synced to the cloud.
    Modified,
}

/// The `CF_PLACEHOLDER_RANGE_INFO_CLASS` code of each read type.
pub open spec fn read_type_code(read_type: ReadType) -> i32 {
    match read_type {
        ReadType::Any => 1,
        ReadType::Validated => 2,
        ReadType::Modified => 3,
    }
}

impl ReadType {
    /// The `CF_PLACEHOLDER_RANGE_INFO_CLASS` code of this read type.
    pub fn to_code(self) -> (r: i32)
        ensures
            r == read_type_code(self),
    {
        match self {
            ReadType::Any => 1,
            ReadType::Validated => 2,
            ReadType::Modified => 3,
        }
    }
}

/// `CF_OPEN_FILE_FLAG_EXCLUSIVE`.
pub const OPEN_FILE_FLAG_EXCLUSIVE: u32 = 0x1;
/// `CF_OPEN_FILE_FLAG_WRITE_ACCESS`.
pub const OPEN_FILE_FLAG_WRITE_ACCESS: u32 = 0x2;
/// `CF_OPEN_FILE_FLAG_DELETE_ACCESS`.
pub const OPEN_FILE_FLAG_DELETE_ACCESS: u32 = 0x4;
/// `CF_OPEN_FILE_FLAG_FOREGROUND`.
pub const OPEN_FILE_FLAG_FOREGROUND: u32 = 0x8;

/// Options for opening a placeholder file/directory.
#[derive(Debug, Clone, Copy)]
pub struct OpenOptions {
    flags: u32,
}

impl OpenOptions {
    /// The `CF_OPEN_FILE_FLAGS` bits.
    pub closed spec fn spec_flags(&self) -> u32 {
        self.flags
    }

    /// Options that open with no flag set.
    pub fn new() -> (r: Self)
        ensures
            r.spec_flags() == 0,
    {
        OpenOptions { flags: 0 }
    }

    /// The `CF_OPEN_FILE_FLAGS` bits to hand to the platform.
    pub fn flags(&self) -> (r: u32)
        ensures
            r == self.spec_flags(),
    {
        self.flags
    }

    /// Open the file exclusively.
    pub fn exclusive(self) -> (r: Self)
        ensures
            r.spec_flags() == self.spec_flags() | OPEN_FILE_FLAG_EXCLUSIVE,
    {
        OpenOptions { flags: self.flags | OPEN_FILE_FLAG_EXCLUSIVE }
    }

    /// Open the file with write access.
    pub fn write_access(self) -> (r: Self)
        ensures
            r.spec_flags() == self.spec_flags() | OPEN_FILE_FLAG_WRITE_ACCESS,
    {
        OpenOptions { flags: self.flags | OPEN_FILE_FLAG_WRITE_ACCESS }
    }

    /// Open the file with delete access.
    pub fn delete_access(self) -> (r: Self)
        ensures
            r.spec_flags() == self.spec_flags() | OPEN_FILE_FLAG_DELETE_ACCESS,
    {
        OpenOptions { flags: self.flags | OPEN_FILE_FLAG_DELETE_ACCESS }
    }

    /// Open the file without an oplock, in the foreground.
    pub fn foreground(self) -> (r: Self)
        ensures
            r.spec_flags() == self.spec_flags() | OPEN_FILE_FLAG_FOREGROUND,
    {
        OpenOptions { flags: self.flags | OPEN_FILE_FLAG_FOREGROUND }
    }
}

impl Default for OpenOptions {
    fn default() -> (r: Self)
        ensures
            r.spec_flags() == 0,
    {
        OpenOptions { flags: 0 }
    }
}

/// The first offset of a range whose start is `bound`.
pub open spec fn range_first(bound: RangeBound) -> int {
    match bound {
        RangeBound::Included(x) => x as int,
        RangeBound::Excluded(x) => x + 1,
        RangeBound::Unbounded => 0,
    }
}

/// The offset just past a range whose end is `bound`; `None` when the range
/// runs to the end of the file.
pub open spec fn range_past_end(bound: RangeBound) -> Option<int> {
    match bound {
        RangeBound::Included(x) => Some(x + 1),
        RangeBound::Excluded(x) => Some(x as int),
        RangeBound::Unbounded => None,
    }
}

/// The length the platform uses for "up to the end of the file" (`CF_EOF`).
pub const CF_EOF: i64 = -1i64;

/// The offset and the length that `CfHydratePlaceholder` takes for the range
/// `start..end`: the length is the end minus the start, -1 (to the end of the
/// file) for a range with no end, and the range's last offset for a range
/// that ends before it starts. The start may not exceed `i64::MAX`, nor may
/// the length of a range that has an end, and a range that ends before it
/// starts must have a last offset (an excluded end of 0 has none).
pub fn hydrate_range(start: RangeBound, end: RangeBound) -> (r: (i64, i64))
    requires
        range_first(start) <= i64::MAX,
        range_past_end(end) matches Some(e) ==> e - range_first(start) <= i64::MAX,
        range_past_end(end) matches Some(e) ==> (e < range_first(start) ==> e >= 1),
    ensures
        r.0 == range_first(start),
        r.1 == match range_past_end(end) {
            Some(e) => if e >= range_first(start) {
                e - range_first(start)
            } else {
                e - 1
            },
            None => CF_EOF as int,
        },
{
    let first: i64 = match start {
        RangeBound::Included(x) => x as i64,
        RangeBound::Excluded(x) => (x + 1) as i64,
        RangeBound::Unbounded => 0,
    };
    let length: i64 = match end {
        RangeBound::Included(x) => {
            if x >= first as u64 {
                ((x - first as u64) + 1) as i64
            } else if x + 1 == first as u64 {
                0
            } else {
                x as i64
            }
        },
        RangeBound::Excluded(x) => {
            if x >= first as u64 {
                (x - first as u64) as i64
            } else {
                (x - 1) as i64
            }
        },
        RangeBound::Unbounded => CF_EOF,
    };
    (first, length)
}

} // verus!
