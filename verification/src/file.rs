use vstd::prelude::*;

use crate::ext::file::{
    decode_sync_root_info, dehydrate_arguments, dehydrate_length, dehydrate_start,
    SyncRootInfoView, SYNC_ROOT_STANDARD_INFO_SIZE,
};
use crate::layout::{le_u16, le_u32, read_u16, read_u32};
use crate::command::range_span;
use crate::metadata::Metadata;
use crate::placeholder::{
    decode_placeholder_info, is_pin_state_code, pin_state_of_code, PlaceholderInfoView,
    IN_SYNC_STATE_IN_SYNC, PLACEHOLDER_STANDARD_INFO_SIZE,
};
use crate::root::register::{
    hydration_type_of, population_type_of_primary, HydrationPolicy, HydrationType,
    PopulationType, SupportedAttributes,
};
use crate::utility::truncate_at_nul;
use crate::placeholder::{
    FileRange, CONVERT_FLAG_ALWAYS_FULL, CONVERT_FLAG_DEHYDRATE,
    CONVERT_FLAG_ENABLE_ON_DEMAND_POPULATION, CONVERT_FLAG_FORCE_CONVERT_TO_CLOUD_FILE,
    CONVERT_FLAG_MARK_IN_SYNC, SET_PIN_FLAG_RECURSE, SET_PIN_FLAG_RECURSE_ONLY,
    SET_PIN_FLAG_RECURSE_STOP_ON_ERROR, UPDATE_FLAG_CLEAR_IN_SYNC, UPDATE_FLAG_DEHYDRATE,
    UPDATE_FLAG_DISABLE_ON_DEMAND_POPULATION, UPDATE_FLAG_ENABLE_ON_DEMAND_POPULATION,
    UPDATE_FLAG_MARK_IN_SYNC, UPDATE_FLAG_PASSTHROUGH_FS_METADATA,
    UPDATE_FLAG_REMOVE_FILE_IDENTITY, UPDATE_FLAG_REMOVE_PROPERTY, UPDATE_FLAG_VERIFY_IN_SYNC,
};
use crate::utility::{win32_error_to_hresult, win32_hresult, RangeBound};

pub use crate::placeholder::PinState;

verus! {

/// `CF_HYDRATE_FLAG_NONE`.
pub const HYDRATE_FLAG_NONE: u32 = 0x0;

/// `CF_DEHYDRATE_FLAG_NONE`.
pub const DEHYDRATE_FLAG_NONE: u32 = 0x0;

/// `CF_DEHYDRATE_FLAG_BACKGROUND`.
pub const DEHYDRATE_FLAG_BACKGROUND: u32 = 0x1;

/// The arguments of `CfHydratePlaceholder` for the range `start..end`: the
/// starting offset, the length (-1, the end of the file, when the range has
/// no end), and no flags.
pub fn hydrate_placeholder_arguments(start: RangeBound, end: RangeBound) -> (r: (i64, i64, u32))
    ensures
        r.0 == dehydrate_start(start),
        r.1 == dehydrate_length(start, end),
        r.2 == HYDRATE_FLAG_NONE,
{
    let (first, length, _) = dehydrate_arguments(start, end, false);
    (first, length, HYDRATE_FLAG_NONE)
}

/// The arguments of `CfDehydratePlaceholder` for the range `start..end`: the
/// starting offset, the length (-1, the end of the file, when the range has
/// no end), and the flags, which ask for a background dehydration when
/// `background` is set and for one on behalf of the logged-in user otherwise.
pub fn dehydrate_placeholder_arguments(start: RangeBound, end: RangeBound, background: bool) -> (r: (
    i64,
    i64,
    u32,
))
    ensures
        r.0 == dehydrate_start(start),
        r.1 == dehydrate_length(start, end),
        r.2 == if background {
            DEHYDRATE_FLAG_BACKGROUND
        } else {
            DEHYDRATE_FLAG_NONE
        },
{
    dehydrate_arguments(start, end, background)
}

/// Sync provider status, with the status that clears the flags.
#[derive(Debug, Clone, Copy, PartialEq, Eq, Structural)]
pub enum ProviderStatus {
    /// The sync provider is disconnected.
    Disconnected,
    /// The sync provider is idle.
    Idle,
    /// The sync provider is populating a namespace.
    PopulateNamespace,
    /// The sync provider is populating placeholder metadata.
    PopulateMetadata,
    /// The sync provider is populating placeholder content.
    PopulateContent,
    /// The sync provider is incrementally syncing placeholder content.
    SyncIncremental,
    /// The sync provider has fully synced placeholder data.
    SyncFull,
    /// The sync provider has lost connectivity.
    ConnectivityLost,
    /// The status flags are cleared.
    ClearFlags,
    /// The sync provider has been terminated.
    Terminated,
    /// The sync provider had an error.
    Error,
}

/// The `CF_SYNC_PROVIDER_STATUS` value of each status.
pub open spec fn status_code(status: ProviderStatus) -> u32 {
    match status {
        ProviderStatus::Disconnected => 0x0,
        ProviderStatus::Idle => 0x1,
        ProviderStatus::PopulateNamespace => 0x2,
        ProviderStatus::PopulateMetadata => 0x4,
        ProviderStatus::PopulateContent => 0x8,
        ProviderStatus::SyncIncremental => 0x10,
        ProviderStatus::SyncFull => 0x20,
        ProviderStatus::ConnectivityLost => 0x40,
        ProviderStatus::ClearFlags => 0x8000_0000,
        ProviderStatus::Terminated => 0xC000_0001,
        ProviderStatus::Error => 0xC000_0002,
    }
}

/// The `CF_SYNC_PROVIDER_STATUS` values the platform defines.
pub open spec fn is_status_code(code: u32) -> bool {
    code == 0x0 || code == 0x1 || code == 0x2 || code == 0x4 || code == 0x8 || code == 0x10
        || code == 0x20 || code == 0x40 || code == 0x8000_0000 || code == 0xC000_0001 || code
        == 0xC000_0002
}

/// The status a `CF_SYNC_PROVIDER_STATUS` value stands for.
pub open spec fn status_of(code: u32) -> ProviderStatus {
    if code == 0x0 {
        ProviderStatus::Disconnected
    } else if code == 0x1 {
        ProviderStatus::Idle
    } else if code == 0x2 {
        ProviderStatus::PopulateNamespace
    } else if code == 0x4 {
        ProviderStatus::PopulateMetadata
    } else if code == 0x8 {
        ProviderStatus::PopulateContent
    } else if code == 0x10 {
        ProviderStatus::SyncIncremental
    } else if code == 0x20 {
        ProviderStatus::SyncFull
    } else if code == 0x40 {
        ProviderStatus::ConnectivityLost
    } else if code == 0x8000_0000 {
        ProviderStatus::ClearFlags
    } else if code == 0xC000_0001 {
        ProviderStatus::Terminated
    } else {
        ProviderStatus::Error
    }
}

impl ProviderStatus {
    /// The `CF_SYNC_PROVIDER_STATUS` value of this status.
    pub fn to_code(self) -> (r: u32)
        ensures
            r == status_code(self),
    {
        match self {
            ProviderStatus::Disconnected => 0x0,
            ProviderStatus::Idle => 0x1,
            ProviderStatus::PopulateNamespace => 0x2,
            ProviderStatus::PopulateMetadata => 0x4,
            ProviderStatus::PopulateContent => 0x8,
            ProviderStatus::SyncIncremental => 0x10,
            ProviderStatus::SyncFull => 0x20,
            ProviderStatus::ConnectivityLost => 0x40,
            ProviderStatus::ClearFlags => 0x8000_0000,
            ProviderStatus::Terminated => 0xC000_0001,
            ProviderStatus::Error => 0xC000_0002,
        }
    }

    /// The status of a `CF_SYNC_PROVIDER_STATUS` value; the value must be one
    /// the platform defines.
    pub fn from_code(code: u32) -> (r: ProviderStatus)
        requires
            is_status_code(code),
        ensures
            r == status_of(code),
    {
        if code == 0x0 {
            ProviderStatus::Disconnected
        } else if code == 0x1 {
            ProviderStatus::Idle
        } else if code == 0x2 {
            ProviderStatus::PopulateNamespace
        } else if code == 0x4 {
            ProviderStatus::PopulateMetadata
        } else if code == 0x8 {
            ProviderStatus::PopulateContent
        } else if code == 0x10 {
            ProviderStatus::SyncIncremental
        } else if code == 0x20 {
            ProviderStatus::SyncFull
        } else if code == 0x40 {
            ProviderStatus::ConnectivityLost
        } else if code == 0x8000_0000 {
            ProviderStatus::ClearFlags
        } else if code == 0xC000_0001 {
            ProviderStatus::Terminated
        } else {
            ProviderStatus::Error
        }
    }
}

/// Writing a status and reading it back gives the same status, and every
/// value the platform defines is the encoding of the status it reads as.
pub proof fn lemma_status_round_trip(status: ProviderStatus, code: u32)
    ensures
        is_status_code(status_code(status)),
        status_of(status_code(status)) == status,
        is_status_code(code) ==> status_code(status_of(code)) == code,
{
}

/// `CF_PLACEHOLDER_STATE_NO_STATES`.
pub const PLACEHOLDER_STATE_NO_STATES: u32 = 0x0;
/// `CF_PLACEHOLDER_STATE_PLACEHOLDER`.
pub const PLACEHOLDER_STATE_PLACEHOLDER: u32 = 0x1;
/// `CF_PLACEHOLDER_STATE_SYNC_ROOT`.
pub const PLACEHOLDER_STATE_SYNC_ROOT: u32 = 0x2;
/// `CF_PLACEHOLDER_STATE_ESSENTIAL_PROP_PRESENT`.
pub const PLACEHOLDER_STATE_ESSENTIAL_PROP_PRESENT: u32 = 0x4;
/// `CF_PLACEHOLDER_STATE_IN_SYNC`.
pub const PLACEHOLDER_STATE_IN_SYNC: u32 = 0x8;
/// `CF_PLACEHOLDER_STATE_PARTIAL`.
pub const PLACEHOLDER_STATE_PARTIAL: u32 = 0x10;
/// `CF_PLACEHOLDER_STATE_PARTIALLY_ON_DISK`.
pub const PLACEHOLDER_STATE_PARTIALLY_ON_DISK: u32 = 0x20;
/// `CF_PLACEHOLDER_STATE_INVALID`.
pub const PLACEHOLDER_STATE_INVALID: u32 = 0xFFFF_FFFF;

/// The state of a placeholder, as `CfGetPlaceholderStateFromFileInfo`
/// reports it.
#[derive(Debug, Clone, Copy, PartialEq, Eq, Structural)]
pub enum PlaceholderState {
    /// The file is a placeholder.
    Placeholder,
    /// The directory is a sync root.
    SyncRoot,
    /// The essential properties of the placeholder are present.
    EssentialPropPresent,
    /// The placeholder is in sync.
    InSync,
    /// The placeholder content is not ready to be consumed.
    StatePartial,
    /// The placeholder content is not fully on disk.
    PartiallyOnDisk,
}

/// The `CF_PLACEHOLDER_STATE` value of each state.
pub open spec fn placeholder_state_code(state: PlaceholderState) -> u32 {
    match state {
        PlaceholderState::Placeholder => PLACEHOLDER_STATE_PLACEHOLDER,
        PlaceholderState::SyncRoot => PLACEHOLDER_STATE_SYNC_ROOT,
        PlaceholderState::EssentialPropPresent => PLACEHOLDER_STATE_ESSENTIAL_PROP_PRESENT,
        PlaceholderState::InSync => PLACEHOLDER_STATE_IN_SYNC,
        PlaceholderState::StatePartial => PLACEHOLDER_STATE_PARTIAL,
        PlaceholderState::PartiallyOnDisk => PLACEHOLDER_STATE_PARTIALLY_ON_DISK,
    }
}

/// The state that a `CF_PLACEHOLDER_STATE` value other than the invalid one
/// reads as: `None` for no state; otherwise the first state in the order of
/// the enumeration whose flag the value holds, so that a value that combines
/// flags reads as one of them, and a placeholder where it holds none of them.
pub open spec fn placeholder_state_of(code: u32) -> Option<PlaceholderState> {
    if code == PLACEHOLDER_STATE_NO_STATES {
        None
    } else if code & PLACEHOLDER_STATE_PLACEHOLDER != 0 {
        Some(PlaceholderState::Placeholder)
    } else if code & PLACEHOLDER_STATE_SYNC_ROOT != 0 {
        Some(PlaceholderState::SyncRoot)
    } else if code & PLACEHOLDER_STATE_ESSENTIAL_PROP_PRESENT != 0 {
        Some(PlaceholderState::EssentialPropPresent)
    } else if code & PLACEHOLDER_STATE_IN_SYNC != 0 {
        Some(PlaceholderState::InSync)
    } else if code & PLACEHOLDER_STATE_PARTIAL != 0 {
        Some(PlaceholderState::StatePartial)
    } else if code & PLACEHOLDER_STATE_PARTIALLY_ON_DISK != 0 {
        Some(PlaceholderState::PartiallyOnDisk)
    } else {
        Some(PlaceholderState::Placeholder)
    }
}

impl PlaceholderState {
    /// Reads the value `CfGetPlaceholderStateFromFileInfo` returned: the
    /// invalid value fails with the `HRESULT` of `last_error`, the thread's
    /// last Win32 error; any other value is `Ok`, `None` for no state and a
    /// state for every other value, flags combined or not.
    pub fn try_from_win32(value: u32, last_error: u32) -> (r: Result<Option<PlaceholderState>, i32>)
        ensures
            value == PLACEHOLDER_STATE_INVALID ==> r == Err::<Option<PlaceholderState>, i32>(
                win32_hresult(last_error),
            ),
            value != PLACEHOLDER_STATE_INVALID ==> r == Ok::<Option<PlaceholderState>, i32>(
                placeholder_state_of(value),
            ),
    {
        if value == PLACEHOLDER_STATE_INVALID {
            Err(win32_error_to_hresult(last_error))
        } else if value == PLACEHOLDER_STATE_NO_STATES {
            Ok(None)
        } else if value & PLACEHOLDER_STATE_PLACEHOLDER != 0 {
            Ok(Some(PlaceholderState::Placeholder))
        } else if value & PLACEHOLDER_STATE_SYNC_ROOT != 0 {
            Ok(Some(PlaceholderState::SyncRoot))
        } else if value & PLACEHOLDER_STATE_ESSENTIAL_PROP_PRESENT != 0 {
            Ok(Some(PlaceholderState::EssentialPropPresent))
        } else if value & PLACEHOLDER_STATE_IN_SYNC != 0 {
            Ok(Some(PlaceholderState::InSync))
        } else if value & PLACEHOLDER_STATE_PARTIAL != 0 {
            Ok(Some(PlaceholderState::StatePartial))
        } else if value & PLACEHOLDER_STATE_PARTIALLY_ON_DISK != 0 {
            Ok(Some(PlaceholderState::PartiallyOnDisk))
        } else {
            Ok(Some(PlaceholderState::Placeholder))
        }
    }
}

/// Every state is read back from its own value, and a value that holds the
/// placeholder flag reads as a placeholder whatever else it holds.
pub proof fn lemma_placeholder_state_round_trip(state: PlaceholderState, code: u32)
    ensures
        placeholder_state_code(state) != PLACEHOLDER_STATE_INVALID,
        placeholder_state_of(placeholder_state_code(state)) == Some(state),
        code & PLACEHOLDER_STATE_PLACEHOLDER != 0 ==> placeholder_state_of(code) == Some(
            PlaceholderState::Placeholder,
        ),
{
    assert(0x2u32 & 0x1 == 0) by (bit_vector);
    assert(0x4u32 & 0x1 == 0 && 0x4u32 & 0x2 == 0) by (bit_vector);
    assert(0x8u32 & 0x1 == 0 && 0x8u32 & 0x2 == 0 && 0x8u32 & 0x4 == 0) by (bit_vector);
    assert(0x10u32 & 0x1 == 0 && 0x10u32 & 0x2 == 0 && 0x10u32 & 0x4 == 0 && 0x10u32 & 0x8 == 0)
        by (bit_vector);
    assert(0x20u32 & 0x1 == 0 && 0x20u32 & 0x2 == 0 && 0x20u32 & 0x4 == 0 && 0x20u32 & 0x8 == 0
        && 0x20u32 & 0x10 == 0) by (bit_vector);
    assert(0x1u32 & 0x1 != 0 && 0x2u32 & 0x2 != 0 && 0x4u32 & 0x4 != 0 && 0x8u32 & 0x8 != 0
        && 0x10u32 & 0x10 != 0 && 0x20u32 & 0x20 != 0) by (bit_vector);
    assert(code & 0x1 != 0 ==> code != 0) by (bit_vector);
}

/// Whether a file is a placeholder, from what reading its state gave: a
/// failure or no state means it is not.
pub fn is_placeholder(state: Result<Option<PlaceholderState>, i32>) -> (r: bool)
    ensures
        r == (state matches Ok(Some(_))),
{
    match state {
        Ok(s) => s.is_some(),
        Err(_) => false,
    }
}

/// `flags` with the bits of `flag` set when `yes` holds and cleared when it
/// does not.
pub open spec fn flag_set(flags: u32, flag: u32, yes: bool) -> u32 {
    if yes {
        flags | flag
    } else {
        flags & !flag
    }
}

/// Sets the bits of `flag` in `flags` when `yes` holds, clears them when it
/// does not.
pub fn set_flag(flags: &mut u32, flag: u32, yes: bool)
    ensures
        *final(flags) == flag_set(*old(flags), flag, yes),
{
    if yes {
        *flags = *flags | flag;
    } else {
        *flags = *flags & !flag;
    }
}

/// Setting or clearing a flag twice leaves what the second call asked for.
pub proof fn lemma_flag_set_last_wins(flags: u32, flag: u32, first: bool, second: bool)
    ensures
        flag_set(flag_set(flags, flag, first), flag, second) == flag_set(flags, flag, second),
{
    if first {
        if second {
            assert((flags | flag) | flag == flags | flag) by (bit_vector);
        } else {
            assert((flags | flag) & !flag == flags & !flag) by (bit_vector);
        }
    } else {
        if second {
            assert((flags & !flag) | flag == flags | flag) by (bit_vector);
        } else {
            assert((flags & !flag) & !flag == flags & !flag) by (bit_vector);
        }
    }
}

/// Setting or clearing a flag leaves every bit outside it as it was, and a
/// non-empty flag then reads as set exactly when it was set.
pub proof fn lemma_flag_set_bits(flags: u32, flag: u32, other: u32, yes: bool)
    ensures
        flag & other == 0 ==> flag_set(flags, flag, yes) & other == flags & other,
        flag != 0 ==> ((flag_set(flags, flag, yes) & flag == flag) <==> yes),
{
    if yes {
        assert(flag & other == 0 ==> (flags | flag) & other == flags & other) by (bit_vector);
        assert((flags | flag) & flag == flag) by (bit_vector);
    } else {
        assert(flag & other == 0 ==> (flags & !flag) & other == flags & other) by (bit_vector);
        assert(flag != 0 ==> (flags & !flag) & flag != flag) by (bit_vector);
    }
}

/// The flags of `CfSetPinState`.
#[derive(Debug, Clone, Copy)]
pub struct PinOptions {
    flags: u32,
}

impl PinOptions {
    /// The `CF_SET_PIN_FLAGS` bits.
    pub closed spec fn flags_value(&self) -> u32 {
        self.flags
    }

    /// The `CF_SET_PIN_FLAGS` bits to hand to the platform.
    pub fn flags(&self) -> (r: u32)
        ensures
            r == self.flags_value(),
    {
        self.flags
    }

    /// Whether the pin state applies to all descendants too.
    pub fn recurse(&mut self, yes: bool) -> (r: &mut Self)
        ensures
            r.flags_value() == flag_set(old(self).flags_value(), SET_PIN_FLAG_RECURSE, yes),
            *final(self) == *final(r),
    {
        set_flag(&mut self.flags, SET_PIN_FLAG_RECURSE, yes);
        self
    }

    /// Whether the pin state applies to the descendants only.
    pub fn recurse_only(&mut self, yes: bool) -> (r: &mut Self)
        ensures
            r.flags_value() == flag_set(old(self).flags_value(), SET_PIN_FLAG_RECURSE_ONLY, yes),
            *final(self) == *final(r),
    {
        set_flag(&mut self.flags, SET_PIN_FLAG_RECURSE_ONLY, yes);
        self
    }

    /// Whether applying the pin state stops at the first error.
    pub fn stop_on_error(&mut self, yes: bool) -> (r: &mut Self)
        ensures
            r.flags_value() == flag_set(
                old(self).flags_value(),
                SET_PIN_FLAG_RECURSE_STOP_ON_ERROR,
                yes,
            ),
            *final(self) == *final(r),
    {
        set_flag(&mut self.flags, SET_PIN_FLAG_RECURSE_STOP_ON_ERROR, yes);
        self
    }
}

impl Default for PinOptions {
    fn default() -> (r: Self)
        ensures
            r.flags_value() == 0,
    {
        PinOptions { flags: 0 }
    }
}

/// The flags of `CfConvertToPlaceholder`.
#[derive(Debug, Clone, Copy)]
pub struct ConvertOptions {
    flags: u32,
}

impl ConvertOptions {
    /// The `CF_CONVERT_FLAGS` bits.
    pub closed spec fn flags_value(&self) -> u32 {
        self.flags
    }

    /// The `CF_CONVERT_FLAGS` bits to hand to the platform.
    pub fn flags(&self) -> (r: u32)
        ensures
            r == self.flags_value(),
    {
        self.flags
    }

    /// Whether the placeholder is marked in sync.
    pub fn mark_in_sync(&mut self, yes: bool) -> (r: &mut Self)
        ensures
            r.flags_value() == flag_set(old(self).flags_value(), CONVERT_FLAG_MARK_IN_SYNC, yes),
            *final(self) == *final(r),
    {
        set_flag(&mut self.flags, CONVERT_FLAG_MARK_IN_SYNC, yes);
        self
    }

    /// Whether the file is dehydrated after the conversion (files only).
    pub fn dehydrate(&mut self, yes: bool) -> (r: &mut Self)
        ensures
            r.flags_value() == flag_set(old(self).flags_value(), CONVERT_FLAG_DEHYDRATE, yes),
            *final(self) == *final(r),
    {
        set_flag(&mut self.flags, CONVERT_FLAG_DEHYDRATE, yes);
        self
    }

    /// Whether the directory is populated on demand (directories only).
    pub fn on_demand_population(&mut self, yes: bool) -> (r: &mut Self)
        ensures
            r.flags_value() == flag_set(
                old(self).flags_value(),
                CONVERT_FLAG_ENABLE_ON_DEMAND_POPULATION,
                yes,
            ),
            *final(self) == *final(r),
    {
        set_flag(&mut self.flags, CONVERT_FLAG_ENABLE_ON_DEMAND_POPULATION, yes);
        self
    }

    /// Whether the placeholder is always full.
    pub fn always_full(&mut self, yes: bool) -> (r: &mut Self)
        ensures
            r.flags_value() == flag_set(old(self).flags_value(), CONVERT_FLAG_ALWAYS_FULL, yes),
            *final(self) == *final(r),
    {
        set_flag(&mut self.flags, CONVERT_FLAG_ALWAYS_FULL, yes);
        self
    }

    /// Whether the file is converted to a cloud file even when it is in use.
    pub fn convert_to_cloud_file(&mut self, yes: bool) -> (r: &mut Self)
        ensures
            r.flags_value() == flag_set(
                old(self).flags_value(),
                CONVERT_FLAG_FORCE_CONVERT_TO_CLOUD_FILE,
                yes,
            ),
            *final(self) == *final(r),
    {
        set_flag(&mut self.flags, CONVERT_FLAG_FORCE_CONVERT_TO_CLOUD_FILE, yes);
        self
    }
}

impl Default for ConvertOptions {
    fn default() -> (r: Self)
        ensures
            r.flags_value() == 0,
    {
        ConvertOptions { flags: 0 }
    }
}

/// What an [UpdateOptions] holds.
pub ghost struct UpdateOptionsView {
    pub metadata: Option<Metadata>,
    pub dehydrate_ranges: Seq<FileRange>,
    pub flags: u32,
    pub usn: Option<u64>,
    pub blob: Option<Seq<u8>>,
}

/// The parameters of `CfUpdatePlaceholder`.
#[derive(Debug, Clone)]
pub struct UpdateOptions<'a> {
    metadata: Option<Metadata>,
    dehydrate_range: Vec<FileRange>,
    flags: u32,
    usn: Option<u64>,
    blob: Option<&'a [u8]>,
}

/// The view of an optional borrowed blob.
pub open spec fn blob_view(blob: Option<&[u8]>) -> Option<Seq<u8>> {
    match blob {
        Some(b) => Some(b@),
        None => None,
    }
}

impl<'a> View for UpdateOptions<'a> {
    type V = UpdateOptionsView;

    closed spec fn view(&self) -> UpdateOptionsView {
        UpdateOptionsView {
            metadata: self.metadata,
            dehydrate_ranges: self.dehydrate_range@,
            flags: self.flags,
            usn: self.usn,
            blob: blob_view(self.blob),
        }
    }
}

impl<'a> UpdateOptions<'a> {
    /// The metadata the placeholder gets.
    pub fn metadata(self, metadata: Metadata) -> (r: Self)
        ensures
            r@ == (UpdateOptionsView { metadata: Some(metadata), ..self@ }),
    {
        UpdateOptions { metadata: Some(metadata), ..self }
    }

    /// Adds a range to dehydrate: it starts at `range.start` and its length
    /// is the number of bytes in it (its end, for a range that ends before it
    /// starts).
    pub fn dehydrate_range(self, range: std::ops::Range<u64>) -> (r: Self)
        ensures
            r@ == (UpdateOptionsView {
                dehydrate_ranges: self@.dehydrate_ranges.push(
                    FileRange {
                        starting_offset: range.start as i64,
                        length: range_span(range.start, range.end),
                    },
                ),
                ..self@
            }),
    {
        let mut ranges = self.dehydrate_range;
        let length: u64 = if range.start <= range.end {
            range.end - range.start
        } else {
            range.end
        };
        ranges.push(FileRange { starting_offset: range.start as i64, length: length as i64 });
        UpdateOptions { dehydrate_range: ranges, ..self }
    }

    /// The update sequence number the update must match.
    pub fn usn(self, usn: u64) -> (r: Self)
        ensures
            r@ == (UpdateOptionsView { usn: Some(usn), ..self@ }),
    {
        UpdateOptions { usn: Some(usn), ..self }
    }

    /// Whether the update fails unless the placeholder is in sync.
    pub fn verify_in_sync(self, yes: bool) -> (r: Self)
        ensures
            r@ == (UpdateOptionsView {
                flags: flag_set(self@.flags, UPDATE_FLAG_VERIFY_IN_SYNC, yes),
                ..self@
            }),
    {
        let mut flags = self.flags;
        set_flag(&mut flags, UPDATE_FLAG_VERIFY_IN_SYNC, yes);
        UpdateOptions { flags, ..self }
    }

    /// Whether the placeholder is marked in sync.
    pub fn mark_in_sync(self, yes: bool) -> (r: Self)
        ensures
            r@ == (UpdateOptionsView {
                flags: flag_set(self@.flags, UPDATE_FLAG_MARK_IN_SYNC, yes),
                ..self@
            }),
    {
        let mut flags = self.flags;
        set_flag(&mut flags, UPDATE_FLAG_MARK_IN_SYNC, yes);
        UpdateOptions { flags, ..self }
    }

    /// Whether the file is dehydrated after the update (files only).
    pub fn dehydrate(self, yes: bool) -> (r: Self)
        ensures
            r@ == (UpdateOptionsView {
                flags: flag_set(self@.flags, UPDATE_FLAG_DEHYDRATE, yes),
                ..self@
            }),
    {
        let mut flags = self.flags;
        set_flag(&mut flags, UPDATE_FLAG_DEHYDRATE, yes);
        UpdateOptions { flags, ..self }
    }

    /// Whether the directory is populated on demand (directories only): sets
    /// the enabling flag and clears the disabling one, or the other way
    /// round.
    pub fn on_demand_population(self, yes: bool) -> (r: Self)
        ensures
            r@ == (UpdateOptionsView {
                flags: if yes {
                    (self@.flags | UPDATE_FLAG_ENABLE_ON_DEMAND_POPULATION)
                        & !UPDATE_FLAG_DISABLE_ON_DEMAND_POPULATION
                } else {
                    (self@.flags | UPDATE_FLAG_DISABLE_ON_DEMAND_POPULATION)
                        & !UPDATE_FLAG_ENABLE_ON_DEMAND_POPULATION
                },
                ..self@
            }),
    {
        let flags: u32 = if yes {
            (self.flags | UPDATE_FLAG_ENABLE_ON_DEMAND_POPULATION)
                & !UPDATE_FLAG_DISABLE_ON_DEMAND_POPULATION
        } else {
            (self.flags | UPDATE_FLAG_DISABLE_ON_DEMAND_POPULATION)
                & !UPDATE_FLAG_ENABLE_ON_DEMAND_POPULATION
        };
        UpdateOptions { flags, ..self }
    }

    /// Whether the file identity is removed.
    pub fn remove_file_identity(self, yes: bool) -> (r: Self)
        ensures
            r@ == (UpdateOptionsView {
                flags: flag_set(self@.flags, UPDATE_FLAG_REMOVE_FILE_IDENTITY, yes),
                ..self@
            }),
    {
        let mut flags = self.flags;
        set_flag(&mut flags, UPDATE_FLAG_REMOVE_FILE_IDENTITY, yes);
        UpdateOptions { flags, ..self }
    }

    /// Whether the in-sync state is cleared.
    pub fn clear_in_sync(self, yes: bool) -> (r: Self)
        ensures
            r@ == (UpdateOptionsView {
                flags: flag_set(self@.flags, UPDATE_FLAG_CLEAR_IN_SYNC, yes),
                ..self@
            }),
    {
        let mut flags = self.flags;
        set_flag(&mut flags, UPDATE_FLAG_CLEAR_IN_SYNC, yes);
        UpdateOptions { flags, ..self }
    }

    /// Whether the extrinsic properties are removed.
    pub fn remove_property(self, yes: bool) -> (r: Self)
        ensures
            r@ == (UpdateOptionsView {
                flags: flag_set(self@.flags, UPDATE_FLAG_REMOVE_PROPERTY, yes),
                ..self@
            }),
    {
        let mut flags = self.flags;
        set_flag(&mut flags, UPDATE_FLAG_REMOVE_PROPERTY, yes);
        UpdateOptions { flags, ..self }
    }

    /// Whether every metadata field is written as given.
    pub fn passthrough_fs_metadata(self, yes: bool) -> (r: Self)
        ensures
            r@ == (UpdateOptionsView {
                flags: flag_set(self@.flags, UPDATE_FLAG_PASSTHROUGH_FS_METADATA, yes),
                ..self@
            }),
    {
        let mut flags = self.flags;
        set_flag(&mut flags, UPDATE_FLAG_PASSTHROUGH_FS_METADATA, yes);
        UpdateOptions { flags, ..self }
    }

    /// The `CF_UPDATE_FLAGS` bits to hand to the platform.
    pub fn flags(&self) -> (r: u32)
        ensures
            r == self@.flags,
    {
        self.flags
    }

    /// The metadata to hand to the platform, if any.
    pub fn metadata_param(&self) -> (r: Option<Metadata>)
        ensures
            r == self@.metadata,
    {
        self.metadata
    }

    /// The ranges to dehydrate, in the order they were added.
    pub fn dehydrate_ranges_param(&self) -> (r: &[FileRange])
        ensures
            r@ == self@.dehydrate_ranges,
    {
        self.dehydrate_range.as_slice()
    }

    /// The update sequence number the update must match, if any.
    pub fn usn_param(&self) -> (r: Option<u64>)
        ensures
            r == self@.usn,
    {
        self.usn
    }

    /// The file identity to hand to the platform, if any.
    pub fn blob_param(&self) -> (r: Option<&'a [u8]>)
        ensures
            blob_view(r) == self@.blob,
    {
        self.blob
    }

    /// The file identity stored with the placeholder.
    pub fn blob(self, blob: &'a [u8]) -> (r: Self)
        ensures
            r@ == (UpdateOptionsView { blob: Some(blob@), ..self@ }),
    {
        UpdateOptions { blob: Some(blob), ..self }
    }
}

impl Default for UpdateOptions<'_> {
    fn default() -> (r: Self)
        ensures
            r@ == (UpdateOptionsView {
                metadata: None,
                dehydrate_ranges: Seq::empty(),
                flags: 0,
                usn: None,
                blob: None,
            }),
    {
        UpdateOptions { metadata: None, dehydrate_range: Vec::new(), flags: 0, usn: None, blob: None }
    }
}

/// Population on demand, once asked for or refused, leaves exactly one of
/// its two flags set.
pub proof fn lemma_on_demand_population_exclusive(flags: u32, yes: bool)
    ensures
        ({
            let updated = if yes {
                (flags | UPDATE_FLAG_ENABLE_ON_DEMAND_POPULATION)
                    & !UPDATE_FLAG_DISABLE_ON_DEMAND_POPULATION
            } else {
                (flags | UPDATE_FLAG_DISABLE_ON_DEMAND_POPULATION)
                    & !UPDATE_FLAG_ENABLE_ON_DEMAND_POPULATION
            };
            &&& (updated & UPDATE_FLAG_ENABLE_ON_DEMAND_POPULATION != 0) == yes
            &&& (updated & UPDATE_FLAG_DISABLE_ON_DEMAND_POPULATION != 0) == !yes
        }),
{
    assert(((flags | 0x8u32) & !0x10u32) & 0x8u32 != 0) by (bit_vector);
    assert(((flags | 0x8u32) & !0x10u32) & 0x10u32 == 0) by (bit_vector);
    assert(((flags | 0x10u32) & !0x8u32) & 0x8u32 == 0) by (bit_vector);
    assert(((flags | 0x10u32) & !0x8u32) & 0x10u32 != 0) by (bit_vector);
}

/// What a `CF_SYNC_ROOT_STANDARD_INFO` block says of a sync root: the fields
/// the extension reads, and the raw policies.
pub ghost struct SyncRootPoliciesView {
    pub standard: SyncRootInfoView,
    pub hydration_primary: u16,
    pub hydration_modifier: u16,
    pub population_primary: u16,
    pub in_sync_policy: u32,
}

/// The fields of a `CF_SYNC_ROOT_STANDARD_INFO` block with its policies, at
/// the offsets of the platform's (C) layout.
pub open spec fn decode_sync_root_policies(data: Seq<u8>) -> SyncRootPoliciesView {
    SyncRootPoliciesView {
        standard: decode_sync_root_info(data),
        hydration_primary: le_u16(data, 8),
        hydration_modifier: le_u16(data, 10),
        population_primary: le_u16(data, 12),
        in_sync_policy: le_u32(data, 16),
    }
}

/// Information about a sync root, with its policies.
#[derive(Debug, Clone)]
pub struct SyncRootInfo {
    standard: crate::ext::file::SyncRootInfo,
    hydration_primary: u16,
    hydration_modifier: u16,
    population_primary: u16,
    in_sync_policy: u32,
}

impl View for SyncRootInfo {
    type V = SyncRootPoliciesView;

    closed spec fn view(&self) -> SyncRootPoliciesView {
        SyncRootPoliciesView {
            standard: self.standard@,
            hydration_primary: self.hydration_primary,
            hydration_modifier: self.hydration_modifier,
            population_primary: self.population_primary,
            in_sync_policy: self.in_sync_policy,
        }
    }
}

impl SyncRootInfo {
    /// Reads the block that `CfGetSyncRootInfoByHandle` filled in; the block
    /// must hold at least its fixed part.
    pub fn from_bytes(data: &[u8]) -> (r: SyncRootInfo)
        requires
            data@.len() >= SYNC_ROOT_STANDARD_INFO_SIZE,
        ensures
            r@ == decode_sync_root_policies(data@),
    {
        SyncRootInfo {
            standard: crate::ext::file::SyncRootInfo::from_bytes(data),
            hydration_primary: read_u16(data, 8),
            hydration_modifier: read_u16(data, 10),
            population_primary: read_u16(data, 12),
            in_sync_policy: read_u32(data, 16),
        }
    }

    /// The file ID of the sync root.
    pub fn file_id(&self) -> (r: u64)
        ensures
            r == self@.standard.sync_root_file_id as u64,
    {
        self.standard.file_id()
    }

    /// The hydration type of the sync root, from the primary hydration
    /// policy, which must be one the platform defines.
    pub fn hydration_policy(&self) -> (r: HydrationType)
        requires
            self@.hydration_primary <= 3,
        ensures
            r == hydration_type_of(self@.hydration_primary),
    {
        HydrationType::from_primary(self.hydration_primary)
    }

    /// The modifiers of the sync root's hydration policy.
    pub fn hydration_type(&self) -> (r: HydrationPolicy)
        ensures
            r.bits == self@.hydration_modifier as u32,
    {
        HydrationPolicy::from_modifier(self.hydration_modifier)
    }

    /// The population type of the sync root, from the primary population
    /// policy, which must be full or always full.
    pub fn population_type(&self) -> (r: PopulationType)
        requires
            self@.population_primary == 2 || self@.population_primary == 3,
        ensures
            r == population_type_of_primary(self@.population_primary),
    {
        PopulationType::from_primary(self.population_primary)
    }

    /// The attributes whose changes keep a placeholder of the sync root in
    /// sync.
    pub fn in_sync_policy(&self) -> (r: SupportedAttributes)
        ensures
            r.bits == self@.in_sync_policy,
    {
        SupportedAttributes::from_policy(self.in_sync_policy)
    }

    /// Whether or not hardlinks are allowed by the sync root.
    pub fn hardlinks_allowed(&self) -> (r: bool)
        ensures
            r == (self@.standard.hardlink_policy == crate::ext::file::HARDLINK_POLICY_ALLOWED),
    {
        self.standard.hardlinks_allowed()
    }

    /// The status of the sync provider; the platform must have reported a
    /// status it defines.
    pub fn status(&self) -> (r: ProviderStatus)
        requires
            is_status_code(self@.standard.provider_status),
        ensures
            r == status_of(self@.standard.provider_status),
    {
        ProviderStatus::from_code(self.standard.raw_status())
    }

    /// The name of the sync provider: the name field up to its first nul,
    /// which the field must hold.
    pub fn provider_name(&self) -> (r: Vec<u16>)
        requires
            truncate_at_nul(self@.standard.provider_name) is Some,
        ensures
            truncate_at_nul(self@.standard.provider_name) == Some(r@),
    {
        self.standard.provider_name()
    }

    /// The version of the sync provider: the version field up to its first
    /// nul, which the field must hold.
    pub fn version(&self) -> (r: Vec<u16>)
        requires
            truncate_at_nul(self@.standard.provider_version) is Some,
        ensures
            truncate_at_nul(self@.standard.provider_version) == Some(r@),
    {
        self.standard.version()
    }

    /// The register blob associated with the sync root.
    pub fn blob(&self) -> (r: &[u8])
        ensures
            r@ == self@.standard.blob,
    {
        self.standard.blob()
    }
}

/// Information about a placeholder, with its sizes read as unsigned.
#[derive(Debug, Clone)]
pub struct PlaceholderInfo {
    info: crate::placeholder::PlaceholderInfo,
}

impl View for PlaceholderInfo {
    type V = PlaceholderInfoView;

    closed spec fn view(&self) -> PlaceholderInfoView {
        self.info@
    }
}

impl PlaceholderInfo {
    /// Reads the block that `CfGetPlaceholderInfo` filled in; the block must
    /// hold at least its fixed part.
    pub fn from_bytes(data: &[u8]) -> (r: PlaceholderInfo)
        requires
            data@.len() >= PLACEHOLDER_STANDARD_INFO_SIZE,
        ensures
            r@ == decode_placeholder_info(data@),
    {
        PlaceholderInfo { info: crate::placeholder::PlaceholderInfo::from_bytes(data) }
    }

    /// The number of bytes of the placeholder's content that are on disk.
    pub fn on_disk_data_size(&self) -> (r: u64)
        ensures
            r == self@.on_disk_data_size as u64,
    {
        self.info.on_disk_data_size() as u64
    }

    /// The number of bytes of the placeholder's content that were validated.
    pub fn validated_data_size(&self) -> (r: u64)
        ensures
            r == self@.validated_data_size as u64,
    {
        self.info.validated_data_size() as u64
    }

    /// The number of bytes of the placeholder's content that were modified.
    pub fn modified_data_size(&self) -> (r: u64)
        ensures
            r == self@.modified_data_size as u64,
    {
        self.info.modified_data_size() as u64
    }

    /// The size of the placeholder's properties.
    pub fn properties_size(&self) -> (r: u64)
        ensures
            r == self@.properties_size as u64,
    {
        self.info.properties_size() as u64
    }

    /// The pin state of the placeholder; the platform must have reported a
    /// defined pin state.
    pub fn pin_state(&self) -> (r: PinState)
        requires
            is_pin_state_code(self@.pin_state),
        ensures
            r == pin_state_of_code(self@.pin_state),
    {
        self.info.pin_state()
    }

    /// Whether the placeholder is in sync.
    pub fn is_synced(&self) -> (r: bool)
        ensures
            r == (self@.in_sync_state == IN_SYNC_STATE_IN_SYNC),
    {
        self.info.is_in_sync()
    }

    /// The NTFS file ID of the placeholder.
    pub fn file_id(&self) -> (r: i64)
        ensures
            r == self@.file_id,
    {
        self.info.file_id()
    }

    /// The file ID of the sync root the placeholder is in.
    pub fn sync_root_file_id(&self) -> (r: i64)
        ensures
            r == self@.sync_root_file_id,
    {
        self.info.sync_root_file_id()
    }

    /// The blob stored with the placeholder, `None` when it is empty.
    pub fn blob(&self) -> (r: Option<&[u8]>)
        ensures
            match r {
                Some(blob) => blob@ == self@.blob && blob@.len() > 0,
                None => self@.blob.len() == 0,
            },
    {
        let blob = self.info.blob();
        if blob.len() == 0 {
            None
        } else {
            Some(blob)
        }
    }
}

} // verus!
