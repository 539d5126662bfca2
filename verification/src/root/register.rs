use vstd::prelude::*;

use crate::root::sync_root::SyncRootId;
use crate::utility::{decimal_units, encode_utf16, push_decimal, utf16_of_str};

verus! {

/// The longest provider version the platform accepts, in UTF-16 code units.
pub const MAX_PROVIDER_VERSION_LENGTH: usize = 255;

/// The largest registration blob, in bytes.
pub const MAX_REGISTER_BLOB_LENGTH: usize = 65536;

/// The icon a registration uses until one is given.
pub const DEFAULT_ICON: &'static str = "C:\\Windows\\System32\\imageres.dll,1525";

/// The protection mode of the sync root registration.
#[derive(Debug, Clone, Copy, PartialEq, Eq, Structural)]
pub enum ProtectionMode {
    /// The sync root should only contain personal files.
    Personal,
    /// The sync root can contain any type of file.
    Unknown,
}

/// The `StorageProviderProtectionMode` value of each protection mode.
pub open spec fn protection_mode_code(mode: ProtectionMode) -> i32 {
    match mode {
        ProtectionMode::Personal => 1,
        ProtectionMode::Unknown => 0,
    }
}

impl ProtectionMode {
    /// The `StorageProviderProtectionMode` value of this protection mode.
    pub fn to_code(self) -> (r: i32)
        ensures
            r == protection_mode_code(self),
    {
        match self {
            ProtectionMode::Personal => 1,
            ProtectionMode::Unknown => 0,
        }
    }
}

/// How the platform hydrates placeholders.
#[derive(Debug, Clone, Copy, PartialEq, Eq, Structural)]
pub enum HydrationType {
    Partial,
    Progressive,
    Full,
    AlwaysFull,
}

/// The `StorageProviderHydrationPolicy` value, which is also the
/// `CF_HYDRATION_POLICY_PRIMARY` value, of each hydration type.
pub open spec fn hydration_type_code(hydration_type: HydrationType) -> u16 {
    match hydration_type {
        HydrationType::Partial => 0,
        HydrationType::Progressive => 1,
        HydrationType::Full => 2,
        HydrationType::AlwaysFull => 3,
    }
}

/// The hydration type of a `CF_HYDRATION_POLICY_PRIMARY` value (0 to 3).
pub open spec fn hydration_type_of(code: u16) -> HydrationType {
    if code == 0 {
        HydrationType::Partial
    } else if code == 1 {
        HydrationType::Progressive
    } else if code == 2 {
        HydrationType::Full
    } else {
        HydrationType::AlwaysFull
    }
}

impl HydrationType {
    /// The `StorageProviderHydrationPolicy` value of this hydration type.
    pub fn to_code(self) -> (r: u16)
        ensures
            r == hydration_type_code(self),
    {
        match self {
            HydrationType::Partial => 0,
            HydrationType::Progressive => 1,
            HydrationType::Full => 2,
            HydrationType::AlwaysFull => 3,
        }
    }

    /// The hydration type of a `CF_HYDRATION_POLICY_PRIMARY` value; the value
    /// must be one the platform defines.
    pub fn from_primary(primary: u16) -> (r: HydrationType)
        requires
            primary <= 3,
        ensures
            r == hydration_type_of(primary),
    {
        if primary == 0 {
            HydrationType::Partial
        } else if primary == 1 {
            HydrationType::Progressive
        } else if primary == 2 {
            HydrationType::Full
        } else {
            HydrationType::AlwaysFull
        }
    }
}

/// `StorageProviderHydrationPolicyModifier::ValidationRequired`.
pub const HYDRATION_VALIDATION_REQUIRED: u32 = 0x1;
/// `StorageProviderHydrationPolicyModifier::StreamingAllowed`.
pub const HYDRATION_STREAMING_ALLOWED: u32 = 0x2;
/// `StorageProviderHydrationPolicyModifier::AutoDehydrationAllowed`.
pub const HYDRATION_AUTO_DEHYDRATION_ALLOWED: u32 = 0x4;
/// `StorageProviderHydrationPolicyModifier::AllowFullRestartHydration`.
pub const HYDRATION_ALLOW_FULL_RESTART_HYDRATION: u32 = 0x8;

/// The modifiers of the hydration policy, as
/// `StorageProviderHydrationPolicyModifier` bits.
#[derive(Debug, Clone, Copy, PartialEq, Eq, Structural)]
pub struct HydrationPolicy {
    pub bits: u32,
}

impl HydrationPolicy {
    /// No modifier.
    pub fn new() -> (r: Self)
        ensures
            r.bits == 0,
    {
        HydrationPolicy { bits: 0 }
    }

    /// The provider validates the data before it is used.
    pub fn require_validation(self) -> (r: Self)
        ensures
            r.bits == self.bits | HYDRATION_VALIDATION_REQUIRED,
    {
        HydrationPolicy { bits: self.bits | HYDRATION_VALIDATION_REQUIRED }
    }

    /// Data may be streamed without being stored on disk.
    pub fn allow_streaming(self) -> (r: Self)
        ensures
            r.bits == self.bits | HYDRATION_STREAMING_ALLOWED,
    {
        HydrationPolicy { bits: self.bits | HYDRATION_STREAMING_ALLOWED }
    }

    /// The platform may dehydrate placeholders on its own.
    pub fn allow_platform_dehydration(self) -> (r: Self)
        ensures
            r.bits == self.bits | HYDRATION_AUTO_DEHYDRATION_ALLOWED,
    {
        HydrationPolicy { bits: self.bits | HYDRATION_AUTO_DEHYDRATION_ALLOWED }
    }

    /// An interrupted hydration may restart from the beginning.
    pub fn allow_full_restart_hydration(self) -> (r: Self)
        ensures
            r.bits == self.bits | HYDRATION_ALLOW_FULL_RESTART_HYDRATION,
    {
        HydrationPolicy { bits: self.bits | HYDRATION_ALLOW_FULL_RESTART_HYDRATION }
    }

    /// The modifiers of a `CF_HYDRATION_POLICY_MODIFIER` value.
    pub fn from_modifier(modifier: u16) -> (r: Self)
        ensures
            r.bits == modifier as u32,
    {
        HydrationPolicy { bits: modifier as u32 }
    }
}

impl Default for HydrationPolicy {
    fn default() -> (r: Self)
        ensures
            r.bits == 0,
    {
        HydrationPolicy { bits: 0 }
    }
}

/// How the platform populates directories.
#[derive(Debug, Clone, Copy, PartialEq, Eq, Structural)]
pub enum PopulationType {
    Full,
    AlwaysFull,
}

/// The `StorageProviderPopulationPolicy` value of each population type.
pub open spec fn population_type_code(population_type: PopulationType) -> i32 {
    match population_type {
        PopulationType::Full => 1,
        PopulationType::AlwaysFull => 2,
    }
}

/// The population type of a `CF_POPULATION_POLICY_PRIMARY` value (2 or 3).
pub open spec fn population_type_of_primary(primary: u16) -> PopulationType {
    if primary == 2 {
        PopulationType::Full
    } else {
        PopulationType::AlwaysFull
    }
}

impl PopulationType {
    /// The `StorageProviderPopulationPolicy` value of this population type.
    pub fn to_code(self) -> (r: i32)
        ensures
            r == population_type_code(self),
    {
        match self {
            PopulationType::Full => 1,
            PopulationType::AlwaysFull => 2,
        }
    }

    /// The population type of a `CF_POPULATION_POLICY_PRIMARY` value; only
    /// `CF_POPULATION_POLICY_FULL` (2) and `CF_POPULATION_POLICY_ALWAYS_FULL`
    /// (3) have one.
    pub fn from_primary(primary: u16) -> (r: PopulationType)
        requires
            primary == 2 || primary == 3,
        ensures
            r == population_type_of_primary(primary),
    {
        if primary == 2 {
            PopulationType::Full
        } else {
            PopulationType::AlwaysFull
        }
    }
}

/// `StorageProviderInSyncPolicy::FileCreationTime`.
pub const IN_SYNC_FILE_CREATION_TIME: u32 = 0x1;
/// `StorageProviderInSyncPolicy::FileReadOnlyAttribute`.
pub const IN_SYNC_FILE_READ_ONLY_ATTRIBUTE: u32 = 0x2;
/// `StorageProviderInSyncPolicy::FileHiddenAttribute`.
pub const IN_SYNC_FILE_HIDDEN_ATTRIBUTE: u32 = 0x4;
/// `StorageProviderInSyncPolicy::FileSystemAttribute`.
pub const IN_SYNC_FILE_SYSTEM_ATTRIBUTE: u32 = 0x8;
/// `StorageProviderInSyncPolicy::DirectoryCreationTime`.
pub const IN_SYNC_DIRECTORY_CREATION_TIME: u32 = 0x10;
/// `StorageProviderInSyncPolicy::DirectoryReadOnlyAttribute`.
pub const IN_SYNC_DIRECTORY_READ_ONLY_ATTRIBUTE: u32 = 0x20;
/// `StorageProviderInSyncPolicy::DirectoryHiddenAttribute`.
pub const IN_SYNC_DIRECTORY_HIDDEN_ATTRIBUTE: u32 = 0x40;
/// `StorageProviderInSyncPolicy::FileLastWriteTime`.
pub const IN_SYNC_FILE_LAST_WRITE_TIME: u32 = 0x100;
/// `StorageProviderInSyncPolicy::DirectoryLastWriteTime`.
pub const IN_SYNC_DIRECTORY_LAST_WRITE_TIME: u32 = 0x200;
/// `StorageProviderInSyncPolicy::PreserveInsyncForSyncEngine`.
pub const IN_SYNC_PRESERVE_INSYNC_FOR_SYNC_ENGINE: u32 = 0x8000_0000;

/// The attributes whose changes keep a placeholder in sync, as
/// `StorageProviderInSyncPolicy` bits.
#[derive(Debug, Clone, Copy, PartialEq, Eq, Structural)]
pub struct SupportedAttributes {
    pub bits: u32,
}

impl SupportedAttributes {
    /// The platform's default policy.
    pub fn new() -> (r: Self)
        ensures
            r.bits == 0,
    {
        SupportedAttributes { bits: 0 }
    }

    /// The creation time of files.
    pub fn file_creation_time(self) -> (r: Self)
        ensures
            r.bits == self.bits | IN_SYNC_FILE_CREATION_TIME,
    {
        SupportedAttributes { bits: self.bits | IN_SYNC_FILE_CREATION_TIME }
    }

    /// The read-only attribute of files.
    pub fn file_readonly(self) -> (r: Self)
        ensures
            r.bits == self.bits | IN_SYNC_FILE_READ_ONLY_ATTRIBUTE,
    {
        SupportedAttributes { bits: self.bits | IN_SYNC_FILE_READ_ONLY_ATTRIBUTE }
    }

    /// The hidden attribute of files.
    pub fn file_hidden(self) -> (r: Self)
        ensures
            r.bits == self.bits | IN_SYNC_FILE_HIDDEN_ATTRIBUTE,
    {
        SupportedAttributes { bits: self.bits | IN_SYNC_FILE_HIDDEN_ATTRIBUTE }
    }

    /// The system attribute of files.
    pub fn file_system(self) -> (r: Self)
        ensures
            r.bits == self.bits | IN_SYNC_FILE_SYSTEM_ATTRIBUTE,
    {
        SupportedAttributes { bits: self.bits | IN_SYNC_FILE_SYSTEM_ATTRIBUTE }
    }

    /// The last write time of files.
    pub fn file_last_write_time(self) -> (r: Self)
        ensures
            r.bits == self.bits | IN_SYNC_FILE_LAST_WRITE_TIME,
    {
        SupportedAttributes { bits: self.bits | IN_SYNC_FILE_LAST_WRITE_TIME }
    }

    /// The creation time of directories.
    pub fn directory_creation_time(self) -> (r: Self)
        ensures
            r.bits == self.bits | IN_SYNC_DIRECTORY_CREATION_TIME,
    {
        SupportedAttributes { bits: self.bits | IN_SYNC_DIRECTORY_CREATION_TIME }
    }

    /// The read-only attribute of directories.
    pub fn directory_readonly(self) -> (r: Self)
        ensures
            r.bits == self.bits | IN_SYNC_DIRECTORY_READ_ONLY_ATTRIBUTE,
    {
        SupportedAttributes { bits: self.bits | IN_SYNC_DIRECTORY_READ_ONLY_ATTRIBUTE }
    }

    /// The hidden attribute of directories.
    pub fn directory_hidden(self) -> (r: Self)
        ensures
            r.bits == self.bits | IN_SYNC_DIRECTORY_HIDDEN_ATTRIBUTE,
    {
        SupportedAttributes { bits: self.bits | IN_SYNC_DIRECTORY_HIDDEN_ATTRIBUTE }
    }

    /// The last write time of directories.
    pub fn directory_last_write_time(self) -> (r: Self)
        ensures
            r.bits == self.bits | IN_SYNC_DIRECTORY_LAST_WRITE_TIME,
    {
        SupportedAttributes { bits: self.bits | IN_SYNC_DIRECTORY_LAST_WRITE_TIME }
    }

    /// The platform keeps the in-sync state as the sync engine set it.
    pub fn none(self) -> (r: Self)
        ensures
            r.bits == self.bits | IN_SYNC_PRESERVE_INSYNC_FOR_SYNC_ENGINE,
    {
        SupportedAttributes { bits: self.bits | IN_SYNC_PRESERVE_INSYNC_FOR_SYNC_ENGINE }
    }

    /// The attributes of a `CF_INSYNC_POLICY` value.
    pub fn from_policy(policy: u32) -> (r: Self)
        ensures
            r.bits == policy,
    {
        SupportedAttributes { bits: policy }
    }
}

impl Default for SupportedAttributes {
    fn default() -> (r: Self)
        ensures
            r.bits == 0,
    {
        SupportedAttributes { bits: 0 }
    }
}

/// The settings with which a sync root is registered.
#[derive(Debug, Clone)]
pub struct Registration {
    pub sync_root_id: SyncRootId,
    pub show_siblings_as_group: bool,
    pub allow_pinning: bool,
    pub allow_hardlinks: bool,
    pub display_name: Vec<u16>,
    pub recycle_bin_uri: Option<Vec<u16>>,
    pub version: Option<Vec<u16>>,
    pub hydration_type: HydrationType,
    pub hydration_policy: HydrationPolicy,
    pub population_type: PopulationType,
    pub protection_mode: ProtectionMode,
    pub supported_attributes: SupportedAttributes,
    pub icon: Vec<u16>,
    pub blob: Option<Vec<u8>>,
}

/// Copies a sequence of code units.
fn copy_units(units: &[u16]) -> (r: Vec<u16>)
    ensures
        r@ == units@,
{
    let mut out: Vec<u16> = Vec::new();
    let mut i: usize = 0;
    while i < units.len()
        invariant
            i <= units@.len(),
            out@ =~= units@.take(i as int),
        decreases units.len() - i,
    {
        out.push(units[i]);
        i = i + 1;
        assert(out@ =~= units@.take(i as int));
    }
    assert(units@.take(units@.len() as int) =~= units@);
    out
}

impl Registration {
    /// The registration of `sync_root_id` with the defaults: the id as display
    /// name, progressive hydration (the platform's documented default), full
    /// population, an unknown protection mode, nothing allowed and the
    /// generic cloud icon.
    pub fn from_sync_root_id(sync_root_id: &SyncRootId) -> (r: Self)
        ensures
            r.sync_root_id@ == sync_root_id@,
            r.display_name@ == sync_root_id@,
            r.recycle_bin_uri is None,
            !r.show_siblings_as_group,
            !r.allow_pinning,
            !r.allow_hardlinks,
            r.version is None,
            r.protection_mode == ProtectionMode::Unknown,
            r.hydration_type == HydrationType::Progressive,
            r.hydration_policy.bits == 0,
            r.population_type == PopulationType::Full,
            r.supported_attributes.bits == 0,
            r.icon@ == utf16_of_str(DEFAULT_ICON@),
            r.blob is None,
    {
        let id_units = sync_root_id.as_u16str();
        Registration {
            sync_root_id: SyncRootId::from_units(copy_units(id_units)),
            display_name: copy_units(id_units),
            recycle_bin_uri: None,
            show_siblings_as_group: false,
            allow_pinning: false,
            version: None,
            protection_mode: ProtectionMode::Unknown,
            allow_hardlinks: false,
            hydration_type: HydrationType::Progressive,
            hydration_policy: HydrationPolicy::default(),
            population_type: PopulationType::Full,
            supported_attributes: SupportedAttributes::default(),
            icon: encode_utf16(DEFAULT_ICON),
            blob: None,
        }
    }

    /// The hydration policy of the sync root.
    pub fn hydration_type(self, hydration_type: HydrationType) -> (r: Self)
        ensures
            r == (Registration { hydration_type, ..self }),
    {
        Registration { hydration_type, ..self }
    }

    /// Files may be made available offline.
    pub fn allow_pinning(self) -> (r: Self)
        ensures
            r == (Registration { allow_pinning: true, ..self }),
    {
        Registration { allow_pinning: true, ..self }
    }

    /// Hard links are allowed on placeholders.
    pub fn allow_hardlinks(self) -> (r: Self)
        ensures
            r == (Registration { allow_hardlinks: true, ..self }),
    {
        Registration { allow_hardlinks: true, ..self }
    }

    /// The name shown for the sync root.
    pub fn display_name(self, display_name: Vec<u16>) -> (r: Self)
        ensures
            r == (Registration { display_name, ..self }),
    {
        Registration { display_name, ..self }
    }

    /// A Uri to a cloud storage recycle bin.
    pub fn recycle_bin_uri(self, uri: Vec<u16>) -> (r: Self)
        ensures
            r == (Registration { recycle_bin_uri: Some(uri), ..self }),
    {
        Registration { recycle_bin_uri: Some(uri), ..self }
    }

    /// Shows sibling sync roots listed under the main sync root in the File Explorer.
    pub fn show_siblings_as_group(self) -> (r: Self)
        ensures
            r == (Registration { show_siblings_as_group: true, ..self }),
    {
        Registration { show_siblings_as_group: true, ..self }
    }

    /// The population policy of the sync root.
    pub fn population_type(self, population_type: PopulationType) -> (r: Self)
        ensures
            r == (Registration { population_type, ..self }),
    {
        Registration { population_type, ..self }
    }

    /// The version of the provider; at most 255 UTF-16 code units.
    pub fn version(self, version: Vec<u16>) -> (r: Self)
        requires
            version@.len() <= MAX_PROVIDER_VERSION_LENGTH,
        ensures
            r == (Registration { version: Some(version), ..self }),
    {
        Registration { version: Some(version), ..self }
    }

    /// The protection mode of the sync root.
    pub fn protection_mode(self, protection_mode: ProtectionMode) -> (r: Self)
        ensures
            r == (Registration { protection_mode, ..self }),
    {
        Registration { protection_mode, ..self }
    }

    /// The attributes whose changes keep placeholders in sync.
    pub fn supported_attributes(self, supported_attributes: SupportedAttributes) -> (r: Self)
        ensures
            r == (Registration { supported_attributes, ..self }),
    {
        Registration { supported_attributes, ..self }
    }

    /// The modifiers of the hydration policy.
    pub fn hydration_policy(self, hydration_policy: HydrationPolicy) -> (r: Self)
        ensures
            r == (Registration { hydration_policy, ..self }),
    {
        Registration { hydration_policy, ..self }
    }

    /// The icon of the sync root: the resource `path` and the index of the
    /// icon in it, written `path,index`.
    ///
    /// See <https://docs.microsoft.com/en-us/windows/win32/menurc/icon-resource>.
    pub fn icon(self, path: Vec<u16>, index: u16) -> (r: Self)
        ensures
            r.icon@ == path@ + seq![0x2Cu16] + decimal_units(index as nat),
            r == (Registration { icon: r.icon, ..self }),
    {
        let mut icon = path;
        icon.push(0x2Cu16);
        push_decimal(&mut icon, index as u32);
        Registration { icon, ..self }
    }

    /// The `StorageProviderHardlinkPolicy` the sync root is registered with:
    /// allowed (1) when hard links are allowed, none (0) otherwise.
    pub fn hardlink_policy(&self) -> (r: u32)
        ensures
            r == if self.allow_hardlinks {
                1u32
            } else {
                0u32
            },
    {
        if self.allow_hardlinks {
            1
        } else {
            0
        }
    }

    /// A blob stored with the registration; at most 65536 bytes.
    pub fn blob(self, blob: Vec<u8>) -> (r: Self)
        requires
            blob@.len() <= MAX_REGISTER_BLOB_LENGTH,
        ensures
            r == (Registration { blob: Some(blob), ..self }),
    {
        Registration { blob: Some(blob), ..self }
    }
}

} // verus!
