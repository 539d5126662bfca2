use vstd::prelude::*;

verus! {

/// The protection mode of the sync root registration.
#[derive(Debug, Clone, Copy, PartialEq, Eq, Structural)]
pub enum ProtectionMode {
    /// The sync root should only contain personal files, not encrypted or business related files.
    Personal,
    /// The sync root can contain any type of file.
    Unknown,
}

/// The `StorageProviderProtectionMode` value of each protection mode.
pub open spec fn protection_mode_code(mode: ProtectionMode) -> i32 {
    match mode {
        ProtectionMode::Personal => 1,
        ProtectionMode::Unknown => 0,
    }
}

impl ProtectionMode {
    /// The `StorageProviderProtectionMode` value of this protection mode.
    pub fn to_code(self) -> (r: i32)
        ensures
            r == protection_mode_code(self),
    {
        match self {
            ProtectionMode::Personal => 1,
            ProtectionMode::Unknown => 0,
        }
    }

    /// The protection mode of a `StorageProviderProtectionMode` value; only
    /// `Unknown` (0) and `Personal` (1) have one.
    pub fn from_code(code: i32) -> (r: ProtectionMode)
        requires
            code == 0 || code == 1,
        ensures
            protection_mode_code(r) == code,
    {
        if code == 1 {
            ProtectionMode::Personal
        } else {
            ProtectionMode::Unknown
        }
    }
}

/// The hydration policy of the sync root registration.
#[derive(Debug, Clone, Copy, PartialEq, Eq, Structural)]
pub enum HydrationType {
    Partial,
    Progressive,
    Full,
    AlwaysFull,
}

/// The `StorageProviderHydrationPolicy` value of each hydration type.
pub open spec fn hydration_type_code(hydration_type: HydrationType) -> i32 {
    match hydration_type {
        HydrationType::Partial => 0,
        HydrationType::Progressive => 1,
        HydrationType::Full => 2,
        HydrationType::AlwaysFull => 3,
    }
}

impl HydrationType {
    /// The `StorageProviderHydrationPolicy` value of this hydration type.
    pub fn to_code(self) -> (r: i32)
        ensures
            r == hydration_type_code(self),
    {
        match self {
            HydrationType::Partial => 0,
            HydrationType::Progressive => 1,
            HydrationType::Full => 2,
            HydrationType::AlwaysFull => 3,
        }
    }

    /// The hydration type of a `StorageProviderHydrationPolicy` value; the
    /// value must be one the platform defines (0 to 3).
    pub fn from_code(code: i32) -> (r: HydrationType)
        requires
            0 <= code <= 3,
        ensures
            hydration_type_code(r) == code,
    {
        if code == 0 {
            HydrationType::Partial
        } else if code == 1 {
            HydrationType::Progressive
        } else if code == 2 {
            HydrationType::Full
        } else {
            HydrationType::AlwaysFull
        }
    }
}

/// The population policy of the sync root registration.
#[derive(Debug, Clone, Copy, PartialEq, Eq, Structural)]
pub enum PopulationType {
    /// If the placeholder files or directories are not fully populated,
    /// the platform will request that the sync provider populate them before completing a user request.
    Full,
    /// The platform will assume that placeholder files and directories are always available locally.
    AlwaysFull,
}

/// The `StorageProviderPopulationPolicy` value of each population type.
pub open spec fn population_type_code(population_type: PopulationType) -> i32 {
    match population_type {
        PopulationType::Full => 1,
        PopulationType::AlwaysFull => 2,
    }
}

impl PopulationType {
    /// The `StorageProviderPopulationPolicy` value of this population type.
    pub fn to_code(self) -> (r: i32)
        ensures
            r == population_type_code(self),
    {
        match self {
            PopulationType::Full => 1,
            PopulationType::AlwaysFull => 2,
        }
    }

    /// The population type of a `StorageProviderPopulationPolicy` value; only
    /// `Full` (1) and `AlwaysFull` (2) have one.
    pub fn from_code(code: i32) -> (r: PopulationType)
        requires
            code == 1 || code == 2,
        ensures
            population_type_code(r) == code,
    {
        if code == 1 {
            PopulationType::Full
        } else {
            PopulationType::AlwaysFull
        }
    }
}

/// Each setting of a registration survives the trip to the platform's value
/// and back: the codes are one-to-one, so reading back what was written gives
/// the setting that was written.
pub proof fn lemma_registration_codes_round_trip(
    mode: ProtectionMode,
    hydration: HydrationType,
    population: PopulationType,
    other_mode: ProtectionMode,
    other_hydration: HydrationType,
    other_population: PopulationType,
)
    ensures
        protection_mode_code(mode) == protection_mode_code(other_mode) ==> mode == other_mode,
        hydration_type_code(hydration) == hydration_type_code(other_hydration) ==> hydration
            == other_hydration,
        population_type_code(population) == population_type_code(other_population) ==> population
            == other_population,
{
}

} // verus!
