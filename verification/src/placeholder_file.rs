use vstd::prelude::*;

use crate::metadata::{metadata_with_attributes, Metadata};
use crate::placeholder::PLACEHOLDER_MAX_FILE_IDENTITY_LENGTH;
use crate::usn::Usn;
use crate::utility::{hresult_ok, hresult_outcome};

verus! {

/// `CF_PLACEHOLDER_CREATE_FLAG_DISABLE_ON_DEMAND_POPULATION`.
pub const PLACEHOLDER_CREATE_FLAG_DISABLE_ON_DEMAND_POPULATION: u32 = 0x1;
/// `CF_PLACEHOLDER_CREATE_FLAG_MARK_IN_SYNC`.
pub const PLACEHOLDER_CREATE_FLAG_MARK_IN_SYNC: u32 = 0x2;
/// `CF_PLACEHOLDER_CREATE_FLAG_SUPERSEDE`.
pub const PLACEHOLDER_CREATE_FLAG_SUPERSEDE: u32 = 0x4;
/// `CF_PLACEHOLDER_CREATE_FLAG_ALWAYS_FULL`.
pub const PLACEHOLDER_CREATE_FLAG_ALWAYS_FULL: u32 = 0x8;

/// The `HRESULT` `S_FALSE`, which a placeholder reports until the platform has
/// created it.
pub const S_FALSE: i32 = 1;

/// What a [PlaceholderFile] holds.
pub ghost struct PlaceholderFileView {
    pub relative_file_name: Seq<u16>,
    pub metadata: Metadata,
    pub blob: Seq<u8>,
    pub flags: u32,
    pub result: i32,
    pub create_usn: i64,
}

/// A builder for creating new placeholder files/directories.
#[derive(Debug, Clone)]
pub struct PlaceholderFile {
    relative_file_name: Vec<u16>,
    metadata: Metadata,
    blob: Vec<u8>,
    flags: u32,
    result: i32,
    create_usn: i64,
}

impl View for PlaceholderFile {
    type V = PlaceholderFileView;

    closed spec fn view(&self) -> PlaceholderFileView {
        PlaceholderFileView {
            relative_file_name: self.relative_file_name@,
            metadata: self.metadata,
            blob: self.blob@,
            flags: self.flags,
            result: self.result,
            create_usn: self.create_usn,
        }
    }
}

impl PlaceholderFile {
    /// Creates a new [PlaceholderFile] for the path, relative to the directory
    /// it is created in, given in UTF-16; the path may not hold a nul unit.
    pub fn new(relative_path: Vec<u16>) -> (r: Self)
        requires
            forall|i: int| 0 <= i < relative_path@.len() ==> relative_path@[i] != 0u16,
        ensures
            r@ == (PlaceholderFileView {
                relative_file_name: relative_path@,
                metadata: metadata_with_attributes(0),
                blob: Seq::empty(),
                flags: 0,
                result: S_FALSE,
                create_usn: 0,
            }),
    {
        PlaceholderFile {
            relative_file_name: relative_path,
            metadata: Metadata::default(),
            blob: Vec::new(),
            flags: 0,
            result: S_FALSE,
            create_usn: 0,
        }
    }

    /// Marks this [PlaceholderFile] as having no child placeholders on
    /// creation: placeholders will not be fetched for it.
    ///
    /// Only applicable to placeholder directories.
    pub fn has_no_children(self) -> (r: Self)
        ensures
            r@ == (PlaceholderFileView {
                flags: self@.flags | PLACEHOLDER_CREATE_FLAG_DISABLE_ON_DEMAND_POPULATION,
                ..self@
            }),
    {
        PlaceholderFile {
            flags: self.flags | PLACEHOLDER_CREATE_FLAG_DISABLE_ON_DEMAND_POPULATION,
            ..self
        }
    }

    /// Marks a placeholder as in sync.
    pub fn mark_in_sync(self) -> (r: Self)
        ensures
            r@ == (PlaceholderFileView {
                flags: self@.flags | PLACEHOLDER_CREATE_FLAG_MARK_IN_SYNC,
                ..self@
            }),
    {
        PlaceholderFile { flags: self.flags | PLACEHOLDER_CREATE_FLAG_MARK_IN_SYNC, ..self }
    }

    /// Whether or not to overwrite an existing placeholder.
    pub fn overwrite(self) -> (r: Self)
        ensures
            r@ == (PlaceholderFileView {
                flags: self@.flags | PLACEHOLDER_CREATE_FLAG_SUPERSEDE,
                ..self@
            }),
    {
        PlaceholderFile { flags: self.flags | PLACEHOLDER_CREATE_FLAG_SUPERSEDE, ..self }
    }

    /// Blocks this placeholder file from being dehydrated.
    ///
    /// This flag does not work on directories.
    pub fn block_dehydration(self) -> (r: Self)
        ensures
            r@ == (PlaceholderFileView {
                flags: self@.flags | PLACEHOLDER_CREATE_FLAG_ALWAYS_FULL,
                ..self@
            }),
    {
        PlaceholderFile { flags: self.flags | PLACEHOLDER_CREATE_FLAG_ALWAYS_FULL, ..self }
    }

    /// The metadata for the [PlaceholderFile].
    pub fn metadata(self, metadata: Metadata) -> (r: Self)
        ensures
            r@ == (PlaceholderFileView { metadata, ..self@ }),
    {
        PlaceholderFile { metadata, ..self }
    }

    /// A buffer of bytes stored with the file; it must not exceed 4KiB.
    pub fn blob(self, blob: Vec<u8>) -> (r: Self)
        requires
            blob@.len() <= PLACEHOLDER_MAX_FILE_IDENTITY_LENGTH,
        ensures
            r@ == (PlaceholderFileView { blob: blob@, ..self@ }),
    {
        PlaceholderFile { blob, ..self }
    }

    /// The outcome of the creation: the placeholder's [Usn] when the platform
    /// reported success, the failing `HRESULT` otherwise.
    pub fn result(&self) -> (r: Result<Usn, i32>)
        ensures
            match hresult_outcome(self@.result) {
                Ok(()) => r == Ok::<Usn, i32>(self@.create_usn),
                Err(code) => r == Err::<Usn, i32>(code),
            },
    {
        match hresult_ok(self.result) {
            Ok(()) => Ok(self.create_usn),
            Err(code) => Err(code),
        }
    }

    /// Records what the platform wrote back after a creation: the `HRESULT`
    /// of this placeholder and its new [Usn].
    pub fn set_outcome(&mut self, result: i32, create_usn: Usn)
        ensures
            final(self)@ == (PlaceholderFileView { result, create_usn, ..old(self)@ }),
    {
        self.result = result;
        self.create_usn = create_usn;
    }

    /// The relative path, in UTF-16, without a terminating nul.
    pub fn relative_file_name(&self) -> (r: &[u16])
        ensures
            r@ == self@.relative_file_name,
    {
        self.relative_file_name.as_slice()
    }

    /// The `CF_PLACEHOLDER_CREATE_FLAGS` bits.
    pub fn flags(&self) -> (r: u32)
        ensures
            r == self@.flags,
    {
        self.flags
    }

    /// The metadata the placeholder is created with.
    pub fn metadata_param(&self) -> (r: Metadata)
        ensures
            r == self@.metadata,
    {
        self.metadata
    }

    /// The file identity the placeholder is created with (empty when none).
    pub fn blob_bytes(&self) -> (r: &[u8])
        ensures
            r@ == self@.blob,
    {
        self.blob.as_slice()
    }
}

} // verus!
