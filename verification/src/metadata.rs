use vstd::prelude::*;

use nt_time::FileTime;

use crate::Sealed;

verus! {

/// `nt_time::FileTime`, a count of 100-nanosecond intervals since 1601-01-01
/// (UTC); its value is only seen through [file_time_ticks].
#[verifier::external_type_specification]
#[verifier::external_body]
pub struct ExFileTime(FileTime);

/// The raw tick count that a `FileTime` holds (what `FileTime::to_raw` returns).
pub uninterp spec fn file_time_ticks(time: FileTime) -> u64;

/// Calls `FileTime::to_raw`, which hands back the tick count the value holds.
#[verifier::external_body]
pub(crate) fn file_time_to_raw(time: FileTime) -> (r: u64)
    ensures
        r == file_time_ticks(time),
{
    time.to_raw()
}

/// Calls `FileTime::new`, which wraps a tick count; `to_raw` gives the same
/// count back.
#[verifier::external_body]
pub(crate) fn file_time_new(ticks: u64) -> (r: FileTime)
    ensures
        file_time_ticks(r) == ticks,
{
    FileTime::new(ticks)
}

/// The `FileTime` that holds `ticks` 100-nanosecond intervals since
/// 1601-01-01 (UTC).
pub fn file_time_from_ticks(ticks: u64) -> (r: FileTime)
    ensures
        file_time_ticks(r) == ticks,
{
    file_time_new(ticks)
}

/// The number of 100-nanosecond intervals since 1601-01-01 (UTC) that `time`
/// holds; the setters of [Metadata] take times up to `i64::MAX` of them.
pub fn ticks_of_file_time(time: FileTime) -> (r: u64)
    ensures
        r == file_time_ticks(time),
{
    file_time_to_raw(time)
}

/// The file-system metadata of a placeholder: its four timestamps in FILETIME
/// ticks, its attribute bits and the size of its content.
#[derive(Debug, Clone, Copy, PartialEq, Eq, Structural)]
pub struct Metadata {
    /// The time the file/directory was created.
    pub creation_time: i64,
    /// The time the file/directory was last accessed.
    pub last_access_time: i64,
    /// The time the file/directory content was last written.
    pub last_write_time: i64,
    /// The time the file/directory content or metadata was changed.
    pub change_time: i64,
    /// The `FILE_ATTRIBUTE_*` bits.
    pub file_attributes: u32,
    /// The size of the file's content.
    pub file_size: i64,
}

/// The attribute bit of an ordinary file.
pub const FILE_ATTRIBUTE_NORMAL: u32 = 0x80;

/// The attribute bit of a directory.
pub const FILE_ATTRIBUTE_DIRECTORY: u32 = 0x10;

/// Metadata whose fields are all zero but for the attributes.
pub open spec fn metadata_with_attributes(attributes: u32) -> Metadata {
    Metadata {
        creation_time: 0,
        last_access_time: 0,
        last_write_time: 0,
        change_time: 0,
        file_attributes: attributes,
        file_size: 0,
    }
}

impl Default for Metadata {
    fn default() -> (r: Self)
        ensures
            r == metadata_with_attributes(0),
    {
        Metadata {
            creation_time: 0,
            last_access_time: 0,
            last_write_time: 0,
            change_time: 0,
            file_attributes: 0,
            file_size: 0,
        }
    }
}

impl Metadata {
    /// The default [Metadata] with `FILE_ATTRIBUTE_NORMAL` attribute.
    pub fn file() -> (r: Self)
        ensures
            r == metadata_with_attributes(FILE_ATTRIBUTE_NORMAL),
    {
        Metadata {
            creation_time: 0,
            last_access_time: 0,
            last_write_time: 0,
            change_time: 0,
            file_attributes: FILE_ATTRIBUTE_NORMAL,
            file_size: 0,
        }
    }

    /// The default [Metadata] with `FILE_ATTRIBUTE_DIRECTORY` attribute.
    pub fn directory() -> (r: Self)
        ensures
            r == metadata_with_attributes(FILE_ATTRIBUTE_DIRECTORY),
    {
        Metadata {
            creation_time: 0,
            last_access_time: 0,
            last_write_time: 0,
            change_time: 0,
            file_attributes: FILE_ATTRIBUTE_DIRECTORY,
            file_size: 0,
        }
    }

    /// The metadata of a file as the file system reports it: its creation,
    /// last access and last write times (FILETIME ticks), its attribute bits
    /// and its size; the change time is taken to be the last write time.
    pub fn from_file_system(
        creation_time: u64,
        last_access_time: u64,
        last_write_time: u64,
        file_attributes: u32,
        file_size: u64,
    ) -> (r: Self)
        ensures
            r == (Metadata {
                creation_time: creation_time as i64,
                last_access_time: last_access_time as i64,
                last_write_time: last_write_time as i64,
                change_time: last_write_time as i64,
                file_attributes,
                file_size: file_size as i64,
            }),
    {
        Metadata {
            creation_time: creation_time as i64,
            last_access_time: last_access_time as i64,
            last_write_time: last_write_time as i64,
            change_time: last_write_time as i64,
            file_attributes,
            file_size: file_size as i64,
        }
    }

    /// The time the file/directory was created.
    pub fn created(self, time: FileTime) -> (r: Self)
        requires
            file_time_ticks(time) <= i64::MAX,
        ensures
            r == (Metadata { creation_time: file_time_ticks(time) as i64, ..self }),
    {
        let ticks = file_time_to_raw(time);
        Metadata { creation_time: ticks as i64, ..self }
    }

    /// The time the file/directory was last accessed.
    pub fn accessed(self, time: FileTime) -> (r: Self)
        requires
            file_time_ticks(time) <= i64::MAX,
        ensures
            r == (Metadata { last_access_time: file_time_ticks(time) as i64, ..self }),
    {
        let ticks = file_time_to_raw(time);
        Metadata { last_access_time: ticks as i64, ..self }
    }

    /// The time the file/directory content was last written.
    pub fn written(self, time: FileTime) -> (r: Self)
        requires
            file_time_ticks(time) <= i64::MAX,
        ensures
            r == (Metadata { last_write_time: file_time_ticks(time) as i64, ..self }),
    {
        let ticks = file_time_to_raw(time);
        Metadata { last_write_time: ticks as i64, ..self }
    }

    /// The time the file/directory content or metadata was changed.
    pub fn changed(self, time: FileTime) -> (r: Self)
        requires
            file_time_ticks(time) <= i64::MAX,
        ensures
            r == (Metadata { change_time: file_time_ticks(time) as i64, ..self }),
    {
        let ticks = file_time_to_raw(time);
        Metadata { change_time: ticks as i64, ..self }
    }

    /// The size of the file's content; sizes above `i64::MAX` wrap around, as
    /// the platform field is signed.
    pub fn size(self, size: u64) -> (r: Self)
        ensures
            r == (Metadata { file_size: size as i64, ..self }),
    {
        Metadata { file_size: size as i64, ..self }
    }

    /// Adds attribute bits to the ones already set.
    pub fn attributes(self, attributes: u32) -> (r: Self)
        ensures
            r == (Metadata { file_attributes: self.file_attributes | attributes, ..self }),
    {
        Metadata { file_attributes: self.file_attributes | attributes, ..self }
    }
}

/// Setters of the timestamps, in raw
/// [FILETIME](https://learn.microsoft.com/en-us/windows/win32/api/minwinbase/ns-minwinbase-filetime)
/// ticks.
pub trait MetadataExt: Sealed {
    /// The time the file was changed in FILETIME format.
    fn change_time(self, time: i64) -> Self;

    /// The time the file was last accessed in FILETIME format.
    fn last_access_time(self, time: i64) -> Self;

    /// The time the file was last written to in FILETIME format.
    fn last_write_time(self, time: i64) -> Self;

    /// The time the file was created in FILETIME format.
    fn creation_time(self, time: i64) -> Self;
}

impl Sealed for Metadata {}

impl MetadataExt for Metadata {
    fn change_time(self, time: i64) -> (r: Self)
        ensures
            r == (Metadata { change_time: time, ..self }),
    {
        Metadata { change_time: time, ..self }
    }

    fn last_access_time(self, time: i64) -> (r: Self)
        ensures
            r == (Metadata { last_access_time: time, ..self }),
    {
        Metadata { last_access_time: time, ..self }
    }

    fn last_write_time(self, time: i64) -> (r: Self)
        ensures
            r == (Metadata { last_write_time: time, ..self }),
    {
        Metadata { last_write_time: time, ..self }
    }

    fn creation_time(self, time: i64) -> (r: Self)
        ensures
            r == (Metadata { creation_time: time, ..self }),
    {
        Metadata { creation_time: time, ..self }
    }
}

} // verus!
