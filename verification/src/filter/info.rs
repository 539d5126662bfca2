use vstd::prelude::*;

use globset::Glob;
use nt_time::FileTime;
use widestring::U16Str;

use crate::metadata::{file_time_new, file_time_ticks};
use crate::utility::concat_units;

verus! {

/// `globset::Glob`, a compiled glob pattern.
#[verifier::external_type_specification]
#[verifier::external_body]
pub struct ExGlob(Glob);

/// `globset::Error`, why a glob pattern was refused.
#[verifier::external_type_specification]
#[verifier::external_body]
pub struct ExGlobError(globset::Error);

/// What `globset::Glob::new` compiles of a pattern: the glob when it accepts
/// the pattern, `None` when it refuses it. Within one build a function of the
/// pattern alone (whether a trailing backslash is an escape left open depends
/// on whether the platform takes it as a path separator).
pub uninterp spec fn compiled_glob(pattern: Seq<char>) -> Option<Glob>;

/// The text that lossy UTF-16 decoding gives of code units: a high surrogate
/// followed by a low one is the character the pair encodes, any other
/// surrogate is U+FFFD (the replacement character), and every other unit is
/// the character of that code point.
pub open spec fn utf16_lossy(units: Seq<u16>) -> Seq<char>
    decreases units.len(),
{
    if units.len() == 0 {
        Seq::empty()
    } else {
        let high: int = units[0] as int;
        if 0xD800 <= high < 0xDC00 && units.len() >= 2 && 0xDC00 <= units[1] < 0xE000 {
            let low: int = units[1] as int;
            let code: int = 0x10000 + (high - 0xD800) * 0x400 + (low - 0xDC00);
            seq![code as u32 as char] + utf16_lossy(units.skip(2))
        } else if 0xD800 <= high < 0xE000 {
            seq!['\u{FFFD}'] + utf16_lossy(units.skip(1))
        } else {
            seq![high as u32 as char] + utf16_lossy(units.skip(1))
        }
    }
}

/// Calls `globset::Glob::new`, which compiles a glob pattern: it succeeds
/// with [compiled_glob] of the pattern where that names a glob, and fails
/// where it names none. Which error it fails with is left unsaid.
#[verifier::external_body]
fn compile_glob(pattern: &str) -> (r: Result<Glob, globset::Error>)
    ensures
        r is Ok == compiled_glob(pattern@) is Some,
        r matches Ok(glob) ==> compiled_glob(pattern@) == Some(glob),
{
    Glob::new(pattern)
}

/// Calls `U16Str::to_string_lossy` (that is, `String::from_utf16_lossy`) on
/// the units, which decodes them as [utf16_lossy] says.
#[verifier::external_body]
fn decode_utf16_lossy(units: &[u16]) -> (r: String)
    ensures
        r@ == utf16_lossy(units@),
{
    U16Str::from_slice(units).to_string_lossy()
}

/// `CF_CALLBACK_FETCH_DATA_FLAG_RECOVERY`.
pub const FETCH_DATA_FLAG_RECOVERY: u32 = 0x1;
/// `CF_CALLBACK_FETCH_DATA_FLAG_EXPLICIT_HYDRATION`.
pub const FETCH_DATA_FLAG_EXPLICIT_HYDRATION: u32 = 0x2;
/// `CF_CALLBACK_CANCEL_FLAG_IO_TIMEOUT`.
pub const CANCEL_FLAG_IO_TIMEOUT: u32 = 0x1;
/// `CF_CALLBACK_CANCEL_FLAG_IO_ABORTED`.
pub const CANCEL_FLAG_IO_ABORTED: u32 = 0x2;
/// `CF_CALLBACK_VALIDATE_DATA_FLAG_EXPLICIT_HYDRATION`.
pub const VALIDATE_DATA_FLAG_EXPLICIT_HYDRATION: u32 = 0x2;
/// `CF_CALLBACK_OPEN_COMPLETION_FLAG_PLACEHOLDER_UNKNOWN`.
pub const OPEN_COMPLETION_FLAG_PLACEHOLDER_UNKNOWN: u32 = 0x1;
/// `CF_CALLBACK_OPEN_COMPLETION_FLAG_PLACEHOLDER_UNSUPPORTED`.
pub const OPEN_COMPLETION_FLAG_PLACEHOLDER_UNSUPPORTED: u32 = 0x2;
/// `CF_CALLBACK_CLOSE_COMPLETION_FLAG_DELETED`.
pub const CLOSE_COMPLETION_FLAG_DELETED: u32 = 0x1;
/// `CF_CALLBACK_DEHYDRATE_FLAG_BACKGROUND`.
pub const DEHYDRATE_FLAG_BACKGROUND: u32 = 0x1;
/// `CF_CALLBACK_DEHYDRATE_COMPLETION_FLAG_BACKGROUND`.
pub const DEHYDRATE_COMPLETION_FLAG_BACKGROUND: u32 = 0x1;
/// `CF_CALLBACK_DEHYDRATE_COMPLETION_FLAG_DEHYDRATED`.
pub const DEHYDRATE_COMPLETION_FLAG_DEHYDRATED: u32 = 0x2;
/// `CF_CALLBACK_DELETE_FLAG_IS_DIRECTORY`.
pub const DELETE_FLAG_IS_DIRECTORY: u32 = 0x1;
/// `CF_CALLBACK_DELETE_FLAG_IS_UNDELETE`.
pub const DELETE_FLAG_IS_UNDELETE: u32 = 0x2;
/// `CF_CALLBACK_RENAME_FLAG_IS_DIRECTORY`.
pub const RENAME_FLAG_IS_DIRECTORY: u32 = 0x1;
/// `CF_CALLBACK_RENAME_FLAG_SOURCE_IN_SCOPE`.
pub const RENAME_FLAG_SOURCE_IN_SCOPE: u32 = 0x2;
/// `CF_CALLBACK_RENAME_FLAG_TARGET_IN_SCOPE`.
pub const RENAME_FLAG_TARGET_IN_SCOPE: u32 = 0x4;

/// Whether any of the bits of `flag` is set in `flags`.
pub open spec fn has_flag(flags: u32, flag: u32) -> bool {
    flags & flag != 0
}

/// The byte range `offset..offset + length`, as the platform describes a range.
pub open spec fn file_range(offset: i64, length: i64) -> std::ops::Range<u64> {
    (offset as u64)..((offset + length) as i64 as u64)
}

/// Computes the byte range `offset..offset + length`; the end may not
/// overflow an `i64`.
fn range_of(offset: i64, length: i64) -> (r: std::ops::Range<u64>)
    requires
        i64::MIN <= offset + length <= i64::MAX,
    ensures
        r == file_range(offset, length),
{
    let end: i64 = offset + length;
    (offset as u64)..(end as u64)
}

/// The reason a placeholder has been dehydrated.
#[derive(Debug, Clone, Copy, PartialEq, Eq, Structural)]
pub enum DehydrationReason {
    /// The user manually dehydrated the placeholder.
    UserManually,
    /// The operating system automatically dehydrated the placeholder due to low disk space on the
    /// volume.
    LowSpace,
    /// The operating system automatically dehydrated the placeholder due to low activity.
    ///
    /// This is based on the Windows Storage Sense settings.
    Inactive,
    /// The operating system automatically dehydrated this file to make room for an operating
    /// system upgrade.
    OsUpgrade,
}

/// The reason that a `CF_CALLBACK_DEHYDRATION_REASON` code stands for; `None`
/// for `CF_CALLBACK_DEHYDRATION_REASON_NONE` and unknown codes.
pub open spec fn dehydration_reason_of(code: i32) -> Option<DehydrationReason> {
    if code == 1 {
        Some(DehydrationReason::UserManually)
    } else if code == 2 {
        Some(DehydrationReason::LowSpace)
    } else if code == 3 {
        Some(DehydrationReason::Inactive)
    } else if code == 4 {
        Some(DehydrationReason::OsUpgrade)
    } else {
        None
    }
}

impl DehydrationReason {
    /// Decodes a `CF_CALLBACK_DEHYDRATION_REASON` code.
    pub fn from_code(code: i32) -> (r: Option<DehydrationReason>)
        ensures
            r == dehydration_reason_of(code),
    {
        if code == 1 {
            Some(DehydrationReason::UserManually)
        } else if code == 2 {
            Some(DehydrationReason::LowSpace)
        } else if code == 3 {
            Some(DehydrationReason::Inactive)
        } else if code == 4 {
            Some(DehydrationReason::OsUpgrade)
        } else {
            None
        }
    }
}

/// Information for the fetch-data callback.
#[derive(Debug, Clone, Copy)]
pub struct FetchData {
    pub flags: u32,
    pub required_file_offset: i64,
    pub required_length: i64,
    pub optional_file_offset: i64,
    pub optional_length: i64,
    pub last_dehydration_time: i64,
    pub last_dehydration_reason: i32,
}

impl FetchData {
    /// Whether or not the callback was called from an interrupted hydration.
    pub fn interrupted_hydration(&self) -> (r: bool)
        ensures
            r == has_flag(self.flags, FETCH_DATA_FLAG_RECOVERY),
    {
        self.flags & FETCH_DATA_FLAG_RECOVERY != 0
    }

    /// Whether or not the callback was called from an explicit hydration.
    pub fn explicit_hydration(&self) -> (r: bool)
        ensures
            r == has_flag(self.flags, FETCH_DATA_FLAG_EXPLICIT_HYDRATION),
    {
        self.flags & FETCH_DATA_FLAG_EXPLICIT_HYDRATION != 0
    }

    /// The bytes that must be written to the placeholder.
    pub fn required_file_range(&self) -> (r: std::ops::Range<u64>)
        requires
            i64::MIN <= self.required_file_offset + self.required_length <= i64::MAX,
        ensures
            r == file_range(self.required_file_offset, self.required_length),
    {
        range_of(self.required_file_offset, self.required_length)
    }

    /// The bytes the provider may write instead, if it prefers to give data
    /// in larger chunks.
    pub fn optional_file_range(&self) -> (r: std::ops::Range<u64>)
        requires
            i64::MIN <= self.optional_file_offset + self.optional_length <= i64::MAX,
        ensures
            r == file_range(self.optional_file_offset, self.optional_length),
    {
        range_of(self.optional_file_offset, self.optional_length)
    }

    /// The last time the file was dehydrated; the platform's value may not be
    /// negative.
    pub fn last_dehydration_time(&self) -> (r: FileTime)
        requires
            self.last_dehydration_time >= 0,
        ensures
            file_time_ticks(r) == self.last_dehydration_time,
    {
        file_time_new(self.last_dehydration_time as u64)
    }

    /// The reason the file was last dehydrated.
    pub fn last_dehydration_reason(&self) -> (r: Option<DehydrationReason>)
        ensures
            r == dehydration_reason_of(self.last_dehydration_reason),
    {
        DehydrationReason::from_code(self.last_dehydration_reason)
    }
}

/// Information for the cancel-fetch-data callback.
#[derive(Debug, Clone, Copy)]
pub struct CancelFetchData {
    pub flags: u32,
    pub file_offset: i64,
    pub length: i64,
}

impl CancelFetchData {
    /// Whether or not the callback failed as a result of the 60 second timeout.
    pub fn timeout(&self) -> (r: bool)
        ensures
            r == has_flag(self.flags, CANCEL_FLAG_IO_TIMEOUT),
    {
        self.flags & CANCEL_FLAG_IO_TIMEOUT != 0
    }

    /// The user has cancelled the request manually.
    pub fn user_cancelled(&self) -> (r: bool)
        ensures
            r == has_flag(self.flags, CANCEL_FLAG_IO_ABORTED),
    {
        self.flags & CANCEL_FLAG_IO_ABORTED != 0
    }

    /// The range of the file data that is no longer required.
    pub fn file_range(&self) -> (r: std::ops::Range<u64>)
        requires
            i64::MIN <= self.file_offset + self.length <= i64::MAX,
        ensures
            r == file_range(self.file_offset, self.length),
    {
        range_of(self.file_offset, self.length)
    }
}

/// Information for the validate-data callback.
#[derive(Debug, Clone, Copy)]
pub struct ValidateData {
    pub flags: u32,
    pub required_file_offset: i64,
    pub required_length: i64,
}

impl ValidateData {
    /// Whether or not the callback was called from an explicit hydration.
    pub fn explicit_hydration(&self) -> (r: bool)
        ensures
            r == has_flag(self.flags, VALIDATE_DATA_FLAG_EXPLICIT_HYDRATION),
    {
        self.flags & VALIDATE_DATA_FLAG_EXPLICIT_HYDRATION != 0
    }

    /// The range of data to validate.
    pub fn file_range(&self) -> (r: std::ops::Range<u64>)
        requires
            i64::MIN <= self.required_file_offset + self.required_length <= i64::MAX,
        ensures
            r == file_range(self.required_file_offset, self.required_length),
    {
        range_of(self.required_file_offset, self.required_length)
    }
}

/// Information for the fetch-placeholders callback: the pattern the platform
/// passed, in UTF-16 without its terminating nul.
#[derive(Debug, Clone)]
pub struct FetchPlaceholders {
    pub pattern: Vec<u16>,
}

impl FetchPlaceholders {
    /// A glob pattern specifying the files that should be fetched, decoded
    /// from UTF-16 (invalid units become U+FFFD).
    ///
    /// This field is completely optional and does not have to be respected.
    pub fn pattern(&self) -> (r: String)
        ensures
            r@ == utf16_lossy(self.pattern@),
    {
        decode_utf16_lossy(self.pattern.as_slice())
    }

    /// The pattern compiled as a glob; an error where globset refuses it.
    pub fn pattern_glob(&self) -> (r: Result<Glob, globset::Error>)
        ensures
            r is Ok == compiled_glob(utf16_lossy(self.pattern@)) is Some,
            r matches Ok(glob) ==> compiled_glob(utf16_lossy(self.pattern@)) == Some(glob),
    {
        let text = self.pattern();
        compile_glob(text.as_str())
    }
}

/// Information for the cancel-fetch-placeholders callback.
#[derive(Debug, Clone, Copy)]
pub struct CancelFetchPlaceholders {
    pub flags: u32,
}

impl CancelFetchPlaceholders {
    /// Whether or not the callback failed as a result of the 60 second timeout.
    pub fn timeout(&self) -> (r: bool)
        ensures
            r == has_flag(self.flags, CANCEL_FLAG_IO_TIMEOUT),
    {
        self.flags & CANCEL_FLAG_IO_TIMEOUT != 0
    }

    /// The user has cancelled the request manually.
    pub fn user_cancelled(&self) -> (r: bool)
        ensures
            r == has_flag(self.flags, CANCEL_FLAG_IO_ABORTED),
    {
        self.flags & CANCEL_FLAG_IO_ABORTED != 0
    }
}

/// Information for the file-opened callback.
#[derive(Debug, Clone, Copy)]
pub struct Opened {
    pub flags: u32,
}

impl Opened {
    /// The placeholder metadata is corrupt.
    pub fn metadata_corrupt(&self) -> (r: bool)
        ensures
            r == has_flag(self.flags, OPEN_COMPLETION_FLAG_PLACEHOLDER_UNKNOWN),
    {
        self.flags & OPEN_COMPLETION_FLAG_PLACEHOLDER_UNKNOWN != 0
    }

    /// The placeholder metadata is not supported.
    pub fn metadata_unsupported(&self) -> (r: bool)
        ensures
            r == has_flag(self.flags, OPEN_COMPLETION_FLAG_PLACEHOLDER_UNSUPPORTED),
    {
        self.flags & OPEN_COMPLETION_FLAG_PLACEHOLDER_UNSUPPORTED != 0
    }
}

/// Information for the file-closed callback.
#[derive(Debug, Clone, Copy)]
pub struct Closed {
    pub flags: u32,
}

impl Closed {
    /// Whether or not the placeholder was deleted as a result of the close.
    pub fn deleted(&self) -> (r: bool)
        ensures
            r == has_flag(self.flags, CLOSE_COMPLETION_FLAG_DELETED),
    {
        self.flags & CLOSE_COMPLETION_FLAG_DELETED != 0
    }
}

/// Information for the dehydrate callback.
#[derive(Debug, Clone, Copy)]
pub struct Dehydrate {
    pub flags: u32,
    pub reason: i32,
}

impl Dehydrate {
    /// Whether or not the callback was called from a system background service.
    pub fn background(&self) -> (r: bool)
        ensures
            r == has_flag(self.flags, DEHYDRATE_FLAG_BACKGROUND),
    {
        self.flags & DEHYDRATE_FLAG_BACKGROUND != 0
    }

    /// The reason the file is being dehydrated.
    pub fn reason(&self) -> (r: Option<DehydrationReason>)
        ensures
            r == dehydration_reason_of(self.reason),
    {
        DehydrationReason::from_code(self.reason)
    }
}

/// Information for the dehydrated callback.
#[derive(Debug, Clone, Copy)]
pub struct Dehydrated {
    pub flags: u32,
    pub reason: i32,
}

impl Dehydrated {
    /// Whether or not the callback was called from a system background service.
    pub fn background(&self) -> (r: bool)
        ensures
            r == has_flag(self.flags, DEHYDRATE_COMPLETION_FLAG_BACKGROUND),
    {
        self.flags & DEHYDRATE_COMPLETION_FLAG_BACKGROUND != 0
    }

    /// Whether or not the placeholder was already hydrated.
    pub fn already_hydrated(&self) -> (r: bool)
        ensures
            r == has_flag(self.flags, DEHYDRATE_COMPLETION_FLAG_DEHYDRATED),
    {
        self.flags & DEHYDRATE_COMPLETION_FLAG_DEHYDRATED != 0
    }

    /// The reason the file is being dehydrated.
    pub fn reason(&self) -> (r: Option<DehydrationReason>)
        ensures
            r == dehydration_reason_of(self.reason),
    {
        DehydrationReason::from_code(self.reason)
    }
}

/// Information for the delete callback.
#[derive(Debug, Clone, Copy)]
pub struct Delete {
    pub flags: u32,
}

impl Delete {
    /// Whether or not the placeholder being deleted is a directory.
    pub fn is_directory(&self) -> (r: bool)
        ensures
            r == has_flag(self.flags, DELETE_FLAG_IS_DIRECTORY),
    {
        self.flags & DELETE_FLAG_IS_DIRECTORY != 0
    }

    /// The placeholder is being undeleted.
    pub fn is_undelete(&self) -> (r: bool)
        ensures
            r == has_flag(self.flags, DELETE_FLAG_IS_UNDELETE),
    {
        self.flags & DELETE_FLAG_IS_UNDELETE != 0
    }
}

/// Information for the deleted callback.
#[derive(Debug, Clone, Copy)]
pub struct Deleted {
    pub flags: u32,
}

/// Information for the rename callback: its flags, and the target path
/// (relative to the volume) and the volume's letter, in UTF-16.
#[derive(Debug, Clone)]
pub struct Rename {
    pub flags: u32,
    pub target: Vec<u16>,
    pub volume_letter: Vec<u16>,
}

impl Rename {
    /// Whether or not the placeholder being renamed is a directory.
    pub fn is_directory(&self) -> (r: bool)
        ensures
            r == has_flag(self.flags, RENAME_FLAG_IS_DIRECTORY),
    {
        self.flags & RENAME_FLAG_IS_DIRECTORY != 0
    }

    /// Whether or not the placeholder was originally in the sync root.
    pub fn source_in_scope(&self) -> (r: bool)
        ensures
            r == has_flag(self.flags, RENAME_FLAG_SOURCE_IN_SCOPE),
    {
        self.flags & RENAME_FLAG_SOURCE_IN_SCOPE != 0
    }

    /// Whether or not the placeholder is being moved inside the sync root.
    pub fn target_in_scope(&self) -> (r: bool)
        ensures
            r == has_flag(self.flags, RENAME_FLAG_TARGET_IN_SCOPE),
    {
        self.flags & RENAME_FLAG_TARGET_IN_SCOPE != 0
    }

    /// The full path the placeholder is being moved to: the volume letter
    /// followed by the target path.
    pub fn target_path(&self) -> (r: Vec<u16>)
        ensures
            r@ == self.volume_letter@ + self.target@,
    {
        concat_units(self.volume_letter.as_slice(), self.target.as_slice())
    }
}

/// Information for the renamed callback: the source path (relative to the
/// volume) and the volume's letter, in UTF-16.
#[derive(Debug, Clone)]
pub struct Renamed {
    pub source: Vec<u16>,
    pub volume_letter: Vec<u16>,
}

impl Renamed {
    /// The full path the placeholder has been moved from: the volume letter
    /// followed by the source path.
    pub fn source_path(&self) -> (r: Vec<u16>)
        ensures
            r@ == self.volume_letter@ + self.source@,
    {
        concat_units(self.volume_letter.as_slice(), self.source.as_slice())
    }
}

} // verus!
