use vstd::prelude::*;

use crate::utility::concat_units;

verus! {

/// The raw key of a connection to a sync root.
pub type RawConnectionKey = i64;

/// The raw key of the file operation a callback is about.
pub type RawTransferKey = i64;

/// What the platform tells about the process that caused a callback, read
/// out of its process information block. Text comes as UTF-16 code units
/// without the terminating nul.
#[derive(Debug, Clone)]
pub struct ProcessInfo {
    /// The application's package name.
    pub package_name: Vec<u16>,
    /// The ID of the user process.
    pub process_id: u32,
    /// The ID of the session where the user process resides.
    pub session_id: u32,
    /// The application's ID.
    pub application_id: Vec<u16>,
    /// The image path of the process, or `UNKNOWN` when the platform could
    /// not retrieve it.
    pub image_path: Vec<u16>,
    /// The command line of the process, or `UNKNOWN` when the platform could
    /// not retrieve it.
    pub command_line: Vec<u16>,
}

/// What the platform tells about a callback, read out of its callback
/// information block. Text comes as UTF-16 code units without the
/// terminating nul.
#[derive(Debug, Clone)]
pub struct CallbackInfo {
    /// The key of the connection the callback came through.
    pub connection_key: RawConnectionKey,
    /// The key of the file operation.
    pub transfer_key: RawTransferKey,
    /// The GUID path of the volume, `\\?\Volume{GUID}`.
    pub volume_guid_name: Vec<u16>,
    /// The DOS name of the volume, `X:`.
    pub volume_dos_name: Vec<u16>,
    /// The serial number of the volume.
    pub volume_serial_number: u32,
    /// The NTFS file ID of the sync root folder.
    pub sync_root_file_id: i64,
    /// The NTFS file ID of the placeholder.
    pub file_id: i64,
    /// The logical size of the placeholder.
    pub file_size: i64,
    /// The path of the placeholder from the root directory of the volume.
    pub normalized_path: Vec<u16>,
    /// The priority of the operation.
    pub priority_hint: u8,
    /// The blob of the placeholder.
    pub file_identity: Vec<u8>,
    /// The blob of the sync root.
    pub sync_root_identity: Vec<u8>,
    /// The process that caused the callback.
    pub process: ProcessInfo,
}

/// Copies UTF-16 code units.
fn copy_units(units: &Vec<u16>) -> (r: Vec<u16>)
    ensures
        r@ == units@,
{
    let r = units.clone();
    assert(r@ =~= units@);
    r
}

/// Information about the current file operation.
///
/// If there is no activity on the placeholder within 60 seconds, the
/// operating system invalidates the request.
#[derive(Debug)]
pub struct Request {
    info: CallbackInfo,
}

impl Request {
    /// The callback information the request reads.
    pub closed spec fn info(&self) -> CallbackInfo {
        self.info
    }

    /// A request for a callback.
    pub fn new(info: CallbackInfo) -> (r: Self)
        ensures
            r.info() == info,
    {
        Request { info }
    }

    /// The GUID path of the current volume, in the form `\\?\Volume{GUID}`.
    pub fn volume_guid_path(&self) -> (r: Vec<u16>)
        ensures
            r@ == self.info().volume_guid_name@,
    {
        copy_units(&self.info.volume_guid_name)
    }

    /// The letter of the current volume, in the form `X:`.
    pub fn volume_letter(&self) -> (r: Vec<u16>)
        ensures
            r@ == self.info().volume_dos_name@,
    {
        copy_units(&self.info.volume_dos_name)
    }

    /// The serial number of the current volume.
    pub fn volume_serial_number(&self) -> (r: u32)
        ensures
            r == self.info().volume_serial_number,
    {
        self.info.volume_serial_number
    }

    /// Information about the user process that caused the callback.
    pub fn process(&self) -> (r: Process)
        ensures
            r.info().package_name@ == self.info().process.package_name@,
            r.info().process_id == self.info().process.process_id,
            r.info().session_id == self.info().process.session_id,
            r.info().application_id@ == self.info().process.application_id@,
            r.info().image_path@ == self.info().process.image_path@,
            r.info().command_line@ == self.info().process.command_line@,
    {
        let p = &self.info.process;
        Process::new(
            ProcessInfo {
                package_name: copy_units(&p.package_name),
                process_id: p.process_id,
                session_id: p.session_id,
                application_id: copy_units(&p.application_id),
                image_path: copy_units(&p.image_path),
                command_line: copy_units(&p.command_line),
            },
        )
    }

    /// The NTFS file ID of the sync root folder under which the placeholder
    /// resides.
    pub fn sync_root_file_id(&self) -> (r: i64)
        ensures
            r == self.info().sync_root_file_id,
    {
        self.info.sync_root_file_id
    }

    /// The NTFS file ID of the placeholder.
    pub fn file_id(&self) -> (r: i64)
        ensures
            r == self.info().file_id,
    {
        self.info.file_id
    }

    /// The logical size of the placeholder (0 for a directory), the
    /// platform's signed size read as unsigned.
    pub fn file_size(&self) -> (r: u64)
        ensures
            r == self.info().file_size as u64,
    {
        self.info.file_size as u64
    }

    /// The absolute path of the placeholder: the volume letter followed by
    /// the path from the root directory of the volume (which starts with a
    /// separator, so the two join without another).
    pub fn path(&self) -> (r: Vec<u16>)
        ensures
            r@ == self.info().volume_dos_name@ + self.info().normalized_path@,
    {
        concat_units(self.info.volume_dos_name.as_slice(), self.info.normalized_path.as_slice())
    }

    /// The priority of the file operation, from 0 to 15.
    pub fn priority_hint(&self) -> (r: u8)
        ensures
            r == self.info().priority_hint,
    {
        self.info.priority_hint
    }

    /// The blob of the current placeholder.
    pub fn file_blob(&self) -> (r: &[u8])
        ensures
            r@ == self.info().file_identity@,
    {
        self.info.file_identity.as_slice()
    }

    /// The blob given to the sync root on registration.
    pub fn register_blob(&self) -> (r: &[u8])
        ensures
            r@ == self.info().sync_root_identity@,
    {
        self.info.sync_root_identity.as_slice()
    }

    /// The raw key of the connection.
    pub fn connection_key(&self) -> (r: RawConnectionKey)
        ensures
            r == self.info().connection_key,
    {
        self.info.connection_key
    }

    /// The raw key of the current file operation.
    pub fn transfer_key(&self) -> (r: RawTransferKey)
        ensures
            r == self.info().transfer_key,
    {
        self.info.transfer_key
    }
}

/// The UTF-16 code units of `UNKNOWN`, which the platform reports in place
/// of an image path it could not retrieve.
pub open spec fn unknown_units() -> Seq<u16> {
    seq![0x55u16, 0x4Eu16, 0x4Bu16, 0x4Eu16, 0x4Fu16, 0x57u16, 0x4Eu16]
}

/// Whether `units` spell `UNKNOWN`.
fn is_unknown(units: &Vec<u16>) -> (r: bool)
    ensures
        r == (units@ == unknown_units()),
{
    let same = units.len() == 7 && units[0] == 0x55u16 && units[1] == 0x4Eu16 && units[2]
        == 0x4Bu16 && units[3] == 0x4Eu16 && units[4] == 0x4Fu16 && units[5] == 0x57u16
        && units[6] == 0x4Eu16;
    proof {
        if same {
            assert(units@ =~= unknown_units());
        }
    }
    same
}

/// Information about the process that caused a callback.
#[derive(Debug)]
pub struct Process {
    info: ProcessInfo,
}

impl Process {
    /// The process information this reads.
    pub closed spec fn info(&self) -> ProcessInfo {
        self.info
    }

    /// The process described by `info`.
    pub fn new(info: ProcessInfo) -> (r: Self)
        ensures
            r.info() == info,
    {
        Process { info }
    }

    /// The application's package name.
    pub fn name(&self) -> (r: Vec<u16>)
        ensures
            r@ == self.info().package_name@,
    {
        copy_units(&self.info.package_name)
    }

    /// The ID of the user process.
    pub fn id(&self) -> (r: u32)
        ensures
            r == self.info().process_id,
    {
        self.info.process_id
    }

    /// The ID of the session where the user process resides (valid in
    /// versions 1803 and later).
    pub fn session_id(&self) -> (r: u32)
        ensures
            r == self.info().session_id,
    {
        self.info.session_id
    }

    /// The application's ID.
    pub fn application_id(&self) -> (r: Vec<u16>)
        ensures
            r@ == self.info().application_id@,
    {
        copy_units(&self.info.application_id)
    }

    /// The command used to start the user process, `None` when the platform
    /// reports it as `UNKNOWN` (valid in versions 1803 and later).
    pub fn command_line(&self) -> (r: Option<Vec<u16>>)
        ensures
            self.info().command_line@ == unknown_units() <==> r is None,
            r matches Some(v) ==> v@ == self.info().command_line@,
    {
        if is_unknown(&self.info.command_line) {
            None
        } else {
            Some(copy_units(&self.info.command_line))
        }
    }

    /// The NT path of the main executable of the process, `None` when the
    /// platform failed to retrieve it.
    pub fn path(&self) -> (r: Option<Vec<u16>>)
        ensures
            self.info().image_path@ == unknown_units() <==> r is None,
            r matches Some(v) ==> v@ == self.info().image_path@,
    {
        if is_unknown(&self.info.image_path) {
            None
        } else {
            Some(copy_units(&self.info.image_path))
        }
    }
}

} // verus!
