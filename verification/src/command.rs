//! The operations that a sync provider sends to the platform with `CfExecute`.
use vstd::prelude::*;

use crate::error::{ntstatus_of, CloudErrorKind};
use crate::metadata::Metadata;
use crate::placeholder_file::PlaceholderFile;
use crate::request::{RawConnectionKey, RawTransferKey};
use crate::usn::Usn;
use crate::utility::hresult_outcome;

verus! {

/// `CF_OPERATION_TYPE_TRANSFER_DATA`.
pub const OPERATION_TYPE_TRANSFER_DATA: i32 = 0;
/// `CF_OPERATION_TYPE_RETRIEVE_DATA`.
pub const OPERATION_TYPE_RETRIEVE_DATA: i32 = 1;
/// `CF_OPERATION_TYPE_ACK_DATA`.
pub const OPERATION_TYPE_ACK_DATA: i32 = 2;
/// `CF_OPERATION_TYPE_RESTART_HYDRATION`.
pub const OPERATION_TYPE_RESTART_HYDRATION: i32 = 3;
/// `CF_OPERATION_TYPE_TRANSFER_PLACEHOLDERS`.
pub const OPERATION_TYPE_TRANSFER_PLACEHOLDERS: i32 = 4;
/// `CF_OPERATION_TYPE_ACK_DEHYDRATE`.
pub const OPERATION_TYPE_ACK_DEHYDRATE: i32 = 5;
/// `CF_OPERATION_TYPE_ACK_DELETE`.
pub const OPERATION_TYPE_ACK_DELETE: i32 = 6;
/// `CF_OPERATION_TYPE_ACK_RENAME`.
pub const OPERATION_TYPE_ACK_RENAME: i32 = 7;

/// `STATUS_SUCCESS`.
pub const STATUS_SUCCESS: i32 = 0;

/// `CF_OPERATION_RESTART_HYDRATION_FLAG_MARK_IN_SYNC`.
pub const RESTART_HYDRATION_FLAG_MARK_IN_SYNC: u32 = 0x1;

/// The parameters of one operation, as the matching member of
/// `CF_OPERATION_PARAMETERS` holds them; the buffers that go with an
/// operation stay with the command that built it.
#[derive(Debug, Clone, Copy, PartialEq, Eq, Structural)]
pub enum OperationParameters {
    /// `TransferData`: data written to a placeholder, or the failure of a fetch.
    TransferData { flags: u32, completion_status: i32, offset: i64, length: i64 },
    /// `RetrieveData`: data read from a placeholder.
    RetrieveData { flags: u32, offset: i64, length: i64 },
    /// `AckData`: the validation of a range, or its failure.
    AckData { flags: u32, completion_status: i32, offset: i64, length: i64 },
    /// `RestartHydration`: new properties of a placeholder.
    RestartHydration { flags: u32, metadata: Option<Metadata>, file_identity_length: u32 },
    /// `TransferPlaceholders`: placeholders created in a directory, or the failure of a fetch.
    TransferPlaceholders {
        flags: u32,
        completion_status: i32,
        placeholder_total_count: i64,
        placeholder_count: u32,
    },
    /// `AckDehydrate`: the confirmation (or refusal) of a dehydration.
    AckDehydrate { flags: u32, completion_status: i32, file_identity_length: u32 },
    /// `AckDelete`: the confirmation (or refusal) of a deletion.
    AckDelete { flags: u32, completion_status: i32 },
    /// `AckRename`: the confirmation (or refusal) of a rename.
    AckRename { flags: u32, completion_status: i32 },
}

/// An operation to execute on the platform for one callback: its
/// `CF_OPERATION_TYPE`, the keys of the connection and of the transfer, and
/// its parameters.
#[derive(Debug, Clone, Copy, PartialEq, Eq, Structural)]
pub struct Operation {
    pub operation_type: i32,
    pub connection_key: RawConnectionKey,
    pub transfer_key: RawTransferKey,
    pub parameters: OperationParameters,
}

/// Read data from a placeholder file.
#[derive(Debug)]
pub struct Read<'a> {
    pub buffer: &'a mut [u8],
    pub position: u64,
}

impl<'a> Read<'a> {
    /// The operation type of a read.
    pub fn operation_type() -> (r: i32)
        ensures
            r == OPERATION_TYPE_RETRIEVE_DATA,
    {
        OPERATION_TYPE_RETRIEVE_DATA
    }

    /// The parameters of the read: the whole buffer, from the position on.
    pub fn build(&self) -> (r: OperationParameters)
        ensures
            r == (OperationParameters::RetrieveData {
                flags: 0,
                offset: self.position as i64,
                length: old(self.buffer)@.len() as i64,
            }),
    {
        OperationParameters::RetrieveData {
            flags: 0,
            offset: self.position as i64,
            length: self.buffer.len() as i64,
        }
    }

    /// The number of bytes read, from the `ReturnedLength` the platform reported.
    pub fn result(returned_length: i64) -> (r: u64)
        ensures
            r == returned_length as u64,
    {
        returned_length as u64
    }
}

/// Write data to a placeholder file.
#[derive(Debug, Clone, Copy)]
pub struct Write<'a> {
    pub buffer: &'a [u8],
    pub position: u64,
}

impl<'a> Write<'a> {
    /// The operation type of a write.
    pub fn operation_type() -> (r: i32)
        ensures
            r == OPERATION_TYPE_TRANSFER_DATA,
    {
        OPERATION_TYPE_TRANSFER_DATA
    }

    /// The parameters of the write: the whole buffer, at the position, with
    /// a successful completion.
    pub fn build(&self) -> (r: OperationParameters)
        ensures
            r == (OperationParameters::TransferData {
                flags: 0,
                completion_status: STATUS_SUCCESS,
                offset: self.position as i64,
                length: self.buffer@.len() as i64,
            }),
    {
        OperationParameters::TransferData {
            flags: 0,
            completion_status: STATUS_SUCCESS,
            offset: self.position as i64,
            length: self.buffer.len() as i64,
        }
    }

    /// The parameters that fail a fetch with `error_kind`: no data.
    pub fn fail(error_kind: CloudErrorKind) -> (r: OperationParameters)
        ensures
            r == (OperationParameters::TransferData {
                flags: 0,
                completion_status: ntstatus_of(error_kind),
                offset: 0,
                length: 0,
            }),
    {
        OperationParameters::TransferData {
            flags: 0,
            completion_status: error_kind.to_ntstatus(),
            offset: 0,
            length: 0,
        }
    }
}

/// Update various properties on a placeholder.
#[derive(Debug, Clone, Copy)]
pub struct Update<'a> {
    pub mark_sync: bool,
    pub metadata: Option<Metadata>,
    pub blob: Option<&'a [u8]>,
}

impl<'a> Update<'a> {
    /// The operation type of an update.
    pub fn operation_type() -> (r: i32)
        ensures
            r == OPERATION_TYPE_RESTART_HYDRATION,
    {
        OPERATION_TYPE_RESTART_HYDRATION
    }

    /// The parameters of the update: the in-sync mark, the metadata and the
    /// length of the new blob (0 when there is none).
    pub fn build(&self) -> (r: OperationParameters)
        ensures
            r == (OperationParameters::RestartHydration {
                flags: if self.mark_sync { RESTART_HYDRATION_FLAG_MARK_IN_SYNC } else { 0 },
                metadata: self.metadata,
                file_identity_length: match self.blob {
                    Some(blob) => blob@.len() as u32,
                    None => 0,
                },
            }),
    {
        let flags: u32 = if self.mark_sync {
            RESTART_HYDRATION_FLAG_MARK_IN_SYNC
        } else {
            0
        };
        let file_identity_length: u32 = match self.blob {
            Some(blob) => blob.len() as u32,
            None => 0,
        };
        OperationParameters::RestartHydration { flags, metadata: self.metadata, file_identity_length }
    }
}

/// Create placeholder files/directories.
#[derive(Debug, Clone, Copy)]
pub struct CreatePlaceholders<'a> {
    pub placeholders: &'a [PlaceholderFile],
    pub total: u64,
}

/// The outcome that a placeholder reports after a creation.
pub open spec fn placeholder_outcome(result: i32, create_usn: i64) -> Result<Usn, i32> {
    match hresult_outcome(result) {
        Ok(()) => Ok(create_usn),
        Err(code) => Err(code),
    }
}

impl<'a> CreatePlaceholders<'a> {
    /// The operation type of a creation.
    pub fn operation_type() -> (r: i32)
        ensures
            r == OPERATION_TYPE_TRANSFER_PLACEHOLDERS,
    {
        OPERATION_TYPE_TRANSFER_PLACEHOLDERS
    }

    /// The parameters of the creation: the placeholders given, out of `total`.
    pub fn build(&self) -> (r: OperationParameters)
        ensures
            r == (OperationParameters::TransferPlaceholders {
                flags: 0,
                completion_status: STATUS_SUCCESS,
                placeholder_total_count: self.total as i64,
                placeholder_count: self.placeholders@.len() as u32,
            }),
    {
        OperationParameters::TransferPlaceholders {
            flags: 0,
            completion_status: STATUS_SUCCESS,
            placeholder_total_count: self.total as i64,
            placeholder_count: self.placeholders.len() as u32,
        }
    }

    /// The parameters that fail a placeholder fetch with `error_kind`.
    pub fn fail(error_kind: CloudErrorKind) -> (r: OperationParameters)
        ensures
            r == (OperationParameters::TransferPlaceholders {
                flags: 0,
                completion_status: ntstatus_of(error_kind),
                placeholder_total_count: 0,
                placeholder_count: 0,
            }),
    {
        OperationParameters::TransferPlaceholders {
            flags: 0,
            completion_status: error_kind.to_ntstatus(),
            placeholder_total_count: 0,
            placeholder_count: 0,
        }
    }

    /// Whether, and with which [Usn], each placeholder was created, in the
    /// order of the placeholders.
    pub fn results(placeholders: &[PlaceholderFile]) -> (r: Vec<Result<Usn, i32>>)
        ensures
            r@.len() == placeholders@.len(),
            forall|i: int|
                0 <= i < placeholders@.len() ==> r@[i] == placeholder_outcome(
                    #[trigger] placeholders@[i]@.result,
                    placeholders@[i]@.create_usn,
                ),
    {
        let mut out: Vec<Result<Usn, i32>> = Vec::new();
        let mut i: usize = 0;
        while i < placeholders.len()
            invariant
                i <= placeholders@.len(),
                out@.len() == i,
                forall|k: int|
                    0 <= k < i ==> out@[k] == placeholder_outcome(
                        #[trigger] placeholders@[k]@.result,
                        placeholders@[k]@.create_usn,
                    ),
            decreases placeholders.len() - i,
        {
            out.push(placeholders[i].result());
            i = i + 1;
        }
        out
    }
}

/// The length field that describes `start..end`: the number of bytes in the
/// range, or, for a range that ends before it starts, its end.
pub open spec fn range_span(start: u64, end: u64) -> i64 {
    if start <= end {
        (end - start) as i64
    } else {
        end as i64
    }
}

/// Validate the data range in the placeholder file is valid.
#[derive(Debug)]
pub struct Validate {
    pub range: std::ops::Range<u64>,
}

impl Validate {
    /// The operation type of a validation.
    pub fn operation_type() -> (r: i32)
        ensures
            r == OPERATION_TYPE_ACK_DATA,
    {
        OPERATION_TYPE_ACK_DATA
    }

    /// The parameters of the validation: the range's start as the offset and
    /// the number of bytes in it as the length (the range's end for a range
    /// that ends before it starts).
    pub fn build(&self) -> (r: OperationParameters)
        ensures
            r == (OperationParameters::AckData {
                flags: 0,
                completion_status: STATUS_SUCCESS,
                offset: self.range.start as i64,
                length: range_span(self.range.start, self.range.end),
            }),
    {
        let length: u64 = if self.range.start <= self.range.end {
            self.range.end - self.range.start
        } else {
            self.range.end
        };
        OperationParameters::AckData {
            flags: 0,
            completion_status: STATUS_SUCCESS,
            offset: self.range.start as i64,
            length: length as i64,
        }
    }

    /// The parameters that fail a validation with `error_kind`.
    pub fn fail(error_kind: CloudErrorKind) -> (r: OperationParameters)
        ensures
            r == (OperationParameters::AckData {
                flags: 0,
                completion_status: ntstatus_of(error_kind),
                offset: 0,
                length: 0,
            }),
    {
        OperationParameters::AckData {
            flags: 0,
            completion_status: error_kind.to_ntstatus(),
            offset: 0,
            length: 0,
        }
    }
}

/// Confirm dehydration of the placeholder file and optionally update its blob.
#[derive(Debug, Clone, Copy)]
pub struct Dehydrate<'a> {
    pub blob: Option<&'a [u8]>,
}

impl<'a> Dehydrate<'a> {
    /// The operation type of a dehydration acknowledgement.
    pub fn operation_type() -> (r: i32)
        ensures
            r == OPERATION_TYPE_ACK_DEHYDRATE,
    {
        OPERATION_TYPE_ACK_DEHYDRATE
    }

    /// The parameters that confirm the dehydration, with the length of the
    /// new blob (0 when there is none).
    pub fn build(&self) -> (r: OperationParameters)
        ensures
            r == (OperationParameters::AckDehydrate {
                flags: 0,
                completion_status: STATUS_SUCCESS,
                file_identity_length: match self.blob {
                    Some(blob) => blob@.len() as u32,
                    None => 0,
                },
            }),
    {
        let file_identity_length: u32 = match self.blob {
            Some(blob) => blob.len() as u32,
            None => 0,
        };
        OperationParameters::AckDehydrate {
            flags: 0,
            completion_status: STATUS_SUCCESS,
            file_identity_length,
        }
    }

    /// The parameters that refuse the dehydration with `error_kind`.
    pub fn fail(error_kind: CloudErrorKind) -> (r: OperationParameters)
        ensures
            r == (OperationParameters::AckDehydrate {
                flags: 0,
                completion_status: ntstatus_of(error_kind),
                file_identity_length: 0,
            }),
    {
        OperationParameters::AckDehydrate {
            flags: 0,
            completion_status: error_kind.to_ntstatus(),
            file_identity_length: 0,
        }
    }
}

/// Confirm deletion of the placeholder.
#[derive(Debug, Clone, Copy)]
pub struct Delete;

impl Delete {
    /// The operation type of a deletion acknowledgement.
    pub fn operation_type() -> (r: i32)
        ensures
            r == OPERATION_TYPE_ACK_DELETE,
    {
        OPERATION_TYPE_ACK_DELETE
    }

    /// The parameters that confirm the deletion.
    pub fn build(&self) -> (r: OperationParameters)
        ensures
            r == (OperationParameters::AckDelete { flags: 0, completion_status: STATUS_SUCCESS }),
    {
        OperationParameters::AckDelete { flags: 0, completion_status: STATUS_SUCCESS }
    }

    /// The parameters that refuse the deletion with `error_kind`.
    pub fn fail(error_kind: CloudErrorKind) -> (r: OperationParameters)
        ensures
            r == (OperationParameters::AckDelete {
                flags: 0,
                completion_status: ntstatus_of(error_kind),
            }),
    {
        OperationParameters::AckDelete { flags: 0, completion_status: error_kind.to_ntstatus() }
    }
}

/// Confirm rename/move of the placeholder.
#[derive(Debug, Clone, Copy)]
pub struct Rename;

impl Rename {
    /// The operation type of a rename acknowledgement.
    pub fn operation_type() -> (r: i32)
        ensures
            r == OPERATION_TYPE_ACK_RENAME,
    {
        OPERATION_TYPE_ACK_RENAME
    }

    /// The parameters that confirm the rename.
    pub fn build(&self) -> (r: OperationParameters)
        ensures
            r == (OperationParameters::AckRename { flags: 0, completion_status: STATUS_SUCCESS }),
    {
        OperationParameters::AckRename { flags: 0, completion_status: STATUS_SUCCESS }
    }

    /// The parameters that refuse the rename with `error_kind`.
    pub fn fail(error_kind: CloudErrorKind) -> (r: OperationParameters)
        ensures
            r == (OperationParameters::AckRename {
                flags: 0,
                completion_status: ntstatus_of(error_kind),
            }),
    {
        OperationParameters::AckRename { flags: 0, completion_status: error_kind.to_ntstatus() }
    }
}

} // verus!
