use vstd::prelude::*;

use crate::command::{self, Operation, OperationParameters};
use crate::error::{ntstatus_of, CloudErrorKind};
use crate::placeholder_file::PlaceholderFile;
use crate::request::{RawConnectionKey, RawTransferKey};

verus! {

/// A ticket for the fetch-data callback.
#[derive(Debug)]
pub struct FetchData {
    connection_key: RawConnectionKey,
    transfer_key: RawTransferKey,
}

impl FetchData {
    /// The connection the callback came on.
    pub closed spec fn spec_connection_key(&self) -> RawConnectionKey {
        self.connection_key
    }

    /// The file operation the callback is about.
    pub closed spec fn spec_transfer_key(&self) -> RawTransferKey {
        self.transfer_key
    }

    /// Create a new [FetchData] ticket.
    pub fn new(connection_key: RawConnectionKey, transfer_key: RawTransferKey) -> (r: Self)
        ensures
            r.spec_connection_key() == connection_key,
            r.spec_transfer_key() == transfer_key,
    {
        FetchData { connection_key, transfer_key }
    }

    /// The key of the connection the callback came on.
    pub fn connection_key(&self) -> (r: RawConnectionKey)
        ensures
            r == self.spec_connection_key(),
    {
        self.connection_key
    }

    /// The key of the file operation the callback is about.
    pub fn transfer_key(&self) -> (r: RawTransferKey)
        ensures
            r == self.spec_transfer_key(),
    {
        self.transfer_key
    }

    /// The operation that fails the callback with the specified error.
    pub fn fail(&self, error_kind: CloudErrorKind) -> (r: Operation)
        ensures
            r == (Operation {
                operation_type: command::OPERATION_TYPE_TRANSFER_DATA,
                connection_key: self.spec_connection_key(),
                transfer_key: self.spec_transfer_key(),
                parameters: OperationParameters::TransferData {
                    flags: 0,
                    completion_status: ntstatus_of(error_kind),
                    offset: 0,
                    length: 0,
                },
            }),
    {
        Operation {
            operation_type: command::Write::operation_type(),
            connection_key: self.connection_key,
            transfer_key: self.transfer_key,
            parameters: command::Write::fail(error_kind),
        }
    }

    /// The operation that reads `buf.len()` bytes at `offset` from the
    /// placeholder into `buf`.
    pub fn read_at(&self, buf: &[u8], offset: u64) -> (r: Operation)
        ensures
            r == (Operation {
                operation_type: command::OPERATION_TYPE_RETRIEVE_DATA,
                connection_key: self.spec_connection_key(),
                transfer_key: self.spec_transfer_key(),
                parameters: OperationParameters::RetrieveData {
                    flags: 0,
                    offset: offset as i64,
                    length: buf@.len() as i64,
                },
            }),
    {
        Operation {
            operation_type: command::Read::operation_type(),
            connection_key: self.connection_key,
            transfer_key: self.transfer_key,
            parameters: OperationParameters::RetrieveData {
                flags: 0,
                offset: offset as i64,
                length: buf.len() as i64,
            },
        }
    }

    /// The operation that writes `buf` at `offset` to the placeholder.
    ///
    /// The buffer passed must be 4KiB in length or end on the logical file
    /// size; the platform refuses others.
    pub fn write_at(&self, buf: &[u8], offset: u64) -> (r: Operation)
        ensures
            r == (Operation {
                operation_type: command::OPERATION_TYPE_TRANSFER_DATA,
                connection_key: self.spec_connection_key(),
                transfer_key: self.spec_transfer_key(),
                parameters: OperationParameters::TransferData {
                    flags: 0,
                    completion_status: command::STATUS_SUCCESS,
                    offset: offset as i64,
                    length: buf@.len() as i64,
                },
            }),
    {
        let write = command::Write { buffer: buf, position: offset };
        Operation {
            operation_type: command::Write::operation_type(),
            connection_key: self.connection_key,
            transfer_key: self.transfer_key,
            parameters: write.build(),
        }
    }
}

/// A ticket for the validate-data callback.
#[derive(Debug)]
pub struct ValidateData {
    connection_key: RawConnectionKey,
    transfer_key: RawTransferKey,
}

impl ValidateData {
    /// The connection the callback came on.
    pub closed spec fn spec_connection_key(&self) -> RawConnectionKey {
        self.connection_key
    }

    /// The file operation the callback is about.
    pub closed spec fn spec_transfer_key(&self) -> RawTransferKey {
        self.transfer_key
    }

    /// Create a new [ValidateData] ticket.
    pub fn new(connection_key: RawConnectionKey, transfer_key: RawTransferKey) -> (r: Self)
        ensures
            r.spec_connection_key() == connection_key,
            r.spec_transfer_key() == transfer_key,
    {
        ValidateData { connection_key, transfer_key }
    }

    /// The operation that validates the data range of the placeholder.
    pub fn pass(&self, range: std::ops::Range<u64>) -> (r: Operation)
        ensures
            r == (Operation {
                operation_type: command::OPERATION_TYPE_ACK_DATA,
                connection_key: self.spec_connection_key(),
                transfer_key: self.spec_transfer_key(),
                parameters: OperationParameters::AckData {
                    flags: 0,
                    completion_status: command::STATUS_SUCCESS,
                    offset: range.start as i64,
                    length: command::range_span(range.start, range.end),
                },
            }),
    {
        let validate = command::Validate { range };
        Operation {
            operation_type: command::Validate::operation_type(),
            connection_key: self.connection_key,
            transfer_key: self.transfer_key,
            parameters: validate.build(),
        }
    }

    /// The operation that fails the callback with the specified error.
    pub fn fail(&self, error_kind: CloudErrorKind) -> (r: Operation)
        ensures
            r == (Operation {
                operation_type: command::OPERATION_TYPE_ACK_DATA,
                connection_key: self.spec_connection_key(),
                transfer_key: self.spec_transfer_key(),
                parameters: OperationParameters::AckData {
                    flags: 0,
                    completion_status: ntstatus_of(error_kind),
                    offset: 0,
                    length: 0,
                },
            }),
    {
        Operation {
            operation_type: command::Validate::operation_type(),
            connection_key: self.connection_key,
            transfer_key: self.transfer_key,
            parameters: command::Validate::fail(error_kind),
        }
    }

    /// The operation that reads `buf.len()` bytes at `offset` from the
    /// placeholder into `buf`.
    pub fn read_at(&self, buf: &[u8], offset: u64) -> (r: Operation)
        ensures
            r == (Operation {
                operation_type: command::OPERATION_TYPE_RETRIEVE_DATA,
                connection_key: self.spec_connection_key(),
                transfer_key: self.spec_transfer_key(),
                parameters: OperationParameters::RetrieveData {
                    flags: 0,
                    offset: offset as i64,
                    length: buf@.len() as i64,
                },
            }),
    {
        Operation {
            operation_type: command::Read::operation_type(),
            connection_key: self.connection_key,
            transfer_key: self.transfer_key,
            parameters: OperationParameters::RetrieveData {
                flags: 0,
                offset: offset as i64,
                length: buf.len() as i64,
            },
        }
    }
}

/// A ticket for the fetch-placeholders callback.
#[derive(Debug)]
pub struct FetchPlaceholders {
    connection_key: RawConnectionKey,
    transfer_key: RawTransferKey,
}

impl FetchPlaceholders {
    /// The connection the callback came on.
    pub closed spec fn spec_connection_key(&self) -> RawConnectionKey {
        self.connection_key
    }

    /// The file operation the callback is about.
    pub closed spec fn spec_transfer_key(&self) -> RawTransferKey {
        self.transfer_key
    }

    /// Create a new [FetchPlaceholders] ticket.
    pub fn new(connection_key: RawConnectionKey, transfer_key: RawTransferKey) -> (r: Self)
        ensures
            r.spec_connection_key() == connection_key,
            r.spec_transfer_key() == transfer_key,
    {
        FetchPlaceholders { connection_key, transfer_key }
    }

    /// The operation that creates the placeholders in the directory; the
    /// total count given to the platform is the number of placeholders.
    pub fn pass_with_placeholder(&self, placeholders: &[PlaceholderFile]) -> (r: Operation)
        ensures
            r == (Operation {
                operation_type: command::OPERATION_TYPE_TRANSFER_PLACEHOLDERS,
                connection_key: self.spec_connection_key(),
                transfer_key: self.spec_transfer_key(),
                parameters: OperationParameters::TransferPlaceholders {
                    flags: 0,
                    completion_status: command::STATUS_SUCCESS,
                    placeholder_total_count: placeholders@.len() as u64 as i64,
                    placeholder_count: placeholders@.len() as u32,
                },
            }),
    {
        let create = command::CreatePlaceholders {
            total: placeholders.len() as u64,
            placeholders,
        };
        Operation {
            operation_type: command::CreatePlaceholders::operation_type(),
            connection_key: self.connection_key,
            transfer_key: self.transfer_key,
            parameters: create.build(),
        }
    }

    /// The operation that fails the callback with the specified error.
    pub fn fail(&self, error_kind: CloudErrorKind) -> (r: Operation)
        ensures
            r == (Operation {
                operation_type: command::OPERATION_TYPE_TRANSFER_PLACEHOLDERS,
                connection_key: self.spec_connection_key(),
                transfer_key: self.spec_transfer_key(),
                parameters: OperationParameters::TransferPlaceholders {
                    flags: 0,
                    completion_status: ntstatus_of(error_kind),
                    placeholder_total_count: 0,
                    placeholder_count: 0,
                },
            }),
    {
        Operation {
            operation_type: command::CreatePlaceholders::operation_type(),
            connection_key: self.connection_key,
            transfer_key: self.transfer_key,
            parameters: command::CreatePlaceholders::fail(error_kind),
        }
    }
}

/// A ticket for the dehydrate callback.
#[derive(Debug)]
pub struct Dehydrate {
    connection_key: RawConnectionKey,
    transfer_key: RawTransferKey,
}

impl Dehydrate {
    /// The connection the callback came on.
    pub closed spec fn spec_connection_key(&self) -> RawConnectionKey {
        self.connection_key
    }

    /// The file operation the callback is about.
    pub closed spec fn spec_transfer_key(&self) -> RawTransferKey {
        self.transfer_key
    }

    /// Create a new [Dehydrate] ticket.
    pub fn new(connection_key: RawConnectionKey, transfer_key: RawTransferKey) -> (r: Self)
        ensures
            r.spec_connection_key() == connection_key,
            r.spec_transfer_key() == transfer_key,
    {
        Dehydrate { connection_key, transfer_key }
    }

    /// The operation that confirms dehydration of the file.
    pub fn pass(&self) -> (r: Operation)
        ensures
            r == (Operation {
                operation_type: command::OPERATION_TYPE_ACK_DEHYDRATE,
                connection_key: self.spec_connection_key(),
                transfer_key: self.spec_transfer_key(),
                parameters: OperationParameters::AckDehydrate {
                    flags: 0,
                    completion_status: command::STATUS_SUCCESS,
                    file_identity_length: 0,
                },
            }),
    {
        let dehydrate = command::Dehydrate { blob: None };
        Operation {
            operation_type: command::Dehydrate::operation_type(),
            connection_key: self.connection_key,
            transfer_key: self.transfer_key,
            parameters: dehydrate.build(),
        }
    }

    /// The operation that confirms dehydration of the file and updates its
    /// file blob.
    pub fn pass_with_blob(&self, blob: &[u8]) -> (r: Operation)
        ensures
            r == (Operation {
                operation_type: command::OPERATION_TYPE_ACK_DEHYDRATE,
                connection_key: self.spec_connection_key(),
                transfer_key: self.spec_transfer_key(),
                parameters: OperationParameters::AckDehydrate {
                    flags: 0,
                    completion_status: command::STATUS_SUCCESS,
                    file_identity_length: blob@.len() as u32,
                },
            }),
    {
        let dehydrate = command::Dehydrate { blob: Some(blob) };
        Operation {
            operation_type: command::Dehydrate::operation_type(),
            connection_key: self.connection_key,
            transfer_key: self.transfer_key,
            parameters: dehydrate.build(),
        }
    }

    /// The operation that fails the callback with the specified error.
    pub fn fail(&self, error_kind: CloudErrorKind) -> (r: Operation)
        ensures
            r == (Operation {
                operation_type: command::OPERATION_TYPE_ACK_DEHYDRATE,
                connection_key: self.spec_connection_key(),
                transfer_key: self.spec_transfer_key(),
                parameters: OperationParameters::AckDehydrate {
                    flags: 0,
                    completion_status: ntstatus_of(error_kind),
                    file_identity_length: 0,
                },
            }),
    {
        Operation {
            operation_type: command::Dehydrate::operation_type(),
            connection_key: self.connection_key,
            transfer_key: self.transfer_key,
            parameters: command::Dehydrate::fail(error_kind),
        }
    }
}

/// A ticket for the delete callback.
#[derive(Debug)]
pub struct Delete {
    connection_key: RawConnectionKey,
    transfer_key: RawTransferKey,
}

impl Delete {
    /// The connection the callback came on.
    pub closed spec fn spec_connection_key(&self) -> RawConnectionKey {
        self.connection_key
    }

    /// The file operation the callback is about.
    pub closed spec fn spec_transfer_key(&self) -> RawTransferKey {
        self.transfer_key
    }

    /// Create a new [Delete] ticket.
    pub fn new(connection_key: RawConnectionKey, transfer_key: RawTransferKey) -> (r: Self)
        ensures
            r.spec_connection_key() == connection_key,
            r.spec_transfer_key() == transfer_key,
    {
        Delete { connection_key, transfer_key }
    }

    /// The operation that confirms deletion of the file.
    pub fn pass(&self) -> (r: Operation)
        ensures
            r == (Operation {
                operation_type: command::OPERATION_TYPE_ACK_DELETE,
                connection_key: self.spec_connection_key(),
                transfer_key: self.spec_transfer_key(),
                parameters: OperationParameters::AckDelete {
                    flags: 0,
                    completion_status: command::STATUS_SUCCESS,
                },
            }),
    {
        Operation {
            operation_type: command::Delete::operation_type(),
            connection_key: self.connection_key,
            transfer_key: self.transfer_key,
            parameters: command::Delete.build(),
        }
    }

    /// The operation that fails the callback with the specified error.
    pub fn fail(&self, error_kind: CloudErrorKind) -> (r: Operation)
        ensures
            r == (Operation {
                operation_type: command::OPERATION_TYPE_ACK_DELETE,
                connection_key: self.spec_connection_key(),
                transfer_key: self.spec_transfer_key(),
                parameters: OperationParameters::AckDelete {
                    flags: 0,
                    completion_status: ntstatus_of(error_kind),
                },
            }),
    {
        Operation {
            operation_type: command::Delete::operation_type(),
            connection_key: self.connection_key,
            transfer_key: self.transfer_key,
            parameters: command::Delete::fail(error_kind),
        }
    }
}

/// A ticket for the rename callback.
#[derive(Debug)]
pub struct Rename {
    connection_key: RawConnectionKey,
    transfer_key: RawTransferKey,
}

impl Rename {
    /// The connection the callback came on.
    pub closed spec fn spec_connection_key(&self) -> RawConnectionKey {
        self.connection_key
    }

    /// The file operation the callback is about.
    pub closed spec fn spec_transfer_key(&self) -> RawTransferKey {
        self.transfer_key
    }

    /// Create a new [Rename] ticket.
    pub fn new(connection_key: RawConnectionKey, transfer_key: RawTransferKey) -> (r: Self)
        ensures
            r.spec_connection_key() == connection_key,
            r.spec_transfer_key() == transfer_key,
    {
        Rename { connection_key, transfer_key }
    }

    /// The operation that confirms the rename/move of a file.
    pub fn pass(&self) -> (r: Operation)
        ensures
            r == (Operation {
                operation_type: command::OPERATION_TYPE_ACK_RENAME,
                connection_key: self.spec_connection_key(),
                transfer_key: self.spec_transfer_key(),
                parameters: OperationParameters::AckRename {
                    flags: 0,
                    completion_status: command::STATUS_SUCCESS,
                },
            }),
    {
        Operation {
            operation_type: command::Rename::operation_type(),
            connection_key: self.connection_key,
            transfer_key: self.transfer_key,
            parameters: command::Rename.build(),
        }
    }

    /// The operation that fails the callback with the specified error.
    pub fn fail(&self, error_kind: CloudErrorKind) -> (r: Operation)
        ensures
            r == (Operation {
                operation_type: command::OPERATION_TYPE_ACK_RENAME,
                connection_key: self.spec_connection_key(),
                transfer_key: self.spec_transfer_key(),
                parameters: OperationParameters::AckRename {
                    flags: 0,
                    completion_status: ntstatus_of(error_kind),
                },
            }),
    {
        Operation {
            operation_type: command::Rename::operation_type(),
            connection_key: self.connection_key,
            transfer_key: self.transfer_key,
            parameters: command::Rename::fail(error_kind),
        }
    }
}

} // verus!
