
use wincs::command::{
    CreatePlaceholders, Dehydrate, Delete, Operation, OperationParameters, Read, Rename, Update,
    Validate, Write, OPERATION_TYPE_ACK_DATA, OPERATION_TYPE_ACK_DEHYDRATE,
    OPERATION_TYPE_ACK_DELETE, OPERATION_TYPE_ACK_RENAME, OPERATION_TYPE_RESTART_HYDRATION,
    OPERATION_TYPE_RETRIEVE_DATA, OPERATION_TYPE_TRANSFER_DATA,
    OPERATION_TYPE_TRANSFER_PLACEHOLDERS, RESTART_HYDRATION_FLAG_MARK_IN_SYNC, STATUS_SUCCESS,
};
use wincs::error::CloudErrorKind;
use wincs::filter::info;
use wincs::filter::ticket;
use wincs::filter::AsyncBridge;
use wincs::metadata::Metadata;
use wincs::placeholder_file::PlaceholderFile;

const CF_CALLBACK_CANCEL_FLAG_IO_ABORTED: i32 = 2i32;
const CF_CALLBACK_CANCEL_FLAG_IO_TIMEOUT: i32 = 1i32;
const CF_CALLBACK_CLOSE_COMPLETION_FLAG_DELETED: i32 = 1i32;
const CF_CALLBACK_DEHYDRATE_COMPLETION_FLAG_DEHYDRATED: i32 = 2i32;
const CF_CALLBACK_DEHYDRATE_FLAG_BACKGROUND: i32 = 1i32;
const CF_CALLBACK_DELETE_FLAG_IS_DIRECTORY: i32 = 1i32;
const CF_CALLBACK_DELETE_FLAG_IS_UNDELETE: i32 = 2i32;
const CF_CALLBACK_FETCH_DATA_FLAG_RECOVERY: i32 = 1i32;
const CF_CALLBACK_OPEN_COMPLETION_FLAG_PLACEHOLDER_UNSUPPORTED: i32 = 2i32;
const CF_CALLBACK_RENAME_FLAG_SOURCE_IN_SCOPE: i32 = 2i32;
const CF_CALLBACK_RENAME_FLAG_TARGET_IN_SCOPE: i32 = 4i32;
const CF_CALLBACK_VALIDATE_DATA_FLAG_EXPLICIT_HYDRATION: i32 = 2i32;
const CF_OPERATION_RESTART_HYDRATION_FLAG_MARK_IN_SYNC: i32 = 1i32;
const CF_OPERATION_TYPE_ACK_DATA: i32 = 2i32;
const CF_OPERATION_TYPE_ACK_DEHYDRATE: i32 = 5i32;
const CF_OPERATION_TYPE_ACK_DELETE: i32 = 6i32;
const CF_OPERATION_TYPE_ACK_RENAME: i32 = 7i32;
const CF_OPERATION_TYPE_RESTART_HYDRATION: i32 = 3i32;
const CF_OPERATION_TYPE_RETRIEVE_DATA: i32 = 1i32;
const CF_OPERATION_TYPE_TRANSFER_DATA: i32 = 0i32;
const CF_OPERATION_TYPE_TRANSFER_PLACEHOLDERS: i32 = 4i32;

fn units(text: &str) -> Vec<u16> {
    text.encode_utf16().collect()
}

#[test]
fn operation_types_match_the_platform() {
    assert_eq!(OPERATION_TYPE_TRANSFER_DATA, CF_OPERATION_TYPE_TRANSFER_DATA);
    assert_eq!(OPERATION_TYPE_RETRIEVE_DATA, CF_OPERATION_TYPE_RETRIEVE_DATA);
    assert_eq!(OPERATION_TYPE_ACK_DATA, CF_OPERATION_TYPE_ACK_DATA);
    assert_eq!(
        OPERATION_TYPE_RESTART_HYDRATION,
        CF_OPERATION_TYPE_RESTART_HYDRATION
    );
    assert_eq!(
        OPERATION_TYPE_TRANSFER_PLACEHOLDERS,
        CF_OPERATION_TYPE_TRANSFER_PLACEHOLDERS
    );
    assert_eq!(OPERATION_TYPE_ACK_DEHYDRATE, CF_OPERATION_TYPE_ACK_DEHYDRATE);
    assert_eq!(OPERATION_TYPE_ACK_DELETE, CF_OPERATION_TYPE_ACK_DELETE);
    assert_eq!(OPERATION_TYPE_ACK_RENAME, CF_OPERATION_TYPE_ACK_RENAME);
    assert_eq!(
        RESTART_HYDRATION_FLAG_MARK_IN_SYNC,
        CF_OPERATION_RESTART_HYDRATION_FLAG_MARK_IN_SYNC as u32
    );
    assert_eq!(Read::operation_type(), OPERATION_TYPE_RETRIEVE_DATA);
    assert_eq!(Write::operation_type(), OPERATION_TYPE_TRANSFER_DATA);
    assert_eq!(Update::operation_type(), OPERATION_TYPE_RESTART_HYDRATION);
    assert_eq!(CreatePlaceholders::operation_type(), OPERATION_TYPE_TRANSFER_PLACEHOLDERS);
    assert_eq!(Validate::operation_type(), OPERATION_TYPE_ACK_DATA);
    assert_eq!(Dehydrate::operation_type(), OPERATION_TYPE_ACK_DEHYDRATE);
    assert_eq!(Delete::operation_type(), OPERATION_TYPE_ACK_DELETE);
    assert_eq!(Rename::operation_type(), OPERATION_TYPE_ACK_RENAME);
}

#[test]
fn command_parameters() {
    let mut buffer = [0u8; 16];
    let read = Read { buffer: &mut buffer, position: 32 };
    assert_eq!(
        read.build(),
        OperationParameters::RetrieveData { flags: 0, offset: 32, length: 16 }
    );
    assert_eq!(Read::result(12), 12);
    let data = [1u8, 2, 3];
    let write = Write { buffer: &data, position: 8 };
    assert_eq!(
        write.build(),
        OperationParameters::TransferData {
            flags: 0,
            completion_status: STATUS_SUCCESS,
            offset: 8,
            length: 3
        }
    );
    assert_eq!(
        Write::fail(CloudErrorKind::InUse),
        OperationParameters::TransferData {
            flags: 0,
            completion_status: CloudErrorKind::InUse.to_ntstatus(),
            offset: 0,
            length: 0
        }
    );
    let blob = [7u8, 7];
    let update = Update { mark_sync: true, metadata: Some(Metadata::file()), blob: Some(&blob) };
    assert_eq!(
        update.build(),
        OperationParameters::RestartHydration {
            flags: RESTART_HYDRATION_FLAG_MARK_IN_SYNC,
            metadata: Some(Metadata::file()),
            file_identity_length: 2
        }
    );
    let update = Update { mark_sync: false, metadata: None, blob: None };
    assert_eq!(
        update.build(),
        OperationParameters::RestartHydration { flags: 0, metadata: None, file_identity_length: 0 }
    );
    let validate = Validate { range: 4096..8192 };
    assert_eq!(
        validate.build(),
        OperationParameters::AckData {
            flags: 0,
            completion_status: STATUS_SUCCESS,
            offset: 4096,
            length: 4096
        }
    );
    assert_eq!(
        Validate::fail(CloudErrorKind::ValidationFailed),
        OperationParameters::AckData {
            flags: 0,
            completion_status: CloudErrorKind::ValidationFailed.to_ntstatus(),
            offset: 0,
            length: 0
        }
    );
    assert_eq!(
        Delete.build(),
        OperationParameters::AckDelete { flags: 0, completion_status: STATUS_SUCCESS }
    );
    assert_eq!(
        Rename::fail(CloudErrorKind::AccessDenied),
        OperationParameters::AckRename {
            flags: 0,
            completion_status: CloudErrorKind::AccessDenied.to_ntstatus()
        }
    );
}

#[test]
fn creating_placeholders_reports_each_outcome() {
    let mut first = PlaceholderFile::new(units("a"));
    first.set_outcome(0, 11);
    let mut second = PlaceholderFile::new(units("b"));
    second.set_outcome(-3, 12);
    let placeholders = vec![first, second];
    let create = CreatePlaceholders { placeholders: &placeholders, total: 5 };
    assert_eq!(
        create.build(),
        OperationParameters::TransferPlaceholders {
            flags: 0,
            completion_status: STATUS_SUCCESS,
            placeholder_total_count: 5,
            placeholder_count: 2
        }
    );
    assert_eq!(CreatePlaceholders::results(&placeholders), vec![Ok(11), Err(-3)]);
    assert_eq!(
        CreatePlaceholders::fail(CloudErrorKind::NotSupported),
        OperationParameters::TransferPlaceholders {
            flags: 0,
            completion_status: CloudErrorKind::NotSupported.to_ntstatus(),
            placeholder_total_count: 0,
            placeholder_count: 0
        }
    );
}

#[test]
fn fetch_data_ticket_operations() {
    let ticket = ticket::FetchData::new(3, 4);
    assert_eq!(ticket.connection_key(), 3);
    assert_eq!(ticket.transfer_key(), 4);
    let data = [0u8; 10];
    assert_eq!(
        ticket.write_at(&data, 100),
        Operation {
            operation_type: OPERATION_TYPE_TRANSFER_DATA,
            connection_key: 3,
            transfer_key: 4,
            parameters: OperationParameters::TransferData {
                flags: 0,
                completion_status: STATUS_SUCCESS,
                offset: 100,
                length: 10
            }
        }
    );
    assert_eq!(
        ticket.read_at(&data, 7).parameters,
        OperationParameters::RetrieveData { flags: 0, offset: 7, length: 10 }
    );
    assert_eq!(
        ticket.fail(CloudErrorKind::RequestTimeout).parameters,
        Write::fail(CloudErrorKind::RequestTimeout)
    );
}

#[test]
fn validate_data_ticket_operations() {
    let ticket = ticket::ValidateData::new(1, 2);
    let pass = ticket.pass(0..4096);
    assert_eq!(pass.operation_type, OPERATION_TYPE_ACK_DATA);
    assert_eq!(
        pass.parameters,
        OperationParameters::AckData {
            flags: 0,
            completion_status: STATUS_SUCCESS,
            offset: 0,
            length: 4096
        }
    );
    assert_eq!(
        ticket.pass(4096..8192).parameters,
        OperationParameters::AckData {
            flags: 0,
            completion_status: STATUS_SUCCESS,
            offset: 4096,
            length: 4096
        }
    );
    assert_eq!(
        ticket.pass(8192..4096).parameters,
        OperationParameters::AckData {
            flags: 0,
            completion_status: STATUS_SUCCESS,
            offset: 8192,
            length: 4096
        }
    );
    assert_eq!(
        ticket.fail(CloudErrorKind::ValidationFailed).parameters,
        Validate::fail(CloudErrorKind::ValidationFailed)
    );
    assert_eq!(ticket.read_at(&[0u8; 3], 9).operation_type, OPERATION_TYPE_RETRIEVE_DATA);
}

#[test]
fn placeholder_dehydrate_delete_rename_tickets() {
    let placeholders = vec![PlaceholderFile::new(units("x")), PlaceholderFile::new(units("y"))];
    let fetch = ticket::FetchPlaceholders::new(5, 6);
    assert_eq!(
        fetch.pass_with_placeholder(&placeholders).parameters,
        OperationParameters::TransferPlaceholders {
            flags: 0,
            completion_status: STATUS_SUCCESS,
            placeholder_total_count: 2,
            placeholder_count: 2
        }
    );
    assert_eq!(
        fetch.fail(CloudErrorKind::Pinned).parameters,
        CreatePlaceholders::fail(CloudErrorKind::Pinned)
    );
    let dehydrate = ticket::Dehydrate::new(5, 6);
    assert_eq!(
        dehydrate.pass().parameters,
        OperationParameters::AckDehydrate {
            flags: 0,
            completion_status: STATUS_SUCCESS,
            file_identity_length: 0
        }
    );
    assert_eq!(
        dehydrate.pass_with_blob(&[1, 2, 3]).parameters,
        OperationParameters::AckDehydrate {
            flags: 0,
            completion_status: STATUS_SUCCESS,
            file_identity_length: 3
        }
    );
    assert_eq!(
        dehydrate.fail(CloudErrorKind::DehydrationDisallowed).parameters,
        Dehydrate::fail(CloudErrorKind::DehydrationDisallowed)
    );
    let delete = ticket::Delete::new(5, 6);
    assert_eq!(delete.pass().operation_type, OPERATION_TYPE_ACK_DELETE);
    assert_eq!(
        delete.fail(CloudErrorKind::InUse).parameters,
        OperationParameters::AckDelete {
            flags: 0,
            completion_status: CloudErrorKind::InUse.to_ntstatus()
        }
    );
    let rename = ticket::Rename::new(5, 6);
    assert_eq!(
        rename.pass(),
        Operation {
            operation_type: OPERATION_TYPE_ACK_RENAME,
            connection_key: 5,
            transfer_key: 6,
            parameters: OperationParameters::AckRename { flags: 0, completion_status: STATUS_SUCCESS }
        }
    );
    assert_eq!(
        rename.fail(CloudErrorKind::NotInSync).parameters,
        Rename::fail(CloudErrorKind::NotInSync)
    );
}

#[test]
fn fetch_data_information() {
    let fetch = info::FetchData {
        flags: CF_CALLBACK_FETCH_DATA_FLAG_RECOVERY as u32,
        required_file_offset: 4096,
        required_length: 4096,
        optional_file_offset: 0,
        optional_length: 65536,
        last_dehydration_time: 132_000_000_000_000_000,
        last_dehydration_reason: 2,
    };
    assert!(fetch.interrupted_hydration());
    assert!(!fetch.explicit_hydration());
    assert_eq!(fetch.required_file_range(), 4096..8192);
    assert_eq!(fetch.optional_file_range(), 0..65536);
    assert_eq!(fetch.last_dehydration_time().to_raw(), 132_000_000_000_000_000);
    assert_eq!(
        fetch.last_dehydration_reason(),
        Some(info::DehydrationReason::LowSpace)
    );
}

#[test]
fn flag_information() {
    let cancel = info::CancelFetchData {
        flags: CF_CALLBACK_CANCEL_FLAG_IO_TIMEOUT as u32,
        file_offset: 10,
        length: 5,
    };
    assert!(cancel.timeout());
    assert!(!cancel.user_cancelled());
    assert_eq!(cancel.file_range(), 10..15);
    let validate = info::ValidateData {
        flags: CF_CALLBACK_VALIDATE_DATA_FLAG_EXPLICIT_HYDRATION as u32,
        required_file_offset: 0,
        required_length: 8,
    };
    assert!(validate.explicit_hydration());
    assert_eq!(validate.file_range(), 0..8);
    let cancel = info::CancelFetchPlaceholders {
        flags: CF_CALLBACK_CANCEL_FLAG_IO_ABORTED as u32,
    };
    assert!(cancel.user_cancelled());
    assert!(!cancel.timeout());
    let opened = info::Opened {
        flags: CF_CALLBACK_OPEN_COMPLETION_FLAG_PLACEHOLDER_UNSUPPORTED as u32,
    };
    assert!(opened.metadata_unsupported());
    assert!(!opened.metadata_corrupt());
    let closed = info::Closed {
        flags: CF_CALLBACK_CLOSE_COMPLETION_FLAG_DELETED as u32,
    };
    assert!(closed.deleted());
    let dehydrate = info::Dehydrate {
        flags: CF_CALLBACK_DEHYDRATE_FLAG_BACKGROUND as u32,
        reason: 1,
    };
    assert!(dehydrate.background());
    assert_eq!(dehydrate.reason(), Some(info::DehydrationReason::UserManually));
    let dehydrated = info::Dehydrated {
        flags: CF_CALLBACK_DEHYDRATE_COMPLETION_FLAG_DEHYDRATED as u32,
        reason: 9,
    };
    assert!(dehydrated.already_hydrated());
    assert!(!dehydrated.background());
    assert_eq!(dehydrated.reason(), None);
    let delete = info::Delete {
        flags: (CF_CALLBACK_DELETE_FLAG_IS_DIRECTORY
            | CF_CALLBACK_DELETE_FLAG_IS_UNDELETE) as u32,
    };
    assert!(delete.is_directory());
    assert!(delete.is_undelete());
    let rename = info::Rename {
        flags: (CF_CALLBACK_RENAME_FLAG_SOURCE_IN_SCOPE
            | CF_CALLBACK_RENAME_FLAG_TARGET_IN_SCOPE) as u32,
        target: units("\\sync\\new.txt"),
        volume_letter: units("D:"),
    };
    assert!(!rename.is_directory());
    assert!(rename.source_in_scope());
    assert!(rename.target_in_scope());
    assert_eq!(rename.target_path(), units("D:\\sync\\new.txt"));
    let renamed = info::Renamed {
        source: units("\\sync\\old.txt"),
        volume_letter: units("D:"),
    };
    assert_eq!(renamed.source_path(), units("D:\\sync\\old.txt"));
}

#[test]
fn placeholder_patterns_decode_and_compile() {
    let fetch = info::FetchPlaceholders { pattern: units("*.txt") };
    assert_eq!(fetch.pattern(), "*.txt");
    let glob = fetch.pattern_glob().expect("a valid glob");
    assert!(glob.compile_matcher().is_match("notes.txt"));
    assert!(!glob.compile_matcher().is_match("notes.md"));
    assert_eq!(glob.glob(), "*.txt");
    assert_eq!(glob, globset::Glob::new("*.txt").unwrap());
    let broken = info::FetchPlaceholders { pattern: vec![0x61, 0xD800, 0x62] };
    assert_eq!(broken.pattern(), "a\u{FFFD}b");
    let paired = info::FetchPlaceholders { pattern: vec![0xD83D, 0xDE00, 0xDC00, 0x2A] };
    assert_eq!(paired.pattern(), "\u{1F600}\u{FFFD}*");
    let invalid = info::FetchPlaceholders { pattern: units("a[") };
    assert!(invalid.pattern_glob().is_err());
}

#[test]
fn async_bridge_keeps_its_parts() {
    let bridge = AsyncBridge::new(7u32, "executor");
    assert_eq!(*bridge.filter(), 7);
    assert_eq!(*bridge.block_on(), "executor");
}
