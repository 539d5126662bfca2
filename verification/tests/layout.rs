
use wincs::ext::file::{ProviderStatus, SyncRootInfo, SYNC_ROOT_STANDARD_INFO_SIZE};
use wincs::layout::{copy_counted, read_i32, read_i64, read_u16, read_u16_array, read_u32};
use wincs::placeholder::{
    placeholder_info_buffer_len, PinState, PlaceholderInfo, PLACEHOLDER_STANDARD_INFO_SIZE,
};
use wincs::utility::{
    concat_units, prefix_before_nul, push_decimal, win32_error_to_hresult,
    ERROR_NOT_A_CLOUD_FILE,
};



fn put(bytes: &mut [u8], at: usize, value: &[u8]) {
    bytes[at..at + value.len()].copy_from_slice(value);
}

fn units(text: &str) -> Vec<u16> {
    text.encode_utf16().collect()
}

#[test]
fn fixed_parts_have_the_platform_sizes() {
    assert_eq!(PLACEHOLDER_STANDARD_INFO_SIZE, 64);
    assert_eq!(SYNC_ROOT_STANDARD_INFO_SIZE, 1064);
}

#[test]
fn little_endian_reads() {
    let bytes = [0x01u8, 0x02, 0x03, 0x04, 0x05, 0x06, 0x07, 0x88, 0xFF];
    assert_eq!(read_u16(&bytes, 0), 0x0201);
    assert_eq!(read_u32(&bytes, 1), 0x0504_0302);
    assert_eq!(read_i32(&bytes, 5), 0xFF88_0706u32 as i32);
    assert_eq!(read_i64(&bytes, 0), 0x8807_0605_0403_0201u64 as i64);
    assert_eq!(read_u16_array(&bytes, 1, 3), vec![0x0302, 0x0504, 0x0706]);
    assert_eq!(copy_counted(&bytes, 7, 1), vec![0x88]);
    assert_eq!(copy_counted(&bytes, 7, 5), vec![0x88, 0xFF]);
    assert_eq!(copy_counted(&bytes, 9, 3), Vec::<u8>::new());
}

fn placeholder_block(blob: &[u8]) -> Vec<u8> {
    let mut data = vec![0u8; PLACEHOLDER_STANDARD_INFO_SIZE + blob.len()];
    put(&mut data, 0, &100i64.to_le_bytes());
    put(&mut data, 8, &200i64.to_le_bytes());
    put(&mut data, 16, &300i64.to_le_bytes());
    put(&mut data, 24, &(-4i64).to_le_bytes());
    put(&mut data, 32, &1i32.to_le_bytes());
    put(&mut data, 36, &1i32.to_le_bytes());
    put(&mut data, 40, &0x1122_3344_5566i64.to_le_bytes());
    put(&mut data, 48, &77i64.to_le_bytes());
    put(&mut data, 56, &(blob.len() as u32).to_le_bytes());
    put(&mut data, 60, blob);
    data
}

#[test]
fn placeholder_info_reads_every_field() {
    let data = placeholder_block(&[9, 8, 7]);
    let info = PlaceholderInfo::from_bytes(&data);
    assert_eq!(info.on_disk_data_size(), 100);
    assert_eq!(info.validated_data_size(), 200);
    assert_eq!(info.modified_data_size(), 300);
    assert_eq!(info.properties_size(), -4);
    assert_eq!(info.pin_state(), PinState::Pinned);
    assert!(info.is_in_sync());
    assert_eq!(info.file_id(), 0x1122_3344_5566);
    assert_eq!(info.sync_root_file_id(), 77);
    assert_eq!(info.blob(), &[9u8, 8, 7][..]);
}

#[test]
fn placeholder_info_not_in_sync() {
    let mut data = placeholder_block(&[0]);
    put(&mut data, 36, &0i32.to_le_bytes());
    put(&mut data, 32, &4i32.to_le_bytes());
    let info = PlaceholderInfo::from_bytes(&data);
    assert!(!info.is_in_sync());
    assert_eq!(info.pin_state(), PinState::Inherit);
}

#[test]
fn placeholder_info_buffer_holds_the_blob() {
    assert_eq!(placeholder_info_buffer_len(0), 64);
    assert_eq!(placeholder_info_buffer_len(10), 74);
}

#[test]
fn placeholder_query_outcomes() {
    let data = placeholder_block(&[1, 2]);
    match PlaceholderInfo::from_query(Ok(()), &data) {
        Ok(Some(info)) => assert_eq!(info.blob(), &[1u8, 2][..]),
        other => panic!("unexpected {:?}", other),
    }
    let not_cloud = win32_error_to_hresult(ERROR_NOT_A_CLOUD_FILE);
    assert!(matches!(PlaceholderInfo::from_query(Err(not_cloud), &[]), Ok(None)));
    assert!(matches!(PlaceholderInfo::from_query(Err(-5), &[]), Err(-5)));
}

#[test]
fn placeholder_info_with_an_empty_blob() {
    let data = placeholder_block(&[]);
    assert_eq!(data.len(), placeholder_info_buffer_len(0));
    match PlaceholderInfo::from_query(Ok(()), &data) {
        Ok(Some(info)) => {
            assert!(info.blob().is_empty());
            assert_eq!(info.on_disk_data_size(), 100);
            assert_eq!(info.sync_root_file_id(), 77);
        }
        other => panic!("unexpected {:?}", other),
    }
}

#[test]
fn placeholder_info_blob_is_the_file_identity() {
    let blob = [1u8, 2, 3, 4, 5, 6, 7, 8, 9];
    let data = placeholder_block(&blob);
    assert_eq!(PlaceholderInfo::from_bytes(&data).blob(), &blob[..]);
    let mut short = data.clone();
    put(&mut short, 56, &100u32.to_le_bytes());
    assert_eq!(PlaceholderInfo::from_bytes(&short).blob(), &[1u8, 2, 3, 4, 5, 6, 7, 8, 9, 0, 0, 0, 0][..]);
    let mut shorter = data;
    put(&mut shorter, 56, &2u32.to_le_bytes());
    assert_eq!(PlaceholderInfo::from_bytes(&shorter).blob(), &[1u8, 2][..]);
}

fn sync_root_block(status: u32, name: &str, version: &str, blob: &[u8]) -> Vec<u8> {
    let mut data = vec![0u8; SYNC_ROOT_STANDARD_INFO_SIZE + blob.len()];
    put(&mut data, 0, &(-2i64).to_le_bytes());
    put(&mut data, 20, &1i32.to_le_bytes());
    put(&mut data, 24, &status.to_le_bytes());
    for (i, unit) in units(name).iter().enumerate() {
        put(&mut data, 28 + 2 * i, &unit.to_le_bytes());
    }
    for (i, unit) in units(version).iter().enumerate() {
        put(&mut data, 540 + 2 * i, &unit.to_le_bytes());
    }
    put(&mut data, 1052, &(blob.len() as u32).to_le_bytes());
    put(&mut data, 1056, blob);
    data
}

#[test]
fn sync_root_info_reads_every_field() {
    let data = sync_root_block(0x20, "Cloud Mirror", "1.0.0", &[5, 6]);
    let info = SyncRootInfo::from_bytes(&data);
    assert_eq!(info.file_id(), (-2i64) as u64);
    assert!(info.hardlinks_allowed());
    assert_eq!(info.status(), ProviderStatus::SyncFull);
    assert_eq!(info.provider_name(), units("Cloud Mirror"));
    assert_eq!(info.version(), units("1.0.0"));
    assert_eq!(info.blob(), &[5u8, 6][..]);
}

#[test]
fn sync_root_info_without_hardlinks_or_blob() {
    let mut data = sync_root_block(0x1, "p", "v", &[]);
    put(&mut data, 20, &0i32.to_le_bytes());
    let info = SyncRootInfo::from_bytes(&data);
    assert!(!info.hardlinks_allowed());
    assert_eq!(info.status(), ProviderStatus::Idle);
    assert!(info.blob().is_empty());
}

#[test]
fn nul_terminated_buffers() {
    assert_eq!(prefix_before_nul(&[0x61, 0x62, 0, 0x63]), Some(vec![0x61, 0x62]));
    assert_eq!(prefix_before_nul(&[0, 0x63]), Some(vec![]));
    assert_eq!(prefix_before_nul(&[0x61, 0x62]), None);
}

#[test]
fn decimal_digits() {
    let mut out = units("x,");
    push_decimal(&mut out, 1525);
    assert_eq!(out, units("x,1525"));
    let mut zero = Vec::new();
    push_decimal(&mut zero, 0);
    assert_eq!(zero, units("0"));
    let mut max = Vec::new();
    push_decimal(&mut max, u32::MAX);
    assert_eq!(max, units("4294967295"));
}

#[test]
fn joined_paths() {
    assert_eq!(concat_units(&units("C:"), &units("\\dir\\file")), units("C:\\dir\\file"));
    assert_eq!(concat_units(&[], &units("a")), units("a"));
}

#[test]
fn sync_root_policies_are_read_from_the_block() {
    let mut data = sync_root_block(0x8000_0000, "Mirror", "2", &[4, 3]);
    put(&mut data, 8, &2u16.to_le_bytes());
    put(&mut data, 10, &0x5u16.to_le_bytes());
    put(&mut data, 12, &3u16.to_le_bytes());
    put(&mut data, 16, &0x102u32.to_le_bytes());
    let info = wincs::file::SyncRootInfo::from_bytes(&data);
    assert_eq!(info.file_id(), (-2i64) as u64);
    assert_eq!(info.hydration_policy(), wincs::root::register::HydrationType::Full);
    assert_eq!(info.hydration_type().bits, 0x5);
    assert_eq!(info.population_type(), wincs::root::register::PopulationType::AlwaysFull);
    assert_eq!(info.in_sync_policy().bits, 0x102);
    assert!(info.hardlinks_allowed());
    assert_eq!(info.status(), wincs::file::ProviderStatus::ClearFlags);
    assert_eq!(info.provider_name(), units("Mirror"));
    assert_eq!(info.version(), units("2"));
    assert_eq!(info.blob(), &[4u8, 3][..]);
}

#[test]
fn legacy_placeholder_info_reads_sizes_unsigned() {
    let data = placeholder_block(&[6, 5]);
    let info = wincs::file::PlaceholderInfo::from_bytes(&data);
    assert_eq!(info.on_disk_data_size(), 100);
    assert_eq!(info.validated_data_size(), 200);
    assert_eq!(info.modified_data_size(), 300);
    assert_eq!(info.properties_size(), (-4i64) as u64);
    assert_eq!(info.pin_state(), PinState::Pinned);
    assert!(info.is_synced());
    assert_eq!(info.file_id(), 0x1122_3344_5566);
    assert_eq!(info.sync_root_file_id(), 77);
    assert_eq!(info.blob(), Some(&[6u8, 5][..]));
    let empty = wincs::file::PlaceholderInfo::from_bytes(&placeholder_block(&[]));
    assert_eq!(empty.blob(), None);
}
