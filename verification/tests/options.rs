
use wincs::ext::file::{dehydrate_arguments, DEHYDRATE_FLAG_BACKGROUND};
use wincs::file::{dehydrate_placeholder_arguments, hydrate_placeholder_arguments, set_flag};
use wincs::metadata::{
    file_time_from_ticks, ticks_of_file_time, Metadata, MetadataExt, FILE_ATTRIBUTE_DIRECTORY,
    FILE_ATTRIBUTE_NORMAL,
};
use wincs::placeholder::{
    hydrate_range, in_sync_state, ConvertOptions, FileRange, OpenOptions, PinOptions,
    UpdateOptions, CF_EOF,
};
use wincs::placeholder_file::{PlaceholderFile, S_FALSE};
use wincs::root::register::{HydrationPolicy, SupportedAttributes};
use wincs::root::session::Session;
use wincs::utility::RangeBound;

const CF_CONNECT_FLAG_BLOCK_SELF_IMPLICIT_HYDRATION: i32 = 8i32;
const CF_CONNECT_FLAG_REQUIRE_FULL_FILE_PATH: i32 = 4i32;
const CF_CONNECT_FLAG_REQUIRE_PROCESS_INFO: i32 = 2i32;
const CF_CONVERT_FLAG_ALWAYS_FULL: i32 = 8i32;
const CF_CONVERT_FLAG_DEHYDRATE: i32 = 2i32;
const CF_CONVERT_FLAG_ENABLE_ON_DEMAND_POPULATION: i32 = 4i32;
const CF_CONVERT_FLAG_FORCE_CONVERT_TO_CLOUD_FILE: i32 = 16i32;
const CF_CONVERT_FLAG_MARK_IN_SYNC: i32 = 1i32;
const CF_DEHYDRATE_FLAG_BACKGROUND: i32 = 1i32;
const CF_DEHYDRATE_FLAG_NONE: i32 = 0i32;
const CF_HYDRATE_FLAG_NONE: i32 = 0i32;
const CF_IN_SYNC_STATE_IN_SYNC: i32 = 1i32;
const CF_IN_SYNC_STATE_NOT_IN_SYNC: i32 = 0i32;
const CF_OPEN_FILE_FLAG_DELETE_ACCESS: i32 = 4i32;
const CF_OPEN_FILE_FLAG_EXCLUSIVE: i32 = 1i32;
const CF_OPEN_FILE_FLAG_FOREGROUND: i32 = 8i32;
const CF_OPEN_FILE_FLAG_WRITE_ACCESS: i32 = 2i32;
const CF_PLACEHOLDER_CREATE_FLAG_ALWAYS_FULL: i32 = 8i32;
const CF_PLACEHOLDER_CREATE_FLAG_DISABLE_ON_DEMAND_POPULATION: i32 = 1i32;
const CF_PLACEHOLDER_CREATE_FLAG_MARK_IN_SYNC: i32 = 2i32;
const CF_PLACEHOLDER_CREATE_FLAG_SUPERSEDE: i32 = 4i32;
const CF_SET_PIN_FLAG_NONE: i32 = 0i32;
const CF_SET_PIN_FLAG_RECURSE: i32 = 1i32;
const CF_SET_PIN_FLAG_RECURSE_ONLY: i32 = 2i32;
const CF_SET_PIN_FLAG_RECURSE_STOP_ON_ERROR: i32 = 4i32;
const CF_UPDATE_FLAG_CLEAR_IN_SYNC: i32 = 64i32;
const CF_UPDATE_FLAG_DEHYDRATE: i32 = 4i32;
const CF_UPDATE_FLAG_DISABLE_ON_DEMAND_POPULATION: i32 = 16i32;
const CF_UPDATE_FLAG_ENABLE_ON_DEMAND_POPULATION: i32 = 8i32;
const CF_UPDATE_FLAG_MARK_IN_SYNC: i32 = 2i32;
const CF_UPDATE_FLAG_PASSTHROUGH_FS_METADATA: i32 = 256i32;
const CF_UPDATE_FLAG_REMOVE_FILE_IDENTITY: i32 = 32i32;
const CF_UPDATE_FLAG_REMOVE_PROPERTY: i32 = 128i32;
const CF_UPDATE_FLAG_VERIFY_IN_SYNC: i32 = 1i32;
const STORAGE_PROVIDER_IN_SYNC_POLICY_PRESERVE_INSYNC_FOR_SYNC_ENGINE: u32 = 2147483648u32;

#[test]
fn pin_options_accumulate_flags() {
    let mut options = PinOptions::default();
    assert_eq!(options.flags(), CF_SET_PIN_FLAG_NONE as u32);
    options.recurse().stop_on_error();
    assert_eq!(
        options.flags(),
        (CF_SET_PIN_FLAG_RECURSE | CF_SET_PIN_FLAG_RECURSE_STOP_ON_ERROR)
            as u32
    );
    options.recurse_children();
    assert_eq!(options.flags() & CF_SET_PIN_FLAG_RECURSE_ONLY as u32, 2);
}

#[test]
fn convert_options_accumulate_flags_and_keep_the_blob() {
    let options = ConvertOptions::default()
        .mark_in_sync()
        .dehydrate()
        .has_children()
        .block_dehydration()
        .force()
        .blob(vec![1, 2, 3]);
    let expected = CF_CONVERT_FLAG_MARK_IN_SYNC
        | CF_CONVERT_FLAG_DEHYDRATE
        | CF_CONVERT_FLAG_ENABLE_ON_DEMAND_POPULATION
        | CF_CONVERT_FLAG_ALWAYS_FULL
        | CF_CONVERT_FLAG_FORCE_CONVERT_TO_CLOUD_FILE;
    assert_eq!(options.flags(), expected as u32);
    assert_eq!(options.blob_bytes(), &[1u8, 2, 3][..]);
    assert_eq!(ConvertOptions::default().flags(), 0);
}

#[test]
fn update_options_flags_and_metadata() {
    let metadata = Metadata::file().size(10);
    let options = UpdateOptions::default().metadata_all(metadata).mark_in_sync().dehydrate();
    assert_eq!(
        options.flags(),
        (CF_UPDATE_FLAG_PASSTHROUGH_FS_METADATA
            | CF_UPDATE_FLAG_MARK_IN_SYNC
            | CF_UPDATE_FLAG_DEHYDRATE) as u32
    );
    assert_eq!(options.metadata_param(), Some(metadata));
    let options = options.metadata(metadata);
    assert_eq!(
        options.flags(),
        (CF_UPDATE_FLAG_MARK_IN_SYNC | CF_UPDATE_FLAG_DEHYDRATE) as u32
    );
    let options = UpdateOptions::default()
        .update_if_in_sync()
        .mark_not_in_sync()
        .has_no_children()
        .has_children()
        .remove_blob()
        .remove_properties();
    assert_eq!(
        options.flags(),
        (CF_UPDATE_FLAG_VERIFY_IN_SYNC
            | CF_UPDATE_FLAG_CLEAR_IN_SYNC
            | CF_UPDATE_FLAG_DISABLE_ON_DEMAND_POPULATION
            | CF_UPDATE_FLAG_ENABLE_ON_DEMAND_POPULATION
            | CF_UPDATE_FLAG_REMOVE_FILE_IDENTITY
            | CF_UPDATE_FLAG_REMOVE_PROPERTY) as u32
    );
}

#[test]
fn update_options_ranges_and_blob() {
    let blob = [4u8, 5];
    let options = UpdateOptions::default();
    assert!(options.dehydrate_ranges_param().is_none());
    assert!(options.blob_bytes().is_empty());
    let options = options.dehydrate_ranges(vec![0..4096, 8192..16384]).blob(&blob);
    assert_eq!(
        options.dehydrate_ranges_param(),
        Some(
            &[
                FileRange { starting_offset: 0, length: 4096 },
                FileRange { starting_offset: 8192, length: 8192 },
            ][..]
        )
    );
    assert_eq!(options.blob_bytes(), &blob[..]);
}

#[test]
fn open_options_accumulate_flags() {
    let options = OpenOptions::new().exclusive().write_access().delete_access().foreground();
    assert_eq!(
        options.flags(),
        (CF_OPEN_FILE_FLAG_EXCLUSIVE
            | CF_OPEN_FILE_FLAG_WRITE_ACCESS
            | CF_OPEN_FILE_FLAG_DELETE_ACCESS
            | CF_OPEN_FILE_FLAG_FOREGROUND) as u32
    );
    assert_eq!(OpenOptions::default().flags(), 0);
}

#[test]
fn in_sync_states() {
    assert_eq!(in_sync_state(true), CF_IN_SYNC_STATE_IN_SYNC);
    assert_eq!(in_sync_state(false), CF_IN_SYNC_STATE_NOT_IN_SYNC);
}

#[test]
fn hydration_ranges_are_offset_and_length() {
    assert_eq!(hydrate_range(RangeBound::Included(10), RangeBound::Excluded(30)), (10, 20));
    assert_eq!(hydrate_range(RangeBound::Excluded(10), RangeBound::Included(30)), (11, 20));
    assert_eq!(hydrate_range(RangeBound::Unbounded, RangeBound::Unbounded), (0, CF_EOF));
    assert_eq!(hydrate_range(RangeBound::Included(10), RangeBound::Excluded(5)), (10, 4));
    assert_eq!(hydrate_range(RangeBound::Included(10), RangeBound::Included(3)), (10, 3));
    assert_eq!(hydrate_range(RangeBound::Included(10), RangeBound::Included(9)), (10, 0));
    assert_eq!(CF_EOF, -1);
}

#[test]
fn dehydration_arguments_of_the_extension() {
    assert_eq!(
        dehydrate_arguments(RangeBound::Included(5), RangeBound::Excluded(10), false),
        (5, 5, 0)
    );
    assert_eq!(
        dehydrate_arguments(RangeBound::Unbounded, RangeBound::Unbounded, true),
        (0, -1, DEHYDRATE_FLAG_BACKGROUND)
    );
    assert_eq!(
        DEHYDRATE_FLAG_BACKGROUND,
        CF_DEHYDRATE_FLAG_BACKGROUND as u32
    );
    assert_eq!(
        dehydrate_arguments(RangeBound::Excluded(u64::MAX), RangeBound::Excluded(0), false),
        (-1, 0, 0)
    );
    assert_eq!(
        dehydrate_arguments(RangeBound::Included(10), RangeBound::Excluded(5), false),
        (10, 4, 0)
    );
    assert_eq!(
        dehydrate_arguments(RangeBound::Included(10), RangeBound::Included(3), true),
        (10, 3, DEHYDRATE_FLAG_BACKGROUND)
    );
    assert_eq!(
        dehydrate_arguments(RangeBound::Included(0), RangeBound::Excluded(4096), true),
        (0, 4096, DEHYDRATE_FLAG_BACKGROUND)
    );
    assert_eq!(
        dehydrate_arguments(RangeBound::Excluded(9), RangeBound::Included(19), false),
        (10, 10, 0)
    );
}

#[test]
fn legacy_hydration_and_dehydration_arguments() {
    assert_eq!(
        hydrate_placeholder_arguments(RangeBound::Excluded(1), RangeBound::Included(7)),
        (2, 6, CF_HYDRATE_FLAG_NONE as u32)
    );
    assert_eq!(
        hydrate_placeholder_arguments(RangeBound::Included(10), RangeBound::Excluded(5)),
        (10, 4, CF_HYDRATE_FLAG_NONE as u32)
    );
    assert_eq!(
        dehydrate_placeholder_arguments(RangeBound::Included(0), RangeBound::Unbounded, true),
        (0, -1, CF_DEHYDRATE_FLAG_BACKGROUND as u32)
    );
    assert_eq!(
        dehydrate_placeholder_arguments(RangeBound::Included(0), RangeBound::Unbounded, false),
        (0, -1, CF_DEHYDRATE_FLAG_NONE as u32)
    );
    assert_eq!(
        dehydrate_placeholder_arguments(RangeBound::Included(4096), RangeBound::Excluded(8192), false),
        (4096, 4096, CF_DEHYDRATE_FLAG_NONE as u32)
    );
}

#[test]
fn set_flag_sets_and_clears() {
    let mut flags = 0b1010u32;
    set_flag(&mut flags, 0b0001, true);
    assert_eq!(flags, 0b1011);
    set_flag(&mut flags, 0b1000, false);
    assert_eq!(flags, 0b0011);
    set_flag(&mut flags, 0b1000, false);
    assert_eq!(flags, 0b0011);
}

#[test]
fn legacy_options_set_and_clear_flags() {
    let mut pin = wincs::file::PinOptions::default();
    pin.recurse(true).recurse_only(true).stop_on_error(true);
    pin.recurse_only(false);
    assert_eq!(
        pin.flags(),
        (CF_SET_PIN_FLAG_RECURSE | CF_SET_PIN_FLAG_RECURSE_STOP_ON_ERROR)
            as u32
    );
    let mut convert = wincs::file::ConvertOptions::default();
    convert.mark_in_sync(true).dehydrate(true).on_demand_population(true).always_full(true);
    convert.convert_to_cloud_file(true).dehydrate(false);
    assert_eq!(
        convert.flags(),
        (CF_CONVERT_FLAG_MARK_IN_SYNC
            | CF_CONVERT_FLAG_ENABLE_ON_DEMAND_POPULATION
            | CF_CONVERT_FLAG_ALWAYS_FULL
            | CF_CONVERT_FLAG_FORCE_CONVERT_TO_CLOUD_FILE) as u32
    );
}

#[test]
fn legacy_update_options() {
    let blob = [1u8];
    let options = wincs::file::UpdateOptions::default()
        .verify_in_sync(true)
        .mark_in_sync(true)
        .dehydrate(true)
        .remove_file_identity(true)
        .clear_in_sync(true)
        .remove_property(true)
        .passthrough_fs_metadata(true)
        .mark_in_sync(false)
        .on_demand_population(true)
        .usn(3)
        .blob(&blob)
        .dehydrate_range(10..20)
        .dehydrate_range(30..4)
        .metadata(Metadata::directory());
    assert_eq!(
        options.flags(),
        (CF_UPDATE_FLAG_VERIFY_IN_SYNC
            | CF_UPDATE_FLAG_DEHYDRATE
            | CF_UPDATE_FLAG_REMOVE_FILE_IDENTITY
            | CF_UPDATE_FLAG_CLEAR_IN_SYNC
            | CF_UPDATE_FLAG_REMOVE_PROPERTY
            | CF_UPDATE_FLAG_PASSTHROUGH_FS_METADATA
            | CF_UPDATE_FLAG_ENABLE_ON_DEMAND_POPULATION) as u32
    );
    assert_eq!(options.usn_param(), Some(3));
    assert_eq!(options.blob_param(), Some(&blob[..]));
    assert_eq!(options.metadata_param(), Some(Metadata::directory()));
    assert_eq!(
        options.dehydrate_ranges_param(),
        &[
            FileRange { starting_offset: 10, length: 10 },
            FileRange { starting_offset: 30, length: 4 },
        ][..]
    );
    let options = wincs::file::UpdateOptions::default()
        .on_demand_population(true)
        .on_demand_population(false);
    assert_eq!(options.flags(), CF_UPDATE_FLAG_DISABLE_ON_DEMAND_POPULATION as u32);
    let options = wincs::file::UpdateOptions::default().passthrough_fs_metadata(true);
    assert_eq!(options.passthrough_fs_metadata(false).flags(), 0);
    let defaults = wincs::file::UpdateOptions::default();
    assert_eq!(defaults.usn_param(), None);
    assert_eq!(defaults.blob_param(), None);
    assert!(defaults.dehydrate_ranges_param().is_empty());
}

#[test]
fn session_flags_always_ask_for_paths_and_processes() {
    let base = (CF_CONNECT_FLAG_REQUIRE_FULL_FILE_PATH
        | CF_CONNECT_FLAG_REQUIRE_PROCESS_INFO) as u32;
    assert_eq!(Session::new().connect_flags(), base);
    assert_eq!(Session::default().connect_flags(), base);
    assert_eq!(
        Session::new().block_implicit_hydration().connect_flags(),
        base | CF_CONNECT_FLAG_BLOCK_SELF_IMPLICIT_HYDRATION as u32
    );
}

#[test]
fn metadata_builders() {
    let file = Metadata::file();
    assert_eq!(file.file_attributes, FILE_ATTRIBUTE_NORMAL);
    assert_eq!(file.file_size, 0);
    let dir = Metadata::directory();
    assert_eq!(dir.file_attributes, FILE_ATTRIBUTE_DIRECTORY);
    let time = nt_time::FileTime::new(133_000_000_000_000_000);
    let meta = Metadata::default()
        .created(time)
        .accessed(time)
        .written(time)
        .changed(time)
        .size(42)
        .attributes(7);
    assert_eq!(meta.creation_time, 133_000_000_000_000_000);
    assert_eq!(meta.last_access_time, 133_000_000_000_000_000);
    assert_eq!(meta.last_write_time, 133_000_000_000_000_000);
    assert_eq!(meta.change_time, 133_000_000_000_000_000);
    assert_eq!(meta.file_size, 42);
    assert_eq!(meta.file_attributes, 7);
    let raw = Metadata::default().change_time(1).last_access_time(2).last_write_time(3).creation_time(4);
    assert_eq!(
        (raw.change_time, raw.last_access_time, raw.last_write_time, raw.creation_time),
        (1, 2, 3, 4)
    );
}

#[test]
fn file_times_hold_their_ticks() {
    let time = file_time_from_ticks(116_444_736_000_000_000);
    assert_eq!(ticks_of_file_time(time), 116_444_736_000_000_000);
    assert_eq!(time.to_raw(), 116_444_736_000_000_000);
    assert_eq!(ticks_of_file_time(nt_time::FileTime::new(9)), 9);
    let meta = Metadata::file().written(time).changed(file_time_from_ticks(0));
    assert_eq!(meta.last_write_time, 116_444_736_000_000_000);
    assert_eq!(meta.change_time, 0);
}

#[test]
fn placeholder_file_flags_and_outcome() {
    let name: Vec<u16> = "notes.txt".encode_utf16().collect();
    let mut file = PlaceholderFile::new(name.clone())
        .has_no_children()
        .mark_in_sync()
        .overwrite()
        .block_dehydration()
        .metadata(Metadata::file().size(5))
        .blob(vec![1, 2]);
    assert_eq!(file.relative_file_name(), &name[..]);
    assert_eq!(
        file.flags(),
        (CF_PLACEHOLDER_CREATE_FLAG_DISABLE_ON_DEMAND_POPULATION
            | CF_PLACEHOLDER_CREATE_FLAG_MARK_IN_SYNC
            | CF_PLACEHOLDER_CREATE_FLAG_SUPERSEDE
            | CF_PLACEHOLDER_CREATE_FLAG_ALWAYS_FULL) as u32
    );
    assert_eq!(file.metadata_param().file_size, 5);
    assert_eq!(file.blob_bytes(), &[1u8, 2][..]);
    assert_eq!(file.result(), Ok(0));
    assert_eq!(S_FALSE, 1);
    file.set_outcome(0, 99);
    assert_eq!(file.result(), Ok(99));
    file.set_outcome(-7, 100);
    assert_eq!(file.result(), Err(-7));
}

#[test]
fn hydration_policy_and_supported_attributes() {
    let policy = HydrationPolicy::default()
        .require_validation()
        .allow_streaming()
        .allow_platform_dehydration()
        .allow_full_restart_hydration();
    assert_eq!(policy.bits, 0xF);
    let attributes = SupportedAttributes::default()
        .file_creation_time()
        .file_readonly()
        .file_hidden()
        .file_system()
        .file_last_write_time()
        .directory_creation_time()
        .directory_readonly()
        .directory_hidden()
        .directory_last_write_time();
    assert_eq!(attributes.bits, 0x37F);
    assert_eq!(
        attributes.none().bits,
        0x37F | STORAGE_PROVIDER_IN_SYNC_POLICY_PRESERVE_INSYNC_FOR_SYNC_ENGINE
    );
}

fn notify_entry(next: u32, name: &str) -> Vec<u8> {
    let units: Vec<u16> = name.encode_utf16().collect();
    let mut entry = Vec::new();
    entry.extend_from_slice(&next.to_le_bytes());
    entry.extend_from_slice(&3u32.to_le_bytes());
    entry.extend_from_slice(&((units.len() * 2) as u32).to_le_bytes());
    for unit in units {
        entry.extend_from_slice(&unit.to_le_bytes());
    }
    entry
}

#[test]
fn watcher_buffers_list_each_changed_name() {
    let first = notify_entry(0, "a.txt");
    let mut buffer = notify_entry(0, "dir\\b.txt");
    let next = buffer.len() as u32;
    buffer[0..4].copy_from_slice(&next.to_le_bytes());
    buffer.extend_from_slice(&first);
    buffer.resize(1024, 0);
    assert_eq!(
        wincs::root::session::changed_names(&buffer),
        Some(vec!["dir\\b.txt".encode_utf16().collect(), "a.txt".encode_utf16().collect()])
    );
}

#[test]
fn watcher_buffers_that_run_out_are_refused() {
    let mut buffer = notify_entry(4096, "a");
    buffer.resize(64, 0);
    assert_eq!(wincs::root::session::changed_names(&buffer), None);
    assert_eq!(wincs::root::session::changed_names(&[0u8; 8]), None);
    let truncated = notify_entry(0, "abc");
    assert_eq!(wincs::root::session::changed_names(&truncated[..14]), None);
}

#[test]
fn crawl_scope_urls() {
    let path: Vec<u16> = "C:\\Users\\me\\Cloud".encode_utf16().collect();
    assert_eq!(
        wincs::root::session::crawl_scope_url(&path),
        "file:///C:\\Users\\me\\Cloud".encode_utf16().collect::<Vec<u16>>()
    );
}

#[test]
fn file_system_metadata_uses_the_write_time_as_change_time() {
    let meta = Metadata::from_file_system(1, 2, 3, 0x20, 4);
    assert_eq!(meta.creation_time, 1);
    assert_eq!(meta.last_access_time, 2);
    assert_eq!(meta.last_write_time, 3);
    assert_eq!(meta.change_time, 3);
    assert_eq!(meta.file_attributes, 0x20);
    assert_eq!(meta.file_size, 4);
    assert_eq!(Metadata::from_file_system(0, 0, 0, 0, u64::MAX).file_size, -1);
}
