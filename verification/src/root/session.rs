use vstd::prelude::*;

use crate::layout::{le_u16_array, le_u32, read_u16_array, read_u32};
use crate::utility::concat_units;

verus! {

/// `CF_CONNECT_FLAG_REQUIRE_PROCESS_INFO`.
pub const CONNECT_FLAG_REQUIRE_PROCESS_INFO: u32 = 0x2;
/// `CF_CONNECT_FLAG_REQUIRE_FULL_FILE_PATH`.
pub const CONNECT_FLAG_REQUIRE_FULL_FILE_PATH: u32 = 0x4;
/// `CF_CONNECT_FLAG_BLOCK_SELF_IMPLICIT_HYDRATION`.
pub const CONNECT_FLAG_BLOCK_SELF_IMPLICIT_HYDRATION: u32 = 0x8;

/// A builder to create a new connection for the sync root at the specified path.
#[derive(Debug, Clone, Copy)]
pub struct Session {
    flags: u32,
}

impl Session {
    /// The `CF_CONNECT_FLAGS` bits chosen so far.
    pub closed spec fn spec_flags(&self) -> u32 {
        self.flags
    }

    /// Create a new [Session].
    pub fn new() -> (r: Self)
        ensures
            r.spec_flags() == 0,
    {
        Session { flags: 0 }
    }

    /// Prevents implicit placeholder hydrations from invoking the fetch-data
    /// callback, as could happen when an anti-virus scans files within the
    /// sync root. An explicit hydration is not blocked by this flag.
    pub fn block_implicit_hydration(self) -> (r: Self)
        ensures
            r.spec_flags() == self.spec_flags() | CONNECT_FLAG_BLOCK_SELF_IMPLICIT_HYDRATION,
    {
        Session { flags: self.flags | CONNECT_FLAG_BLOCK_SELF_IMPLICIT_HYDRATION }
    }

    /// The `CF_CONNECT_FLAGS` a connection is made with: the chosen ones, and
    /// always the full file path and the process information, so that every
    /// request carries them.
    pub fn connect_flags(&self) -> (r: u32)
        ensures
            r == self.spec_flags() | CONNECT_FLAG_REQUIRE_FULL_FILE_PATH
                | CONNECT_FLAG_REQUIRE_PROCESS_INFO,
    {
        self.flags | CONNECT_FLAG_REQUIRE_FULL_FILE_PATH | CONNECT_FLAG_REQUIRE_PROCESS_INFO
    }
}

impl Default for Session {
    fn default() -> (r: Self)
        ensures
            r.spec_flags() == 0,
    {
        Session { flags: 0 }
    }
}


/// The names (UTF-16 code units, relative to the watched directory) of the
/// chain of `FILE_NOTIFY_INFORMATION` entries that starts at `offset` of a
/// change buffer: each entry holds the offset of the next one (0 for the
/// last) at 0, the length of its name in bytes at 8 and the name at 12.
/// `None` when an entry does not lie in the buffer.
pub open spec fn notify_names_from(buffer: Seq<u8>, offset: int) -> Option<Seq<Seq<u16>>>
    decreases buffer.len() - offset,
{
    if offset < 0 || offset + 12 > buffer.len() {
        None
    } else {
        let next = le_u32(buffer, offset);
        let units = le_u32(buffer, offset + 8) / 2;
        if offset + 12 + 2 * units > buffer.len() {
            None
        } else {
            let name = le_u16_array(buffer, offset + 12, units as nat);
            if next == 0 {
                Some(seq![name])
            } else if offset + next >= buffer.len() {
                None
            } else {
                match notify_names_from(buffer, offset + next) {
                    Some(rest) => Some(seq![name] + rest),
                    None => None,
                }
            }
        }
    }
}

/// The names in a change buffer that the directory watcher filled.
pub open spec fn notify_names(buffer: Seq<u8>) -> Option<Seq<Seq<u16>>> {
    notify_names_from(buffer, 0)
}

/// The code units of each name.
pub open spec fn name_views(names: Seq<Vec<u16>>) -> Seq<Seq<u16>> {
    names.map_values(|name: Vec<u16>| name@)
}

/// `found` followed by the names of `rest`, when there are any.
pub open spec fn prepend_names(found: Seq<Seq<u16>>, rest: Option<Seq<Seq<u16>>>) -> Option<Seq<Seq<u16>>> {
    match rest {
        Some(tail) => Some(found + tail),
        None => None,
    }
}

/// Reads the names of the files whose attributes changed out of a buffer
/// that `ReadDirectoryChangesW` filled; `None` when the chain of entries
/// leaves the buffer.
pub fn changed_names(buffer: &[u8]) -> (r: Option<Vec<Vec<u16>>>)
    ensures
        match r {
            Some(names) => notify_names(buffer@) == Some(name_views(names@)),
            None => notify_names(buffer@) is None,
        },
{
    let mut names: Vec<Vec<u16>> = Vec::new();
    let mut offset: usize = 0;
    let len: usize = buffer.len();
    loop
        invariant
            len == buffer@.len(),
            offset <= len,
            prepend_names(name_views(names@), notify_names_from(buffer@, offset as int)) == notify_names(
                buffer@,
            ),
        decreases len - offset,
    {
        if len - offset < 12 {
            return None;
        }
        let next: u32 = read_u32(buffer, offset);
        let length: u32 = read_u32(buffer, offset + 8);
        let units: usize = (length / 2) as usize;
        if len - offset - 12 < 2 * units {
            return None;
        }
        let name = read_u16_array(buffer, offset + 12, units);
        let ghost before = name_views(names@);
        let ghost rest = notify_names_from(buffer@, offset + next);
        names.push(name);
        assert(name_views(names@) =~= before.push(name@));
        if next == 0 {
            assert(before + seq![name@] =~= before.push(name@));
            return Some(names);
        }
        if next as usize >= len - offset {
            return None;
        }
        proof {
            match rest {
                Some(tail) => {
                    assert(before + (seq![name@] + tail) =~= before.push(name@) + tail);
                },
                None => {},
            }
        }
        offset = offset + next as usize;
    }
}


/// Whether a whole `FILE_NOTIFY_INFORMATION` entry, its name included, lies
/// in the buffer at offset `o`.
pub open spec fn notify_entry_fits(buffer: Seq<u8>, o: int) -> bool {
    0 <= o && o + 12 <= buffer.len() && o + 12 + 2 * (le_u32(buffer, o + 8) / 2) <= buffer.len()
}

/// The name of the `FILE_NOTIFY_INFORMATION` entry at offset `o`: as many
/// code units from `o + 12` as its `FileNameLength` (at `o + 8`) holds bytes
/// for.
pub open spec fn notify_entry_name(buffer: Seq<u8>, o: int) -> Seq<u16> {
    le_u16_array(buffer, o + 12, (le_u32(buffer, o + 8) / 2) as nat)
}

/// Whether entries at `offsets` form a chain the platform's way: each lies in
/// the buffer, each but the last holds in `NextEntryOffset` (at its start)
/// the distance from itself to the next one, and the last holds 0 there.
pub open spec fn is_notify_chain(buffer: Seq<u8>, offsets: Seq<int>) -> bool {
    &&& offsets.len() > 0
    &&& forall|i: int| 0 <= i < offsets.len() ==> notify_entry_fits(buffer, #[trigger] offsets[i])
    &&& forall|i: int|
        0 <= i < offsets.len() - 1 ==> le_u32(buffer, #[trigger] offsets[i]) != 0 && offsets[i]
            + le_u32(buffer, offsets[i]) == offsets[i + 1]
    &&& le_u32(buffer, offsets.last()) == 0
}

/// A chain of entries is read whole and in order: each entry is found at the
/// offset of the one before it plus that entry's `NextEntryOffset`, and the
/// names are those of every entry of the chain, the first entry's first.
pub proof fn lemma_notify_chain_is_read_whole(buffer: Seq<u8>, offsets: Seq<int>)
    requires
        is_notify_chain(buffer, offsets),
    ensures
        notify_names_from(buffer, offsets[0]) == Some(
            offsets.map_values(|o: int| notify_entry_name(buffer, o)),
        ),
    decreases offsets.len(),
{
    let o = offsets[0];
    assert(notify_entry_fits(buffer, o));
    if offsets.len() == 1 {
        assert(offsets.map_values(|o: int| notify_entry_name(buffer, o)) =~= seq![
            notify_entry_name(buffer, o),
        ]);
    } else {
        let rest = offsets.drop_first();
        assert(le_u32(buffer, offsets[0]) != 0 && offsets[0] + le_u32(buffer, offsets[0])
            == offsets[1]);
        assert(notify_entry_fits(buffer, offsets[1]));
        assert forall|i: int| 0 <= i < rest.len() implies notify_entry_fits(
            buffer,
            #[trigger] rest[i],
        ) by {
            assert(rest[i] == offsets[i + 1]);
        }
        assert forall|i: int| 0 <= i < rest.len() - 1 implies le_u32(buffer, #[trigger] rest[i])
            != 0 && rest[i] + le_u32(buffer, rest[i]) == rest[i + 1] by {
            assert(rest[i] == offsets[i + 1]);
            assert(rest[i + 1] == offsets[i + 2]);
        }
        assert(rest.last() == offsets.last());
        lemma_notify_chain_is_read_whole(buffer, rest);
        assert(offsets.map_values(|o: int| notify_entry_name(buffer, o)) =~= seq![
            notify_entry_name(buffer, o),
        ] + rest.map_values(|o: int| notify_entry_name(buffer, o)));
    }
}

/// One step of the chain: where the entry at `o` lies in the buffer and
/// holds a `NextEntryOffset` `n` other than 0, its name comes first, followed
/// by the names of the chain that starts at `o + n` (none at all when that
/// chain leaves the buffer).
pub proof fn lemma_notify_chain_step(buffer: Seq<u8>, o: int)
    requires
        notify_entry_fits(buffer, o),
        le_u32(buffer, o) != 0,
        o + le_u32(buffer, o) < buffer.len(),
    ensures
        notify_names_from(buffer, o) == prepend_names(
            seq![notify_entry_name(buffer, o)],
            notify_names_from(buffer, o + le_u32(buffer, o)),
        ),
{
}

/// The UTF-16 code units of `file:///`.
pub open spec fn file_url_prefix() -> Seq<u16> {
    seq![0x66u16, 0x69u16, 0x6Cu16, 0x65u16, 0x3Au16, 0x2Fu16, 0x2Fu16, 0x2Fu16]
}

/// The URL under which the search indexer crawls the sync root at `path`:
/// `file:///` followed by the path.
pub fn crawl_scope_url(path: &[u16]) -> (r: Vec<u16>)
    ensures
        r@ == file_url_prefix() + path@,
{
    let mut prefix: Vec<u16> = Vec::new();
    prefix.push(0x66u16);
    prefix.push(0x69u16);
    prefix.push(0x6Cu16);
    prefix.push(0x65u16);
    prefix.push(0x3Au16);
    prefix.push(0x2Fu16);
    prefix.push(0x2Fu16);
    prefix.push(0x2Fu16);
    assert(prefix@ =~= file_url_prefix());
    concat_units(prefix.as_slice(), path)
}

/// How long the watcher of a sync root waits between two polls of a pending
/// read, in milliseconds.
pub const WATCH_POLL_INTERVAL_MS: u64 = 300;

/// Where the watcher of a sync root stands.
#[derive(Debug, Clone, Copy, PartialEq, Eq, Structural)]
pub enum WatchState {
    /// No read of the directory's changes is pending.
    Idle,
    /// A read of the directory's changes is pending.
    Reading,
}

/// What the watcher learnt since its last step.
#[derive(Debug, Clone, Copy, PartialEq, Eq, Structural)]
pub enum WatchEvent {
    /// With no read pending: whether a stop was asked for.
    Checked { stop: bool },
    /// The pending read has not completed; whether a stop was asked for.
    Pending { stop: bool },
    /// The pending read completed with `transferred` bytes of changes.
    Completed { transferred: u32 },
}

/// What the watcher does next.
#[derive(Debug, Clone, Copy, PartialEq, Eq, Structural)]
pub enum WatchAction {
    /// Start a read of the directory's changes.
    StartRead,
    /// Wait [WATCH_POLL_INTERVAL_MS], then poll the pending read.
    Sleep,
    /// Report the changed names that the read filled in.
    Report,
    /// Look again whether a stop was asked for.
    Check,
    /// Cancel the pending read and stop.
    CancelAndStop,
    /// Stop.
    Stop,
}

/// Whether an event can follow a state: a check with no read pending, a poll
/// outcome with one.
pub open spec fn watch_event_fits(state: WatchState, event: WatchEvent) -> bool {
    match state {
        WatchState::Idle => event is Checked,
        WatchState::Reading => !(event is Checked),
    }
}

impl WatchState {
    /// One step of the watcher of a sync root: a stop asked for ends it (a
    /// pending read is cancelled first); otherwise it starts a read when none
    /// is pending, sleeps while one is, reports the changes of a read that
    /// transferred some, and looks again for a stop after every read.
    pub fn step(self, event: WatchEvent) -> (r: (WatchState, WatchAction))
        requires
            watch_event_fits(self, event),
        ensures
            match event {
                WatchEvent::Checked { stop } => r == if stop {
                    (WatchState::Idle, WatchAction::Stop)
                } else {
                    (WatchState::Reading, WatchAction::StartRead)
                },
                WatchEvent::Pending { stop } => r == if stop {
                    (WatchState::Idle, WatchAction::CancelAndStop)
                } else {
                    (WatchState::Reading, WatchAction::Sleep)
                },
                WatchEvent::Completed { transferred } => r == if transferred == 0 {
                    (WatchState::Idle, WatchAction::Check)
                } else {
                    (WatchState::Idle, WatchAction::Report)
                },
            },
    {
        match event {
            WatchEvent::Checked { stop } => {
                if stop {
                    (WatchState::Idle, WatchAction::Stop)
                } else {
                    (WatchState::Reading, WatchAction::StartRead)
                }
            },
            WatchEvent::Pending { stop } => {
                if stop {
                    (WatchState::Idle, WatchAction::CancelAndStop)
                } else {
                    (WatchState::Reading, WatchAction::Sleep)
                }
            },
            WatchEvent::Completed { transferred } => {
                if transferred == 0 {
                    (WatchState::Idle, WatchAction::Check)
                } else {
                    (WatchState::Idle, WatchAction::Report)
                }
            },
        }
    }
}

} // verus!
