//! Replaying an archive into the packet broadcast: reading each line, noting
//! rooms whose streamer must be looked up, and pacing.

use vstd::prelude::*;
use crate::json::json_of_text;
use crate::packet::{archive_packet_of, Packet};
use crate::room_info::RoomInfoCache;

verus! {

/// Progress is reported, and the replay pauses, after every this many packets.
pub const PROGRESS_EVERY: u64 = 1000;

/// What to do with one archive line before its packet is published.
pub struct ReplayStep {
    pub packet: Packet,
    /// The packet's room is not in the cache: look its streamer up first.
    pub lookup_room: bool,
    /// This packet completes a thousand: report progress.
    pub report: bool,
    /// Milliseconds to pause before publishing.
    pub pause_ms: u64,
}

pub struct FileReplayer {
    /// Packets replayed so far.
    pub count: u64,
    pub replay_delay_ms: u32,
}

impl FileReplayer {
    pub fn new(replay_delay_ms: u32) -> (r: FileReplayer)
        ensures
            r.count == 0,
            r.replay_delay_ms == replay_delay_ms,
    {
        FileReplayer { count: 0, replay_delay_ms }
    }

    /// Reads one archive line. `None` when the line is not an archive record; the
    /// replay then stops with an error.
    pub fn step(&mut self, line: &str, cache: &RoomInfoCache) -> (r: Option<ReplayStep>)
        ensures
            match json_of_text(line@) {
                Some(j) => archive_packet_of(j) == match r {
                    Some(s) => Some(s.packet),
                    None => None,
                },
                None => r is None,
            },
            match r {
                Some(s) => {
                    let c = if old(self).count < u64::MAX {
                        old(self).count + 1
                    } else {
                        old(self).count as int
                    };
                    &&& final(self).count == c
                    &&& s.lookup_room == !cache.view().contains_key(s.packet.room_id)
                    &&& s.report == (c % PROGRESS_EVERY as int == 0)
                    &&& s.pause_ms == if s.report {
                        old(self).replay_delay_ms as u64
                    } else {
                        0
                    }
                },
                None => final(self).count == old(self).count,
            },
            final(self).replay_delay_ms == old(self).replay_delay_ms,
    {
        let packet = match Packet::from_archive_line(line) {
            Some(p) => p,
            None => return None,
        };
        let lookup_room = !cache.names.contains_key(&packet.room_id);
        self.count = self.count.saturating_add(1);
        let report = self.count % PROGRESS_EVERY == 0;
        let pause_ms: u64 = if report {
            self.replay_delay_ms as u64
        } else {
            0
        };
        Some(ReplayStep { packet, lookup_room, report, pause_ms })
    }
}

} // verus!
