//! Streamer names by room id, used to tag every point of a room.

use vstd::prelude::*;
use std::collections::HashMap;
use crate::text::{dec_text, u64_text};

verus! {

broadcast use vstd::std_specs::hash::group_hash_axioms;

/// The name shown for a room: its streamer.
pub struct RoomInfo {
    pub id: u64,
    pub streamer: String,
}

/// Room id to streamer name, filled when a room is first resolved.
pub struct RoomInfoCache {
    pub names: HashMap<u64, String>,
}

impl RoomInfoCache {
    pub open spec fn view(&self) -> Map<u64, String> {
        self.names@
    }

    pub fn new() -> (r: RoomInfoCache)
        ensures
            r.view() == Map::<u64, String>::empty(),
    {
        RoomInfoCache { names: HashMap::new() }
    }
}

/// The room info that `from_cache` yields: the cached name, or the room id in
/// decimal when the room is unknown.
pub open spec fn room_info_for(cache: Map<u64, String>, id: u64) -> (Seq<char>) {
    if cache.contains_key(id) {
        cache[id]@
    } else {
        dec_text(id as nat)
    }
}

impl RoomInfo {
    pub fn from_cache_opt(cache: &RoomInfoCache, id: u64) -> (r: Option<RoomInfo>)
        ensures
            match r {
                Some(info) => cache.view().contains_key(id) && info.id == id && info.streamer
                    == cache.view()[id],
                None => !cache.view().contains_key(id),
            },
    {
        match cache.names.get(&id) {
            Some(name) => Some(RoomInfo { id, streamer: name.clone() }),
            None => None,
        }
    }

    /// The cached info of a room; an unknown room is named by its id.
    pub fn from_cache(cache: &RoomInfoCache, id: u64) -> (r: RoomInfo)
        ensures
            r.id == id,
            r.streamer@ == room_info_for(cache.view(), id),
    {
        match Self::from_cache_opt(cache, id) {
            Some(info) => info,
            None => RoomInfo { id, streamer: u64_text(id) },
        }
    }

    pub fn write_cache(cache: &mut RoomInfoCache, id: u64, streamer: String)
        ensures
            final(cache).view() == old(cache).view().insert(id, streamer),
    {
        cache.names.insert(id, streamer);
    }
}

} // verus!
