//! The queue store: per-tenant FIFO queues of playable items and
//! per-tenant playing flags.
//!
//! Callers are responsible for mutual exclusion: all mutating operations
//! on one tenant's queue and flag must be serialized by the caller, who
//! holds the tenant's playback lock for the whole logical operation.

use vstd::prelude::*;
use std::collections::HashMap;
use crate::item::{PlaylistItem, PotError};

verus! {

/// Per-tenant queues and playing flags, keyed by the guild id.
///
/// A tenant's queue is created lazily on first enqueue and persists,
/// possibly empty, for the lifetime of the store. A tenant's playing
/// flag defaults to false until `set_status` first touches it.
#[derive(Debug)]
pub struct SystemPlaylist {
    guilds_playlists: HashMap<u64, Vec<PlaylistItem>>,
    guilds_playing: HashMap<u64, bool>,
}

impl SystemPlaylist {
    /// The queues, as a map from tenant to the sequence of queued items.
    pub closed spec fn queues(self) -> Map<u64, Seq<PlaylistItem>> {
        self.guilds_playlists@.map_values(|v: Vec<PlaylistItem>| v@)
    }

    /// The playing flags that have been explicitly set.
    pub closed spec fn playing(self) -> Map<u64, bool> {
        self.guilds_playing@
    }

    /// The queue of a tenant; empty if the tenant has never enqueued.
    pub open spec fn queue_of(self, guild_id: u64) -> Seq<PlaylistItem> {
        if self.queues().contains_key(guild_id) {
            self.queues()[guild_id]
        } else {
            Seq::empty()
        }
    }

    /// The playing flag of a tenant; false if never set.
    pub open spec fn playing_of(self, guild_id: u64) -> bool {
        self.playing().contains_key(guild_id) && self.playing()[guild_id]
    }

    /// An empty store: no tenant has a queue and nothing is playing.
    pub fn new() -> (r: Self)
        ensures
            r.queues() == Map::<u64, Seq<PlaylistItem>>::empty(),
            r.playing() == Map::<u64, bool>::empty(),
    {
        let r = Self {
            guilds_playlists: HashMap::new(),
            guilds_playing: HashMap::new(),
        };
        proof {
            assert(r.queues() =~= Map::<u64, Seq<PlaylistItem>>::empty());
        }
        r
    }

    /// Sets the playing flag of a tenant, creating it if absent.
    pub fn set_status(&mut self, guild_id: u64, is_playing: bool)
        ensures
            final(self).playing() == old(self).playing().insert(guild_id, is_playing),
            final(self).queues() == old(self).queues(),
    {
        self.guilds_playing.insert(guild_id, is_playing);
    }

    /// Reads the playing flag of a tenant; false for a tenant never set.
    pub fn is_playing(&self, guild_id: u64) -> (r: bool)
        ensures
            r == self.playing_of(guild_id),
    {
        match self.guilds_playing.get(&guild_id) {
            Some(b) => *b,
            None => false,
        }
    }

    /// Pops and returns the head item of the tenant's queue, or `None`
    /// if the tenant has no queue or it is empty. Never blocks, never
    /// peeks without removing, and leaves an existing (now shorter or
    /// empty) queue in place.
    pub fn consume(&mut self, guild_id: u64) -> (r: Option<PlaylistItem>)
        ensures
            old(self).queue_of(guild_id).len() == 0 ==> {
                &&& r is None
                &&& final(self).queues() == old(self).queues()
            },
            old(self).queue_of(guild_id).len() > 0 ==> {
                &&& r == Some(old(self).queue_of(guild_id)[0])
                &&& final(self).queues() == old(self).queues().insert(
                    guild_id,
                    old(self).queue_of(guild_id).drop_first(),
                )
            },
            final(self).playing() == old(self).playing(),
    {
        match self.guilds_playlists.remove(&guild_id) {
            Some(mut guild_playlist) => {
                if guild_playlist.is_empty() {
                    self.guilds_playlists.insert(guild_id, guild_playlist);
                    proof {
                        assert(self.queues() =~= old(self).queues());
                    }
                    None
                } else {
                    let head = guild_playlist.remove(0);
                    self.guilds_playlists.insert(guild_id, guild_playlist);
                    proof {
                        assert(self.queues() =~= old(self).queues().insert(
                            guild_id,
                            old(self).queue_of(guild_id).drop_first(),
                        ));
                        assert(head == old(self).queue_of(guild_id)[0]);
                    }
                    Some(head)
                }
            },
            None => None,
        }
    }

    /// Appends resolved items to the tenant's queue, creating the queue
    /// on first use.
    ///
    /// When the request was a URL (`is_url`), every resolved item is
    /// appended (a playlist expansion); otherwise only the first item is
    /// appended (a single search result). Returns how many items were
    /// added together with the appended items themselves; fails with
    /// `NoItemsResolved`, leaving the store unchanged, when `items` is
    /// empty.
    pub fn add(&mut self, guild_id: u64, is_url: bool, items: Vec<PlaylistItem>) -> (r: Result<
        (usize, Vec<PlaylistItem>),
        PotError,
    >)
        ensures
            items@.len() == 0 ==> {
                &&& r == Result::<(usize, Vec<PlaylistItem>), PotError>::Err(
                    PotError::NoItemsResolved,
                )
                &&& final(self).queues() == old(self).queues()
            },
            items@.len() > 0 && is_url ==> {
                &&& r matches Ok(added)
                &&& added.0 == items@.len()
                &&& added.1@ == items@
                &&& final(self).queues() == old(self).queues().insert(
                    guild_id,
                    old(self).queue_of(guild_id) + items@,
                )
            },
            items@.len() > 0 && !is_url ==> {
                &&& r matches Ok(added)
                &&& added.0 == 1
                &&& added.1@ == seq![items@[0]]
                &&& final(self).queues() == old(self).queues().insert(
                    guild_id,
                    old(self).queue_of(guild_id).push(items@[0]),
                )
            },
            final(self).playing() == old(self).playing(),
    {
        let mut new_items = items;
        if new_items.len() == 0 {
            return Err(PotError::NoItemsResolved);
        }

        let mut guild_playlist = match self.guilds_playlists.remove(&guild_id) {
            Some(q) => q,
            None => Vec::new(),
        };
        assert(guild_playlist@ == old(self).queue_of(guild_id));

        if is_url {
            let mut inserted: Vec<PlaylistItem> = Vec::new();
            let mut i: usize = 0;
            let n = new_items.len();
            while i < n
                invariant
                    n == new_items@.len(),
                    i <= n,
                    inserted@ == new_items@.take(i as int),
                decreases n - i,
            {
                inserted.push(new_items[i].clone());
                proof {
                    assert(inserted@ =~= new_items@.take(i + 1));
                }
                i += 1;
            }
            proof {
                assert(inserted@ =~= new_items@);
            }
            let count = new_items.len();
            guild_playlist.append(&mut new_items);
            self.guilds_playlists.insert(guild_id, guild_playlist);
            proof {
                assert(self.queues() =~= old(self).queues().insert(
                    guild_id,
                    old(self).queue_of(guild_id) + items@,
                ));
            }
            Ok((count, inserted))
        } else {
            let first = new_items.remove(0);
            let mut inserted: Vec<PlaylistItem> = Vec::new();
            inserted.push(first.clone());
            guild_playlist.push(first);
            self.guilds_playlists.insert(guild_id, guild_playlist);
            proof {
                assert(inserted@ =~= seq![items@[0]]);
                assert(self.queues() =~= old(self).queues().insert(
                    guild_id,
                    old(self).queue_of(guild_id).push(items@[0]),
                ));
            }
            Ok((1, inserted))
        }
    }

    /// The disconnect cancellation: empties the tenant's queue and
    /// drops its playing flag as one operation under the caller's lock,
    /// before the voice connection is released. Returns whether a queue
    /// existed.
    pub fn disconnect(&mut self, guild_id: u64) -> (r: bool)
        ensures
            r == old(self).queues().contains_key(guild_id),
            r ==> final(self).queues() == old(self).queues().insert(
                guild_id,
                Seq::<PlaylistItem>::empty(),
            ),
            !r ==> final(self).queues() == old(self).queues(),
            final(self).playing() == old(self).playing().insert(guild_id, false),
    {
        let cleared = self.clear(guild_id);
        self.set_status(guild_id, false);
        cleared
    }

    /// Empties the tenant's queue; returns whether a queue existed.
    /// The emptied queue stays in place and the playing flag is untouched.
    pub fn clear(&mut self, guild_id: u64) -> (r: bool)
        ensures
            r == old(self).queues().contains_key(guild_id),
            r ==> final(self).queues() == old(self).queues().insert(
                guild_id,
                Seq::<PlaylistItem>::empty(),
            ),
            !r ==> final(self).queues() == old(self).queues(),
            final(self).playing() == old(self).playing(),
    {
        match self.guilds_playlists.remove(&guild_id) {
            Some(mut guild_playlist) => {
                guild_playlist.clear();
                self.guilds_playlists.insert(guild_id, guild_playlist);
                proof {
                    assert(self.queues() =~= old(self).queues().insert(
                        guild_id,
                        Seq::<PlaylistItem>::empty(),
                    ));
                }
                true
            },
            None => false,
        }
    }
}

/// The queue left by `n` consumes, each dropping the head, as
/// `consume` does on a non-empty queue.
pub open spec fn queue_after_consumes(q: Seq<PlaylistItem>, n: int) -> Seq<PlaylistItem>
    decreases n,
{
    if n <= 0 {
        q
    } else {
        queue_after_consumes(q, n - 1).drop_first()
    }
}

/// FIFO order across calls: starting from queue `q`, the queue after
/// `n` consumes is `q.skip(n)`, so the next consume returns `q[n]` —
/// items come back in exact insertion order — and every successful
/// consume shortens the queue by exactly one.
pub proof fn lemma_fifo_order(q: Seq<PlaylistItem>, n: int)
    requires
        0 <= n < q.len(),
    ensures
        queue_after_consumes(q, n) == q.skip(n),
        queue_after_consumes(q, n)[0] == q[n],
        queue_after_consumes(q, n).len() == q.len() - n,
    decreases n,
{
    if n == 0 {
        assert(queue_after_consumes(q, 0) =~= q.skip(0));
    } else {
        lemma_fifo_order(q, n - 1);
        assert(q.skip(n - 1).drop_first() =~= q.skip(n));
    }
}

/// Idempotence of the playing flag: setting a tenant's flag twice to
/// the same value is one observable change, so a second
/// `set_status(t, true)` right after a first leaves `is_playing(t)`
/// true with no further effect.
pub proof fn lemma_set_status_idempotent(flags: Map<u64, bool>, guild_id: u64, is_playing: bool)
    ensures
        flags.insert(guild_id, is_playing).insert(guild_id, is_playing) == flags.insert(
            guild_id,
            is_playing,
        ),
{
    assert(flags.insert(guild_id, is_playing).insert(guild_id, is_playing) =~= flags.insert(
        guild_id,
        is_playing,
    ));
}

/// A tenant never passed to `set_status` is not playing: a new store's
/// flag map is empty, `add`, `consume` and `clear` leave the flag map
/// untouched, and a tenant outside it reads false.
pub proof fn lemma_unset_tenant_not_playing(s: SystemPlaylist, guild_id: u64)
    requires
        !s.playing().contains_key(guild_id),
    ensures
        !s.playing_of(guild_id),
{
}

impl Default for SystemPlaylist {
    fn default() -> (r: Self)
        ensures
            r.queues() == Map::<u64, Seq<PlaylistItem>>::empty(),
            r.playing() == Map::<u64, bool>::empty(),
    {
        Self::new()
    }
}

} // verus!
