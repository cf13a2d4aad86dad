//! The playback advancer: the state machine that pulls the next queued
//! item, asks the media supplier to materialize it, and on failure
//! retries with the next item until one plays or the queue is exhausted.
//!
//! The caller must hold the tenant's playback lock for the whole of one
//! `advance` or `skip` call, including every retry, so that no concurrent
//! advance or enqueue-triggered start races with it.

use vstd::prelude::*;
use crate::item::{media_cache_path, media_cache_path_spec, PlaylistItem, PotError};
use crate::pot::SystemPlaylist;
use crate::text::str_eq;

verus! {

/// A ready-to-play media handle: the path of the materialized media,
/// `data/cache/media/{extractor}/{id}` of the item it was made for.
pub struct MediaHandle {
    pub path: String,
}

/// The media supplier consumed by the advancer: turns a queue item into
/// a ready-to-play handle or fails. Materialization may be expensive and
/// may fail independently of queue correctness; a failure must never
/// stop the queue.
pub trait MediaSupplier {
    /// Whether materialization succeeds for this item.
    spec fn ok_spec(&self, item: PlaylistItem) -> bool;

    /// Materializes playable media for an item, or fails with
    /// `MediaUnavailable`. The handle honors the item's cache path.
    fn materialize(&self, item: &PlaylistItem) -> (r: Result<MediaHandle, PotError>)
        ensures
            r matches Ok(h) ==> self.ok_spec(*item) && h.path@ == media_cache_path_spec(*item),
            r is Err ==> !self.ok_spec(*item) && r == Result::<MediaHandle, PotError>::Err(
                PotError::MediaUnavailable,
            ),
    ;
}

/// A deterministic supplier scripted by item id: materialization fails
/// exactly for the ids listed in `fail_ids`.
pub struct ScriptedSupplier {
    pub fail_ids: Vec<String>,
}

impl MediaSupplier for ScriptedSupplier {
    open spec fn ok_spec(&self, item: PlaylistItem) -> bool {
        forall|i: int| 0 <= i < self.fail_ids@.len() ==> self.fail_ids@[i]@ != item.id@
    }

    fn materialize(&self, item: &PlaylistItem) -> (r: Result<MediaHandle, PotError>) {
        let mut i: usize = 0;
        let n = self.fail_ids.len();
        while i < n
            invariant
                n == self.fail_ids@.len(),
                i <= n,
                forall|j: int| 0 <= j < i ==> self.fail_ids@[j]@ != item.id@,
            decreases n - i,
        {
            if str_eq(self.fail_ids[i].as_str(), item.id.as_str()) {
                return Err(PotError::MediaUnavailable);
            }
            i += 1;
        }
        Ok(MediaHandle { path: media_cache_path(item) })
    }
}

/// One step of the advance loop: either the head item to attempt next,
/// or the signal that the queue is exhausted.
pub enum AdvanceStep {
    Attempt(PlaylistItem),
    Finished,
}

/// The outcome of a whole advance: either playback of an item started,
/// with its media handle, or the queue finished (possibly purely from
/// failures) and the caller must release the voice connection.
pub enum AdvanceOutcome {
    Started(PlaylistItem, MediaHandle),
    QueueFinished,
}

/// The outcome of a skip request.
pub enum SkipOutcome {
    Skipped(PlaylistItem, MediaHandle),
    QueueEnded,
    NothingToPlay,
}

/// How many items at the head of `q` fail materialization under
/// `supplier` before the first that succeeds (or `q.len()` if all fail).
pub open spec fn fail_prefix_len<S: MediaSupplier>(supplier: S, q: Seq<PlaylistItem>) -> nat
    decreases q.len(),
{
    if q.len() == 0 {
        0
    } else if supplier.ok_spec(q[0]) {
        0
    } else {
        1 + fail_prefix_len(supplier, q.drop_first())
    }
}

/// `fail_prefix_len` is exactly the length of the failing prefix: it is
/// `k` whenever the first `k` items fail and the item at `k`, if any,
/// succeeds.
pub proof fn lemma_fail_prefix_len<S: MediaSupplier>(supplier: S, q: Seq<PlaylistItem>, k: int)
    requires
        0 <= k <= q.len(),
        forall|i: int| 0 <= i < k ==> !supplier.ok_spec(q[i]),
        k < q.len() ==> supplier.ok_spec(q[k]),
    ensures
        fail_prefix_len(supplier, q) == k,
    decreases q.len(),
{
    if k == 0 {
    } else {
        assert(!supplier.ok_spec(q[0]));
        assert(forall|i: int|
            0 <= i < k - 1 ==> q.drop_first()[i] == q[i + 1] && !supplier.ok_spec(
                q.drop_first()[i],
            ));
        lemma_fail_prefix_len(supplier, q.drop_first(), k - 1);
    }
}

impl SystemPlaylist {
    /// One decision step of the advancer: consumes the head item and
    /// flips the playing flag. The caller performs the outside work
    /// (materialize and play) and, on failure, calls this again.
    ///
    /// On `Attempt`, the playing flag is set (idempotently) to true; on
    /// `Finished` it is set to false before "queue finished" is declared.
    pub fn advance_step(&mut self, guild_id: u64) -> (r: AdvanceStep)
        ensures
            old(self).queue_of(guild_id).len() == 0 ==> {
                &&& r is Finished
                &&& final(self).queues() == old(self).queues()
                &&& final(self).playing() == old(self).playing().insert(guild_id, false)
            },
            old(self).queue_of(guild_id).len() > 0 ==> {
                &&& r == AdvanceStep::Attempt(old(self).queue_of(guild_id)[0])
                &&& final(self).queues() == old(self).queues().insert(
                    guild_id,
                    old(self).queue_of(guild_id).drop_first(),
                )
                &&& final(self).playing() == old(self).playing().insert(guild_id, true)
            },
    {
        match self.consume(guild_id) {
            Some(item) => {
                self.set_status(guild_id, true);
                AdvanceStep::Attempt(item)
            },
            None => {
                self.set_status(guild_id, false);
                AdvanceStep::Finished
            },
        }
    }

    /// The whole advance: consume and attempt items, skipping past
    /// materialization failures, until one item starts or the queue is
    /// exhausted.
    ///
    /// With `k` the length of the failing prefix of the tenant's queue,
    /// the advance makes exactly `k` failing attempts (returned in order
    /// for "cannot play" notices) and then either starts the item at
    /// position `k`, leaving the playing flag true, or — when every item
    /// failed — exhausts the queue, sets the playing flag to false and
    /// reports `QueueFinished`, upon which the caller must release the
    /// voice connection.
    pub fn advance<S: MediaSupplier>(&mut self, guild_id: u64, supplier: &S) -> (r: (
        AdvanceOutcome,
        Vec<PlaylistItem>,
    ))
        ensures
            ({
                let q = old(self).queue_of(guild_id);
                let k = fail_prefix_len(*supplier, q);
                &&& r.1@ == q.take(k as int)
                &&& forall|g: u64|
                    g != guild_id ==> final(self).queue_of(g) == old(self).queue_of(g)
                &&& if k < q.len() {
                    &&& r.0 matches AdvanceOutcome::Started(it, h) && it == q[k as int]
                        && h.path@ == media_cache_path_spec(q[k as int])
                    &&& final(self).queue_of(guild_id) == q.skip(k as int + 1)
                    &&& final(self).playing() == old(self).playing().insert(guild_id, true)
                } else {
                    &&& r.0 is QueueFinished
                    &&& final(self).queue_of(guild_id) == Seq::<PlaylistItem>::empty()
                    &&& final(self).playing() == old(self).playing().insert(guild_id, false)
                }
            }),
    {
        let ghost q = old(self).queue_of(guild_id);
        let mut failures: Vec<PlaylistItem> = Vec::new();
        loop
            invariant
                q == old(self).queue_of(guild_id),
                failures@.len() <= q.len(),
                failures@ == q.take(failures@.len() as int),
                forall|i: int| 0 <= i < failures@.len() ==> !supplier.ok_spec(q[i]),
                self.queue_of(guild_id) == q.skip(failures@.len() as int),
                forall|g: u64| g != guild_id ==> self.queue_of(g) == old(self).queue_of(g),
                failures@.len() == 0 ==> self.playing() == old(self).playing(),
                failures@.len() > 0 ==> self.playing() == old(self).playing().insert(
                    guild_id,
                    true,
                ),
            decreases q.len() - failures@.len(),
        {
            let ghost j = failures@.len() as int;
            proof {
                assert(q.skip(j).len() == q.len() - j);
            }
            match self.advance_step(guild_id) {
                AdvanceStep::Finished => {
                    proof {
                        assert(j == q.len());
                        lemma_fail_prefix_len(*supplier, q, j);
                        assert(q.skip(j) =~= Seq::<PlaylistItem>::empty());
                        if j > 0 {
                            assert(old(self).playing().insert(guild_id, true).insert(
                                guild_id,
                                false,
                            ) =~= old(self).playing().insert(guild_id, false));
                        }
                    }
                    return (AdvanceOutcome::QueueFinished, failures);
                },
                AdvanceStep::Attempt(item) => {
                    proof {
                        assert(item == q.skip(j)[0]);
                        assert(q.skip(j)[0] == q[j]);
                    }
                    match supplier.materialize(&item) {
                        Ok(handle) => {
                            proof {
                                lemma_fail_prefix_len(*supplier, q, j);
                                assert(q.skip(j).drop_first() =~= q.skip(j + 1));
                                if j > 0 {
                                    assert(old(self).playing().insert(guild_id, true).insert(
                                        guild_id,
                                        true,
                                    ) =~= old(self).playing().insert(guild_id, true));
                                }
                            }
                            return (AdvanceOutcome::Started(item, handle), failures);
                        },
                        Err(_) => {
                            proof {
                                assert(q.skip(j).drop_first() =~= q.skip(j + 1));
                                assert(failures@.push(q[j]) =~= q.take(j + 1));
                                if j > 0 {
                                    assert(old(self).playing().insert(guild_id, true).insert(
                                        guild_id,
                                        true,
                                    ) =~= old(self).playing().insert(guild_id, true));
                                }
                            }
                            failures.push(item);
                        },
                    }
                },
            }
        }
    }

    /// Skip: the caller stops current playback unconditionally, then
    /// calls this. If the tenant was playing, the advancer moves to the
    /// next playable item (`Skipped`) or exhausts the queue
    /// (`QueueEnded`, upon which the caller must release the voice
    /// connection). If the tenant was not playing, `NothingToPlay` is
    /// reported and nothing is touched.
    pub fn skip<S: MediaSupplier>(&mut self, guild_id: u64, supplier: &S) -> (r: (
        SkipOutcome,
        Vec<PlaylistItem>,
    ))
        ensures
            ({
                let q = old(self).queue_of(guild_id);
                let k = fail_prefix_len(*supplier, q);
                &&& !old(self).playing_of(guild_id) ==> {
                    &&& r.0 is NothingToPlay
                    &&& r.1@ == Seq::<PlaylistItem>::empty()
                    &&& final(self).queues() == old(self).queues()
                    &&& final(self).playing() == old(self).playing()
                }
                &&& old(self).playing_of(guild_id) ==> {
                    &&& r.1@ == q.take(k as int)
                    &&& forall|g: u64|
                        g != guild_id ==> final(self).queue_of(g) == old(self).queue_of(g)
                    &&& if k < q.len() {
                        &&& r.0 matches SkipOutcome::Skipped(it, h) && it == q[k as int]
                            && h.path@ == media_cache_path_spec(q[k as int])
                        &&& final(self).queue_of(guild_id) == q.skip(k as int + 1)
                        &&& final(self).playing() == old(self).playing().insert(guild_id, true)
                    } else {
                        &&& r.0 is QueueEnded
                        &&& final(self).queue_of(guild_id) == Seq::<PlaylistItem>::empty()
                        &&& final(self).playing() == old(self).playing().insert(guild_id, false)
                    }
                }
            }),
    {
        if self.is_playing(guild_id) {
            let (outcome, failures) = self.advance(guild_id, supplier);
            match outcome {
                AdvanceOutcome::Started(item, handle) => (
                    SkipOutcome::Skipped(item, handle),
                    failures,
                ),
                AdvanceOutcome::QueueFinished => (SkipOutcome::QueueEnded, failures),
            }
        } else {
            (SkipOutcome::NothingToPlay, Vec::new())
        }
    }
}

} // verus!
