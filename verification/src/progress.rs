//! The read path of the progress registry.
//!
//! Producers elsewhere in the application register a progress bar under a
//! unique id, update it as their work advances and remove it when they are
//! done. They keep the bars in a concurrent map; this module only ever reads
//! that map, to hand the UI a copy of what is running.

use vstd::prelude::*;
use dashmap::DashMap;
use crate::error::ApiError;

verus! {

/// One progress bar as it stood when it was read.
///
/// `total_bits` and `current_bits` are the producer's two progress numbers,
/// each carried as the 64 bits it is stored in; this crate copies them and
/// never computes with them.
#[derive(Debug, PartialEq, Eq)]
pub struct ProgressSnapshot {
    pub total_bits: u64,
    pub current_bits: u64,
    pub message: String,
}

impl Clone for ProgressSnapshot {
    fn clone(&self) -> (copy: Self)
        ensures
            copy == *self,
    {
        ProgressSnapshot {
            total_bits: self.total_bits,
            current_bits: self.current_bits,
            message: self.message.clone(),
        }
    }
}

/// The concurrent map of the `dashmap` crate. Opaque here: what it holds is
/// spoken of through `store_entries`.
#[verifier::external_type_specification]
#[verifier::external_body]
#[verifier::reject_recursive_types(K)]
#[verifier::reject_recursive_types(V)]
#[verifier::reject_recursive_types(S)]
pub struct ExDashMap<K, V, S>(DashMap<K, V, S>);

/// The progress bars that a store holds, by id.
pub uninterp spec fn store_entries(store: DashMap<u128, ProgressSnapshot>) -> Map<
    u128,
    ProgressSnapshot,
>;

/// Copies a store with `DashMap::clone`.
///
/// Trusted: the copy holds the ids that the store holds, each with a clone
/// of its snapshot. `DashMap::clone` takes the read lock of one shard at a
/// time and clones the entries under it, so this describes a call during
/// which no producer writes; a producer that writes meanwhile is seen entry
/// by entry, each entry either before or after the write.
#[verifier::external_body]
fn copy_store(store: &DashMap<u128, ProgressSnapshot>) -> (copy: DashMap<u128, ProgressSnapshot>)
    ensures
        store_entries(copy) == store_entries(*store),
{
    store.clone()
}

/// Lists the active progress bars.
///
/// `store` is the producers' map, or `None` if the component that owns it
/// is not running, which is reported as `Upstream`. The listing is a copy:
/// it holds exactly the ids that the store holds at the call, each with the
/// snapshot the store has for it, and later writes to the store do not show
/// in it. So an id that was removed before the call is not listed, and a
/// listed snapshot is one that a producer wrote whole. The values may be
/// stale by the time they are looked at.
pub fn progress_bars_list(store: Option<&DashMap<u128, ProgressSnapshot>>) -> (listing: Result<
    DashMap<u128, ProgressSnapshot>,
    ApiError,
>)
    ensures
        match store {
            None => listing matches Err(ApiError::Upstream),
            Some(bars) => listing matches Ok(copy) && store_entries(copy) == store_entries(*bars),
        },
{
    match store {
        None => Err(ApiError::Upstream),
        Some(bars) => Ok(copy_store(bars)),
    }
}

/// A write of a producer to the store: a bar put under an id, whole, or an
/// id removed. Only used to speak of what a store holds after such writes.
pub enum StoreWrite {
    Put { id: u128, bar: ProgressSnapshot },
    Remove { id: u128 },
}

impl StoreWrite {
    /// The id that the write is about.
    pub open spec fn id(self) -> u128 {
        match self {
            StoreWrite::Put { id, .. } => id,
            StoreWrite::Remove { id } => id,
        }
    }
}

/// What a store holds after one write.
pub open spec fn after_write(
    entries: Map<u128, ProgressSnapshot>,
    write: StoreWrite,
) -> Map<u128, ProgressSnapshot> {
    match write {
        StoreWrite::Put { id, bar } => entries.insert(id, bar),
        StoreWrite::Remove { id } => entries.remove(id),
    }
}

/// What a store holds after a run of writes, applied one after the other.
pub open spec fn after_writes(
    entries: Map<u128, ProgressSnapshot>,
    writes: Seq<StoreWrite>,
) -> Map<u128, ProgressSnapshot>
    decreases writes.len(),
{
    if writes.len() == 0 {
        entries
    } else {
        after_write(after_writes(entries, writes.drop_last()), writes.last())
    }
}

/// The last write of a run that is about `id`, if there is one.
pub open spec fn last_write_to(writes: Seq<StoreWrite>, id: u128) -> Option<StoreWrite>
    decreases writes.len(),
{
    if writes.len() == 0 {
        None
    } else if writes.last().id() == id {
        Some(writes.last())
    } else {
        last_write_to(writes.drop_last(), id)
    }
}

/// After any run of writes a store shows, for each id, the last write to it
/// and nothing of the earlier ones: the bar that was put last, whole; no
/// entry if the id was removed last; and what it held before if no write was
/// about the id. A listing, which holds what the store holds at the call,
/// therefore never shows a removed bar nor a mix of two updates.
pub proof fn lemma_store_shows_the_last_write(
    entries: Map<u128, ProgressSnapshot>,
    writes: Seq<StoreWrite>,
    id: u128,
)
    ensures
        match last_write_to(writes, id) {
            Some(StoreWrite::Put { bar, .. }) => after_writes(entries, writes).contains_pair(
                id,
                bar,
            ),
            Some(StoreWrite::Remove { .. }) => !after_writes(entries, writes).dom().contains(id),
            None => {
                &&& after_writes(entries, writes).dom().contains(id) == entries.dom().contains(id)
                &&& entries.dom().contains(id) ==> after_writes(entries, writes)[id] == entries[id]
            },
        },
    decreases writes.len(),
{
    if writes.len() > 0 {
        lemma_store_shows_the_last_write(entries, writes.drop_last(), id);
    }
}

} // verus!
