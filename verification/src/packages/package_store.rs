//! Bounded first-in-first-out queue of per-period counts, each aging while
//! it waits for a successful upload.

use vstd::prelude::*;

use crate::clock::{clock_now, elapsed_secs, Timestamp};

verus! {

/// Most aggregates the queue holds; beyond that the oldest is dropped.
pub const MAX_PACKAGES: usize = 64;

/// One period's aggregate.
#[derive(Clone, Copy, Debug, PartialEq, Eq, Structural)]
pub struct PackageEntity {
    /// Distinct devices counted in the period.
    pub count: u32,
    /// Seconds the aggregate has spent in the queue, saturating at `u64::MAX`.
    pub age_in_seconds: u64,
    /// When the age was last brought up to date.
    pub last_seen: Timestamp,
}

/// `age + secs`, held at `u64::MAX`.
pub open spec fn saturating_age(age: u64, secs: nat) -> u64 {
    if age + secs > u64::MAX {
        u64::MAX
    } else {
        (age + secs) as u64
    }
}

impl PackageEntity {
    /// A fresh aggregate created at `now`.
    pub open spec fn fresh(count: u32, now: Timestamp) -> PackageEntity {
        PackageEntity { count, age_in_seconds: 0, last_seen: now }
    }

    /// This aggregate with its age brought up to `now`: the whole seconds
    /// since `last_seen` are added, and `last_seen` becomes `now`.
    pub open spec fn aged(self, now: Timestamp) -> PackageEntity {
        PackageEntity {
            count: self.count,
            age_in_seconds: saturating_age(self.age_in_seconds, elapsed_secs(self.last_seen, now)),
            last_seen: now,
        }
    }

    /// A fresh aggregate stamped with the current time.
    pub fn new(count: u32) -> (entity: Self)
        ensures
            entity.count == count,
            entity.age_in_seconds == 0,
    {
        Self::new_at(count, clock_now())
    }

    /// A fresh aggregate stamped with `now`.
    pub fn new_at(count: u32, now: Timestamp) -> (entity: Self)
        ensures
            entity == Self::fresh(count, now),
    {
        PackageEntity { count, age_in_seconds: 0, last_seen: now }
    }

    /// Brings the age up to the current time.
    pub fn update_age(&mut self)
        ensures
            exists|now: Timestamp| *final(self) == #[trigger] old(self).aged(now),
    {
        let now = clock_now();
        self.update_age_at(now);
    }

    /// Brings the age up to `now`.
    pub fn update_age_at(&mut self, now: Timestamp)
        ensures
            *final(self) == old(self).aged(now),
    {
        let delta = now.seconds_since(self.last_seen);
        self.age_in_seconds = self.age_in_seconds.saturating_add(delta);
        self.last_seen = now;
    }
}

/// The aggregates a fixed-capacity vector holds, oldest first.
pub uninterp spec fn stored_packages(v: heapless::Vec<PackageEntity, MAX_PACKAGES>) -> Seq<PackageEntity>;

/// `heapless::Vec::new` makes an empty vector.
#[verifier::external_body]
fn packages_new() -> (v: heapless::Vec<PackageEntity, MAX_PACKAGES>)
    ensures
        stored_packages(v) == Seq::<PackageEntity>::empty(),
{
    heapless::Vec::new()
}

/// `heapless::Vec::push` appends the item when fewer than the capacity,
/// [`MAX_PACKAGES`], are held and reports success; a full vector is left as
/// it is and the item is handed back.
#[verifier::external_body]
fn packages_push(v: &mut heapless::Vec<PackageEntity, MAX_PACKAGES>, entity: PackageEntity) -> (pushed: bool)
    ensures
        pushed == (stored_packages(*old(v)).len() < MAX_PACKAGES),
        pushed ==> stored_packages(*final(v)) == stored_packages(*old(v)).push(entity),
        !pushed ==> stored_packages(*final(v)) == stored_packages(*old(v)),
{
    v.push(entity).is_ok()
}

/// `heapless::Vec::remove` takes out the item at `index` and shifts the later
/// ones down by one. It panics on an index past the end, which the
/// precondition rules out.
#[verifier::external_body]
fn packages_remove(v: &mut heapless::Vec<PackageEntity, MAX_PACKAGES>, index: usize) -> (removed: PackageEntity)
    requires
        index < stored_packages(*old(v)).len(),
    ensures
        removed == stored_packages(*old(v))[index as int],
        stored_packages(*final(v)) == stored_packages(*old(v)).remove(index as int),
{
    v.remove(index)
}

/// `heapless::Vec::as_mut_slice` gives write access to the items held; storing
/// through it replaces the item at `index` and leaves the others.
#[verifier::external_body]
fn packages_replace(v: &mut heapless::Vec<PackageEntity, MAX_PACKAGES>, index: usize, entity: PackageEntity)
    requires
        index < stored_packages(*old(v)).len(),
    ensures
        stored_packages(*final(v)) == stored_packages(*old(v)).update(index as int, entity),
{
    v.as_mut_slice()[index] = entity;
}

/// `heapless::Vec::clear` removes every item.
#[verifier::external_body]
fn packages_clear(v: &mut heapless::Vec<PackageEntity, MAX_PACKAGES>)
    ensures
        stored_packages(*final(v)) == Seq::<PackageEntity>::empty(),
{
    v.clear()
}

/// `heapless::Vec::as_slice` shows the items held, oldest first; there are
/// never more of them than the capacity.
#[verifier::external_body]
fn packages_as_slice(v: &heapless::Vec<PackageEntity, MAX_PACKAGES>) -> (items: &[PackageEntity])
    ensures
        items@ == stored_packages(*v),
        items@.len() <= MAX_PACKAGES,
{
    v.as_slice()
}

/// What a queue holds after `entity` is pushed: the entity goes to the back,
/// and a queue that was full loses its oldest entry first.
pub open spec fn pushed(queue: Seq<PackageEntity>, entity: PackageEntity) -> Seq<PackageEntity> {
    if queue.len() < MAX_PACKAGES {
        queue.push(entity)
    } else {
        queue.drop_first().push(entity)
    }
}

/// What a queue holds after each of `entities` is pushed in turn.
pub open spec fn pushed_all(queue: Seq<PackageEntity>, entities: Seq<PackageEntity>) -> Seq<
    PackageEntity,
>
    decreases entities.len(),
{
    if entities.len() == 0 {
        queue
    } else {
        pushed(pushed_all(queue, entities.drop_last()), entities.last())
    }
}

/// Every entry of a queue with its age brought up to `now`.
pub open spec fn aged_all(queue: Seq<PackageEntity>, now: Timestamp) -> Seq<PackageEntity> {
    queue.map_values(|e: PackageEntity| e.aged(now))
}

/// The last `n` entries of a sequence, or all of it where it has fewer.
pub open spec fn newest(entities: Seq<PackageEntity>, n: nat) -> Seq<PackageEntity> {
    if entities.len() <= n {
        entities
    } else {
        entities.skip(entities.len() - n)
    }
}

/// Pushing keeps the newest: after any run of pushes into an empty queue the
/// queue holds the last [`MAX_PACKAGES`] of the entries pushed, or all of them
/// if there were fewer, in the order in which they came. So after
/// `MAX_PACKAGES + k` pushes the queue is full and the first `k` entries are
/// gone.
pub proof fn lemma_push_keeps_newest(entities: Seq<PackageEntity>)
    ensures
        pushed_all(Seq::empty(), entities) == newest(entities, MAX_PACKAGES as nat),
        entities.len() >= MAX_PACKAGES ==> pushed_all(Seq::empty(), entities).len()
            == MAX_PACKAGES,
    decreases entities.len(),
{
    if entities.len() > 0 {
        lemma_push_keeps_newest(entities.drop_last());
    }
    assert(pushed_all(Seq::empty(), entities) =~= newest(entities, MAX_PACKAGES as nat));
}

/// Bringing an entry up to date never lowers its age and keeps its count.
pub proof fn lemma_age_monotonic(entity: PackageEntity, now: Timestamp)
    ensures
        entity.aged(now).age_in_seconds >= entity.age_in_seconds,
        entity.aged(now).count == entity.count,
        entity.aged(now).last_seen == now,
{
}

/// A second snapshot at the same instant changes nothing: no time has passed
/// since the first.
pub proof fn lemma_snapshot_idempotent(queue: Seq<PackageEntity>, now: Timestamp)
    ensures
        aged_all(aged_all(queue, now), now) == aged_all(queue, now),
{
    assert(aged_all(aged_all(queue, now), now) =~= aged_all(queue, now));
}

/// Across snapshots every entry keeps its place and its count, and its age
/// never goes down.
pub proof fn lemma_snapshot_monotonic(queue: Seq<PackageEntity>, now: Timestamp)
    ensures
        aged_all(queue, now).len() == queue.len(),
        forall|i: int|
            0 <= i < queue.len() ==> {
                &&& (#[trigger] aged_all(queue, now)[i]).age_in_seconds >= queue[i].age_in_seconds
                &&& aged_all(queue, now)[i].count == queue[i].count
                &&& aged_all(queue, now)[i].last_seen == now
            },
{
}

/// A snapshot of an empty queue is empty.
pub proof fn lemma_snapshot_of_empty(now: Timestamp)
    ensures
        aged_all(Seq::empty(), now) == Seq::<PackageEntity>::empty(),
{
    assert(aged_all(Seq::empty(), now) =~= Seq::<PackageEntity>::empty());
}

/// Aggregates waiting for upload, oldest first, at most [`MAX_PACKAGES`].
pub struct PackageBuffer {
    items: heapless::Vec<PackageEntity, MAX_PACKAGES>,
}

impl View for PackageBuffer {
    type V = Seq<PackageEntity>;

    closed spec fn view(&self) -> Seq<PackageEntity> {
        stored_packages(self.items)
    }
}

impl PackageBuffer {
    /// An empty queue.
    pub fn new() -> (queue: Self)
        ensures
            queue@ == Seq::<PackageEntity>::empty(),
    {
        PackageBuffer { items: packages_new() }
    }

    /// Number of aggregates waiting.
    pub fn len(&self) -> (n: usize)
        ensures
            n == self@.len(),
            n <= MAX_PACKAGES,
    {
        packages_as_slice(&self.items).len()
    }

    /// Queues a fresh aggregate stamped with the current time, dropping the
    /// oldest entry first when the queue is full. Always succeeds.
    pub fn push(&mut self, count: u32) -> (stored: bool)
        ensures
            stored,
            old(self)@.len() <= MAX_PACKAGES,
            exists|now: Timestamp|
                final(self)@ == pushed(old(self)@, #[trigger] PackageEntity::fresh(count, now)),
    {
        let now = clock_now();
        self.push_at(count, now)
    }

    /// Queues a fresh aggregate stamped with `now`, dropping the oldest entry
    /// first when the queue is full. Always succeeds.
    pub fn push_at(&mut self, count: u32, now: Timestamp) -> (stored: bool)
        ensures
            stored,
            old(self)@.len() <= MAX_PACKAGES,
            final(self)@ == pushed(old(self)@, PackageEntity::fresh(count, now)),
    {
        let entity = PackageEntity::new_at(count, now);
        let held = self.len();
        if packages_push(&mut self.items, entity) {
            return true;
        }
        if held > 0 {
            let _ = packages_remove(&mut self.items, 0);
            assert(old(self)@.remove(0) =~= old(self)@.drop_first());
        }
        packages_push(&mut self.items, entity)
    }

    /// Brings every entry's age up to the current time and returns a copy of
    /// the queue, oldest first.
    pub fn snapshot_with_age(&mut self) -> (packages: Vec<PackageEntity>)
        ensures
            exists|now: Timestamp| final(self)@ == #[trigger] aged_all(old(self)@, now),
            packages@ == final(self)@,
    {
        let now = clock_now();
        self.snapshot_with_age_at(now)
    }

    /// Brings every entry's age up to `now` and returns a copy of the queue,
    /// oldest first.
    pub fn snapshot_with_age_at(&mut self, now: Timestamp) -> (packages: Vec<PackageEntity>)
        ensures
            final(self)@ == aged_all(old(self)@, now),
            packages@ == final(self)@,
    {
        let n = self.len();
        let mut out: Vec<PackageEntity> = Vec::new();
        let mut i: usize = 0;
        while i < n
            invariant
                i <= n,
                n == old(self)@.len(),
                self@.len() == n,
                out@.len() == i,
                forall|k: int| 0 <= k < i ==> #[trigger] self@[k] == old(self)@[k].aged(now),
                forall|k: int| i <= k < n ==> #[trigger] self@[k] == old(self)@[k],
                forall|k: int| 0 <= k < i ==> #[trigger] out@[k] == old(self)@[k].aged(now),
            decreases n - i,
        {
            let mut entity = packages_as_slice(&self.items)[i];
            entity.update_age_at(now);
            packages_replace(&mut self.items, i, entity);
            out.push(entity);
            i += 1;
        }
        assert(self@ =~= aged_all(old(self)@, now));
        assert(out@ =~= self@);
        out
    }

    /// Empties the queue.
    pub fn drain(&mut self)
        ensures
            final(self)@ == Seq::<PackageEntity>::empty(),
    {
        packages_clear(&mut self.items)
    }
}

} // verus!
