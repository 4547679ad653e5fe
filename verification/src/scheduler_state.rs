//! What the scheduler knows of all transfers of a client.

use std::collections::BTreeMap;
use std::collections::VecDeque;

use vstd::prelude::*;

use crate::direction;
use crate::direction::{copy_key, same_key, Direction, KeyView, UniqueId};
use crate::ids::TaskId;
use crate::inner_task::InnerTask;
use crate::key_map::{KeyMap, KeySet};
use crate::lifecycle::TransferLifecycle;

verus! {

/// A registered transfer: its task, its completion latch, and which callbacks
/// its submitter wants.
pub struct GroupState {
    pub task: InnerTask,
    pub lifecycle: TransferLifecycle,
    pub progress_cb: bool,
    pub complete_cb: bool,
}

/// A running worker.
#[derive(Debug, Clone, Copy, PartialEq, Eq, Structural)]
pub struct ActiveState {
    /// The task that the worker was started for.
    pub task_id: TaskId,
    /// Whether the worker has been told to stop.
    pub interrupted: bool,
}

/// The mathematical value of a [`SchedulerState`].
#[verifier::ext_equal]
pub struct SchedulerView {
    pub max_uploads: nat,
    pub max_downloads: nat,
    /// Registered transfers.
    pub groups: Map<KeyView, GroupState>,
    /// Which transfer a task identifier controls.
    pub task_keys: Map<u64, KeyView>,
    /// Transfers waiting for a worker, first come first.
    pub queued: Seq<KeyView>,
    pub paused: Set<KeyView>,
    pub active: Map<KeyView, ActiveState>,
    /// Running transfers that were canceled and have not come to rest yet.
    pub canceling: Set<KeyView>,
    /// Bytes transferred so far.
    pub offsets: Map<KeyView, u64>,
    /// Total sizes found out while running.
    pub known_totals: Map<KeyView, u64>,
    pub callbacks_open: bool,
}

/// The keys of one direction.
pub open spec fn direction_keys(keys: Set<KeyView>, direction: Direction) -> Set<KeyView> {
    keys.filter(|k: KeyView| k.0 == direction)
}

/// How many keys of a direction are in a set.
pub open spec fn direction_count(keys: Set<KeyView>, direction: Direction) -> nat {
    direction_keys(keys, direction).len()
}

pub proof fn lemma_count_insert(keys: Set<KeyView>, key: KeyView, direction: Direction)
    requires
        keys.finite(),
        !keys.contains(key),
    ensures
        direction_count(keys.insert(key), direction) == direction_count(keys, direction) + if key.0
            == direction {
            1nat
        } else {
            0nat
        },
{
    assert(direction_keys(keys, direction).finite());
    if key.0 == direction {
        assert(direction_keys(keys.insert(key), direction) =~= direction_keys(
            keys,
            direction,
        ).insert(key));
    } else {
        assert(direction_keys(keys.insert(key), direction) =~= direction_keys(keys, direction));
    }
}

proof fn lemma_count_bound(keys: Set<KeyView>, direction: Direction)
    requires
        keys.finite(),
    ensures
        direction_count(keys, direction) <= keys.len(),
{
    vstd::set_lib::lemma_len_subset(direction_keys(keys, direction), keys);
}

pub proof fn lemma_count_remove(keys: Set<KeyView>, key: KeyView, direction: Direction)
    requires
        keys.finite(),
        keys.contains(key),
    ensures
        direction_count(keys.remove(key), direction) + if key.0 == direction {
            1nat
        } else {
            0nat
        } == direction_count(keys, direction),
{
    assert(keys.remove(key).insert(key) =~= keys);
    lemma_count_insert(keys.remove(key), key, direction);
}

/// The keys of a list of identifiers.
pub open spec fn key_views(keys: Seq<UniqueId>) -> Seq<KeyView> {
    Seq::new(keys.len(), |i: int| direction::key_view(keys[i]))
}

/// A queue without one key.
pub open spec fn without(queue: Seq<KeyView>, key: KeyView) -> Seq<KeyView>
    decreases queue.len(),
{
    if queue.len() == 0 {
        queue
    } else if queue.last() == key {
        without(queue.drop_last(), key)
    } else {
        without(queue.drop_last(), key).push(queue.last())
    }
}

pub proof fn lemma_without(queue: Seq<KeyView>, key: KeyView)
    ensures
        forall|k: KeyView| #[trigger]
            without(queue, key).contains(k) == (queue.contains(k) && k != key),
        queue.no_duplicates() ==> without(queue, key).no_duplicates(),
        !queue.contains(key) ==> without(queue, key) == queue,
    decreases queue.len(),
{
    if queue.len() > 0 {
        let rest = queue.drop_last();
        lemma_without(rest, key);
        assert(queue == rest.push(queue.last()));
        assert forall|k: KeyView| #[trigger]
            without(queue, key).contains(k) == (queue.contains(k) && k != key) by {
            lemma_push_contains(rest, queue.last(), k);
            if queue.last() != key {
                lemma_push_contains(without(rest, key), queue.last(), k);
            }
        }
        if queue.no_duplicates() {
            assert(rest.no_duplicates()) by {
                assert forall|i: int, j: int|
                    0 <= i < rest.len() && 0 <= j < rest.len() && i != j implies rest[i] != rest[j] by {
                    assert(rest[i] == queue[i] && rest[j] == queue[j]);
                }
            }
            assert(!rest.contains(queue.last())) by {
                if rest.contains(queue.last()) {
                    let i = choose|i: int| 0 <= i < rest.len() && rest[i] == queue.last();
                    assert(queue[i] == queue[queue.len() - 1]);
                }
            }
            if queue.last() != key {
                lemma_push_no_duplicates(without(rest, key), queue.last());
            }
        }
        if !queue.contains(key) {
            assert(queue[queue.len() - 1] != key);
            assert(!rest.contains(key)) by {
                lemma_push_contains(rest, queue.last(), key);
            }
        }
    }
}

pub proof fn lemma_push_contains<A>(s: Seq<A>, a: A, x: A)
    ensures
        s.push(a).contains(x) == (s.contains(x) || x == a),
{
    if s.contains(x) {
        let i = choose|i: int| 0 <= i < s.len() && s[i] == x;
        assert(s.push(a)[i] == x);
    }
    if x == a {
        assert(s.push(a)[s.len() as int] == x);
    }
    if s.push(a).contains(x) {
        let i = choose|i: int| 0 <= i < s.push(a).len() && s.push(a)[i] == x;
        if i < s.len() {
            assert(s[i] == x);
        }
    }
}

pub proof fn lemma_push_no_duplicates<A>(s: Seq<A>, a: A)
    requires
        s.no_duplicates(),
        !s.contains(a),
    ensures
        s.push(a).no_duplicates(),
{
    assert forall|i: int, j: int|
        0 <= i < s.push(a).len() && 0 <= j < s.push(a).len() && i != j implies s.push(a)[i]
        != s.push(a)[j] by {
        if i < s.len() && j < s.len() {
        } else if i < s.len() {
            assert(s.contains(s[i]));
        } else if j < s.len() {
            assert(s.contains(s[j]));
        }
    }
}

/// The tables with another latch for a transfer.
pub open spec fn with_lifecycle(
    v: SchedulerView,
    k: KeyView,
    lifecycle: TransferLifecycle,
) -> SchedulerView {
    SchedulerView {
        groups: v.groups.insert(k, GroupState { lifecycle, ..v.groups[k] }),
        ..v
    }
}

/// The scheduler's tables.
pub struct SchedulerState {
    max_upload_concurrency: usize,
    max_download_concurrency: usize,
    groups: KeyMap<GroupState>,
    task_keys: BTreeMap<u64, UniqueId>,
    queued: VecDeque<UniqueId>,
    /// The members of `queued`, for quick lookup.
    queued_set: KeySet,
    paused_set: KeySet,
    active: KeyMap<ActiveState>,
    canceling_set: KeySet,
    active_uploads: usize,
    active_downloads: usize,
    offsets: KeyMap<u64>,
    known_totals: KeyMap<u64>,
    callbacks_open: bool,
}

impl View for SchedulerState {
    type V = SchedulerView;

    closed spec fn view(&self) -> SchedulerView {
        SchedulerView {
            max_uploads: self.max_upload_concurrency as nat,
            max_downloads: self.max_download_concurrency as nat,
            groups: self.groups@,
            task_keys: self.task_keys@.map_values(|k: UniqueId| direction::key_view(k)),
            queued: key_views(self.queued@),
            paused: self.paused_set@,
            active: self.active@,
            canceling: self.canceling_set@,
            offsets: self.offsets@,
            known_totals: self.known_totals@,
            callbacks_open: self.callbacks_open,
        }
    }
}

impl SchedulerView {
    /// The tables of a client without transfers.
    pub open spec fn fresh(max_uploads: nat, max_downloads: nat) -> SchedulerView {
        SchedulerView {
            max_uploads,
            max_downloads,
            groups: Map::empty(),
            task_keys: Map::empty(),
            queued: Seq::empty(),
            paused: Set::empty(),
            active: Map::empty(),
            canceling: Set::empty(),
            offsets: Map::empty(),
            known_totals: Map::empty(),
            callbacks_open: true,
        }
    }

    /// How many workers of a direction run.
    pub open spec fn running(self, direction: Direction) -> nat {
        direction_count(self.active.dom(), direction)
    }

    /// How many workers of a direction may run.
    pub open spec fn limit(self, direction: Direction) -> nat {
        match direction {
            Direction::Upload => self.max_uploads,
            Direction::Download => self.max_downloads,
        }
    }

    /// Bytes of a transfer that are known to be transferred.
    pub open spec fn offset_of(self, key: KeyView) -> u64 {
        if self.offsets.contains_key(key) {
            self.offsets[key]
        } else {
            0
        }
    }

    /// The total size to report for a transfer: what was found out while
    /// running wins over what the task says, even where it is smaller.
    pub open spec fn effective_total(self, key: KeyView, task: InnerTask) -> u64 {
        if self.known_totals.contains_key(key) && self.known_totals[key] > 0 {
            self.known_totals[key]
        } else {
            task.total_size
        }
    }
}

impl SchedulerState {
    /// The redundant tables agree: the queue lists each key once and its
    /// lookup set has the same members, and the worker counts are exact.
    pub closed spec fn wf(&self) -> bool {
        &&& key_views(self.queued@).no_duplicates()
        &&& self.queued_set@ == key_views(self.queued@).to_set()
        &&& self.active@.dom().finite()
        &&& self.active_uploads == direction_count(self.active@.dom(), Direction::Upload)
        &&& self.active_downloads == direction_count(self.active@.dom(), Direction::Download)
    }

    pub fn new(max_upload_concurrency: usize, max_download_concurrency: usize) -> (state: Self)
        ensures
            state.wf(),
            state@ == SchedulerView::fresh(
                max_upload_concurrency as nat,
                max_download_concurrency as nat,
            ),
    {
        let state = SchedulerState {
            max_upload_concurrency,
            max_download_concurrency,
            groups: KeyMap::new(),
            task_keys: BTreeMap::new(),
            queued: VecDeque::new(),
            queued_set: KeySet::new(),
            paused_set: KeySet::new(),
            active: KeyMap::new(),
            canceling_set: KeySet::new(),
            active_uploads: 0,
            active_downloads: 0,
            offsets: KeyMap::new(),
            known_totals: KeyMap::new(),
            callbacks_open: true,
        };
        proof {
            assert(key_views(state.queued@) =~= Seq::empty());
            assert(state.queued_set@ =~= key_views(state.queued@).to_set());
            assert(direction_keys(state.active@.dom(), Direction::Upload) =~= Set::empty());
            assert(direction_keys(state.active@.dom(), Direction::Download) =~= Set::empty());
            assert(state@.task_keys =~= Map::empty());
        }
        state
    }

    pub fn max_upload_concurrency(&self) -> (max: usize)
        ensures
            max == self@.max_uploads,
    {
        self.max_upload_concurrency
    }

    pub fn max_download_concurrency(&self) -> (max: usize)
        ensures
            max == self@.max_downloads,
    {
        self.max_download_concurrency
    }

    // -- registered transfers -------------------------------------------------

    pub fn group(&self, key: &UniqueId) -> (group: Option<&GroupState>)
        ensures
            match group {
                Some(g) => self@.groups.contains_key(direction::key_view(*key)) && *g
                    == self@.groups[direction::key_view(*key)],
                None => !self@.groups.contains_key(direction::key_view(*key)),
            },
    {
        self.groups.get(key)
    }

    pub fn contains_group(&self, key: &UniqueId) -> (contains: bool)
        ensures
            contains == self@.groups.contains_key(direction::key_view(*key)),
    {
        self.groups.contains_key(key)
    }

    pub fn put_group(&mut self, key: UniqueId, group: GroupState)
        requires
            old(self).wf(),
        ensures
            final(self).wf(),
            final(self)@ == (SchedulerView {
                groups: old(self)@.groups.insert(direction::key_view(key), group),
                ..old(self)@
            }),
    {
        self.groups.insert(key, group);
    }

    pub fn take_group(&mut self, key: &UniqueId) -> (group: Option<GroupState>)
        requires
            old(self).wf(),
        ensures
            final(self).wf(),
            final(self)@ == (SchedulerView {
                groups: old(self)@.groups.remove(direction::key_view(*key)),
                ..old(self)@
            }),
            match group {
                Some(g) => old(self)@.groups.contains_key(direction::key_view(*key)) && g
                    == old(self)@.groups[direction::key_view(*key)],
                None => !old(self)@.groups.contains_key(direction::key_view(*key)),
            },
    {
        self.groups.remove(key)
    }

    /// The latch of a registered transfer.
    pub fn lifecycle(&self, key: &UniqueId) -> (lifecycle: Option<TransferLifecycle>)
        ensures
            match lifecycle {
                Some(found) => self@.groups.contains_key(direction::key_view(*key)) && found
                    == self@.groups[direction::key_view(*key)].lifecycle,
                None => !self@.groups.contains_key(direction::key_view(*key)),
            },
    {
        match self.groups.get(key) {
            Some(group) => Some(group.lifecycle),
            None => None,
        }
    }

    /// Sets the latch of a registered transfer.
    pub fn set_lifecycle(&mut self, key: &UniqueId, lifecycle: TransferLifecycle)
        requires
            old(self).wf(),
            old(self)@.groups.contains_key(direction::key_view(*key)),
        ensures
            final(self).wf(),
            final(self)@ == with_lifecycle(old(self)@, direction::key_view(*key), lifecycle),
    {
        match self.take_group(key) {
            Some(group) => {
                let mut group = group;
                group.lifecycle = lifecycle;
                self.put_group(copy_key(key), group);
            },
            None => {},
        }
        assert(self@ =~= with_lifecycle(old(self)@, direction::key_view(*key), lifecycle));
    }

    /// How many transfers are registered.
    pub fn groups_len(&self) -> (len: usize)
        ensures
            len == self@.groups.dom().len(),
    {
        self.groups.len()
    }

    /// How many transfers are paused.
    pub fn paused_len(&self) -> (len: usize)
        ensures
            len == self@.paused.len(),
    {
        self.paused_set.len()
    }

    /// The keys of all registered transfers, each once.
    pub fn group_keys(&self) -> (keys: Vec<UniqueId>)
        ensures
            crate::key_map::lists_keys(keys@, self@.groups.dom()),
    {
        self.groups.keys()
    }

    // -- task identifiers -----------------------------------------------------

    pub fn task_key(&self, task_id: TaskId) -> (key: Option<UniqueId>)
        ensures
            match key {
                Some(k) => self@.task_keys.contains_key(task_id.value) && direction::key_view(k)
                    == self@.task_keys[task_id.value],
                None => !self@.task_keys.contains_key(task_id.value),
            },
    {
        match self.task_keys.get(&task_id.value) {
            Some(key) => Some(copy_key(key)),
            None => None,
        }
    }

    pub fn bind_task(&mut self, task_id: TaskId, key: UniqueId)
        requires
            old(self).wf(),
        ensures
            final(self).wf(),
            final(self)@ == (SchedulerView {
                task_keys: old(self)@.task_keys.insert(task_id.value, direction::key_view(key)),
                ..old(self)@
            }),
    {
        let _ = self.task_keys.insert(task_id.value, key);
        assert(self@.task_keys =~= old(self)@.task_keys.insert(
            task_id.value,
            direction::key_view(key),
        ));
    }

    pub fn unbind_task(&mut self, task_id: TaskId)
        requires
            old(self).wf(),
        ensures
            final(self).wf(),
            final(self)@ == (SchedulerView {
                task_keys: old(self)@.task_keys.remove(task_id.value),
                ..old(self)@
            }),
    {
        let _ = self.task_keys.remove(&task_id.value);
        assert(self@.task_keys =~= old(self)@.task_keys.remove(task_id.value));
    }

    // -- the queue ------------------------------------------------------------

    pub fn queued_len(&self) -> (len: usize)
        ensures
            len == self@.queued.len(),
    {
        self.queued.len()
    }

    /// The key at a place of the queue.
    pub fn queued_key(&self, at: usize) -> (key: &UniqueId)
        requires
            at < self@.queued.len(),
        ensures
            direction::key_view(*key) == self@.queued[at as int],
    {
        &self.queued[at]
    }

    pub fn is_queued(&self, key: &UniqueId) -> (queued: bool)
        requires
            self.wf(),
        ensures
            queued == self@.queued.contains(direction::key_view(*key)),
    {
        self.queued_set.contains(key)
    }

    /// Appends a key that is not queued yet.
    pub fn push_queued(&mut self, key: UniqueId)
        requires
            old(self).wf(),
            !old(self)@.queued.contains(direction::key_view(key)),
        ensures
            final(self).wf(),
            final(self)@ == (SchedulerView {
                queued: old(self)@.queued.push(direction::key_view(key)),
                ..old(self)@
            }),
    {
        let ghost k = direction::key_view(key);
        let ghost before = key_views(self.queued@);
        self.queued_set.insert(copy_key(&key));
        self.queued.push_back(key);
        proof {
            assert(key_views(self.queued@) =~= before.push(k));
            lemma_push_no_duplicates(before, k);
            assert(before.push(k).to_set() =~= before.to_set().insert(k)) by {
                assert forall|x: KeyView| before.push(k).to_set().contains(x)
                    == before.to_set().insert(k).contains(x) by {
                    lemma_push_contains(before, k, x);
                }
            }
        }
    }

    /// Takes the key that has waited longest.
    pub fn pop_queued(&mut self) -> (key: Option<UniqueId>)
        requires
            old(self).wf(),
        ensures
            final(self).wf(),
            match key {
                Some(k) => {
                    &&& old(self)@.queued.len() > 0
                    &&& direction::key_view(k) == old(self)@.queued[0]
                    &&& final(self)@ == (SchedulerView {
                        queued: old(self)@.queued.skip(1),
                        ..old(self)@
                    })
                    &&& !final(self)@.queued.contains(direction::key_view(k))
                },
                None => old(self)@.queued.len() == 0 && final(self)@ == old(self)@,
            },
    {
        let ghost before = key_views(self.queued@);
        match self.queued.pop_front() {
            Some(key) => {
                self.queued_set.remove(&key);
                proof {
                    let k = direction::key_view(key);
                    let after = key_views(self.queued@);
                    assert(after =~= before.skip(1));
                    assert forall|i: int, j: int|
                        0 <= i < after.len() && 0 <= j < after.len() && i != j implies after[i]
                        != after[j] by {
                        assert(after[i] == before[i + 1] && after[j] == before[j + 1]);
                    }
                    assert(!after.contains(k)) by {
                        if after.contains(k) {
                            let i = choose|i: int| 0 <= i < after.len() && after[i] == k;
                            assert(before[i + 1] == before[0]);
                        }
                    }
                    assert(after.to_set() =~= before.to_set().remove(k)) by {
                        assert forall|x: KeyView| after.to_set().contains(x)
                            == before.to_set().remove(k).contains(x) by {
                            if after.contains(x) {
                                let i = choose|i: int| 0 <= i < after.len() && after[i] == x;
                                assert(before[i + 1] == x);
                            }
                            if before.contains(x) && x != k {
                                let i = choose|i: int| 0 <= i < before.len() && before[i] == x;
                                assert(after[i - 1] == x);
                            }
                        }
                    }
                }
                Some(key)
            },
            None => {
                assert(self@ =~= old(self)@);
                None
            },
        }
    }

    /// Drops a key from the queue, wherever it stands.
    pub fn remove_queued(&mut self, key: &UniqueId)
        requires
            old(self).wf(),
        ensures
            final(self).wf(),
            final(self)@ == (SchedulerView {
                queued: without(old(self)@.queued, direction::key_view(*key)),
                ..old(self)@
            }),
    {
        let ghost k = direction::key_view(*key);
        let ghost before = key_views(self.queued@);
        let mut old_queue: VecDeque<UniqueId> = VecDeque::new();
        std::mem::swap(&mut old_queue, &mut self.queued);
        let ghost all = old_queue@;
        let ghost rest_state = self@;
        let ghost mut done: int = 0;
        let mut kept: VecDeque<UniqueId> = VecDeque::new();
        assert(before.take(0) =~= Seq::empty());
        assert(key_views(kept@) =~= Seq::empty());
        loop
            invariant_except_break
                0 <= done <= all.len(),
                all.skip(done) == old_queue@,
                before == key_views(all),
                k == direction::key_view(*key),
                key_views(kept@) == without(before.take(done), k),
            ensures
                key_views(kept@) == without(before, k),
            decreases old_queue@.len(),
        {
            match old_queue.pop_front() {
                Some(next) => {
                    proof {
                        assert(next == all[done]);
                        assert(before.take(done + 1).drop_last() =~= before.take(done));
                        assert(before.take(done + 1).last() == direction::key_view(next));
                        done = done + 1;
                    }
                    let ghost kept_before = kept@;
                    if !same_key(&next, key) {
                        kept.push_back(next);
                        assert(key_views(kept@) =~= key_views(kept_before).push(
                            direction::key_view(next),
                        ));
                    }
                },
                None => {
                    assert(done == all.len());
                    assert(before.take(done) =~= before);
                    break;
                },
            }
        }
        self.queued = kept;
        self.queued_set.remove(key);
        proof {
            lemma_without(before, k);
            assert(without(before, k).to_set() =~= before.to_set().remove(k)) by {
                assert forall|x: KeyView| without(before, k).to_set().contains(x)
                    == before.to_set().remove(k).contains(x) by {
                    assert(without(before, k).contains(x) == (before.contains(x) && x != k));
                }
            }
        }
    }

    // -- stopped transfers ----------------------------------------------------

    pub fn is_paused(&self, key: &UniqueId) -> (paused: bool)
        ensures
            paused == self@.paused.contains(direction::key_view(*key)),
    {
        self.paused_set.contains(key)
    }

    pub fn insert_paused(&mut self, key: UniqueId)
        requires
            old(self).wf(),
        ensures
            final(self).wf(),
            final(self)@ == (SchedulerView {
                paused: old(self)@.paused.insert(direction::key_view(key)),
                ..old(self)@
            }),
    {
        self.paused_set.insert(key);
    }

    pub fn remove_paused(&mut self, key: &UniqueId)
        requires
            old(self).wf(),
        ensures
            final(self).wf(),
            final(self)@ == (SchedulerView {
                paused: old(self)@.paused.remove(direction::key_view(*key)),
                ..old(self)@
            }),
    {
        self.paused_set.remove(key);
    }

    pub fn is_canceling(&self, key: &UniqueId) -> (canceling: bool)
        ensures
            canceling == self@.canceling.contains(direction::key_view(*key)),
    {
        self.canceling_set.contains(key)
    }

    pub fn insert_canceling(&mut self, key: UniqueId)
        requires
            old(self).wf(),
        ensures
            final(self).wf(),
            final(self)@ == (SchedulerView {
                canceling: old(self)@.canceling.insert(direction::key_view(key)),
                ..old(self)@
            }),
    {
        self.canceling_set.insert(key);
    }

    pub fn remove_canceling(&mut self, key: &UniqueId)
        requires
            old(self).wf(),
        ensures
            final(self).wf(),
            final(self)@ == (SchedulerView {
                canceling: old(self)@.canceling.remove(direction::key_view(*key)),
                ..old(self)@
            }),
    {
        self.canceling_set.remove(key);
    }

    // -- running workers ------------------------------------------------------

    pub fn active(&self, key: &UniqueId) -> (active: Option<ActiveState>)
        ensures
            match active {
                Some(a) => self@.active.contains_key(direction::key_view(*key)) && a
                    == self@.active[direction::key_view(*key)],
                None => !self@.active.contains_key(direction::key_view(*key)),
            },
    {
        match self.active.get(key) {
            Some(active) => Some(*active),
            None => None,
        }
    }

    pub fn is_active(&self, key: &UniqueId) -> (active: bool)
        ensures
            active == self@.active.contains_key(direction::key_view(*key)),
    {
        self.active.contains_key(key)
    }

    pub fn active_len(&self) -> (len: usize)
        ensures
            self@.active.dom().finite(),
            len == self@.active.dom().len(),
            len == 0 <==> self@.active == Map::<KeyView, ActiveState>::empty(),
    {
        let _ = self.active.is_empty();
        self.active.len()
    }

    /// The keys of all running workers, each once.
    pub fn active_keys(&self) -> (keys: Vec<UniqueId>)
        ensures
            crate::key_map::lists_keys(keys@, self@.active.dom()),
    {
        self.active.keys()
    }

    /// How many workers of a direction run.
    pub fn active_direction_count(&self, direction: Direction) -> (count: usize)
        requires
            self.wf(),
        ensures
            count == self@.running(direction),
    {
        match direction {
            Direction::Upload => self.active_uploads,
            Direction::Download => self.active_downloads,
        }
    }

    /// Registers a worker. A key that had one keeps its place in the counts.
    pub fn insert_active(&mut self, key: UniqueId, active: ActiveState) -> (previous: Option<
        ActiveState,
    >)
        requires
            old(self).wf(),
        ensures
            final(self).wf(),
            final(self)@ == (SchedulerView {
                active: old(self)@.active.insert(direction::key_view(key), active),
                ..old(self)@
            }),
            match previous {
                Some(a) => old(self)@.active.contains_key(direction::key_view(key)) && a
                    == old(self)@.active[direction::key_view(key)],
                None => !old(self)@.active.contains_key(direction::key_view(key)),
            },
    {
        let ghost k = direction::key_view(key);
        let ghost dom = self.active@.dom();
        let len: usize = self.active.len();
        let previous = self.active(&key);
        let new = previous.is_none();
        let direction = key.0;
        self.active.insert(key, active);
        let len_after: usize = self.active.len();
        proof {
            assert(self.active@.dom() =~= dom.insert(k));
            if new {
                lemma_count_insert(dom, k, Direction::Upload);
                lemma_count_insert(dom, k, Direction::Download);
                lemma_count_bound(dom.insert(k), Direction::Upload);
                lemma_count_bound(dom.insert(k), Direction::Download);
            } else {
                assert(dom.insert(k) =~= dom);
            }
        }
        if new {
            match direction {
                Direction::Upload => {
                    self.active_uploads += 1;
                },
                Direction::Download => {
                    self.active_downloads += 1;
                },
            }
        }
        previous
    }

    /// Unregisters a worker.
    pub fn remove_active(&mut self, key: &UniqueId) -> (active: Option<ActiveState>)
        requires
            old(self).wf(),
        ensures
            final(self).wf(),
            final(self)@ == (SchedulerView {
                active: old(self)@.active.remove(direction::key_view(*key)),
                ..old(self)@
            }),
            match active {
                Some(a) => old(self)@.active.contains_key(direction::key_view(*key)) && a
                    == old(self)@.active[direction::key_view(*key)],
                None => !old(self)@.active.contains_key(direction::key_view(*key)),
            },
    {
        let ghost k = direction::key_view(*key);
        let ghost dom = self.active@.dom();
        let removed = self.active.remove(key);
        proof {
            assert(self.active@.dom() =~= dom.remove(k));
            if dom.contains(k) {
                lemma_count_remove(dom, k, Direction::Upload);
                lemma_count_remove(dom, k, Direction::Download);
            } else {
                assert(dom.remove(k) =~= dom);
            }
        }
        if removed.is_some() {
            match key.0 {
                Direction::Upload => {
                    self.active_uploads -= 1;
                },
                Direction::Download => {
                    self.active_downloads -= 1;
                },
            }
        }
        removed
    }

    /// Unregisters all workers.
    pub fn clear_active(&mut self)
        requires
            old(self).wf(),
        ensures
            final(self).wf(),
            final(self)@ == (SchedulerView { active: Map::empty(), ..old(self)@ }),
    {
        self.active.clear();
        self.active_uploads = 0;
        self.active_downloads = 0;
        assert(direction_keys(self.active@.dom(), Direction::Upload) =~= Set::empty());
        assert(direction_keys(self.active@.dom(), Direction::Download) =~= Set::empty());
    }

    // -- progress -------------------------------------------------------------

    /// Bytes of a transfer that are known to be transferred.
    pub fn offset(&self, key: &UniqueId) -> (offset: u64)
        ensures
            offset == self@.offset_of(direction::key_view(*key)),
    {
        match self.offsets.get(key) {
            Some(offset) => *offset,
            None => 0,
        }
    }

    pub fn has_offset(&self, key: &UniqueId) -> (has: bool)
        ensures
            has == self@.offsets.contains_key(direction::key_view(*key)),
    {
        self.offsets.contains_key(key)
    }

    pub fn set_offset(&mut self, key: UniqueId, offset: u64)
        requires
            old(self).wf(),
        ensures
            final(self).wf(),
            final(self)@ == (SchedulerView {
                offsets: old(self)@.offsets.insert(direction::key_view(key), offset),
                ..old(self)@
            }),
    {
        self.offsets.insert(key, offset);
    }

    pub fn known_total(&self, key: &UniqueId) -> (total: Option<u64>)
        ensures
            total == if self@.known_totals.contains_key(direction::key_view(*key)) {
                Some(self@.known_totals[direction::key_view(*key)])
            } else {
                None
            },
    {
        match self.known_totals.get(key) {
            Some(total) => Some(*total),
            None => None,
        }
    }

    pub fn set_known_total(&mut self, key: UniqueId, total: u64)
        requires
            old(self).wf(),
        ensures
            final(self).wf(),
            final(self)@ == (SchedulerView {
                known_totals: old(self)@.known_totals.insert(direction::key_view(key), total),
                ..old(self)@
            }),
    {
        self.known_totals.insert(key, total);
    }

    /// Forgets the progress of a transfer.
    pub fn forget_progress(&mut self, key: &UniqueId)
        requires
            old(self).wf(),
        ensures
            final(self).wf(),
            final(self)@ == (SchedulerView {
                offsets: old(self)@.offsets.remove(direction::key_view(*key)),
                known_totals: old(self)@.known_totals.remove(direction::key_view(*key)),
                ..old(self)@
            }),
    {
        let _ = self.offsets.remove(key);
        let _ = self.known_totals.remove(key);
    }

    /// The total size to report for a transfer.
    pub fn effective_total(&self, key: &UniqueId, task: &InnerTask) -> (total: u64)
        ensures
            total == self@.effective_total(direction::key_view(*key), *task),
    {
        match self.known_totals.get(key) {
            Some(total) => if *total > 0 {
                *total
            } else {
                task.total_size
            },
            None => task.total_size,
        }
    }

    // -- callbacks and shutdown -----------------------------------------------

    pub fn callbacks_open(&self) -> (open: bool)
        ensures
            open == self@.callbacks_open,
    {
        self.callbacks_open
    }

    /// Forgets everything and closes the callbacks.
    pub fn clear(&mut self)
        requires
            old(self).wf(),
        ensures
            final(self).wf(),
            final(self)@ == (SchedulerView {
                callbacks_open: false,
                ..SchedulerView::fresh(old(self)@.max_uploads, old(self)@.max_downloads)
            }),
    {
        self.clear_active();
        self.groups.clear();
        self.task_keys.clear();
        self.queued.clear();
        self.queued_set.clear();
        self.paused_set.clear();
        self.canceling_set.clear();
        self.offsets.clear();
        self.known_totals.clear();
        self.callbacks_open = false;
        assert(key_views(self.queued@) =~= Seq::empty());
        assert(self.queued_set@ =~= key_views(self.queued@).to_set());
        assert(self@.task_keys =~= Map::empty());
    }

    /// Closes the callbacks and keeps the rest.
    pub fn take_cb_submit(&mut self)
        requires
            old(self).wf(),
        ensures
            final(self).wf(),
            final(self)@ == (SchedulerView { callbacks_open: false, ..old(self)@ }),
    {
        self.callbacks_open = false;
    }
}

} // verus!
