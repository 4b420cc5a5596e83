//! The task hub: one current task, handed to a bounded number of
//! subscribers. A subscriber that falls behind skips to the latest task.

use crate::error::Error;
use crate::message::{MessageModel, NewTask};
use vstd::prelude::*;

verus! {

/// One admission slot of the hub, over mathematical values.
pub ghost enum SlotModel {
    /// Nobody holds the slot.
    Free,
    /// A subscriber holds the slot and has seen the latest task, if there is
    /// one.
    Waiting,
    /// A subscriber holds the slot and has yet to take the task held here.
    Pending(MessageModel),
}

/// The state of a hub, over mathematical values.
pub ghost struct HubModel {
    /// The number of subscribers that the hub admits.
    pub limit: nat,
    /// The task that was published last.
    pub current: Option<MessageModel>,
    /// The admission slots that were ever taken. A subscriber's handle is
    /// the index of its slot.
    pub slots: Seq<SlotModel>,
}

/// The number of slots that a subscriber holds.
pub open spec fn live_count(slots: Seq<SlotModel>) -> nat
    decreases slots.len(),
{
    if slots.len() == 0 {
        0
    } else {
        live_count(slots.drop_last()) + if slots.last() is Free {
            0nat
        } else {
            1nat
        }
    }
}

/// The index of the first free slot from `from` on, or the number of slots
/// where none is free.
pub open spec fn first_free(slots: Seq<SlotModel>, from: int) -> int
    decreases slots.len() - from,
{
    if from < 0 || from >= slots.len() {
        slots.len() as int
    } else if slots[from] is Free {
        from
    } else {
        first_free(slots, from + 1)
    }
}

/// A slot after a task was published: a subscriber that holds it has yet to
/// take that task, whatever it had yet to take before.
pub open spec fn notified(slot: SlotModel, task: MessageModel) -> SlotModel {
    match slot {
        SlotModel::Free => SlotModel::Free,
        _ => SlotModel::Pending(task),
    }
}

/// The slot of a new subscriber: it has yet to take the current task, if
/// there is one.
pub open spec fn seeded(current: Option<MessageModel>) -> SlotModel {
    match current {
        Some(task) => SlotModel::Pending(task),
        None => SlotModel::Waiting,
    }
}

impl HubModel {
    /// A fresh hub: no task, no subscriber.
    pub open spec fn fresh(limit: nat) -> HubModel {
        HubModel { limit, current: None, slots: Seq::empty() }
    }

    /// What holds of every hub: it has no more slots than it admits
    /// subscribers, and a task that a subscriber has yet to take is the
    /// current one.
    pub open spec fn wf(self) -> bool {
        &&& self.slots.len() <= self.limit
        &&& forall|i: int|
            0 <= i < self.slots.len() ==> (#[trigger] self.slots[i] matches SlotModel::Pending(task)
                ==> self.current == Some(task))
    }

    /// The number of subscribers.
    pub open spec fn subscribers(self) -> nat {
        live_count(self.slots)
    }

    /// Whether `handle` is the handle of a subscriber.
    pub open spec fn is_live(self, handle: int) -> bool {
        0 <= handle < self.slots.len() && !(self.slots[handle] is Free)
    }

    /// The hub after a task was published: the task is the current one, and
    /// every subscriber has yet to take it.
    pub open spec fn after_publish(self, task: MessageModel) -> HubModel {
        HubModel {
            current: Some(task),
            slots: Seq::new(self.slots.len(), |i: int| notified(self.slots[i], task)),
            ..self
        }
    }

    /// What `add_sub` returns: the handle of the new subscriber, which is
    /// the index of the first free slot; `AdmissionExhausted` where the hub
    /// has as many subscribers as it admits.
    pub open spec fn subscribe_result(self) -> Result<int, Error> {
        if self.subscribers() < self.limit {
            Ok(first_free(self.slots, 0))
        } else {
            Err(Error::AdmissionExhausted)
        }
    }

    /// The hub after `add_sub`: where a subscriber was admitted, it holds
    /// the first free slot.
    pub open spec fn after_subscribe(self) -> HubModel {
        if self.subscribers() < self.limit {
            let at = first_free(self.slots, 0);
            if at < self.slots.len() {
                HubModel { slots: self.slots.update(at, seeded(self.current)), ..self }
            } else {
                HubModel { slots: self.slots.push(seeded(self.current)), ..self }
            }
        } else {
            self
        }
    }

    /// What `next_task` returns: `ChannelClosed` where `handle` is no
    /// subscriber's, else the task that the subscriber has yet to take, if
    /// there is one.
    pub open spec fn take_result(self, handle: int) -> Result<Option<MessageModel>, Error> {
        if !self.is_live(handle) {
            Err(Error::ChannelClosed)
        } else {
            match self.slots[handle] {
                SlotModel::Pending(task) => Ok(Some(task)),
                _ => Ok(None),
            }
        }
    }

    /// The hub after `next_task`: the subscriber has taken what it had yet
    /// to take.
    pub open spec fn after_take(self, handle: int) -> HubModel {
        if self.is_live(handle) {
            HubModel { slots: self.slots.update(handle, SlotModel::Waiting), ..self }
        } else {
            self
        }
    }

    /// The hub after a subscriber has left: its slot is free.
    pub open spec fn after_remove(self, handle: int) -> HubModel {
        if self.is_live(handle) {
            HubModel { slots: self.slots.update(handle, SlotModel::Free), ..self }
        } else {
            self
        }
    }
}

/// No more slots are held than there are.
pub proof fn lemma_live_count_bound(slots: Seq<SlotModel>)
    ensures
        live_count(slots) <= slots.len(),
        live_count(slots) == slots.len() <==> forall|i: int|
            0 <= i < slots.len() ==> !(#[trigger] slots[i] is Free),
    decreases slots.len(),
{
    if slots.len() > 0 {
        let shorter = slots.drop_last();
        lemma_live_count_bound(shorter);
        if live_count(slots) == slots.len() {
            assert forall|i: int| 0 <= i < slots.len() implies !(#[trigger] slots[i] is Free) by {
                if i < shorter.len() {
                    assert(shorter[i] == slots[i]);
                }
            }
        } else if !(slots.last() is Free) {
            let i = choose|i: int| 0 <= i < shorter.len() && #[trigger] shorter[i] is Free;
            assert(slots[i] is Free);
        }
    }
}

/// Changing one slot changes the count by what that slot counts.
pub proof fn lemma_live_count_update(slots: Seq<SlotModel>, at: int, slot: SlotModel)
    requires
        0 <= at < slots.len(),
    ensures
        live_count(slots.update(at, slot)) + (if slots[at] is Free {
            0nat
        } else {
            1nat
        }) == live_count(slots) + (if slot is Free {
            0nat
        } else {
            1nat
        }),
    decreases slots.len(),
{
    let changed = slots.update(at, slot);
    if at == slots.len() - 1 {
        assert(changed.drop_last() =~= slots.drop_last());
    } else {
        assert(changed.drop_last() =~= slots.drop_last().update(at, slot));
        lemma_live_count_update(slots.drop_last(), at, slot);
    }
}

/// Two lists of slots of which the same ones are free count the same.
pub proof fn lemma_live_count_same(first: Seq<SlotModel>, second: Seq<SlotModel>)
    requires
        first.len() == second.len(),
        forall|i: int| 0 <= i < first.len() ==> (first[i] is Free <==> second[i] is Free),
    ensures
        live_count(first) == live_count(second),
    decreases first.len(),
{
    if first.len() > 0 {
        lemma_live_count_same(first.drop_last(), second.drop_last());
    }
}

/// The first free slot is free, and no slot before it is; where no slot is
/// free it is the number of slots.
pub proof fn lemma_first_free(slots: Seq<SlotModel>, from: int)
    requires
        0 <= from <= slots.len(),
    ensures
        from <= first_free(slots, from) <= slots.len(),
        first_free(slots, from) < slots.len() ==> slots[first_free(slots, from)] is Free,
        forall|i: int| from <= i < first_free(slots, from) ==> !(#[trigger] slots[i] is Free),
    decreases slots.len() - from,
{
    if from < slots.len() && !(slots[from] is Free) {
        lemma_first_free(slots, from + 1);
    }
}

/// The hub never has more subscribers than it admits: this holds of a
/// fresh hub and is kept by every operation, as is the rest of what holds of
/// every hub.
pub proof fn lemma_capacity_kept(hub: HubModel, limit: nat, task: MessageModel, handle: int)
    requires
        hub.wf(),
    ensures
        hub.subscribers() <= hub.limit,
        HubModel::fresh(limit).wf(),
        HubModel::fresh(limit).subscribers() == 0,
        hub.after_publish(task).wf(),
        hub.after_subscribe().wf(),
        hub.after_take(handle).wf(),
        hub.after_remove(handle).wf(),
{
    lemma_live_count_bound(hub.slots);
    lemma_first_free(hub.slots, 0);
    assert(HubModel::fresh(limit).slots.len() == 0);
}

/// Admission: a subscriber is admitted exactly where the hub has fewer than
/// it admits; it is one subscriber more then, under a handle that was no
/// subscriber's; a refusal is `AdmissionExhausted` and changes nothing.
pub proof fn lemma_admission(hub: HubModel)
    requires
        hub.wf(),
    ensures
        hub.subscribe_result() is Ok <==> hub.subscribers() < hub.limit,
        hub.subscribe_result() is Err ==> hub.subscribe_result() == Err::<int, Error>(
            Error::AdmissionExhausted,
        ) && hub.after_subscribe() == hub,
        hub.subscribe_result() matches Ok(handle) ==> !hub.is_live(handle)
            && hub.after_subscribe().is_live(handle) && hub.after_subscribe().subscribers()
            == hub.subscribers() + 1,
{
    lemma_live_count_bound(hub.slots);
    lemma_first_free(hub.slots, 0);
    if hub.subscribers() < hub.limit {
        let at = first_free(hub.slots, 0);
        if at < hub.slots.len() {
            lemma_live_count_update(hub.slots, at, seeded(hub.current));
        } else {
            assert(hub.slots.push(seeded(hub.current)).drop_last() =~= hub.slots);
        }
    }
}

/// Release: a subscriber that leaves is one subscriber less, so that the hub
/// admits another; the handle of no subscriber releases nothing.
pub proof fn lemma_release(hub: HubModel, handle: int)
    requires
        hub.wf(),
    ensures
        hub.is_live(handle) ==> hub.after_remove(handle).subscribers() + 1 == hub.subscribers()
            && hub.after_remove(handle).subscribe_result() is Ok,
        !hub.is_live(handle) ==> hub.after_remove(handle) == hub,
{
    lemma_live_count_bound(hub.slots);
    if hub.is_live(handle) {
        lemma_live_count_update(hub.slots, handle, SlotModel::Free);
    }
}

/// Publishing and taking admit and release nobody.
pub proof fn lemma_subscribers_stay(hub: HubModel, task: MessageModel, handle: int)
    ensures
        hub.after_publish(task).subscribers() == hub.subscribers(),
        hub.after_take(handle).subscribers() == hub.subscribers(),
        forall|other: int| hub.after_publish(task).is_live(other) == hub.is_live(other),
        forall|other: int| hub.after_take(handle).is_live(other) == hub.is_live(other),
{
    lemma_live_count_same(hub.after_publish(task).slots, hub.slots);
    lemma_live_count_same(hub.after_take(handle).slots, hub.slots);
}

/// Immediate replay: a subscriber that is admitted after a task was
/// published takes that task first, though nothing is published afterwards.
pub proof fn lemma_replay(hub: HubModel, task: MessageModel)
    requires
        hub.wf(),
        hub.subscribers() < hub.limit,
    ensures
        hub.after_publish(task).subscribe_result() is Ok,
        ({
            let handle = hub.after_publish(task).subscribe_result()->Ok_0;
            hub.after_publish(task).after_subscribe().take_result(handle) == Ok::<
                Option<MessageModel>,
                Error,
            >(Some(task))
        }),
{
    let published = hub.after_publish(task);
    lemma_subscribers_stay(hub, task, 0);
    lemma_first_free(published.slots, 0);
}

/// A subscriber that is admitted before any task was published has nothing
/// to take.
pub proof fn lemma_nothing_to_replay(hub: HubModel)
    requires
        hub.wf(),
        hub.current is None,
        hub.subscribers() < hub.limit,
    ensures
        hub.after_subscribe().take_result(hub.subscribe_result()->Ok_0) == Ok::<
            Option<MessageModel>,
            Error,
        >(None),
{
    lemma_first_free(hub.slots, 0);
}

/// Lag convergence: however many tasks were published since a subscriber
/// last took one, it takes the latest next, without an error, and then has
/// nothing more to take.
pub proof fn lemma_latest_wins(hub: HubModel, handle: int, earlier: MessageModel, latest: MessageModel)
    requires
        hub.is_live(handle),
    ensures
        ({
            let lagging = hub.after_publish(earlier).after_publish(latest);
            &&& lagging.take_result(handle) == Ok::<Option<MessageModel>, Error>(Some(latest))
            &&& lagging.after_take(handle).take_result(handle) == Ok::<Option<MessageModel>, Error>(
                None,
            )
        }),
{
}

/// What a subscriber takes is the task that is current when it takes it: it
/// never takes a task older than one it has taken.
pub proof fn lemma_takes_current(hub: HubModel, handle: int)
    requires
        hub.wf(),
    ensures
        hub.take_result(handle) matches Ok(Some(task)) ==> hub.current == Some(task),
{
}

/// One subscriber's taking leaves what the others have yet to take.
pub proof fn lemma_take_is_local(hub: HubModel, handle: int, other: int)
    requires
        handle != other,
    ensures
        hub.after_take(handle).take_result(other) == hub.take_result(other),
        hub.after_take(handle).current == hub.current,
{
}

/// One admission slot of the hub.
#[derive(Debug)]
pub enum Slot {
    /// Nobody holds the slot.
    Free,
    /// A subscriber holds the slot and has nothing to take.
    Waiting,
    /// A subscriber holds the slot and has yet to take the task held here.
    Pending(NewTask),
}

impl View for Slot {
    type V = SlotModel;

    open spec fn view(&self) -> SlotModel {
        match *self {
            Slot::Free => SlotModel::Free,
            Slot::Waiting => SlotModel::Waiting,
            Slot::Pending(task) => SlotModel::Pending(task@),
        }
    }
}

/// The task in an optional task, over mathematical values.
pub open spec fn optional_task(task: Option<NewTask>) -> Option<MessageModel> {
    match task {
        Some(t) => Some(t@),
        None => None,
    }
}

/// The slots of a hub, over mathematical values.
pub open spec fn slot_models(slots: Seq<Slot>) -> Seq<SlotModel> {
    Seq::new(slots.len(), |i: int| slots[i]@)
}

/// The task hub.
#[derive(Debug)]
pub struct PubSub {
    limit: usize,
    current_task: Option<NewTask>,
    slots: Vec<Slot>,
}

impl View for PubSub {
    type V = HubModel;

    closed spec fn view(&self) -> HubModel {
        HubModel {
            limit: self.limit as nat,
            current: optional_task(self.current_task),
            slots: slot_models(self.slots@),
        }
    }
}

impl PubSub {
    /// A hub that admits `limit` subscribers, with no task and no
    /// subscriber yet.
    pub fn new(limit: usize) -> (r: PubSub)
        ensures
            r@ == HubModel::fresh(limit as nat),
            r@.wf(),
    {
        let hub = PubSub { limit, current_task: None, slots: Vec::new() };
        proof {
            assert(hub@.slots =~= Seq::empty());
        }
        hub
    }

    /// The number of subscribers that the hub admits.
    pub fn limit(&self) -> (r: usize)
        ensures
            r == self@.limit,
    {
        self.limit
    }

    /// The task that was published last.
    pub fn current_task(&self) -> (r: Option<&NewTask>)
        ensures
            match r {
                Some(task) => self@.current == Some(task@),
                None => self@.current is None,
            },
    {
        self.current_task.as_ref()
    }

    /// The number of subscribers.
    pub fn subscribers(&self) -> (r: usize)
        ensures
            r == self@.subscribers(),
    {
        let mut count: usize = 0;
        let mut i: usize = 0;
        let ghost models = slot_models(self.slots@);
        while i < self.slots.len()
            invariant
                i <= self.slots.len(),
                models == slot_models(self.slots@),
                count == live_count(models.take(i as int)),
                count <= i,
            decreases self.slots.len() - i,
        {
            proof {
                assert(models.take(i + 1).drop_last() =~= models.take(i as int));
            }
            match &self.slots[i] {
                Slot::Free => {},
                _ => {
                    count = count + 1;
                },
            }
            i = i + 1;
        }
        proof {
            assert(models.take(i as int) =~= models);
        }
        count
    }

    /// Admits a subscriber, where a slot is free, and returns its handle.
    /// The subscriber has yet to take the current task, if there is one.
    /// Fails with `AdmissionExhausted`, and changes nothing, where the hub
    /// has as many subscribers as it admits.
    pub fn add_sub(&mut self) -> (r: Result<usize, Error>)
        ensures
            old(self)@.wf() ==> final(self)@.wf(),
            final(self)@ == old(self)@.after_subscribe(),
            match r {
                Ok(handle) => old(self)@.subscribe_result() == Ok::<int, Error>(handle as int),
                Err(error) => old(self)@.subscribe_result() == Err::<int, Error>(error),
            },
    {
        proof {
            if self@.wf() {
                lemma_capacity_kept(self@, 0, arbitrary(), 0);
            }
        }
        if self.subscribers() >= self.limit {
            return Err(Error::AdmissionExhausted);
        }
        let ghost models = slot_models(self.slots@);
        proof {
            lemma_live_count_bound(models);
        }
        let mut at: usize = 0;
        let mut found = false;
        while at < self.slots.len() && !found
            invariant
                at <= self.slots.len(),
                models == slot_models(self.slots@),
                first_free(models, 0) == first_free(models, at as int),
                forall|j: int| 0 <= j < at ==> !(#[trigger] models[j] is Free),
                found ==> at < self.slots.len() && models[at as int] is Free,
            decreases self.slots.len() - at + (if found { 0int } else { 1int }),
        {
            match &self.slots[at] {
                Slot::Free => {
                    found = true;
                },
                _ => {
                    at = at + 1;
                },
            }
        }
        if at >= self.slots.len() {
            proof {
                assert(first_free(models, at as int) == models.len());
            }
        }
        let seed = match &self.current_task {
            Some(task) => Slot::Pending(task.clone()),
            None => Slot::Waiting,
        };
        if at < self.slots.len() {
            self.slots.set(at, seed);
            proof {
                assert(slot_models(self.slots@) =~= models.update(at as int, seed@));
            }
        } else {
            self.slots.push(seed);
            proof {
                assert(slot_models(self.slots@) =~= models.push(seed@));
            }
        }
        Ok(at)
    }

    /// Publishes a task: it becomes the current one, and every subscriber
    /// has yet to take it, in place of what it had yet to take before. Waits
    /// for no subscriber.
    pub fn task_pub(&mut self, task: NewTask)
        ensures
            old(self)@.wf() ==> final(self)@.wf(),
            final(self)@ == old(self)@.after_publish(task@),
    {
        proof {
            if self@.wf() {
                lemma_capacity_kept(self@, 0, task@, 0);
            }
        }
        let ghost models = slot_models(self.slots@);
        let mut i: usize = 0;
        while i < self.slots.len()
            invariant
                i <= self.slots.len(),
                self.slots.len() == models.len(),
                self.limit == old(self).limit,
                forall|j: int| 0 <= j < i ==> (#[trigger] self.slots@[j])@ == notified(models[j], task@),
                forall|j: int| i <= j < models.len() ==> (#[trigger] self.slots@[j])@ == models[j],
            decreases self.slots.len() - i,
        {
            let live = match &self.slots[i] {
                Slot::Free => false,
                _ => true,
            };
            if live {
                self.slots.set(i, Slot::Pending(task.clone()));
            }
            i = i + 1;
        }
        self.current_task = Some(task);
        proof {
            assert(self@.slots =~= old(self)@.after_publish(task@).slots);
        }
    }

    /// Takes the task that the subscriber has yet to take, if there is one.
    /// Fails with `ChannelClosed`, and changes nothing, where `handle` is no
    /// subscriber's.
    pub fn next_task(&mut self, handle: usize) -> (r: Result<Option<NewTask>, Error>)
        ensures
            old(self)@.wf() ==> final(self)@.wf(),
            final(self)@ == old(self)@.after_take(handle as int),
            match r {
                Ok(task) => old(self)@.take_result(handle as int) == Ok::<Option<MessageModel>, Error>(
                    optional_task(task),
                ),
                Err(error) => old(self)@.take_result(handle as int) == Err::<
                    Option<MessageModel>,
                    Error,
                >(error),
            },
    {
        proof {
            if self@.wf() {
                lemma_capacity_kept(self@, 0, arbitrary(), handle as int);
            }
        }
        if handle >= self.slots.len() {
            return Err(Error::ChannelClosed);
        }
        let ghost models = slot_models(self.slots@);
        let live = match &self.slots[handle] {
            Slot::Free => false,
            _ => true,
        };
        if !live {
            return Err(Error::ChannelClosed);
        }
        let mut taken = Slot::Waiting;
        self.slots.set_and_swap(handle, &mut taken);
        proof {
            assert(slot_models(self.slots@) =~= models.update(handle as int, SlotModel::Waiting));
        }
        match taken {
            Slot::Pending(task) => Ok(Some(task)),
            _ => Ok(None),
        }
    }

    /// Lets a subscriber go: its slot is free for another. Says whether
    /// `handle` was a subscriber's.
    pub fn remove_sub(&mut self, handle: usize) -> (r: bool)
        ensures
            old(self)@.wf() ==> final(self)@.wf(),
            final(self)@ == old(self)@.after_remove(handle as int),
            r == old(self)@.is_live(handle as int),
    {
        proof {
            if self@.wf() {
                lemma_capacity_kept(self@, 0, arbitrary(), handle as int);
            }
        }
        if handle >= self.slots.len() {
            return false;
        }
        let ghost models = slot_models(self.slots@);
        let live = match &self.slots[handle] {
            Slot::Free => false,
            _ => true,
        };
        if !live {
            return false;
        }
        self.slots.set(handle, Slot::Free);
        proof {
            assert(slot_models(self.slots@) =~= models.update(handle as int, SlotModel::Free));
        }
        true
    }
}

} // verus!
