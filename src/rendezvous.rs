//! The rendezvous registry: per job id, the caller's callback address and a
//! one-shot result slot that the webhook side fills and the request side reads.
//!
//! The registry keeps, as ghost state, every `(id, result)` pair that was ever
//! published. A filled slot always holds a published value, so a waiter that
//! observes a result observes one that a publisher put there earlier.

use vstd::prelude::*;
use std::collections::HashMap;

verus! {

broadcast use vstd::std_specs::hash::group_hash_axioms;

/// The value published through a rendezvous: the backend's result URLs and
/// the content-addressed URLs, position by position.
#[derive(Debug)]
pub struct ImageTaskResult {
    pub urls: Vec<String>,
    pub ipfs_urls: Vec<String>,
}

/// One rendezvous: where to deliver late results, the result slot, and
/// whether the synchronous waiter has given up (`detached`).
#[derive(Debug)]
pub struct TaskData {
    pub callback_url: Option<String>,
    pub result: Option<ImageTaskResult>,
    pub detached: bool,
}

/// Who receives a result delivered by the webhook side.
#[derive(Debug, PartialEq, Eq)]
pub enum Delivery {
    /// No rendezvous exists under the id.
    NoRendezvous,
    /// The synchronous waiter is still waiting and reads the slot.
    ToWaiter,
    /// The waiter has given up: the rendezvous is gone and the result goes
    /// to this callback address, if one was registered.
    ToCallback(Option<String>),
}

/// The view of an [`ImageTaskResult`].
pub struct TaskResultView {
    pub urls: Seq<String>,
    pub ipfs_urls: Seq<String>,
}

/// The view of a [`TaskData`].
pub struct TaskView {
    pub callback_url: Option<String>,
    pub result: Option<TaskResultView>,
    pub detached: bool,
}

impl View for ImageTaskResult {
    type V = TaskResultView;

    open spec fn view(&self) -> TaskResultView {
        TaskResultView { urls: self.urls@, ipfs_urls: self.ipfs_urls@ }
    }
}

/// The view of an optional result.
pub open spec fn opt_result_view(r: Option<ImageTaskResult>) -> Option<TaskResultView> {
    match r {
        Some(v) => Some(v@),
        None => None,
    }
}

impl View for TaskData {
    type V = TaskView;

    open spec fn view(&self) -> TaskView {
        TaskView {
            callback_url: self.callback_url,
            result: opt_result_view(self.result),
            detached: self.detached,
        }
    }
}

/// What a waiter does after it is woken or its deadline passes.
#[derive(Debug)]
pub enum WaitStep {
    /// Stop waiting and hand this back (`None`: the deadline passed).
    Done(Option<ImageTaskResult>),
    /// The wake-up found an empty slot: wait again.
    KeepWaiting,
}

/// The in-memory registry of rendezvous, keyed by job id.
pub struct TaskRegistry {
    tasks: HashMap<u128, TaskData>,
    published: Ghost<Set<(u128, TaskResultView)>>,
}

/// A copy of a list of texts, entry by entry.
pub fn copy_texts(v: &Vec<String>) -> (r: Vec<String>)
    ensures
        r@ == v@,
{
    let mut r: Vec<String> = Vec::new();
    let mut i: usize = 0;
    while i < v.len()
        invariant
            i <= v@.len(),
            r@ == v@.subrange(0, i as int),
        decreases v@.len() - i,
    {
        r.push(v[i].clone());
        assert(r@ == v@.subrange(0, i + 1));
        i = i + 1;
    }
    assert(v@ == v@.subrange(0, v@.len() as int));
    r
}

/// A copy of an optional text.
pub fn copy_opt_text(s: &Option<String>) -> (r: Option<String>)
    ensures
        r == *s,
{
    match s {
        Some(t) => Some(t.clone()),
        None => None,
    }
}

impl ImageTaskResult {
    /// A copy with the same URLs.
    pub fn duplicate(&self) -> (r: ImageTaskResult)
        ensures
            r@ == self@,
    {
        ImageTaskResult { urls: copy_texts(&self.urls), ipfs_urls: copy_texts(&self.ipfs_urls) }
    }
}

fn copy_opt_result(r: &Option<ImageTaskResult>) -> (c: Option<ImageTaskResult>)
    ensures
        opt_result_view(c) == opt_result_view(*r),
{
    match r {
        Some(v) => Some(v.duplicate()),
        None => None,
    }
}

impl TaskData {
    /// A copy of the rendezvous' fields.
    pub fn duplicate(&self) -> (r: TaskData)
        ensures
            r@ == self@,
    {
        TaskData {
            callback_url: copy_opt_text(&self.callback_url),
            result: copy_opt_result(&self.result),
            detached: self.detached,
        }
    }
}

impl TaskRegistry {
    /// The registry's contents as a map from job id to rendezvous.
    pub closed spec fn tasks(&self) -> Map<u128, TaskView> {
        self.tasks@.map_values(|d: TaskData| d@)
    }

    /// Every `(id, result)` pair published so far.
    pub closed spec fn published(&self) -> Set<(u128, TaskResultView)> {
        self.published@
    }

    /// A filled slot holds a value that was published under its id, and a
    /// detached rendezvous has an empty slot.
    pub open spec fn wf(&self) -> bool {
        forall|id: u128|
            #[trigger] self.tasks().contains_key(id) ==> {
                &&& self.tasks()[id].result is Some ==> self.published().contains(
                    (id, self.tasks()[id].result->0),
                )
                &&& self.tasks()[id].detached ==> self.tasks()[id].result is None
            }
    }

    pub fn new() -> (r: TaskRegistry)
        ensures
            r.wf(),
            r.tasks() == Map::<u128, TaskView>::empty(),
            r.published() == Set::<(u128, TaskResultView)>::empty(),
    {
        let r = TaskRegistry { tasks: HashMap::new(), published: Ghost(Set::empty()) };
        assert(r.tasks() =~= Map::<u128, TaskView>::empty());
        r
    }

    /// Registers a rendezvous with an empty slot under `id`, replacing any
    /// earlier one.
    pub fn create_task(&mut self, id: u128, callback_url: Option<String>)
        requires
            old(self).wf(),
        ensures
            final(self).wf(),
            final(self).tasks() == old(self).tasks().insert(
                id,
                TaskView { callback_url, result: None, detached: false },
            ),
            final(self).published() == old(self).published(),
    {
        let data = TaskData { callback_url, result: None, detached: false };
        self.tasks.insert(id, data);
        assert(self.tasks() =~= old(self).tasks().insert(id, data@));
    }

    /// Publishes `result` under `id`: when a rendezvous exists and its slot
    /// is empty, the slot is filled and `true` comes back. A filled slot keeps
    /// its first value, and a missing rendezvous is left missing.
    pub fn set_task_result(&mut self, id: u128, result: ImageTaskResult) -> (filled: bool)
        requires
            old(self).wf(),
        ensures
            final(self).wf(),
            filled == (old(self).tasks().contains_key(id) && old(self).tasks()[id].result is None),
            filled ==> final(self).tasks() == old(self).tasks().insert(
                id,
                TaskView {
                    callback_url: old(self).tasks()[id].callback_url,
                    result: Some(result@),
                    detached: false,
                },
            ),
            filled ==> final(self).published() == old(self).published().insert((id, result@)),
            !filled ==> final(self).tasks() == old(self).tasks(),
            !filled ==> final(self).published() == old(self).published(),
    {
        match self.tasks.remove(&id) {
            None => {
                assert(self.tasks@ =~= old(self).tasks@);
                false
            },
            Some(data) => {
                if data.result.is_some() {
                    self.tasks.insert(id, data);
                    assert(self.tasks@ =~= old(self).tasks@);
                    false
                } else {
                    let ghost r = result@;
                    self.published = Ghost(self.published@.insert((id, r)));
                    let filled = TaskData {
                        callback_url: data.callback_url,
                        result: Some(result),
                        detached: false,
                    };
                    self.tasks.insert(id, filled);
                    assert(self.tasks() =~= old(self).tasks().insert(id, filled@));
                    assert forall|k: u128| #[trigger] self.tasks().contains_key(k) implies {
                        &&& self.tasks()[k].result is Some ==> self.published().contains(
                            (k, self.tasks()[k].result->0),
                        )
                        &&& self.tasks()[k].detached ==> self.tasks()[k].result is None
                    } by {
                        if k != id {
                            assert(old(self).tasks().contains_key(k));
                        }
                    }
                    true
                }
            },
        }
    }

    /// The non-blocking part of a wait: the published result under `id`, if
    /// the rendezvous exists and its slot is filled. A result that comes back
    /// was published under `id` before this call.
    pub fn poll_task_result(&self, id: u128) -> (r: Option<ImageTaskResult>)
        requires
            self.wf(),
        ensures
            opt_result_view(r) == (if self.tasks().contains_key(id) {
                self.tasks()[id].result
            } else {
                None
            }),
            r is Some ==> self.published().contains((id, r->0@)),
    {
        match self.tasks.get(&id) {
            Some(data) => copy_opt_result(&data.result),
            None => None,
        }
    }

    /// A copy of the rendezvous under `id`, without changing the registry.
    pub fn get_task(&self, id: u128) -> (r: Option<TaskData>)
        ensures
            r is Some <==> self.tasks().contains_key(id),
            r is Some ==> r->0@ == self.tasks()[id],
    {
        match self.tasks.get(&id) {
            Some(data) => Some(data.duplicate()),
            None => None,
        }
    }

    /// The synchronous waiter gives up on `id` at its deadline. A result that
    /// is already in the slot is still handed to it, and the rendezvous is
    /// removed; otherwise the rendezvous is marked detached, so that a later
    /// delivery goes to the callback.
    pub fn detach_task(&mut self, id: u128) -> (r: Option<ImageTaskResult>)
        requires
            old(self).wf(),
        ensures
            final(self).wf(),
            final(self).published() == old(self).published(),
            !old(self).tasks().contains_key(id) ==> r is None && final(self).tasks() == old(
                self,
            ).tasks(),
            old(self).tasks().contains_key(id) && old(self).tasks()[id].result is Some ==> {
                &&& r is Some
                &&& opt_result_view(r) == old(self).tasks()[id].result
                &&& final(self).tasks() == old(self).tasks().remove(id)
            },
            old(self).tasks().contains_key(id) && old(self).tasks()[id].result is None ==> {
                &&& r is None
                &&& final(self).tasks() == old(self).tasks().insert(
                    id,
                    TaskView { detached: true, ..old(self).tasks()[id] },
                )
            },
            r is Some ==> old(self).published().contains((id, r->0@)),
    {
        match self.tasks.remove(&id) {
            None => {
                assert(self.tasks@ =~= old(self).tasks@);
                None
            },
            Some(data) => {
                if data.result.is_some() {
                    assert(self.tasks() =~= old(self).tasks().remove(id));
                    data.result
                } else {
                    let marked = TaskData { callback_url: data.callback_url, result: None, detached: true };
                    self.tasks.insert(id, marked);
                    assert(self.tasks() =~= old(self).tasks().insert(
                        id,
                        TaskView { detached: true, ..old(self).tasks()[id] },
                    ));
                    assert forall|k: u128| #[trigger] self.tasks().contains_key(k) implies {
                        &&& self.tasks()[k].result is Some ==> self.published().contains(
                            (k, self.tasks()[k].result->0),
                        )
                        &&& self.tasks()[k].detached ==> self.tasks()[k].result is None
                    } by {
                        if k != id {
                            assert(old(self).tasks().contains_key(k));
                        }
                    }
                    None
                }
            },
        }
    }

    /// The webhook side delivers `result` for `id`. While the waiter still
    /// waits, the result is published into the slot (a filled slot keeps its
    /// first value). Once the waiter has given up, the result is recorded as
    /// published, the rendezvous is removed, and its callback address comes
    /// back so that the result is posted there.
    pub fn deliver_result(&mut self, id: u128, result: ImageTaskResult) -> (r: Delivery)
        requires
            old(self).wf(),
        ensures
            final(self).wf(),
            !old(self).tasks().contains_key(id) ==> {
                &&& r == Delivery::NoRendezvous
                &&& final(self).tasks() == old(self).tasks()
                &&& final(self).published() == old(self).published()
            },
            old(self).tasks().contains_key(id) && !old(self).tasks()[id].detached ==> {
                &&& r == Delivery::ToWaiter
                &&& final(self).tasks().contains_key(id)
                &&& final(self).tasks()[id].result is Some
                &&& old(self).tasks()[id].result is None ==> {
                    &&& final(self).tasks() == old(self).tasks().insert(
                        id,
                        TaskView { result: Some(result@), ..old(self).tasks()[id] },
                    )
                    &&& final(self).published() == old(self).published().insert((id, result@))
                }
                &&& old(self).tasks()[id].result is Some ==> {
                    &&& final(self).tasks() == old(self).tasks()
                    &&& final(self).published() == old(self).published()
                }
            },
            old(self).tasks().contains_key(id) && old(self).tasks()[id].detached ==> {
                &&& r == Delivery::ToCallback(old(self).tasks()[id].callback_url)
                &&& final(self).tasks() == old(self).tasks().remove(id)
                &&& final(self).published() == old(self).published().insert((id, result@))
            },
    {
        let detached = match self.tasks.get(&id) {
            None => {
                return Delivery::NoRendezvous;
            },
            Some(data) => data.detached,
        };
        if !detached {
            self.set_task_result(id, result);
            return Delivery::ToWaiter;
        }
        match self.tasks.remove(&id) {
            Some(data) => {
                let ghost r = result@;
                self.published = Ghost(self.published@.insert((id, r)));
                assert(self.tasks() =~= old(self).tasks().remove(id));
                assert forall|k: u128| #[trigger] self.tasks().contains_key(k) implies {
                    &&& self.tasks()[k].result is Some ==> self.published().contains(
                        (k, self.tasks()[k].result->0),
                    )
                    &&& self.tasks()[k].detached ==> self.tasks()[k].result is None
                } by {
                    assert(old(self).tasks().contains_key(k));
                }
                Delivery::ToCallback(data.callback_url)
            },
            None => Delivery::NoRendezvous,
        }
    }

    /// Removes the rendezvous under `id`, if any.
    pub fn remove_task(&mut self, id: u128)
        requires
            old(self).wf(),
        ensures
            final(self).wf(),
            final(self).tasks() == old(self).tasks().remove(id),
            final(self).published() == old(self).published(),
    {
        self.tasks.remove(&id);
        assert(self.tasks() =~= old(self).tasks().remove(id));
    }
}

/// Publish-before-wake: in a well-formed registry, any value a waiter can
/// find in the slot of `id` was published under `id`; and the record of
/// publications grows only through [`TaskRegistry::set_task_result`] and
/// [`TaskRegistry::deliver_result`].
pub proof fn lemma_observed_results_were_published(reg: &TaskRegistry, id: u128)
    requires
        reg.wf(),
    ensures
        reg.tasks().contains_key(id) && reg.tasks()[id].result is Some ==> reg.published().contains(
            (id, reg.tasks()[id].result->0),
        ),
{
}

/// What a waiter does once woken (`timed_out` false) or once its deadline has
/// passed (`timed_out` true), given what the slot held at that moment. A
/// filled slot ends the wait with its value; an empty one ends it with `None`
/// at the deadline and otherwise is a spurious wake-up.
pub fn wait_step(slot: Option<ImageTaskResult>, timed_out: bool) -> (r: WaitStep)
    ensures
        slot is Some ==> r == WaitStep::Done(slot),
        slot is None && timed_out ==> r == WaitStep::Done(None),
        slot is None && !timed_out ==> r == WaitStep::KeepWaiting,
{
    match slot {
        Some(v) => WaitStep::Done(Some(v)),
        None => {
            if timed_out {
                WaitStep::Done(None)
            } else {
                WaitStep::KeepWaiting
            }
        },
    }
}

} // verus!
