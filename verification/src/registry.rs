//! A registry of modal instances that any part of an application can ask to
//! close a modal by its ID.
//!
//! The registry holds every modal that was registered with it and knows which
//! of them still listen. A close request is handed to each listener in the
//! order of registration; a listener closes if the request names its ID.

use crate::components::modal::{
    unsubscribed, ModalCloseMsg, ModalCloser, ModalModel, ModalMsg, ModalState,
};
use vstd::prelude::*;

verus! {

/// The token that a modal gets when it registers. It is good for unregistering
/// and for reaching the modal's own state.
#[derive(Clone, Copy, Debug, PartialEq, Eq, Hash)]
pub struct SubscriberHandle {
    slot: usize,
}

impl View for SubscriberHandle {
    type V = nat;

    closed spec fn view(&self) -> nat {
        self.slot as nat
    }
}

/// Holds of every handle but `handle`.
pub open spec fn is_not(handle: nat) -> spec_fn(nat) -> bool {
    |other: nat| other != handle
}

/// What a registry is: the modals registered so far, in the order of
/// registration, and the handles of those that listen, in that order too.
/// The handle of a modal is its place among the modals.
#[verifier::ext_equal]
pub struct RegistryModel {
    pub modals: Seq<ModalModel>,
    pub listeners: Seq<nat>,
}

impl RegistryModel {
    /// Each listener is a registered modal and is listed once.
    pub open spec fn wf(self) -> bool {
        &&& self.listeners.no_duplicates()
        &&& forall|i: int|
            0 <= i < self.listeners.len() ==> (#[trigger] self.listeners[i]) < self.modals.len()
    }

    /// An empty registry.
    pub open spec fn empty() -> RegistryModel {
        RegistryModel { modals: Seq::empty(), listeners: Seq::empty() }
    }

    /// Whether `handle` belongs to a modal of this registry.
    pub open spec fn knows(self, handle: nat) -> bool {
        handle < self.modals.len()
    }

    /// Whether the modal of `handle` listens for close requests.
    pub open spec fn listens(self, handle: nat) -> bool {
        self.listeners.contains(handle)
    }

    /// The modal of `handle`.
    pub open spec fn modal(self, handle: nat) -> ModalModel
        recommends
            self.knows(handle),
    {
        self.modals[handle as int]
    }

    /// The handle that the next registration gets.
    pub open spec fn next_handle(self) -> nat {
        self.modals.len()
    }

    /// The registry after `modal` registered: it is the last modal and the
    /// last listener.
    pub open spec fn register(self, modal: ModalModel) -> RegistryModel {
        RegistryModel {
            modals: self.modals.push(modal),
            listeners: self.listeners.push(self.next_handle()),
        }
    }

    /// The registry after `handle` unregistered: its modal listens no more
    /// and keeps its state. The other listeners stay, in their order.
    pub open spec fn unregister(self, handle: nat) -> RegistryModel {
        RegistryModel { modals: self.modals, listeners: self.listeners.filter(is_not(handle)) }
    }

    /// The registry after a close request for `target`: each listener
    /// handled the request, no other modal changed.
    pub open spec fn dispatch(self, target: Seq<char>) -> RegistryModel {
        RegistryModel {
            modals: Seq::new(
                self.modals.len(),
                |i: int|
                    if self.listens(i as nat) {
                        self.modals[i].after_request(target)
                    } else {
                        self.modals[i]
                    },
            ),
            listeners: self.listeners,
        }
    }

    /// The registry after the modal of `handle` handled `msg`. Nothing
    /// changes if the handle is unknown.
    pub open spec fn deliver(self, handle: nat, msg: ModalMsg) -> RegistryModel {
        if self.knows(handle) {
            RegistryModel {
                modals: self.modals.update(handle as int, self.modal(handle).after(msg)),
                listeners: self.listeners,
            }
        } else {
            self
        }
    }

    /// The registry after the trigger of the modal of `handle` was clicked.
    pub open spec fn open(self, handle: nat) -> RegistryModel {
        self.deliver(handle, ModalMsg::Open)
    }

    /// The registry after the background or a close button of the modal of
    /// `handle` was clicked.
    pub open spec fn close(self, handle: nat) -> RegistryModel {
        self.deliver(handle, ModalMsg::Close)
    }
}

/// The subscriber IDs of an agent, read as handles.
pub open spec fn handles(ids: Seq<usize>) -> Seq<nat> {
    ids.map_values(|id: usize| id as nat)
}

proof fn lemma_handles(ids: Seq<usize>)
    ensures
        forall|id: usize| #[trigger] handles(ids).contains(id as nat) <==> ids.contains(id),
        ids.no_duplicates() ==> handles(ids).no_duplicates(),
{
    assert forall|id: usize| #[trigger] handles(ids).contains(id as nat) <==> ids.contains(id) by {
        if ids.contains(id) {
            let at = choose|at: int| 0 <= at < ids.len() && ids[at] == id;
            assert(handles(ids)[at] == id as nat);
        }
        if handles(ids).contains(id as nat) {
            let at = choose|at: int| 0 <= at < handles(ids).len() && handles(ids)[at] == id as nat;
            assert(ids[at] == id);
        }
    }
}

proof fn lemma_handles_unsubscribed(ids: Seq<usize>, id: usize)
    ensures
        handles(unsubscribed(ids, id)) == handles(ids).filter(is_not(id as nat)),
    decreases ids.len(),
{
    reveal(Seq::filter);
    if ids.len() > 0 {
        let rest = ids.drop_last();
        lemma_handles_unsubscribed(rest, id);
        assert(handles(ids).drop_last() =~= handles(rest));
        assert(handles(unsubscribed(ids, id)) =~= handles(ids).filter(is_not(id as nat)));
    } else {
        assert(handles(unsubscribed(ids, id)) =~= handles(ids).filter(is_not(id as nat)));
    }
}

/// Leaving out what a test refuses keeps a list without repeats free of them.
pub proof fn lemma_filter_distinct<A>(items: Seq<A>, keep: spec_fn(A) -> bool)
    requires
        items.no_duplicates(),
    ensures
        items.filter(keep).no_duplicates(),
    decreases items.len(),
{
    reveal(Seq::filter);
    if items.len() > 0 {
        let rest = items.drop_last();
        let last = items.last();
        lemma_filter_distinct(rest, keep);
        if rest.filter(keep).contains(last) {
            rest.lemma_filter_contains_rev(keep, last);
            let twin = choose|twin: int| 0 <= twin < rest.len() && rest[twin] == last;
            assert(items[twin] == items[items.len() - 1]);
        }
    }
}

/// The modals that were registered, and the agent that knows which of them
/// listen.
#[derive(Debug)]
pub struct Registry {
    modals: Vec<ModalState>,
    closer: ModalCloser,
}

impl View for Registry {
    type V = RegistryModel;

    closed spec fn view(&self) -> RegistryModel {
        RegistryModel {
            modals: Seq::new(self.modals@.len(), |i: int| self.modals@[i]@),
            listeners: handles(self.closer@),
        }
    }
}

impl Registry {
    #[verifier::type_invariant]
    spec fn valid(self) -> bool {
        self@.wf()
    }

    /// A registry without modals.
    pub fn new() -> (registry: Registry)
        ensures
            registry@ == RegistryModel::empty(),
    {
        let registry = Registry { modals: Vec::new(), closer: ModalCloser::create() };
        assert(registry@ =~= RegistryModel::empty());
        registry
    }

    /// Registers a modal and hands out its handle. From now on the modal
    /// listens for close requests.
    pub fn register(&mut self, modal: ModalState) -> (handle: SubscriberHandle)
        ensures
            handle@ == old(self)@.next_handle(),
            final(self)@ == old(self)@.register(modal@),
    {
        proof {
            use_type_invariant(&*self);
        }
        let mut taken = Registry::new();
        core::mem::swap(self, &mut taken);
        let Registry { mut modals, mut closer } = taken;
        let slot = modals.len();
        proof {
            lemma_handles(closer@);
            if closer@.contains(slot) {
                let at = choose|at: int| 0 <= at < closer@.len() && closer@[at] == slot;
                assert(handles(closer@)[at] == slot);
            }
        }
        modals.push(modal);
        closer.connected(slot);
        proof {
            lemma_handles(closer@);
            assert(handles(closer@) =~= old(self)@.listeners.push(slot as nat));
        }
        let registry = Registry { modals, closer };
        assert(registry@ =~= old(self)@.register(modal@));
        *self = registry;
        SubscriberHandle { slot }
    }

    /// Unregisters the modal of `handle`: it listens no more, and keeps the
    /// state it has. Nothing changes if it did not listen.
    pub fn unregister(&mut self, handle: SubscriberHandle)
        ensures
            final(self)@ == old(self)@.unregister(handle@),
    {
        proof {
            use_type_invariant(&*self);
        }
        let mut taken = Registry::new();
        core::mem::swap(self, &mut taken);
        let Registry { modals, mut closer } = taken;
        proof {
            lemma_handles_unsubscribed(closer@, handle.slot);
        }
        closer.disconnected(handle.slot);
        proof {
            let before = old(self)@.listeners;
            lemma_filter_distinct(before, is_not(handle@));
            assert forall|i: int| 0 <= i < handles(closer@).len() implies (#[trigger] handles(
                closer@,
            )[i]) < modals@.len() by {
                let other = handles(closer@)[i];
                assert(before.filter(is_not(handle@)).contains(other));
                before.lemma_filter_contains_rev(is_not(handle@), other);
            }
        }
        let registry = Registry { modals, closer };
        assert(registry@ =~= old(self)@.unregister(handle@));
        *self = registry;
    }

    /// Hands a close request to every listener, in the order of registration.
    pub fn dispatch(&mut self, request: &ModalCloseMsg)
        ensures
            final(self)@ == old(self)@.dispatch(request.target()),
    {
        proof {
            use_type_invariant(&*self);
        }
        let mut taken = Registry::new();
        core::mem::swap(self, &mut taken);
        let Registry { mut modals, closer } = taken;
        let responses = closer.handle_input(request.clone());
        let ghost before = old(self)@;
        let ghost target = request.target();
        let count = modals.len();
        let mut at: usize = 0;
        while at < responses.len()
            invariant
                at <= responses@.len(),
                modals@.len() == count,
                before.wf(),
                before.listeners == handles(closer@),
                responses@.len() == closer@.len(),
                forall|i: int|
                    0 <= i < responses@.len() ==> (#[trigger] responses@[i]).0 == closer@[i]
                        && responses@[i].1.target() == target,
                modals@.len() == before.modals.len(),
                forall|i: int|
                    0 <= i < modals@.len() ==> (#[trigger] modals@[i])@ == (if closer@.take(
                        at as int,
                    ).contains(i as usize) {
                        before.modals[i].after_request(target)
                    } else {
                        before.modals[i]
                    }),
            decreases responses@.len() - at,
        {
            let slot = responses[at].0;
            let msg = ModalMsg::CloseFromAgent(responses[at].1.clone());
            proof {
                let seen = closer@.take(at as int);
                assert(before.listeners[at as int] == slot);
                assert(closer@.take(at + 1) == seen.push(slot));
                assert forall|other: usize| #[trigger]
                    seen.push(slot).contains(other) <==> (seen.contains(other) || other == slot) by {
                    if seen.contains(other) {
                        let from = choose|from: int| 0 <= from < seen.len() && seen[from] == other;
                        assert(seen.push(slot)[from] == other);
                    }
                    if other == slot {
                        assert(seen.push(slot)[seen.len() as int] == other);
                    }
                }
            }
            let ghost earlier = modals@;
            modals[slot].update(&msg);
            proof {
                let seen = closer@.take(at as int);
                assert forall|i: int| 0 <= i < modals@.len() implies (#[trigger] modals@[i])@ == (
                if seen.push(slot).contains(i as usize) {
                    before.modals[i].after_request(target)
                } else {
                    before.modals[i]
                }) by {
                    if i != slot {
                        assert(modals@[i] == earlier[i]);
                    }
                }
            }
            at += 1;
        }
        proof {
            assert(closer@.take(at as int) == closer@);
            lemma_handles(closer@);
        }
        let registry = Registry { modals, closer };
        assert(registry@ =~= before.dispatch(target)) by {
            assert forall|i: int| 0 <= i < count implies closer@.contains(i as usize)
                == #[trigger] before.listens(i as nat) by {
                assert((i as usize) as nat == i as nat);
            }
        }
        *self = registry;
    }

    /// Asks for the modal with the ID `target_id` to be closed.
    pub fn request_close(&mut self, target_id: &str)
        ensures
            final(self)@ == old(self)@.dispatch(target_id@),
    {
        let request = ModalCloseMsg(target_id.to_owned());
        self.dispatch(&request);
    }

    /// The trigger of the modal of `handle` was clicked: the modal is open.
    /// Nothing changes if the handle is unknown.
    pub fn open(&mut self, handle: SubscriberHandle)
        ensures
            final(self)@ == old(self)@.open(handle@),
    {
        self.deliver(handle, &ModalMsg::Open);
    }

    /// The background or a close button of the modal of `handle` was clicked:
    /// the modal is closed. Nothing changes if the handle is unknown.
    pub fn close(&mut self, handle: SubscriberHandle)
        ensures
            final(self)@ == old(self)@.close(handle@),
    {
        self.deliver(handle, &ModalMsg::Close);
    }

    /// Hands `msg` to the modal of `handle`. Nothing changes if the handle is
    /// unknown.
    pub fn deliver(&mut self, handle: SubscriberHandle, msg: &ModalMsg)
        ensures
            final(self)@ == old(self)@.deliver(handle@, *msg),
    {
        proof {
            use_type_invariant(&*self);
        }
        if handle.slot < self.modals.len() {
            let mut taken = Registry::new();
            core::mem::swap(self, &mut taken);
            let Registry { mut modals, closer } = taken;
            modals[handle.slot].update(msg);
            let registry = Registry { modals, closer };
            assert(registry@ =~= old(self)@.deliver(handle@, *msg));
            *self = registry;
        }
    }

    /// Whether the modal of `handle` is open; `None` if the handle is unknown.
    pub fn is_open(&self, handle: SubscriberHandle) -> (is_open: Option<bool>)
        ensures
            is_open == (if self@.knows(handle@) {
                Some(self@.modal(handle@).is_open)
            } else {
                None
            }),
    {
        if handle.slot < self.modals.len() {
            Some(self.modals[handle.slot].is_open())
        } else {
            None
        }
    }

    /// Whether the modal of `handle` listens for close requests.
    pub fn is_registered(&self, handle: SubscriberHandle) -> (listens: bool)
        ensures
            listens == self@.listens(handle@),
    {
        proof {
            lemma_handles(self.closer@);
        }
        self.closer.is_connected(handle.slot)
    }
}

/// Every step keeps a registry in order: each listener is a registered
/// modal and is listed once.
pub proof fn registry_stays_in_order(
    registry: RegistryModel,
    modal: ModalModel,
    handle: nat,
    target: Seq<char>,
    msg: ModalMsg,
)
    requires
        registry.wf(),
    ensures
        RegistryModel::empty().wf(),
        registry.register(modal).wf(),
        registry.unregister(handle).wf(),
        registry.dispatch(target).wf(),
        registry.deliver(handle, msg).wf(),
{
    let left = registry.listeners.filter(is_not(handle));
    lemma_filter_distinct(registry.listeners, is_not(handle));
    assert forall|i: int| 0 <= i < left.len() implies (#[trigger] left[i])
        < registry.modals.len() by {
        assert(left.contains(left[i]));
        registry.listeners.lemma_filter_contains_rev(is_not(handle), left[i]);
    }
}

/// A close request closes each listener that has the requested ID, whatever
/// its state was, and leaves every listener with another ID as it was. No
/// modal changes its ID, and no modal that does not listen changes at all.
pub proof fn dispatch_closes_whom_it_names(registry: RegistryModel, target: Seq<char>, handle: nat)
    requires
        registry.wf(),
        registry.knows(handle),
    ensures
        registry.dispatch(target).modals.len() == registry.modals.len(),
        registry.dispatch(target).listeners == registry.listeners,
        registry.dispatch(target).modal(handle).id == registry.modal(handle).id,
        registry.listens(handle) && registry.modal(handle).id == target
            ==> !registry.dispatch(target).modal(handle).is_open,
        registry.listens(handle) && registry.modal(handle).id != target ==> registry.dispatch(
            target,
        ).modal(handle) == registry.modal(handle),
        !registry.listens(handle) ==> registry.dispatch(target).modal(handle) == registry.modal(
            handle,
        ),
{
}

/// A close request for an ID that no listener has changes nothing.
pub proof fn dispatch_to_nobody_changes_nothing(registry: RegistryModel, target: Seq<char>)
    requires
        registry.wf(),
        forall|handle: nat|
            registry.knows(handle) && #[trigger] registry.listens(handle) ==> registry.modal(
                handle,
            ).id != target,
    ensures
        registry.dispatch(target) == registry,
{
    assert(registry.dispatch(target).modals =~= registry.modals) by {
        assert forall|i: int| 0 <= i < registry.modals.len() implies registry.dispatch(
            target,
        ).modals[i] == registry.modals[i] by {
            if registry.listens(i as nat) {
                assert(registry.modal(i as nat).id != target);
            }
        }
    }
}

/// Once a modal has unregistered, no close request reaches it, not even one
/// that names its ID: it keeps the state it had. Unregistering once more
/// changes nothing.
pub proof fn unregistered_is_out_of_reach(registry: RegistryModel, handle: nat, target: Seq<char>)
    requires
        registry.wf(),
        registry.knows(handle),
    ensures
        !registry.unregister(handle).listens(handle),
        registry.unregister(handle).dispatch(target).modal(handle) == registry.modal(handle),
        registry.unregister(handle).unregister(handle) == registry.unregister(handle),
        !registry.listens(handle) ==> registry.unregister(handle) == registry,
{
    let keep = is_not(handle);
    let left = registry.listeners.filter(keep);
    if left.contains(handle) {
        let at = choose|at: int| 0 <= at < left.len() && left[at] == handle;
        registry.listeners.lemma_filter_pred(keep, at);
    }
    lemma_filter_of_kept(left, keep);
    assert forall|i: int| 0 <= i < left.len() implies keep(#[trigger] left[i]) by {
        registry.listeners.lemma_filter_pred(keep, i);
    }
    if !registry.listens(handle) {
        lemma_filter_of_kept(registry.listeners, keep);
    }
}

/// A list of which a test refuses nothing is left as it is.
pub proof fn lemma_filter_of_kept<A>(items: Seq<A>, keep: spec_fn(A) -> bool)
    requires
        forall|i: int| 0 <= i < items.len() ==> keep(#[trigger] items[i]),
    ensures
        items.filter(keep) == items,
    decreases items.len(),
{
    reveal(Seq::filter);
    if items.len() > 0 {
        let rest = items.drop_last();
        assert forall|i: int| 0 <= i < rest.len() implies keep(#[trigger] rest[i]) by {
            assert(rest[i] == items[i]);
        }
        lemma_filter_of_kept(rest, keep);
        assert(items.filter(keep) =~= items);
    }
}

/// A modal that registers, unregisters and registers again under the same ID
/// gets a new handle, and under it it listens like any other: a request that
/// names its ID closes it, a request for another ID leaves it open. The
/// handle it gave up stays out of reach.
pub proof fn registering_again_listens_again(
    registry: RegistryModel,
    first: ModalModel,
    again: ModalModel,
    other: Seq<char>,
)
    requires
        registry.wf(),
        first.id == again.id,
        other != again.id,
    ensures
        ({
            let old_handle = registry.next_handle();
            let left = registry.register(first).unregister(old_handle);
            let new_handle = left.next_handle();
            let back = left.register(again);
            &&& back.wf()
            &&& new_handle != old_handle
            &&& back.listens(new_handle)
            &&& !back.listens(old_handle)
            &&& back.modal(new_handle) == again
            &&& !back.open(new_handle).dispatch(again.id).modal(new_handle).is_open
            &&& back.open(new_handle).dispatch(other).modal(new_handle).is_open
            &&& back.dispatch(again.id).modal(old_handle) == first
        }),
{
    let old_handle = registry.next_handle();
    let joined = registry.register(first);
    let left = joined.unregister(old_handle);
    let new_handle = left.next_handle();
    let back = left.register(again);
    registry_stays_in_order(registry, first, old_handle, other, ModalMsg::Open);
    registry_stays_in_order(joined, first, old_handle, other, ModalMsg::Open);
    registry_stays_in_order(left, again, old_handle, other, ModalMsg::Open);
    unregistered_is_out_of_reach(joined, old_handle, other);
    assert(back.listeners[back.listeners.len() - 1] == new_handle);
    if back.listens(old_handle) {
        let at = choose|at: int| 0 <= at < back.listeners.len() && back.listeners[at] == old_handle;
        assert(left.listeners[at] == old_handle);
    }
    let opened = back.open(new_handle);
    assert(opened.listeners[opened.listeners.len() - 1] == new_handle);
}

/// A modal that was opened by its trigger stays open when a close request
/// for another ID is dispatched, and is closed by one for its own ID if it
/// listens.
pub proof fn open_modal_closes_on_its_id_only(
    registry: RegistryModel,
    handle: nat,
    target: Seq<char>,
)
    requires
        registry.wf(),
        registry.knows(handle),
    ensures
        registry.open(handle).modal(handle).is_open,
        target != registry.modal(handle).id ==> registry.open(handle).dispatch(target).modal(
            handle,
        ).is_open,
        target == registry.modal(handle).id && registry.listens(handle) ==> !registry.open(
            handle,
        ).dispatch(target).modal(handle).is_open,
{
}

} // verus!
