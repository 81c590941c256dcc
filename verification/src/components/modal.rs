//! Modal dialogs: their markup, their open/closed state, and the channel that
//! closes a modal by ID from anywhere in an application.

use crate::classes::{class_from, class_names, push_all, push_flag, with_classes, with_flag};
use vstd::prelude::*;
use yew::Classes;

verus! {

/// A request to close a modal instance by ID.
///
/// The ID provided in this message must match the ID of the modal which is to be closed, else
/// the message will be ignored.
#[derive(Debug)]
pub struct ModalCloseMsg(pub String);

impl ModalCloseMsg {
    /// The ID of the modal that this request wants closed.
    pub open spec fn target(self) -> Seq<char> {
        self.0@
    }
}

impl Clone for ModalCloseMsg {
    fn clone(&self) -> (copy: Self)
        ensures
            copy.target() == self.target(),
    {
        ModalCloseMsg(self.0.clone())
    }
}

/// Modal actions.
#[derive(Debug)]
pub enum ModalMsg {
    /// The trigger of the modal was clicked.
    Open,
    /// The background or a close button of the modal was clicked.
    Close,
    /// A close request came over the `ModalCloser` channel.
    CloseFromAgent(ModalCloseMsg),
}

/// What a modal instance is: its ID and whether it is open.
#[verifier::ext_equal]
pub struct ModalModel {
    pub id: Seq<char>,
    pub is_open: bool,
}

impl ModalModel {
    /// The modal with its flag set to `is_open`.
    pub open spec fn with_open(self, is_open: bool) -> ModalModel {
        ModalModel { id: self.id, is_open }
    }

    /// The modal after a close request for `target` reached it: closed if the
    /// request names this modal, unchanged otherwise.
    pub open spec fn after_request(self, target: Seq<char>) -> ModalModel {
        if target == self.id {
            self.with_open(false)
        } else {
            self
        }
    }

    /// The modal after `msg` was handled.
    pub open spec fn after(self, msg: ModalMsg) -> ModalModel {
        match msg {
            ModalMsg::Open => self.with_open(true),
            ModalMsg::Close => self.with_open(false),
            ModalMsg::CloseFromAgent(request) => self.after_request(request.target()),
        }
    }
}

/// The state of one modal instance: closed at first, opened by its trigger,
/// closed by a click on its background or close button or by a close request
/// that names its ID.
#[derive(Debug)]
pub struct ModalState {
    id: String,
    is_open: bool,
}

impl View for ModalState {
    type V = ModalModel;

    closed spec fn view(&self) -> ModalModel {
        ModalModel { id: self.id@, is_open: self.is_open }
    }
}

impl ModalState {
    /// A closed modal with the given ID.
    pub fn new(id: String) -> (state: ModalState)
        ensures
            state@ == (ModalModel { id: id@, is_open: false }),
    {
        ModalState { id, is_open: false }
    }

    /// A modal with the given ID that is open or closed as `is_open` says.
    pub fn from_parts(id: String, is_open: bool) -> (state: ModalState)
        ensures
            state@ == (ModalModel { id: id@, is_open }),
    {
        ModalState { id, is_open }
    }

    /// The ID of this modal.
    pub fn id(&self) -> (id: &String)
        ensures
            id@ == self@.id,
    {
        &self.id
    }

    /// Whether this modal is open.
    pub fn is_open(&self) -> (is_open: bool)
        ensures
            is_open == self@.is_open,
    {
        self.is_open
    }

    /// Whether a close request is meant for this modal.
    pub fn is_target_of(&self, request: &ModalCloseMsg) -> (hit: bool)
        ensures
            hit == (request.target() == self@.id),
    {
        request.0 == self.id
    }

    /// Handles one message: the ID stays, the flag follows the message.
    pub fn update(&mut self, msg: &ModalMsg)
        ensures
            final(self)@ == old(self)@.after(*msg),
    {
        match msg {
            ModalMsg::Open => {
                self.is_open = true;
            },
            ModalMsg::Close => {
                self.is_open = false;
            },
            ModalMsg::CloseFromAgent(request) => {
                if self.is_target_of(request) {
                    self.is_open = false;
                }
            },
        }
    }
}

/// The classes of a modal: `modal`, then the extra classes, then `is-active`
/// while the modal is open.
pub open spec fn modal_class(extra: Classes, is_active: bool) -> Seq<Seq<char>> {
    with_flag(with_classes(seq!["modal"@], class_names(extra)), is_active, "is-active"@)
}

/// The message that a click on the trigger of a modal sends: `Open` while the
/// modal is closed, none while it is open.
pub open spec fn modal_trigger_msg(is_active: bool) -> Option<ModalMsg> {
    if is_active {
        None
    } else {
        Some(ModalMsg::Open)
    }
}

/// The message that a click on the background or on a close button of a modal
/// sends: `Close` while the modal is open, none while it is closed.
pub open spec fn modal_close_msg(is_active: bool) -> Option<ModalMsg> {
    if is_active {
        Some(ModalMsg::Close)
    } else {
        None
    }
}

/// What the markup of a modal is made from.
#[derive(Debug)]
pub struct ModalMarkup {
    /// The classes of the modal element.
    pub class: Classes,
    /// What a click on the trigger sends.
    pub on_trigger: Option<ModalMsg>,
    /// What a click on the background or on a close button sends.
    pub on_close: Option<ModalMsg>,
}

impl ModalMarkup {
    /// Whether this is the markup of a modal with the extra classes `extra`
    /// that is open or not as `is_active` says.
    pub open spec fn is_for(self, extra: Classes, is_active: bool) -> bool {
        &&& class_names(self.class) == modal_class(extra, is_active)
        &&& self.on_trigger == modal_trigger_msg(is_active)
        &&& self.on_close == modal_close_msg(is_active)
    }
}

fn modal_markup(extra: &Classes, is_active: bool) -> (markup: ModalMarkup)
    ensures
        markup.is_for(*extra, is_active),
{
    proof {
        reveal_strlit("modal");
        reveal_strlit("is-active");
    }
    let mut class = class_from("modal");
    push_all(&mut class, extra.clone());
    push_flag(&mut class, is_active, "is-active");
    if is_active {
        ModalMarkup { class, on_trigger: None, on_close: Some(ModalMsg::Close) }
    } else {
        ModalMarkup { class, on_trigger: Some(ModalMsg::Open), on_close: None }
    }
}

#[derive(Clone, Debug, PartialEq)]
pub struct ModalProps {
    /// The ID of this modal, used for triggering close events from other parts of the app.
    pub id: String,
    pub classes: Classes,
}

/// A classic modal overlay, in which you can include any content you want.
///
/// [https://bulma.io/documentation/components/modal/](https://bulma.io/documentation/components/modal/)
///
/// See the docs on the `ModalCloser` agent to be able to close your modal instance from anywhere
/// in your app for maximum flexibility.
pub fn modal(props: &ModalProps, is_active: bool) -> (markup: ModalMarkup)
    ensures
        markup.is_for(props.classes, is_active),
{
    modal_markup(&props.classes, is_active)
}

#[derive(Clone, Debug, PartialEq)]
pub struct ModalCardProps {
    /// The ID of this modal, used for triggering close events from other parts of the app.
    pub id: String,
    /// The title of this modal.
    pub title: String,
    pub classes: Classes,
}

/// A classic modal with a header, body, and footer section.
///
/// [https://bulma.io/documentation/components/modal/](https://bulma.io/documentation/components/modal/)
///
/// See the docs on the `ModalCloser` agent to be able to close your modal instance from anywhere
/// in your app for maximum flexibility.
pub fn modal_card(props: &ModalCardProps, is_active: bool) -> (markup: ModalMarkup)
    ensures
        markup.is_for(props.classes, is_active),
{
    modal_markup(&props.classes, is_active)
}

/// The subscribers after `id` subscribed: a new one goes to the end, one
/// that is there already stays where it is.
pub open spec fn subscribed(subscribers: Seq<usize>, id: usize) -> Seq<usize> {
    if subscribers.contains(id) {
        subscribers
    } else {
        subscribers.push(id)
    }
}

/// Holds of every subscriber but `id`.
pub open spec fn is_other_than(id: usize) -> spec_fn(usize) -> bool {
    |other: usize| other != id
}

/// The subscribers after `id` unsubscribed: the others, in their order.
pub open spec fn unsubscribed(subscribers: Seq<usize>, id: usize) -> Seq<usize> {
    subscribers.filter(is_other_than(id))
}

/// An agent used for being able to close `Modal` & `ModalCard` instances by ID.
///
/// The agent keeps the IDs of the bridges that are connected to it, in the
/// order in which they connected, each once. A close request that reaches the
/// agent is answered with one response for each of them, in that order; the
/// host sends the responses, and each modal closes itself if the request
/// names its ID (`ModalState::update`).
///
/// This pattern allows you to communicate with a modal by its given ID, allowing
/// you to close the modal from anywhere in your application.
#[derive(Debug)]
pub struct ModalCloser {
    subscribers: Vec<usize>,
}

impl View for ModalCloser {
    type V = Seq<usize>;

    closed spec fn view(&self) -> Seq<usize> {
        self.subscribers@
    }
}

impl ModalCloser {
    #[verifier::type_invariant]
    spec fn each_once(self) -> bool {
        self.subscribers@.no_duplicates()
    }

    /// An agent without subscribers.
    pub fn create() -> (closer: ModalCloser)
        ensures
            closer@ == Seq::<usize>::empty(),
    {
        ModalCloser { subscribers: Vec::new() }
    }

    /// The agent has no messages of its own: nothing changes.
    pub fn update(&mut self, _msg: ())
        ensures
            final(self)@ == old(self)@,
    {
    }

    /// Whether `id` is subscribed.
    pub fn is_connected(&self, id: usize) -> (found: bool)
        ensures
            found == self@.contains(id),
    {
        let mut at: usize = 0;
        while at < self.subscribers.len()
            invariant
                at <= self.subscribers@.len(),
                !self.subscribers@.take(at as int).contains(id),
            decreases self.subscribers@.len() - at,
        {
            if self.subscribers[at] == id {
                return true;
            }
            proof {
                let seen = self.subscribers@.take(at as int);
                assert(self.subscribers@.take(at + 1) == seen.push(self.subscribers@[at as int]));
            }
            at += 1;
        }
        assert(self.subscribers@.take(at as int) == self.subscribers@);
        false
    }

    /// The subscribers, in the order in which they connected, each once.
    pub fn subscribers(&self) -> (ids: &Vec<usize>)
        ensures
            ids@ == self@,
            ids@.no_duplicates(),
    {
        proof {
            use_type_invariant(self);
        }
        &self.subscribers
    }

    /// A bridge connected: it is subscribed from now on.
    pub fn connected(&mut self, id: usize)
        ensures
            final(self)@ == subscribed(old(self)@, id),
    {
        proof {
            use_type_invariant(&*self);
        }
        if !self.is_connected(id) {
            let mut subscribers: Vec<usize> = Vec::new();
            core::mem::swap(&mut self.subscribers, &mut subscribers);
            subscribers.push(id);
            self.subscribers = subscribers;
        }
    }

    /// A bridge went away: it is subscribed no more. Nothing changes if it
    /// was not subscribed.
    pub fn disconnected(&mut self, id: usize)
        ensures
            final(self)@ == unsubscribed(old(self)@, id),
    {
        proof {
            use_type_invariant(&*self);
        }
        let mut kept: Vec<usize> = Vec::new();
        let mut at: usize = 0;
        while at < self.subscribers.len()
            invariant
                at <= self.subscribers@.len(),
                self.subscribers@.no_duplicates(),
                kept@ == unsubscribed(self.subscribers@.take(at as int), id),
                kept@.no_duplicates(),
            decreases self.subscribers@.len() - at,
        {
            let other = self.subscribers[at];
            proof {
                let seen = self.subscribers@.take(at as int);
                assert(self.subscribers@.take(at + 1) == seen.push(other));
                seen.lemma_filter_push(other, is_other_than(id));
                if kept@.contains(other) {
                    seen.lemma_filter_contains_rev(is_other_than(id), other);
                    let first = choose|first: int| 0 <= first < seen.len() && seen[first] == other;
                    assert(self.subscribers@[first] == self.subscribers@[at as int]);
                }
            }
            if other != id {
                kept.push(other);
            }
            at += 1;
        }
        assert(self.subscribers@.take(at as int) == self.subscribers@);
        self.subscribers = kept;
    }

    /// A close request came in: one response for each subscriber, in the
    /// order in which they connected, each carrying the request.
    pub fn handle_input(&self, msg: ModalCloseMsg) -> (responses: Vec<(usize, ModalCloseMsg)>)
        ensures
            self@.no_duplicates(),
            responses@.len() == self@.len(),
            forall|i: int|
                0 <= i < responses@.len() ==> (#[trigger] responses@[i]).0 == self@[i]
                    && responses@[i].1.target() == msg.target(),
    {
        proof {
            use_type_invariant(self);
        }
        let mut responses: Vec<(usize, ModalCloseMsg)> = Vec::new();
        let mut at: usize = 0;
        while at < self.subscribers.len()
            invariant
                at <= self.subscribers@.len(),
                responses@.len() == at,
                forall|i: int|
                    0 <= i < at ==> (#[trigger] responses@[i]).0 == self.subscribers@[i]
                        && responses@[i].1.target() == msg.target(),
            decreases self.subscribers@.len() - at,
        {
            responses.push((self.subscribers[at], msg.clone()));
            at += 1;
        }
        responses
    }
}

} // verus!
