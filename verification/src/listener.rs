//! The stream of key events that feeds the engine: one identifier for each
//! key that goes down, without the repeats of a key that is held down.

use crate::text::same_text;
use vstd::prelude::*;

verus! {

/// What the filter remembers of the events seen so far.
pub struct RepeatView {
    /// The identifier of the last key press that was let through.
    pub last_pressed: Option<Seq<char>>,
    /// Whether the last event seen was a key press.
    pub last_was_press: bool,
}

impl RepeatView {
    /// Before any event.
    pub open spec fn initial() -> Self {
        RepeatView { last_pressed: None, last_was_press: false }
    }

    /// Whether a press of `key` is let through: it is not, where the same key
    /// was pressed last and no other event came between.
    pub open spec fn accepts(self, key: Seq<char>) -> bool {
        !(self.last_pressed == Some(key) && self.last_was_press)
    }

    /// After a press of `key` was let through.
    pub open spec fn after_press(self, key: Seq<char>) -> Self {
        RepeatView { last_pressed: Some(key), last_was_press: true }
    }

    /// After an event that is no key press.
    pub open spec fn after_other(self) -> Self {
        RepeatView { last_was_press: false, ..self }
    }

    /// After one event: `Some` is a key press with the key's identifier,
    /// `None` any other event. A press that is held back changes nothing.
    pub open spec fn after(self, event: Option<Seq<char>>) -> Self {
        match event {
            Some(key) => if self.accepts(key) {
                self.after_press(key)
            } else {
                self
            },
            None => self.after_other(),
        }
    }
}

/// The identifiers let through for a run of events, in their order.
pub open spec fn let_through(state: RepeatView, events: Seq<Option<Seq<char>>>) -> Seq<Seq<char>>
    decreases events.len(),
{
    if events.len() == 0 {
        Seq::empty()
    } else {
        let first = match events[0] {
            Some(key) => if state.accepts(key) {
                seq![key]
            } else {
                Seq::empty()
            },
            None => Seq::empty(),
        };
        first + let_through(state.after(events[0]), events.drop_first())
    }
}

/// Holds back the repeats that a keyboard sends while a key is held down.
#[derive(Debug)]
pub struct RepeatFilter {
    last_pressed: Option<String>,
    last_was_press: bool,
}

impl View for RepeatFilter {
    type V = RepeatView;

    closed spec fn view(&self) -> RepeatView {
        RepeatView {
            last_pressed: match self.last_pressed {
                Some(key) => Some(key@),
                None => None,
            },
            last_was_press: self.last_was_press,
        }
    }
}

impl RepeatFilter {
    /// A filter that has seen no event.
    pub fn new() -> (filter: Self)
        ensures
            filter@ == RepeatView::initial(),
    {
        RepeatFilter { last_pressed: None, last_was_press: false }
    }

    /// Whether a press of `key` is to be passed on.
    pub fn accepts(&self, key: &str) -> (accepted: bool)
        ensures
            accepted == self@.accepts(key@),
    {
        if !self.last_was_press {
            return true;
        }
        match &self.last_pressed {
            Some(last) => !same_text(last.as_str(), key),
            None => true,
        }
    }

    /// Notes that a press of `key` was passed on.
    pub fn record_press(&mut self, key: String)
        ensures
            final(self)@ == old(self)@.after_press(key@),
    {
        self.last_pressed = Some(key);
        self.last_was_press = true;
    }

    /// Notes an event that is no key press: a release, or a move of the mouse.
    pub fn record_other(&mut self)
        ensures
            final(self)@ == old(self)@.after_other(),
    {
        self.last_was_press = false;
    }
}

/// However long a key is held down, its identifier is passed on once at most:
/// of a run of presses of one key with no other event between, only the first
/// can pass, and it passes unless the same key was pressed just before.
pub proof fn lemma_held_key_passes_once(state: RepeatView, key: Seq<char>, presses: nat)
    requires
        presses >= 1,
    ensures
        let_through(state, Seq::new(presses, |i: int| Some(key))) == if state.accepts(key) {
            seq![key]
        } else {
            Seq::<Seq<char>>::empty()
        },
        state.after(Some(key)).accepts(key) == false,
    decreases presses,
{
    let events = Seq::new(presses, |i: int| Some(key));
    let next = state.after(Some(key));
    if presses == 1 {
        assert(let_through(next, events.drop_first()) == Seq::<Seq<char>>::empty());
    } else {
        let rest = Seq::new((presses - 1) as nat, |i: int| Some(key));
        assert(events.drop_first() =~= rest);
        lemma_held_key_passes_once(next, key, (presses - 1) as nat);
    }
}

} // verus!
