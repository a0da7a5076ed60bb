//! The model of the host world that the core acts on: textboxes with their
//! visual children, live sections in their lifecycle stage, the ordered queue
//! of pending visibility requests, and the completion tokens reported back to
//! the sequencer.

use vstd::prelude::*;

use crate::events::Continue;
use crate::events::UpdateContinueVis;
use crate::events::Visibility;

verus! {

/// One visual child of a textbox. A child bearing the [`Continue`] marker is a
/// continue indicator; every other child is left alone by this core.
#[derive(Debug)]
pub struct Child {
    pub marker: Option<Continue>,
    pub visibility: Visibility,
}

/// Lifecycle stage of a live section: the reveal animation has not finished
/// yet, or it has and the section now waits for the clear signal.
#[derive(Clone, Copy, Debug, PartialEq, Eq, Structural)]
pub enum Stage {
    AwaitingRevealEnd,
    AwaitingClear,
}

/// A live section: one fragment currently on display under its owning textbox.
#[derive(Debug)]
pub struct Section {
    /// The owning textbox.
    pub textbox: usize,
    /// The authored content being revealed.
    pub content: String,
    /// The completion token reported to the sequencer when the section clears.
    pub token: u64,
    /// Current stage of the two-stage completion protocol.
    pub stage: Stage,
    /// The attachment strategy of the owning textbox, applied at spawn time.
    pub decoration: u64,
}

/// A long-lived dialogue surface: its attachment strategy, reapplied to every
/// section spawned under it, and its visual children.
#[derive(Debug)]
pub struct TextBox {
    pub strategy: u64,
    pub children: Vec<Child>,
}

impl TextBox {
    pub fn new(strategy: u64) -> (r: Self)
        ensures
            r.strategy == strategy,
            r.children@.len() == 0,
    {
        TextBox { strategy, children: Vec::new() }
    }

    /// Attach one visual child; with `Some(Continue)` it becomes a continue
    /// indicator. Indicator attachment is the host's responsibility.
    pub fn add_child(&mut self, marker: Option<Continue>, visibility: Visibility)
        ensures
            final(self).strategy == old(self).strategy,
            final(self).children@ == old(self).children@.push(
                Child { marker, visibility },
            ),
    {
        self.children.push(Child { marker, visibility });
    }
}

/// Everything the core reads or writes: textboxes (indexed by textbox id),
/// sections (indexed by section id; a cleared section leaves a `None`
/// tombstone so ids are never reused), the ordered visibility-request queue,
/// and the completion tokens emitted so far, in order. Textboxes are
/// long-lived and never removed here: tearing one down, and whatever becomes
/// of sections still in flight under it, is the host's affair.
#[derive(Debug)]
pub struct TextboxWorld {
    pub textboxes: Vec<TextBox>,
    pub sections: Vec<Option<Section>>,
    pub requests: Vec<UpdateContinueVis>,
    pub completed: Vec<u64>,
}

/// Section id `s` names a live section.
pub open spec fn live_section(w: TextboxWorld, s: int) -> bool {
    &&& 0 <= s < w.sections@.len()
    &&& w.sections@[s] is Some
}

/// The live section named by `s`.
pub open spec fn section_at(w: TextboxWorld, s: int) -> Section
    recommends
        live_section(w, s),
{
    w.sections@[s]->0
}

/// Section `s` is a live child of textbox `t`.
pub open spec fn is_child(w: TextboxWorld, s: int, t: int) -> bool {
    live_section(w, s) && section_at(w, s).textbox == t
}

/// Section `s` is a live child of textbox `t` that has finished stage one of
/// the completion protocol (its reveal ended) but not stage two (not cleared).
pub open spec fn awaiting_child(w: TextboxWorld, s: int, t: int) -> bool {
    is_child(w, s, t) && section_at(w, s).stage is AwaitingClear
}

/// Some section under textbox `t` has completed stage one but not stage two.
pub open spec fn has_awaiting(w: TextboxWorld, t: int) -> bool {
    exists|s: int| #[trigger] awaiting_child(w, s, t)
}

/// The visibility carried by the last pending request addressed to textbox
/// `t`, if any request for `t` is pending.
pub open spec fn last_request_for(reqs: Seq<UpdateContinueVis>, t: int) -> Option<Visibility>
    decreases reqs.len(),
{
    if reqs.len() == 0 {
        None
    } else if reqs.last().entity == t {
        Some(reqs.last().visibility)
    } else {
        last_request_for(reqs.drop_last(), t)
    }
}

impl TextboxWorld {
    pub fn new() -> (r: Self)
        ensures
            r.textboxes@.len() == 0,
            r.sections@.len() == 0,
            r.requests@.len() == 0,
            r.completed@.len() == 0,
    {
        TextboxWorld {
            textboxes: Vec::new(),
            sections: Vec::new(),
            requests: Vec::new(),
            completed: Vec::new(),
        }
    }

    /// Host-side setup: bring one textbox into the world and hand back its id.
    pub fn spawn_textbox(&mut self, textbox: TextBox) -> (t: usize)
        ensures
            t == old(self).textboxes@.len(),
            final(self).textboxes@ == old(self).textboxes@.push(textbox),
            final(self).sections@ == old(self).sections@,
            final(self).requests@ == old(self).requests@,
            final(self).completed@ == old(self).completed@,
    {
        let t = self.textboxes.len();
        self.textboxes.push(textbox);
        t
    }

    /// Enqueue a visibility request, as a host would through its event writer.
    /// Requests are applied strictly in the order they were enqueued.
    pub fn send_visibility_request(&mut self, request: UpdateContinueVis)
        ensures
            final(self).textboxes@ == old(self).textboxes@,
            final(self).sections@ == old(self).sections@,
            final(self).requests@ == old(self).requests@.push(request),
            final(self).completed@ == old(self).completed@,
    {
        self.requests.push(request);
    }
}

} // verus!
