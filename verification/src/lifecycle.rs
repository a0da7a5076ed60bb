//! The section lifecycle manager: spawning a section for each fragment-ready
//! notification and driving its two-stage completion protocol. The reveal
//! engine's scroll-end trigger moves a section from `AwaitingRevealEnd` to
//! `AwaitingClear` and asks to show the continue indicator; the later clear
//! signal emits the fragment's completion token, despawns the section, and
//! asks to hide the indicator. Each dispatcher is a no-op on a stale or
//! already-advanced section, so neither stage can fire twice.

use vstd::pervasive::VecAdditionalExecFns;
use vstd::prelude::*;

use crate::events::SectionFrag;
use crate::events::UpdateContinueVis;
use crate::events::Visibility;
use crate::world::Section;
use crate::world::Stage;
use crate::world::TextboxWorld;
use crate::world::live_section;
use crate::world::section_at;

verus! {

/// Nothing in the world changed.
pub open spec fn world_unchanged(pre: TextboxWorld, post: TextboxWorld) -> bool {
    &&& post.textboxes@ == pre.textboxes@
    &&& post.sections@ == pre.sections@
    &&& post.requests@ == pre.requests@
    &&& post.completed@ == pre.completed@
}

/// What handling a fragment-ready notification does: exactly one new section
/// appears, under the notification's textbox, in stage `AwaitingRevealEnd`,
/// carrying the fragment's content, the completion token, and the textbox's
/// attachment strategy as its decoration; nothing else changes.
pub open spec fn fragment_ready_rel(
    pre: TextboxWorld,
    post: TextboxWorld,
    frag: SectionFrag,
    token: u64,
    s: int,
) -> bool {
    &&& frag.textbox < pre.textboxes@.len()
    &&& s == pre.sections@.len()
    &&& post.sections@.len() == pre.sections@.len() + 1
    &&& forall|i: int|
        0 <= i < pre.sections@.len() ==> post.sections@[i] == pre.sections@[i]
    &&& live_section(post, s)
    &&& section_at(post, s).textbox == frag.textbox
    &&& section_at(post, s).content@ == frag.section@
    &&& section_at(post, s).token == token
    &&& section_at(post, s).stage is AwaitingRevealEnd
    &&& section_at(post, s).decoration == pre.textboxes@[frag.textbox as int].strategy
    &&& post.textboxes@ == pre.textboxes@
    &&& post.requests@ == pre.requests@
    &&& post.completed@ == pre.completed@
}

/// The scroll-end handler acts on `s` iff `s` is a live section that has not
/// finished stage one yet.
pub open spec fn scroll_end_fires(pre: TextboxWorld, s: int) -> bool {
    live_section(pre, s) && section_at(pre, s).stage is AwaitingRevealEnd
}

/// What the scroll-end trigger does when it acts: the section moves to
/// `AwaitingClear` with every other attribute kept, a request to show the
/// owning textbox's indicator joins the queue, and nothing else changes.
/// On a stale or already-advanced section it does nothing.
pub open spec fn scroll_end_rel(pre: TextboxWorld, post: TextboxWorld, s: int) -> bool {
    if scroll_end_fires(pre, s) {
        &&& post.sections@.len() == pre.sections@.len()
        &&& forall|i: int|
            0 <= i < pre.sections@.len() && i != s ==> post.sections@[i] == pre.sections@[i]
        &&& live_section(post, s)
        &&& section_at(post, s).textbox == section_at(pre, s).textbox
        &&& section_at(post, s).content == section_at(pre, s).content
        &&& section_at(post, s).token == section_at(pre, s).token
        &&& section_at(post, s).decoration == section_at(pre, s).decoration
        &&& section_at(post, s).stage is AwaitingClear
        &&& post.requests@ == pre.requests@.push(
            UpdateContinueVis {
                entity: section_at(pre, s).textbox,
                visibility: Visibility::Visible,
            },
        )
        &&& post.textboxes@ == pre.textboxes@
        &&& post.completed@ == pre.completed@
    } else {
        world_unchanged(pre, post)
    }
}

/// The clear handler acts on `s` iff `s` is a live section armed by the
/// scroll-end handler, that is, one marked awaiting-clear.
pub open spec fn clear_fires(pre: TextboxWorld, s: int) -> bool {
    live_section(pre, s) && section_at(pre, s).stage is AwaitingClear
}

/// What the clear signal does when it acts: the section's completion token is
/// emitted to the sequencer, the section is despawned (a tombstone remains so
/// the id is never reused), a request to hide the owning textbox's indicator
/// joins the queue, and nothing else changes. On a stale section or one whose
/// reveal has not ended it does nothing.
pub open spec fn clear_rel(pre: TextboxWorld, post: TextboxWorld, s: int) -> bool {
    if clear_fires(pre, s) {
        &&& post.sections@ == pre.sections@.update(s, None)
        &&& post.completed@ == pre.completed@.push(section_at(pre, s).token)
        &&& post.requests@ == pre.requests@.push(
            UpdateContinueVis {
                entity: section_at(pre, s).textbox,
                visibility: Visibility::Hidden,
            },
        )
        &&& post.textboxes@ == pre.textboxes@
    } else {
        world_unchanged(pre, post)
    }
}

impl TextboxWorld {
    /// Handle one fragment-ready notification from the sequencer: spawn the
    /// section under its owning textbox, in stage `AwaitingRevealEnd`, with
    /// the textbox's attachment strategy applied. The notification must name
    /// an existing textbox; a dangling reference is an authoring bug the host
    /// must fail fast on before calling.
    pub fn on_fragment_ready(&mut self, frag: SectionFrag, token: u64) -> (s: usize)
        requires
            frag.textbox < old(self).textboxes@.len(),
        ensures
            fragment_ready_rel(*old(self), *final(self), frag, token, s as int),
    {
        let s = self.sections.len();
        let decoration = self.textboxes[frag.textbox].strategy;
        self.sections.push(
            Some(
                Section {
                    textbox: frag.textbox,
                    content: frag.section,
                    token,
                    stage: Stage::AwaitingRevealEnd,
                    decoration,
                },
            ),
        );
        s
    }

    /// Dispatch the reveal engine's scroll-end trigger for section `s`: arm
    /// the clear handler by marking the section awaiting-clear and enqueue a
    /// request to show the owning textbox's indicator. A stale or repeated
    /// trigger is a no-op.
    pub fn on_scroll_end(&mut self, s: usize)
        ensures
            scroll_end_rel(*old(self), *final(self), s as int),
    {
        if s < self.sections.len() {
            let mut slot: Option<Section> = None;
            self.sections.set_and_swap(s, &mut slot);
            match slot {
                Some(section) => {
                    if matches!(section.stage, Stage::AwaitingRevealEnd) {
                        let textbox = section.textbox;
                        self.sections.set(
                            s,
                            Some(Section { stage: Stage::AwaitingClear, ..section }),
                        );
                        self.requests.push(
                            UpdateContinueVis { entity: textbox, visibility: Visibility::Visible },
                        );
                    } else {
                        self.sections.set(s, Some(section));
                        proof {
                            assert(self.sections@ =~= old(self).sections@);
                        }
                    }
                },
                None => {
                    proof {
                        assert(self.sections@ =~= old(self).sections@);
                    }
                },
            }
        }
    }

    /// Dispatch the clear signal for section `s`: emit the fragment's
    /// completion token, despawn the section, and enqueue a request to hide
    /// the owning textbox's indicator. A stale signal, or one arriving before
    /// the section's reveal has ended, is a no-op.
    pub fn on_clear(&mut self, s: usize)
        ensures
            clear_rel(*old(self), *final(self), s as int),
    {
        if s < self.sections.len() {
            let mut fire: Option<(usize, u64)> = None;
            match &self.sections[s] {
                Some(section) => {
                    if matches!(section.stage, Stage::AwaitingClear) {
                        fire = Some((section.textbox, section.token));
                    }
                },
                None => {},
            }
            match fire {
                Some((textbox, token)) => {
                    self.sections.set(s, None);
                    self.completed.push(token);
                    self.requests.push(
                        UpdateContinueVis { entity: textbox, visibility: Visibility::Hidden },
                    );
                },
                None => {},
            }
        }
    }
}

} // verus!
