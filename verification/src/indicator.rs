//! The continue-indicator coordinator: pending visibility requests are
//! applied to the continue-marked children of the addressed textbox, strictly
//! in the order the requests were enqueued, so a show followed by a hide for
//! the same textbox always ends hidden. A request for an unknown textbox, or
//! one whose textbox has no indicator child, is a no-op.

use vstd::pervasive::VecAdditionalExecFns;
use vstd::prelude::*;

use crate::events::UpdateContinueVis;
use crate::events::Visibility;
use crate::world::Child;
use crate::world::TextBox;
use crate::world::TextboxWorld;
use crate::world::last_request_for;

verus! {

/// One child after a visibility `v` is applied to its textbox: a child with
/// the continue marker takes `v`; any other child is untouched.
pub open spec fn set_child(c: Child, v: Visibility) -> Child {
    if c.marker is Some {
        Child { marker: c.marker, visibility: v }
    } else {
        c
    }
}

/// Child `c` of textbox `t` after the requests `reqs` are drained in order:
/// an indicator child ends at the visibility of the last request addressed to
/// `t`, if there is one; every other child, and every child of a textbox no
/// request reached, keeps its value.
pub open spec fn drained_child(
    pre: TextboxWorld,
    reqs: Seq<UpdateContinueVis>,
    t: int,
    c: int,
) -> Child
    recommends
        0 <= t < pre.textboxes@.len(),
        0 <= c < pre.textboxes@[t].children@.len(),
{
    let orig = pre.textboxes@[t].children@[c];
    match last_request_for(reqs, t) {
        Some(v) => set_child(orig, v),
        None => orig,
    }
}

/// What draining the request queue does: the queue empties, sections and
/// emitted tokens are untouched, and every child of every textbox ends as
/// [`drained_child`] says: indicator children take the last pending request
/// for their textbox, everything else keeps its value.
pub open spec fn drain_rel(pre: TextboxWorld, post: TextboxWorld) -> bool {
    &&& post.requests@.len() == 0
    &&& post.sections@ == pre.sections@
    &&& post.completed@ == pre.completed@
    &&& post.textboxes@.len() == pre.textboxes@.len()
    &&& forall|t: int|
        0 <= t < pre.textboxes@.len() ==> (#[trigger] post.textboxes@[t]).strategy
            == pre.textboxes@[t].strategy
    &&& forall|t: int|
        0 <= t < pre.textboxes@.len() ==> (#[trigger] post.textboxes@[t]).children@.len()
            == pre.textboxes@[t].children@.len()
    &&& forall|t: int, c: int|
        0 <= t < pre.textboxes@.len() && 0 <= c < pre.textboxes@[t].children@.len()
            ==> #[trigger] post.textboxes@[t].children@[c] == drained_child(
            pre,
            pre.requests@,
            t,
            c,
        )
}

/// Appending one request changes the last pending request only for the
/// textbox the new request addresses.
pub proof fn lemma_last_request_push(reqs: Seq<UpdateContinueVis>, x: UpdateContinueVis, t: int)
    ensures
        last_request_for(reqs.push(x), t) == (if x.entity == t {
            Some(x.visibility)
        } else {
            last_request_for(reqs, t)
        }),
{
    assert(reqs.push(x).drop_last() =~= reqs);
}

impl TextBox {
    /// Set every continue-marked child to `v`, leaving other children alone.
    pub fn set_indicator_visibility(&mut self, v: Visibility)
        ensures
            final(self).strategy == old(self).strategy,
            final(self).children@.len() == old(self).children@.len(),
            forall|c: int|
                0 <= c < old(self).children@.len() ==> final(self).children@[c] == set_child(
                    old(self).children@[c],
                    v,
                ),
    {
        let mut c: usize = 0;
        while c < self.children.len()
            invariant
                c <= self.children@.len(),
                self.strategy == old(self).strategy,
                self.children@.len() == old(self).children@.len(),
                forall|j: int|
                    0 <= j < c ==> self.children@[j] == set_child(old(self).children@[j], v),
                forall|j: int|
                    c <= j < self.children@.len() ==> self.children@[j] == old(
                        self,
                    ).children@[j],
            decreases self.children@.len() - c,
        {
            let marker = self.children[c].marker;
            if marker.is_some() {
                self.children.set(c, Child { marker, visibility: v });
            }
            c += 1;
        }
    }
}

impl TextboxWorld {
    /// Drain the visibility-request queue in order, setting the continue
    /// indicator children of each addressed textbox. A request naming an
    /// unknown textbox, or a textbox without indicator children, does
    /// nothing.
    pub fn update_continue_visibility(&mut self)
        ensures
            drain_rel(*old(self), *final(self)),
    {
        let n = self.requests.len();
        let mut k: usize = 0;
        while k < n
            invariant
                k <= n,
                n == old(self).requests@.len(),
                self.requests@ == old(self).requests@,
                self.sections@ == old(self).sections@,
                self.completed@ == old(self).completed@,
                self.textboxes@.len() == old(self).textboxes@.len(),
                forall|t: int|
                    0 <= t < old(self).textboxes@.len() ==> (
                    #[trigger] self.textboxes@[t]).strategy == old(self).textboxes@[t].strategy,
                forall|t: int|
                    0 <= t < old(self).textboxes@.len() ==> (
                    #[trigger] self.textboxes@[t]).children@.len() == old(
                        self,
                    ).textboxes@[t].children@.len(),
                forall|t: int, c: int|
                    0 <= t < old(self).textboxes@.len() && 0 <= c < old(
                        self,
                    ).textboxes@[t].children@.len() ==> #[trigger] self.textboxes@[t].children@[c]
                        == drained_child(
                        *old(self),
                        old(self).requests@.take(k as int),
                        t,
                        c,
                    ),
            decreases n - k,
        {
            let ghost prefix = old(self).requests@.take(k as int);
            let req = self.requests[k];
            proof {
                assert(old(self).requests@.take(k as int + 1) =~= prefix.push(req));
            }
            if req.entity < self.textboxes.len() {
                let mut textbox = TextBox::new(0);
                self.textboxes.set_and_swap(req.entity, &mut textbox);
                textbox.set_indicator_visibility(req.visibility);
                self.textboxes.set(req.entity, textbox);
            }
            proof {
                assert forall|t: int, c: int|
                    0 <= t < old(self).textboxes@.len() && 0 <= c < old(
                        self,
                    ).textboxes@[t].children@.len() implies #[trigger] self.textboxes@[t].children@[c]
                    == drained_child(*old(self), prefix.push(req), t, c) by {
                    lemma_last_request_push(prefix, req, t);
                }
            }
            k += 1;
        }
        proof {
            assert(old(self).requests@.take(n as int) =~= old(self).requests@);
        }
        self.requests.clear();
    }
}

} // verus!
