//! The guarantees of the completion protocol, proved over the transition
//! relations that the lifecycle and coordinator operations ensure: exactly
//! one section per fragment, clear only after reveal-end and at most once,
//! the cleared section gone for good, and the continue indicator visible
//! exactly while some section sits between the two stages.

use vstd::prelude::*;

use crate::events::SectionFrag;
use crate::indicator::drain_rel;
use crate::indicator::drained_child;
use crate::indicator::lemma_last_request_push;
use crate::lifecycle::clear_fires;
use crate::lifecycle::clear_rel;
use crate::lifecycle::fragment_ready_rel;
use crate::lifecycle::scroll_end_fires;
use crate::lifecycle::scroll_end_rel;
use crate::lifecycle::world_unchanged;
use crate::world::TextboxWorld;
use crate::world::awaiting_child;
use crate::world::has_awaiting;
use crate::world::is_child;
use crate::world::last_request_for;
use crate::world::live_section;
use crate::world::section_at;

verus! {

/// Every continue-marked child of textbox `t` agrees with the protocol state:
/// if no request for `t` is pending, each is visible exactly when some
/// section under `t` awaits its clear signal; if requests are pending, the
/// last one for `t` carries exactly that visibility, so draining restores
/// agreement.
pub open spec fn indicator_ok(w: TextboxWorld, t: int) -> bool
    recommends
        0 <= t < w.textboxes@.len(),
{
    match last_request_for(w.requests@, t) {
        None => forall|c: int|
            0 <= c < w.textboxes@[t].children@.len() && (
            #[trigger] w.textboxes@[t].children@[c]).marker is Some ==> (
            w.textboxes@[t].children@[c].visibility is Visible <==> has_awaiting(w, t)),
        Some(v) => (v is Visible <==> has_awaiting(w, t)),
    }
}

/// [`indicator_ok`] holds of every textbox.
pub open spec fn indicator_inv(w: TextboxWorld) -> bool {
    forall|t: int| 0 <= t < w.textboxes@.len() ==> #[trigger] indicator_ok(w, t)
}

/// With no request pending, every continue indicator is visible exactly when
/// its textbox has a section that finished stage one but not stage two: the
/// protocol's visible state at a tick boundary.
pub open spec fn indicator_matches_sections(w: TextboxWorld) -> bool {
    forall|t: int, c: int|
        0 <= t < w.textboxes@.len() && 0 <= c < w.textboxes@[t].children@.len() && (
        #[trigger] w.textboxes@[t].children@[c]).marker is Some ==> (
        w.textboxes@[t].children@[c].visibility is Visible <==> has_awaiting(w, t))
}

/// Every live section names an existing textbox as its owner: sections never
/// outlive their parent.
pub open spec fn parents_exist(w: TextboxWorld) -> bool {
    forall|s: int| #[trigger] live_section(w, s) ==> section_at(w, s).textbox < w.textboxes@.len()
}

/// Creating a section keeps every owner in existence: the notification names
/// a textbox that exists, and no textbox goes away.
pub proof fn lemma_fragment_ready_preserves_parents(
    pre: TextboxWorld,
    post: TextboxWorld,
    frag: SectionFrag,
    token: u64,
    s: int,
)
    requires
        fragment_ready_rel(pre, post, frag, token, s),
        parents_exist(pre),
    ensures
        parents_exist(post),
{
    assert forall|j: int| #[trigger] live_section(post, j) implies section_at(post, j).textbox
        < post.textboxes@.len() by {
        if j != s {
            assert(live_section(pre, j));
        }
    }
}

/// The scroll-end trigger keeps every owner in existence: the advanced
/// section keeps its textbox, and no textbox goes away.
pub proof fn lemma_scroll_end_preserves_parents(pre: TextboxWorld, post: TextboxWorld, s: int)
    requires
        scroll_end_rel(pre, post, s),
        parents_exist(pre),
    ensures
        parents_exist(post),
{
    assert forall|j: int| #[trigger] live_section(post, j) implies section_at(post, j).textbox
        < post.textboxes@.len() by {
        if j != s {
            assert(live_section(pre, j));
        } else {
            assert(live_section(pre, s));
        }
    }
}

/// The clear signal keeps every owner in existence: it only removes a
/// section, and no textbox goes away.
pub proof fn lemma_clear_preserves_parents(pre: TextboxWorld, post: TextboxWorld, s: int)
    requires
        clear_rel(pre, post, s),
        parents_exist(pre),
    ensures
        parents_exist(post),
{
    assert forall|j: int| #[trigger] live_section(post, j) implies section_at(post, j).textbox
        < post.textboxes@.len() by {
        assert(live_section(pre, j));
    }
}

/// Draining visibility requests keeps every owner in existence: sections and
/// the set of textboxes are untouched.
pub proof fn lemma_drain_preserves_parents(pre: TextboxWorld, post: TextboxWorld)
    requires
        drain_rel(pre, post),
        parents_exist(pre),
    ensures
        parents_exist(post),
{
    assert forall|j: int| #[trigger] live_section(post, j) implies section_at(post, j).textbox
        < post.textboxes@.len() by {
        assert(live_section(pre, j));
    }
}

/// A fragment-ready notification for a valid textbox creates exactly one new
/// section: the fresh id becomes a child of that textbox, in the first stage
/// of the protocol, and the child relation of every other id and textbox is
/// untouched; the fresh id named nothing before the call.
pub proof fn lemma_fragment_ready_creates_exactly_one(
    pre: TextboxWorld,
    post: TextboxWorld,
    frag: SectionFrag,
    token: u64,
    s: int,
)
    requires
        fragment_ready_rel(pre, post, frag, token, s),
    ensures
        is_child(post, s, frag.textbox as int),
        section_at(post, s).stage is AwaitingRevealEnd,
        !live_section(pre, s),
        forall|j: int, t: int| j != s ==> (is_child(post, j, t) <==> is_child(pre, j, t)),
{
}

/// A scroll-end trigger that acts arms the clear handler: afterwards, and
/// only afterwards, the clear signal can act on the section.
pub proof fn lemma_scroll_end_arms_clear(pre: TextboxWorld, post: TextboxWorld, s: int)
    requires
        scroll_end_rel(pre, post, s),
    ensures
        clear_fires(post, s) <==> (scroll_end_fires(pre, s) || clear_fires(pre, s)),
{
}

/// A freshly created section cannot be cleared: its clear handler is not yet
/// armed, so a clear signal arriving before the reveal ends does nothing.
pub proof fn lemma_no_clear_before_scroll_end(
    pre: TextboxWorld,
    post: TextboxWorld,
    frag: SectionFrag,
    token: u64,
    s: int,
)
    requires
        fragment_ready_rel(pre, post, frag, token, s),
    ensures
        !clear_fires(post, s),
{
}

/// The clear handler runs at most once per section, and the completion token
/// is emitted exactly once, coincident with that run: after a clear acts on a
/// section, a second clear signal for the same section changes nothing and
/// emits nothing.
pub proof fn lemma_clear_at_most_once(
    w0: TextboxWorld,
    w1: TextboxWorld,
    w2: TextboxWorld,
    s: int,
)
    requires
        clear_rel(w0, w1, s),
        clear_fires(w0, s),
        clear_rel(w1, w2, s),
    ensures
        w1.completed@ == w0.completed@.push(section_at(w0, s).token),
        !clear_fires(w1, s),
        world_unchanged(w1, w2),
{
}

/// After the clear handler acts, the section no longer exists: its id names
/// no live section and it is a child of no textbox.
pub proof fn lemma_cleared_section_gone(pre: TextboxWorld, post: TextboxWorld, s: int)
    requires
        clear_rel(pre, post, s),
        clear_fires(pre, s),
    ensures
        !live_section(post, s),
        forall|t: int| !is_child(post, s, t),
{
}

/// Only a fragment-ready notification ever creates a section: the trigger
/// dispatchers and the request drain never do, so no section exists ahead of
/// the sequencing layer's signal.
pub proof fn lemma_only_fragment_ready_creates(pre: TextboxWorld, post: TextboxWorld, s: int)
    requires
        scroll_end_rel(pre, post, s) || clear_rel(pre, post, s) || drain_rel(pre, post),
    ensures
        forall|j: int| #[trigger] live_section(post, j) ==> live_section(pre, j),
{
}

/// No operation but the clear handler emits a completion token: creating a
/// section, ending its reveal, and draining visibility requests all leave
/// the emitted tokens untouched.
pub proof fn lemma_token_only_at_clear(
    pre: TextboxWorld,
    post: TextboxWorld,
    frag: SectionFrag,
    token: u64,
    s: int,
)
    requires
        fragment_ready_rel(pre, post, frag, token, s) || scroll_end_rel(pre, post, s)
            || drain_rel(pre, post),
    ensures
        post.completed@ == pre.completed@,
{
}

/// Creating a section disturbs the indicator agreement of no textbox: the
/// new section has not finished stage one, and no request is enqueued.
pub proof fn lemma_fragment_ready_preserves_indicator_inv(
    pre: TextboxWorld,
    post: TextboxWorld,
    frag: SectionFrag,
    token: u64,
    s: int,
)
    requires
        fragment_ready_rel(pre, post, frag, token, s),
        indicator_inv(pre),
    ensures
        indicator_inv(post),
{
    assert forall|t: int| 0 <= t < post.textboxes@.len() implies #[trigger] indicator_ok(post, t) by {
        assert(indicator_ok(pre, t));
        assert forall|j: int| #[trigger] awaiting_child(post, j, t) implies awaiting_child(
            pre,
            j,
            t,
        ) by {
            assert(j != s);
        }
        assert forall|j: int| #[trigger] awaiting_child(pre, j, t) implies awaiting_child(
            post,
            j,
            t,
        ) by {}
        assert(has_awaiting(post, t) == has_awaiting(pre, t));
    }
}

/// A scroll-end trigger preserves the indicator agreement of every textbox:
/// for the section's own textbox the enqueued show request matches the newly
/// awaiting section; every other textbox is untouched.
pub proof fn lemma_scroll_end_preserves_indicator_inv(
    pre: TextboxWorld,
    post: TextboxWorld,
    s: int,
)
    requires
        scroll_end_rel(pre, post, s),
        indicator_inv(pre),
    ensures
        indicator_inv(post),
{
    if scroll_end_fires(pre, s) {
        let t0 = section_at(pre, s).textbox as int;
        assert forall|t: int| 0 <= t < post.textboxes@.len() implies #[trigger] indicator_ok(
            post,
            t,
        ) by {
            assert(indicator_ok(pre, t));
            lemma_last_request_push(pre.requests@, post.requests@.last(), t);
            if t == t0 {
                assert(awaiting_child(post, s, t0));
            } else {
                assert forall|j: int| #[trigger] awaiting_child(post, j, t) implies awaiting_child(
                    pre,
                    j,
                    t,
                ) by {
                    assert(j != s);
                }
                assert forall|j: int| #[trigger] awaiting_child(pre, j, t) implies awaiting_child(
                    post,
                    j,
                    t,
                ) by {
                    assert(j != s);
                }
                assert(has_awaiting(post, t) == has_awaiting(pre, t));
            }
        }
    } else {
        assert forall|t: int| 0 <= t < post.textboxes@.len() implies #[trigger] indicator_ok(
            post,
            t,
        ) by {
            assert(indicator_ok(pre, t));
            assert forall|j: int| #[trigger] awaiting_child(post, j, t) implies awaiting_child(
                pre,
                j,
                t,
            ) by {}
            assert forall|j: int| #[trigger] awaiting_child(pre, j, t) implies awaiting_child(
                post,
                j,
                t,
            ) by {}
            assert(has_awaiting(post, t) == has_awaiting(pre, t));
        }
    }
}

/// A clear signal preserves the indicator agreement of every textbox,
/// provided the cleared section was the only one of its textbox awaiting the
/// clear signal — the single in-flight prominent section that the
/// surrounding sequencing layer guarantees per textbox. The enqueued hide
/// request then matches the now-empty awaiting set; every other textbox is
/// untouched.
pub proof fn lemma_clear_preserves_indicator_inv(pre: TextboxWorld, post: TextboxWorld, s: int)
    requires
        clear_rel(pre, post, s),
        indicator_inv(pre),
        clear_fires(pre, s) ==> forall|j: int|
            j != s ==> !#[trigger] awaiting_child(pre, j, section_at(pre, s).textbox as int),
    ensures
        indicator_inv(post),
{
    if clear_fires(pre, s) {
        let t0 = section_at(pre, s).textbox as int;
        assert forall|t: int| 0 <= t < post.textboxes@.len() implies #[trigger] indicator_ok(
            post,
            t,
        ) by {
            assert(indicator_ok(pre, t));
            lemma_last_request_push(pre.requests@, post.requests@.last(), t);
            if t == t0 {
                assert forall|j: int| !(#[trigger] awaiting_child(post, j, t0)) by {
                    if awaiting_child(post, j, t0) {
                        assert(j != s);
                        assert(awaiting_child(pre, j, t0));
                    }
                }
                assert(!has_awaiting(post, t0));
            } else {
                assert forall|j: int| #[trigger] awaiting_child(post, j, t) implies awaiting_child(
                    pre,
                    j,
                    t,
                ) by {
                    assert(j != s);
                }
                assert forall|j: int| #[trigger] awaiting_child(pre, j, t) implies awaiting_child(
                    post,
                    j,
                    t,
                ) by {
                    assert(j != s);
                }
                assert(has_awaiting(post, t) == has_awaiting(pre, t));
            }
        }
    } else {
        assert forall|t: int| 0 <= t < post.textboxes@.len() implies #[trigger] indicator_ok(
            post,
            t,
        ) by {
            assert(indicator_ok(pre, t));
            assert forall|j: int| #[trigger] awaiting_child(post, j, t) implies awaiting_child(
                pre,
                j,
                t,
            ) by {}
            assert forall|j: int| #[trigger] awaiting_child(pre, j, t) implies awaiting_child(
                post,
                j,
                t,
            ) by {}
            assert(has_awaiting(post, t) == has_awaiting(pre, t));
        }
    }
}

/// Draining the request queue restores agreement between the indicators and
/// the sections: afterwards every continue indicator is visible exactly when
/// its textbox has a section that finished stage one but not stage two.
pub proof fn lemma_drain_establishes_indicator_match(pre: TextboxWorld, post: TextboxWorld)
    requires
        drain_rel(pre, post),
        indicator_inv(pre),
    ensures
        indicator_inv(post),
        indicator_matches_sections(post),
{
    assert forall|t: int|
        0 <= t < post.textboxes@.len() implies has_awaiting(post, t) == has_awaiting(pre, t) by {
        assert forall|j: int| #[trigger] awaiting_child(post, j, t) implies awaiting_child(
            pre,
            j,
            t,
        ) by {}
        assert forall|j: int| #[trigger] awaiting_child(pre, j, t) implies awaiting_child(
            post,
            j,
            t,
        ) by {}
    }
    assert forall|t: int, c: int|
        0 <= t < post.textboxes@.len() && 0 <= c < post.textboxes@[t].children@.len() && (
        #[trigger] post.textboxes@[t].children@[c]).marker is Some implies (
    post.textboxes@[t].children@[c].visibility is Visible <==> has_awaiting(post, t)) by {
        assert(indicator_ok(pre, t));
        assert(post.textboxes@[t].children@[c] == drained_child(pre, pre.requests@, t, c));
    }
    assert forall|t: int| 0 <= t < post.textboxes@.len() implies #[trigger] indicator_ok(post, t) by {
        assert(last_request_for(post.requests@, t) is None);
    }
}

} // verus!
