//! Scenario tests for the section lifecycle and the continue indicator.

use textbox::events::Continue;
use textbox::events::SectionFrag;
use textbox::events::TextBoxEntity;
use textbox::events::UpdateContinueVis;
use textbox::events::Visibility;
use textbox::world::Stage;
use textbox::world::TextBox;
use textbox::world::TextboxWorld;

fn world_with_textbox() -> (TextboxWorld, usize) {
    let mut w = TextboxWorld::new();
    let mut tb = TextBox::new(7);
    tb.add_child(Some(Continue), Visibility::Hidden);
    let t = w.spawn_textbox(tb);
    (w, t)
}

fn indicator_vis(w: &TextboxWorld, t: usize) -> Visibility {
    w.textboxes[t].children[0].visibility
}

#[test]
fn visibility_request_reaches_indicator() {
    // Scenario: a textbox with no sections; a show request makes its
    // indicator child visible.
    let (mut w, t) = world_with_textbox();
    assert_eq!(indicator_vis(&w, t), Visibility::Hidden);
    w.send_visibility_request(UpdateContinueVis::new(t, Visibility::Visible));
    w.update_continue_visibility();
    assert_eq!(indicator_vis(&w, t), Visibility::Visible);
}

#[test]
fn full_section_cycle() {
    // Scenario: fragment-ready spawns the section; scroll-end shows the
    // indicator and arms the clear handler; the clear signal emits the
    // completion token, despawns the section, and hides the indicator.
    let (mut w, t) = world_with_textbox();
    let frag = SectionFrag::from_text(&TextBoxEntity::new(t), "hello");
    let s = w.on_fragment_ready(frag, 42);
    assert_eq!(w.sections.len(), 1);
    let section = w.sections[s].as_ref().unwrap();
    assert_eq!(section.textbox, t);
    assert_eq!(section.content, "hello");
    assert_eq!(section.token, 42);
    assert_eq!(section.stage, Stage::AwaitingRevealEnd);
    assert_eq!(section.decoration, 7);

    w.on_scroll_end(s);
    assert_eq!(w.sections[s].as_ref().unwrap().stage, Stage::AwaitingClear);
    w.update_continue_visibility();
    assert_eq!(indicator_vis(&w, t), Visibility::Visible);
    assert!(w.completed.is_empty());

    w.on_clear(s);
    w.update_continue_visibility();
    assert_eq!(w.completed, vec![42]);
    assert!(w.sections[s].is_none());
    assert_eq!(indicator_vis(&w, t), Visibility::Hidden);
}

#[test]
fn two_fragments_in_sequence() {
    // Scenario: two fragments for the same textbox, the second only after
    // the first completes. No section exists ahead of its fragment-ready
    // notification, and the indicator toggles consistently.
    let (mut w, t) = world_with_textbox();
    let s1 = w.on_fragment_ready(SectionFrag::from_text(&TextBoxEntity::new(t), "one"), 1);
    assert_eq!(w.sections.len(), 1);

    w.on_scroll_end(s1);
    w.update_continue_visibility();
    assert_eq!(indicator_vis(&w, t), Visibility::Visible);
    w.on_clear(s1);
    w.update_continue_visibility();
    assert_eq!(indicator_vis(&w, t), Visibility::Hidden);
    assert_eq!(w.completed, vec![1]);
    // The first section has completed; still only its tombstone exists.
    assert_eq!(w.sections.len(), 1);

    let s2 = w.on_fragment_ready(SectionFrag::from_text(&TextBoxEntity::new(t), "two"), 2);
    assert_eq!(w.sections.len(), 2);
    assert_ne!(s1, s2);
    w.on_scroll_end(s2);
    w.update_continue_visibility();
    assert_eq!(indicator_vis(&w, t), Visibility::Visible);
    w.on_clear(s2);
    w.update_continue_visibility();
    assert_eq!(indicator_vis(&w, t), Visibility::Hidden);
    assert_eq!(w.completed, vec![1, 2]);
}

#[test]
fn clear_before_scroll_end_is_noop() {
    // The clear handler is armed only by the scroll-end handler: a clear
    // signal on a fresh section does nothing.
    let (mut w, t) = world_with_textbox();
    let s = w.on_fragment_ready(SectionFrag::from_text(&TextBoxEntity::new(t), "x"), 9);
    w.on_clear(s);
    assert!(w.completed.is_empty());
    assert!(w.sections[s].is_some());
    assert_eq!(w.sections[s].as_ref().unwrap().stage, Stage::AwaitingRevealEnd);
}

#[test]
fn clear_fires_at_most_once() {
    // A second clear signal for an already-cleared section is a no-op:
    // exactly one completion token per fragment.
    let (mut w, t) = world_with_textbox();
    let s = w.on_fragment_ready(SectionFrag::from_text(&TextBoxEntity::new(t), "x"), 9);
    w.on_scroll_end(s);
    w.on_clear(s);
    assert_eq!(w.completed, vec![9]);
    w.on_clear(s);
    assert_eq!(w.completed, vec![9]);
    assert!(w.sections[s].is_none());
}

#[test]
fn repeated_scroll_end_is_noop() {
    // A repeated scroll-end trigger leaves the section awaiting clear and
    // enqueues no second show request.
    let (mut w, t) = world_with_textbox();
    let s = w.on_fragment_ready(SectionFrag::from_text(&TextBoxEntity::new(t), "x"), 9);
    w.on_scroll_end(s);
    assert_eq!(w.requests.len(), 1);
    w.on_scroll_end(s);
    assert_eq!(w.requests.len(), 1);
    assert_eq!(w.sections[s].as_ref().unwrap().stage, Stage::AwaitingClear);
}

#[test]
fn stale_triggers_are_noops() {
    // Triggers naming an unknown section id do nothing.
    let (mut w, _t) = world_with_textbox();
    w.on_scroll_end(5);
    w.on_clear(5);
    assert!(w.completed.is_empty());
    assert!(w.requests.is_empty());
    assert!(w.sections.is_empty());
}

#[test]
fn show_then_hide_ends_hidden() {
    // Requests are applied strictly in order: a show followed by a hide for
    // the same textbox always ends hidden.
    let (mut w, t) = world_with_textbox();
    w.send_visibility_request(UpdateContinueVis::new(t, Visibility::Visible));
    w.send_visibility_request(UpdateContinueVis::new(t, Visibility::Hidden));
    w.update_continue_visibility();
    assert_eq!(indicator_vis(&w, t), Visibility::Hidden);
    assert!(w.requests.is_empty());
}

#[test]
fn request_for_unknown_textbox_is_noop() {
    let (mut w, t) = world_with_textbox();
    w.send_visibility_request(UpdateContinueVis::new(t + 10, Visibility::Visible));
    w.update_continue_visibility();
    assert_eq!(indicator_vis(&w, t), Visibility::Hidden);
}

#[test]
fn textbox_without_indicator_is_tolerated() {
    // A textbox with no indicator child accepts requests as no-ops.
    let mut w = TextboxWorld::new();
    let t = w.spawn_textbox(TextBox::new(0));
    w.send_visibility_request(UpdateContinueVis::new(t, Visibility::Visible));
    w.update_continue_visibility();
    assert!(w.textboxes[t].children.is_empty());
}

#[test]
fn unmarked_children_are_untouched() {
    // Only children bearing the continue marker are indicators; all
    // indicators of a textbox are updated identically, other children never.
    let mut w = TextboxWorld::new();
    let mut tb = TextBox::new(0);
    tb.add_child(None, Visibility::Hidden);
    tb.add_child(Some(Continue), Visibility::Hidden);
    tb.add_child(Some(Continue), Visibility::Hidden);
    let t = w.spawn_textbox(tb);
    w.send_visibility_request(UpdateContinueVis::new(t, Visibility::Visible));
    w.update_continue_visibility();
    assert_eq!(w.textboxes[t].children[0].visibility, Visibility::Hidden);
    assert_eq!(w.textboxes[t].children[1].visibility, Visibility::Visible);
    assert_eq!(w.textboxes[t].children[2].visibility, Visibility::Visible);
}

#[test]
fn overlapping_sections_keep_indicator_visible() {
    // Two sections in flight under one textbox: while either still awaits
    // its clear signal, draining after each step leaves the indicator
    // visible as long as one awaiting section remains after the last
    // request, and hidden once the last one clears.
    let (mut w, t) = world_with_textbox();
    let s1 = w.on_fragment_ready(SectionFrag::from_text(&TextBoxEntity::new(t), "a"), 1);
    let s2 = w.on_fragment_ready(SectionFrag::from_text(&TextBoxEntity::new(t), "b"), 2);
    w.on_scroll_end(s1);
    w.on_scroll_end(s2);
    w.update_continue_visibility();
    assert_eq!(indicator_vis(&w, t), Visibility::Visible);
    w.on_clear(s2);
    w.on_scroll_end(s1); // repeated trigger: no-op
    w.update_continue_visibility();
    assert_eq!(w.completed, vec![2]);
    w.on_clear(s1);
    w.update_continue_visibility();
    assert_eq!(indicator_vis(&w, t), Visibility::Hidden);
    assert_eq!(w.completed, vec![2, 1]);
}

#[test]
fn fragment_intake_binds_context() {
    // Intake is total over borrowed text, owned text, and prebuilt content,
    // and binds the ambient textbox context into the fragment.
    let context = TextBoxEntity::new(3);
    let a = SectionFrag::from_text(&context, "hi");
    assert_eq!(a.textbox, 3);
    assert_eq!(a.section, "hi");
    let b = SectionFrag::from_string(&context, String::from("there"));
    assert_eq!(b.textbox, 3);
    assert_eq!(b.section, "there");
}

#[test]
fn constructors_carry_their_fields() {
    let e = TextBoxEntity::new(11);
    assert_eq!(e.0, 11);
    let r = UpdateContinueVis::new(4, Visibility::Visible);
    assert_eq!(r.entity, 4);
    assert_eq!(r.visibility, Visibility::Visible);
    let tb = TextBox::new(13);
    assert_eq!(tb.strategy, 13);
    assert!(tb.children.is_empty());
}
