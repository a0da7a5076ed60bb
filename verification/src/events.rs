//! Plain value types exchanged with the host: visibility states, the continue
//! marker, textbox references, visibility requests, and fragment records.

use vstd::prelude::*;

verus! {

/// Visibility state of a continue-indicator child.
#[derive(Clone, Copy, Debug, PartialEq, Eq, Structural)]
pub enum Visibility {
    Visible,
    Hidden,
}

/// Marker for a textbox child that acts as the continue indicator.
#[derive(Clone, Copy, Debug, PartialEq, Eq, Structural)]
pub struct Continue;

/// A reference to the textbox that owns newly authored fragments: the ambient
/// context that fragment intake resolves content against.
#[derive(Clone, Copy, Debug, PartialEq, Eq, Structural)]
pub struct TextBoxEntity(pub usize);

impl TextBoxEntity {
    pub fn new(entity: usize) -> (r: Self)
        ensures
            r.0 == entity,
    {
        TextBoxEntity(entity)
    }
}

/// A request to set the continue indicator of one textbox to a visibility.
#[derive(Clone, Copy, Debug, PartialEq, Eq, Structural)]
pub struct UpdateContinueVis {
    pub entity: usize,
    pub visibility: Visibility,
}

impl UpdateContinueVis {
    pub fn new(entity: usize, visibility: Visibility) -> (r: Self)
        ensures
            r.entity == entity,
            r.visibility == visibility,
    {
        UpdateContinueVis { entity, visibility }
    }
}

/// An authored fragment bound to its owning textbox: the record handed to the
/// sequencing layer and consumed once, when its section is spawned.
#[derive(Clone, Debug)]
pub struct SectionFrag {
    pub textbox: usize,
    pub section: String,
}

impl SectionFrag {
    /// Fragment intake for borrowed text: total, no failure path.
    pub fn from_text(context: &TextBoxEntity, text: &str) -> (r: Self)
        ensures
            r.textbox == context.0,
            r.section@ == text@,
    {
        SectionFrag { textbox: context.0, section: text.to_string() }
    }

    /// Fragment intake for owned text: total, no failure path.
    pub fn from_string(context: &TextBoxEntity, text: String) -> (r: Self)
        ensures
            r.textbox == context.0,
            r.section@ == text@,
    {
        SectionFrag { textbox: context.0, section: text }
    }
}

} // verus!
