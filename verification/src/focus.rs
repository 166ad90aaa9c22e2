//! Which menu entry has the focus, and how focused entries are colored.
use vstd::prelude::*;

verus! {

/// How an entry got the focus.
#[derive(Clone, Copy, Debug, PartialEq, Eq, Structural)]
pub enum FocusInteraction {
    Focus,
    Click,
}

/// The focused entry and how it got the focus.
#[derive(Clone, Copy, Debug, PartialEq, Eq, Structural)]
pub struct UiFocusState {
    pub entity: u64,
    pub interaction: FocusInteraction,
}

/// The focused entry, and the entry that had the focus before.
#[derive(Clone, Copy, Debug, PartialEq, Eq, Structural)]
pub struct UiFocus {
    previous: Option<u64>,
    focus: Option<UiFocusState>,
}

impl Default for UiFocus {
    fn default() -> (r: Self)
        ensures
            r.spec_previous() is None,
            r.spec_focus() is None,
    {
        UiFocus { previous: None, focus: None }
    }
}

impl UiFocus {
    pub closed spec fn spec_previous(self) -> Option<u64> {
        self.previous
    }

    pub closed spec fn spec_focus(self) -> Option<UiFocusState> {
        self.focus
    }

    /// The entity of the focused entry, if any.
    pub open spec fn focused_entity(self) -> Option<u64> {
        match self.spec_focus() {
            Some(f) => Some(f.entity),
            None => None,
        }
    }

    /// The focus after giving it to `entity`.
    pub closed spec fn after_set(self, entity: u64, interaction: FocusInteraction) -> UiFocus {
        UiFocus { previous: self.focused_entity(), focus: Some(UiFocusState { entity, interaction }) }
    }

    /// The focus after clearing it.
    pub closed spec fn after_clear(self) -> UiFocus {
        UiFocus { previous: self.focused_entity(), focus: None }
    }

    pub fn focus(&self) -> (r: Option<UiFocusState>)
        ensures
            r == self.spec_focus(),
    {
        self.focus
    }

    pub fn previous(&self) -> (r: Option<u64>)
        ensures
            r == self.spec_previous(),
    {
        self.previous
    }

    /// Gives the focus to `entity`; the entry that had it becomes the previous one.
    pub fn set(&mut self, entity: u64, interaction: FocusInteraction)
        ensures
            *final(self) == old(self).after_set(entity, interaction),
            final(self).spec_focus() == Some(UiFocusState { entity, interaction }),
            final(self).spec_previous() == old(self).focused_entity(),
    {
        self.clear_focus();
        self.focus = Some(UiFocusState { entity, interaction });
    }

    /// Takes the focus away; the entry that had it becomes the previous one.
    pub fn clear_focus(&mut self)
        ensures
            *final(self) == old(self).after_clear(),
            final(self).spec_focus() is None,
            final(self).spec_previous() == old(self).focused_entity(),
    {
        self.previous = match self.focus {
            Some(f) => Some(f.entity),
            None => None,
        };
        self.focus = None;
    }

    /// Forgets the focus and the previous entry.
    pub fn reset(&mut self)
        ensures
            final(self).spec_focus() is None,
            final(self).spec_previous() is None,
    {
        *self = UiFocus::default();
    }

    /// Follows a change of the input focus: the newly focused entity gets the focus, or the
    /// focus is cleared.
    pub fn follow_input_focus(&mut self, input_focus: Option<u64>)
        ensures
            final(self).spec_previous() == old(self).focused_entity(),
            final(self).spec_focus() == (match input_focus {
                Some(e) => Some(UiFocusState { entity: e, interaction: FocusInteraction::Focus }),
                None => None,
            }),
    {
        match input_focus {
            Some(e) => self.set(e, FocusInteraction::Focus),
            None => self.clear_focus(),
        }
    }
}

/// Clearing the focus right after giving it to an entry leaves no focus and remembers that
/// entry as the previous one; giving the focus twice remembers the first entry.
pub proof fn lemma_set_then_clear(focus: UiFocus, entity: u64, interaction: FocusInteraction, other: u64, other_interaction: FocusInteraction)
    ensures
        focus.after_set(entity, interaction).after_clear().spec_previous() == Some(entity),
        focus.after_set(entity, interaction).after_clear().spec_focus() is None,
        focus.after_set(entity, interaction).after_set(other, other_interaction).spec_previous() == Some(entity),
{
}

/// Background colors of a menu entry: idle, clicked and focused.
#[derive(Clone, Copy, Debug, PartialEq, Eq, Structural)]
pub struct InteractionPalette {
    pub none: u32,
    pub pressed: u32,
    pub focused: u32,
}

impl InteractionPalette {
    /// The color of an entry that has the focus.
    pub fn focus_interaction_color(&self, interaction: FocusInteraction) -> (r: u32)
        ensures
            r == (match interaction {
                FocusInteraction::Focus => self.focused,
                FocusInteraction::Click => self.pressed,
            }),
    {
        match interaction {
            FocusInteraction::Focus => self.focused,
            FocusInteraction::Click => self.pressed,
        }
    }
}

} // verus!
