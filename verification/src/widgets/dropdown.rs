use vstd::prelude::*;

verus! {

/// Whether a dropdown (select, menu) is open, and whether the click that
/// opened it is still on its way up to the document.
#[derive(Copy, Clone, Debug, PartialEq, Eq, Structural)]
pub struct DropdownState {
    pub open: bool,
    pub just_opened: bool,
}

/// What a dropdown hears.
#[derive(Copy, Clone, Debug, PartialEq, Eq, Structural)]
pub enum DropdownEvent {
    /// A click on the trigger.
    TriggerClick,
    /// A click anywhere in the document (the trigger's own click included,
    /// after it).
    DocumentClick,
    /// The Escape key.
    Escape,
    /// An entry of the list was chosen.
    Chosen,
}

impl DropdownState {
    pub fn closed() -> (r: Self)
        ensures
            !r.open,
            !r.just_opened,
    {
        DropdownState { open: false, just_opened: false }
    }
}

pub open spec fn spec_dropdown_step(s: DropdownState, e: DropdownEvent) -> DropdownState {
    match e {
        DropdownEvent::TriggerClick => DropdownState {
            open: !s.open,
            just_opened: if !s.open { true } else { s.just_opened },
        },
        DropdownEvent::DocumentClick => if s.just_opened {
            DropdownState { open: s.open, just_opened: false }
        } else {
            DropdownState { open: false, just_opened: false }
        },
        DropdownEvent::Escape | DropdownEvent::Chosen => DropdownState {
            open: false,
            just_opened: s.just_opened,
        },
    }
}

/// The next state of a dropdown: the trigger toggles it, and remembers when
/// it opened it so that the document's sight of the same click does not
/// close it again; any other click, Escape, or a choice closes it.
pub fn dropdown_step(s: DropdownState, e: DropdownEvent) -> (r: DropdownState)
    ensures
        r == spec_dropdown_step(s, e),
{
    match e {
        DropdownEvent::TriggerClick => {
            let just_opened = if !s.open {
                true
            } else {
                s.just_opened
            };
            DropdownState { open: !s.open, just_opened }
        },
        DropdownEvent::DocumentClick => {
            if s.just_opened {
                DropdownState { open: s.open, just_opened: false }
            } else {
                DropdownState { open: false, just_opened: false }
            }
        },
        DropdownEvent::Escape | DropdownEvent::Chosen => DropdownState {
            open: false,
            just_opened: s.just_opened,
        },
    }
}

/// The state of a combobox: open or not, the search text typed into it, and
/// the chosen value.
#[derive(Debug)]
pub struct ComboboxState {
    pub open: bool,
    pub query: String,
    pub selected: Option<String>,
}

/// What a combobox hears.
#[derive(Debug)]
pub enum ComboboxEvent {
    /// The input now holds this text.
    Typed(String),
    /// The input took the focus.
    Focused,
    /// The input lost the focus, and the short delay after it has passed.
    FocusLost,
    /// An option with this value was pressed.
    Picked(String),
    /// The Escape key.
    Escape,
}

/// The next state of a combobox: typing searches and opens it, the focus
/// opens it and losing it closes it, picking an option selects it, clears
/// the search and closes, and Escape clears the search and closes.
pub fn combobox_step(s: ComboboxState, e: ComboboxEvent) -> (r: ComboboxState)
    ensures
        match e {
            ComboboxEvent::Typed(t) => r.open && r.query == t && r.selected == s.selected,
            ComboboxEvent::Focused => r.open && r.query == s.query && r.selected == s.selected,
            ComboboxEvent::FocusLost => !r.open && r.query == s.query && r.selected == s.selected,
            ComboboxEvent::Picked(v) => !r.open && r.query@.len() == 0 && r.selected == Some(v),
            ComboboxEvent::Escape => !r.open && r.query@.len() == 0 && r.selected == s.selected,
        },
{
    match e {
        ComboboxEvent::Typed(t) => ComboboxState { open: true, query: t, selected: s.selected },
        ComboboxEvent::Focused => ComboboxState { open: true, query: s.query, selected: s.selected },
        ComboboxEvent::FocusLost => ComboboxState {
            open: false,
            query: s.query,
            selected: s.selected,
        },
        ComboboxEvent::Picked(v) => ComboboxState {
            open: false,
            query: String::new(),
            selected: Some(v),
        },
        ComboboxEvent::Escape => ComboboxState {
            open: false,
            query: String::new(),
            selected: s.selected,
        },
    }
}

} // verus!
