//! The events of the event pass and of the lifecycle pass.

use vstd::prelude::*;
use crate::geometry::Point;
use crate::node::WidgetId;

verus! {

/// The state of the four base modifier keys.
#[derive(Clone, Copy, Debug, PartialEq, Eq, Structural)]
pub struct Modifiers {
    pub shift: bool,
    pub ctrl: bool,
    pub alt: bool,
    pub meta: bool,
}

impl Modifiers {
    /// No modifier held.
    pub open spec fn spec_none() -> Modifiers {
        Modifiers { shift: false, ctrl: false, alt: false, meta: false }
    }

    /// No modifier held.
    #[verifier::when_used_as_spec(spec_none)]
    pub fn none() -> (m: Modifiers)
        ensures
            m == Modifiers::spec_none(),
    {
        Modifiers { shift: false, ctrl: false, alt: false, meta: false }
    }

    /// Shift held, and nothing else.
    pub open spec fn spec_shift() -> Modifiers {
        Modifiers { shift: true, ctrl: false, alt: false, meta: false }
    }

    /// Shift held, and nothing else.
    #[verifier::when_used_as_spec(spec_shift)]
    pub fn shift() -> (m: Modifiers)
        ensures
            m == Modifiers::spec_shift(),
    {
        Modifiers { shift: true, ctrl: false, alt: false, meta: false }
    }
}

/// A key of the keyboard, as far as focus handling tells keys apart.
#[derive(Clone, Copy, Debug, PartialEq, Eq, Structural)]
pub enum Key {
    Tab,
    Enter,
    Escape,
    Character(char),
}

/// A key press or release.
#[derive(Clone, Copy, Debug, PartialEq, Eq, Structural)]
pub struct KeyEvent {
    pub key: Key,
    pub mods: Modifiers,
}

/// A pointer press or release.
#[derive(Clone, Copy, Debug, PartialEq, Eq)]
pub struct MouseEvent {
    pub pos: Point,
}

/// A key chord: one key with an exact set of modifiers.
#[derive(Clone, Copy, Debug, PartialEq, Eq, Structural)]
pub struct HotKey {
    pub mods: Modifiers,
    pub key: Key,
}

impl HotKey {
    pub fn new(mods: Modifiers, key: Key) -> (hot_key: HotKey)
        ensures
            hot_key == (HotKey { mods, key }),
    {
        HotKey { mods, key }
    }

    /// The chord matches a key event with the same key and the same modifiers.
    pub open spec fn spec_matches(&self, event: &KeyEvent) -> bool {
        self.key == event.key && self.mods == event.mods
    }

    /// The chord matches a key event with the same key and the same modifiers.
    #[verifier::when_used_as_spec(spec_matches)]
    pub fn matches(&self, event: &KeyEvent) -> (hit: bool)
        ensures
            hit == self.spec_matches(event),
    {
        self.key == event.key && self.mods == event.mods
    }
}

/// A message delivered through the event pass.
#[derive(Clone, Copy, Debug, PartialEq, Eq, Structural)]
pub enum Command {
    /// Asks the widget with this identity to take the focus.
    RequestFocus(WidgetId),
    /// Tells that the focus node of the addressed widget gained or lost the focus.
    FocusNodeFocusChanged(bool),
    /// A message of the application, by its selector.
    User(u64),
}

/// What the event pass delivers.
#[derive(Clone, Copy, Debug, PartialEq, Eq)]
pub enum Event {
    MouseDown(MouseEvent),
    MouseUp(MouseEvent),
    KeyDown(KeyEvent),
    KeyUp(KeyEvent),
    Command(Command),
}

/// What the lifecycle pass delivers.
#[derive(Clone, Copy, Debug, PartialEq, Eq)]
pub enum LifeCycle {
    /// The widget is attached to the tree; delivered once to each widget.
    WidgetAdded,
    /// The widget that receives this gained (`true`) or lost the focus.
    FocusChanged(bool),
    /// The focus moved. Sent down the tree; each child handle turns it into a
    /// `FocusChanged` for its own widget where it is the one that lost or
    /// gained the focus.
    RouteFocusChanged { lost: Option<WidgetId>, gained: Option<WidgetId> },
    /// The pointer entered (`true`) or left the widget.
    HotChanged(bool),
}

} // verus!
