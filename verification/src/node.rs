//! Widget identities and the two records of the ambient focus context.

use vstd::prelude::*;

verus! {

/// The identity of a widget. The engine hands one to a widget when it is
/// attached to the tree, and it never changes afterwards.
#[derive(Clone, Copy, Debug, PartialEq, Eq, Structural)]
pub struct WidgetId(pub u64);

/// Whether two optional identities are the same.
pub fn same_widget(a: Option<WidgetId>, b: Option<WidgetId>) -> (same: bool)
    ensures
        same == (a == b),
{
    match (a, b) {
        (None, None) => true,
        (Some(x), Some(y)) => x == y,
        _ => false,
    }
}

/// Identifies one focusable widget and says whether it holds the focus.
#[derive(Clone, Copy, Debug, PartialEq, Eq)]
pub struct FocusNode {
    pub widget_id: Option<WidgetId>,
    pub is_focused: bool,
}

impl FocusNode {
    /// The node of a widget that is not attached yet.
    pub open spec fn spec_empty() -> FocusNode {
        FocusNode { widget_id: None, is_focused: false }
    }

    /// The node of a widget that is not attached yet.
    #[verifier::when_used_as_spec(spec_empty)]
    pub fn empty() -> (node: FocusNode)
        ensures
            node == FocusNode::spec_empty(),
    {
        FocusNode { widget_id: None, is_focused: false }
    }
}

/// Identifies the root of a focus scope.
#[derive(Clone, Copy, Debug, PartialEq, Eq)]
pub struct FocusScopeNode {
    pub widget_id: Option<WidgetId>,
}

impl FocusScopeNode {
    /// The node of a scope that is not attached yet, and the ambient scope
    /// outside every scope.
    pub open spec fn spec_empty() -> FocusScopeNode {
        FocusScopeNode { widget_id: None }
    }

    /// The node of a scope that is not attached yet, and the ambient scope
    /// outside every scope.
    #[verifier::when_used_as_spec(spec_empty)]
    pub fn empty() -> (node: FocusScopeNode)
        ensures
            node == FocusScopeNode::spec_empty(),
    {
        FocusScopeNode { widget_id: None }
    }
}

} // verus!
