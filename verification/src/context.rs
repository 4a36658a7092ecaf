//! The context that a pass hands to every widget.
//!
//! It holds the ambient focus node and focus scope, the identity of the
//! widget whose method is running, and what the widgets ask of the engine:
//! focus requests, registrations, repaints, messages and drawn text.
//! [`PassState`] is its mathematical model; each method of [`PassCtx`] is
//! stated as one step of that model.

use vstd::prelude::*;
use crate::env::Color;
use crate::event::Command;
use crate::geometry::{Point, Size};
use crate::manager::{FocusChange, FocusManager, FocusState, FocusTransition};
use crate::node::{FocusNode, FocusScopeNode, WidgetId};

verus! {

/// A message with the widget it is addressed to.
#[derive(Clone, Copy, Debug, PartialEq, Eq)]
pub struct Submitted {
    pub command: Command,
    pub target: WidgetId,
}

/// One text drawn in the paint pass: where, in which colour, and how large.
#[derive(Clone, Copy, Debug, PartialEq, Eq)]
pub struct TextDraw {
    pub origin: Point,
    pub color: Color,
    pub size: Size,
}

/// The mathematical state of a pass context.
pub struct PassState {
    /// The identity of the widget whose method is running.
    pub widget_id: WidgetId,
    /// The ambient focus node: that of the nearest enclosing focus widget.
    pub focus_node: FocusNode,
    /// The ambient focus scope: that of the nearest enclosing scope.
    pub focus_scope: FocusScopeNode,
    /// Whether a widget has marked the event of this pass as handled.
    pub is_handled: bool,
    /// Whether a widget has asked for a repaint.
    pub paint_requested: bool,
    /// The focus manager.
    pub focus: FocusState,
    /// The messages submitted so far, oldest first.
    pub commands: Seq<Submitted>,
    /// The texts drawn so far, oldest first.
    pub drawn: Seq<TextDraw>,
    /// The number of the next identity to hand out.
    pub next_id: u64,
}

impl PassState {
    /// The state of a fresh context: the root identity 0, no ambient node or
    /// scope, an empty focus manager, and 1 as the next identity.
    pub open spec fn initial() -> PassState {
        PassState {
            widget_id: WidgetId(0),
            focus_node: FocusNode::spec_empty(),
            focus_scope: FocusScopeNode::spec_empty(),
            is_handled: false,
            paint_requested: false,
            focus: FocusState::empty(),
            commands: Seq::empty(),
            drawn: Seq::empty(),
            next_id: 1,
        }
    }

    /// The focus manager is well formed: no widget is registered twice.
    pub open spec fn wf(self) -> bool {
        self.focus.wf()
    }

    /// The ambient focus context: the focus node and the focus scope.
    pub open spec fn ambient(self) -> (FocusNode, FocusScopeNode) {
        (self.focus_node, self.focus_scope)
    }

    pub open spec fn set_widget_id(self, id: WidgetId) -> PassState {
        PassState { widget_id: id, ..self }
    }

    pub open spec fn set_focus_node(self, node: FocusNode) -> PassState {
        PassState { focus_node: node, ..self }
    }

    pub open spec fn set_focus_scope_node(self, node: FocusScopeNode) -> PassState {
        PassState { focus_scope: node, ..self }
    }

    /// The state at the start of a pass: the event is not handled and no
    /// repaint is asked for.
    pub open spec fn begin_pass(self) -> PassState {
        PassState { is_handled: false, paint_requested: false, ..self }
    }

    pub open spec fn set_handled(self) -> PassState {
        PassState { is_handled: true, ..self }
    }

    pub open spec fn request_paint(self) -> PassState {
        PassState { paint_requested: true, ..self }
    }

    /// The running widget asks for the focus.
    pub open spec fn request_focus(self) -> PassState {
        PassState { focus: self.focus.request(FocusChange::Focus(self.widget_id)), ..self }
    }

    pub open spec fn focus_next(self) -> PassState {
        PassState { focus: self.focus.request(FocusChange::Next), ..self }
    }

    pub open spec fn focus_prev(self) -> PassState {
        PassState { focus: self.focus.request(FocusChange::Previous), ..self }
    }

    /// The running widget registers as focusable, in the ambient scope.
    pub open spec fn register_for_focus(self) -> PassState {
        PassState { focus: self.focus.register(self.widget_id, self.focus_scope.widget_id), ..self }
    }

    pub open spec fn submit_command(self, command: Command, target: WidgetId) -> PassState {
        PassState { commands: self.commands.push(Submitted { command, target }), ..self }
    }

    pub open spec fn draw_text(self, origin: Point, color: Color, size: Size) -> PassState {
        PassState { drawn: self.drawn.push(TextDraw { origin, color, size }), ..self }
    }

    /// The identity that the next attached widget gets, if one is left.
    pub open spec fn fresh_id(self) -> Option<WidgetId> {
        if self.next_id < u64::MAX {
            Some(WidgetId(self.next_id))
        } else {
            None
        }
    }

    /// The state after an identity was asked for.
    pub open spec fn take_id(self) -> PassState {
        if self.next_id < u64::MAX {
            PassState { next_id: (self.next_id + 1) as u64, ..self }
        } else {
            self
        }
    }
}

/// The context of a pass.
#[derive(Clone, Debug, PartialEq, Eq)]
pub struct PassCtx {
    pub widget_id: WidgetId,
    pub focus_node: FocusNode,
    pub focus_scope: FocusScopeNode,
    pub is_handled: bool,
    pub paint_requested: bool,
    pub focus: FocusManager,
    pub commands: Vec<Submitted>,
    pub drawn: Vec<TextDraw>,
    pub next_id: u64,
}

impl View for PassCtx {
    type V = PassState;

    open spec fn view(&self) -> PassState {
        PassState {
            widget_id: self.widget_id,
            focus_node: self.focus_node,
            focus_scope: self.focus_scope,
            is_handled: self.is_handled,
            paint_requested: self.paint_requested,
            focus: self.focus@,
            commands: self.commands@,
            drawn: self.drawn@,
            next_id: self.next_id,
        }
    }
}

impl PassCtx {
    /// A context at the root of the tree, before any pass.
    pub fn new() -> (ctx: PassCtx)
        ensures
            ctx@ == PassState::initial(),
            ctx@.wf(),
    {
        PassCtx {
            widget_id: WidgetId(0),
            focus_node: FocusNode::empty(),
            focus_scope: FocusScopeNode::empty(),
            is_handled: false,
            paint_requested: false,
            focus: FocusManager::new(),
            commands: Vec::new(),
            drawn: Vec::new(),
            next_id: 1,
        }
    }

    /// Readies the context for the next pass: the marks of the last one, a
    /// handled event and a wanted repaint, are cleared.
    pub fn begin_pass(&mut self)
        ensures
            final(self)@ == old(self)@.begin_pass(),
    {
        self.is_handled = false;
        self.paint_requested = false;
    }

    /// The identity of the widget whose method is running.
    pub fn widget_id(&self) -> (id: WidgetId)
        ensures
            id == self@.widget_id,
    {
        self.widget_id
    }

    /// Makes `id` the identity of the running widget.
    pub fn set_widget_id(&mut self, id: WidgetId)
        ensures
            final(self)@ == old(self)@.set_widget_id(id),
    {
        self.widget_id = id;
    }

    /// The ambient focus node.
    pub fn focus_node(&self) -> (node: FocusNode)
        ensures
            node == self@.focus_node,
    {
        self.focus_node
    }

    /// Installs `node` as the ambient focus node.
    pub fn set_focus_node(&mut self, node: FocusNode)
        ensures
            final(self)@ == old(self)@.set_focus_node(node),
    {
        self.focus_node = node;
    }

    /// The ambient focus scope.
    pub fn focus_scope(&self) -> (node: FocusScopeNode)
        ensures
            node == self@.focus_scope,
    {
        self.focus_scope
    }

    /// Installs `node` as the ambient focus scope.
    pub fn set_focus_scope_node(&mut self, node: FocusScopeNode)
        ensures
            final(self)@ == old(self)@.set_focus_scope_node(node),
    {
        self.focus_scope = node;
    }

    /// Whether the event of this pass is marked as handled.
    pub fn is_handled(&self) -> (handled: bool)
        ensures
            handled == self@.is_handled,
    {
        self.is_handled
    }

    /// Marks the event of this pass as handled.
    pub fn set_handled(&mut self)
        ensures
            final(self)@ == old(self)@.set_handled(),
    {
        self.is_handled = true;
    }

    /// Asks for a repaint.
    pub fn request_paint(&mut self)
        ensures
            final(self)@ == old(self)@.request_paint(),
    {
        self.paint_requested = true;
    }

    /// Asks for the focus on behalf of the running widget. The request
    /// replaces one that is still pending.
    pub fn request_focus(&mut self)
        ensures
            final(self)@ == old(self)@.request_focus(),
    {
        self.focus.request(FocusChange::Focus(self.widget_id));
    }

    /// Asks to move the focus to the next focusable widget of the scope.
    pub fn focus_next(&mut self)
        ensures
            final(self)@ == old(self)@.focus_next(),
    {
        self.focus.request(FocusChange::Next);
    }

    /// Asks to move the focus to the previous focusable widget of the scope.
    pub fn focus_prev(&mut self)
        ensures
            final(self)@ == old(self)@.focus_prev(),
    {
        self.focus.request(FocusChange::Previous);
    }

    /// Registers the running widget as focusable, in the ambient scope.
    pub fn register_for_focus(&mut self)
        ensures
            final(self)@ == old(self)@.register_for_focus(),
            old(self)@.wf() ==> final(self)@.wf(),
    {
        self.focus.register(self.widget_id, self.focus_scope.widget_id);
    }

    /// Submits a message addressed to `target`.
    pub fn submit_command(&mut self, command: Command, target: WidgetId)
        ensures
            final(self)@ == old(self)@.submit_command(command, target),
    {
        self.commands.push(Submitted { command, target });
    }

    /// Draws a text of the given size at `origin`.
    pub fn draw_text(&mut self, origin: Point, color: Color, size: Size)
        ensures
            final(self)@ == old(self)@.draw_text(origin, color, size),
    {
        self.drawn.push(TextDraw { origin, color, size });
    }

    /// Hands out the next identity. The numbers run from 1 upwards, and none
    /// is handed out twice; once they are used up the answer is `None`.
    pub fn fresh_id(&mut self) -> (id: Option<WidgetId>)
        ensures
            id == old(self)@.fresh_id(),
            final(self)@ == old(self)@.take_id(),
    {
        if self.next_id < u64::MAX {
            let id = WidgetId(self.next_id);
            self.next_id = self.next_id + 1;
            Some(id)
        } else {
            None
        }
    }

    /// Resolves the pending focus request, as the engine does between
    /// passes, and says which widgets are to be told.
    pub fn resolve_focus(&mut self) -> (moved: FocusTransition)
        ensures
            final(self)@ == (PassState { focus: old(self)@.focus.resolve(), ..old(self)@ }),
            moved == old(self)@.focus.transition(),
            old(self)@.wf() ==> final(self)@.wf(),
    {
        self.focus.resolve()
    }
}

/// No identity is handed out twice: an identity that was handed out is
/// below the number of the next one, and stays so however many are taken.
pub proof fn lemma_fresh_ids_differ(ctx: PassState)
    requires
        ctx.fresh_id() is Some,
    ensures
        ctx.fresh_id() == Some(WidgetId(ctx.next_id)),
        ctx.next_id < ctx.take_id().next_id,
        ctx.take_id().next_id <= ctx.take_id().take_id().next_id,
        ctx.take_id().fresh_id() is Some ==> ctx.take_id().fresh_id() != ctx.fresh_id(),
{
}

} // verus!
