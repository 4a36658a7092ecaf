//! A focus widget.

use vstd::prelude::*;
use crate::context::{PassCtx, PassState};
use crate::env::Env;
use crate::event::{Command, Event, HotKey, Key, KeyEvent, LifeCycle, Modifiers};
use crate::geometry::{BoxConstraints, Point, Rect, Size};
use crate::manager::FocusChange;
use crate::node::FocusNode;
use crate::widget::{Widget, WidgetPod};

verus! {

/// A widget that allows focus to be given to itself and its descendants.
///
/// In every pass it installs its own focus node as the ambient one, runs the
/// pass of its child, and puts the caller's node back, whatever the child
/// has left there. In the event pass it answers a pointer press, the Tab
/// chords and a request addressed to it.
#[derive(Clone, Debug, PartialEq, Eq)]
pub struct Focus<W> {
    pub child: WidgetPod<W>,
    /// Whether the widget asks for the focus in its first pass.
    pub auto_focus: bool,
    /// Whether that request has been made.
    pub focus_requested: bool,
    pub focus_node: FocusNode,
}

/// The chord that moves the focus on: Tab without modifiers.
pub open spec fn tab() -> HotKey {
    HotKey { mods: Modifiers::spec_none(), key: Key::Tab }
}

/// The chord that moves the focus back: Tab with Shift.
pub open spec fn shift_tab() -> HotKey {
    HotKey { mods: Modifiers::spec_shift(), key: Key::Tab }
}

/// What a key press asks of the context: Tab the next widget, Shift+Tab the
/// previous one, each with a repaint; any other chord nothing.
pub open spec fn key_response(ctx: PassState, key_event: KeyEvent) -> PassState {
    if tab().spec_matches(&key_event) {
        ctx.focus_next().request_paint()
    } else if shift_tab().spec_matches(&key_event) {
        ctx.focus_prev().request_paint()
    } else {
        ctx
    }
}

/// What the focus widget asks of the context for an event, once its child
/// has seen it. An event that is marked as handled asks nothing. A pointer
/// press, and a request addressed to the running widget, ask for the focus
/// and a repaint.
pub open spec fn input_response(ctx: PassState, event: Event) -> PassState {
    if ctx.is_handled {
        ctx
    } else {
        match event {
            Event::MouseDown(_) => ctx.request_focus().request_paint(),
            Event::KeyDown(key_event) => key_response(ctx, key_event),
            Event::Command(Command::RequestFocus(widget_id)) => if widget_id == ctx.widget_id {
                ctx.request_focus().request_paint()
            } else {
                ctx
            },
            _ => ctx,
        }
    }
}

/// Answers an event on behalf of the running focus widget.
pub fn handle_input(ctx: &mut PassCtx, event: &Event)
    ensures
        final(ctx)@ == input_response(old(ctx)@, *event),
{
    if ctx.is_handled() {
        return ;
    }
    match event {
        Event::MouseDown(_) => {
            ctx.request_focus();
            ctx.request_paint();
        },
        Event::KeyDown(key_event) => {
            // Tab and shift+tab
            if HotKey::new(Modifiers::none(), Key::Tab).matches(key_event) {
                ctx.focus_next();
                ctx.request_paint();
            } else if HotKey::new(Modifiers::shift(), Key::Tab).matches(key_event) {
                ctx.focus_prev();
                ctx.request_paint();
            }
        },
        Event::Command(Command::RequestFocus(widget_id)) => {
            if *widget_id == ctx.widget_id() {
                ctx.request_focus();
                ctx.request_paint();
            }
        },
        _ => {},
    }
}

impl<W> Focus<W> {
    /// A focus widget around `child`: not attached, not focused, without
    /// auto focus.
    pub open spec fn spec_new(child: W) -> Focus<W> {
        Focus {
            child: WidgetPod::spec_new(child),
            auto_focus: false,
            focus_requested: false,
            focus_node: FocusNode::spec_empty(),
        }
    }

    /// Create a new focus widget with a child.
    #[verifier::when_used_as_spec(spec_new)]
    pub fn new(child: W) -> (focus: Focus<W>)
        ensures
            focus == Focus::spec_new(child),
    {
        Focus {
            child: WidgetPod::new(child),
            focus_node: FocusNode::empty(),
            auto_focus: false,
            focus_requested: false,
        }
    }

    /// The widget with its auto focus set to `auto_focus`.
    pub open spec fn spec_with_auto_focus(self, auto_focus: bool) -> Focus<W> {
        Focus { auto_focus, ..self }
    }

    /// Builder-style method to set the auto focus: the widget asks for the
    /// focus in its first pass. When several widgets do so, the one that
    /// asks last gains the focus.
    #[verifier::when_used_as_spec(spec_with_auto_focus)]
    pub fn with_auto_focus(self, auto_focus: bool) -> (focus: Focus<W>)
        ensures
            focus == self.spec_with_auto_focus(auto_focus),
    {
        let mut focus = self;
        focus.auto_focus = auto_focus;
        focus
    }

    /// Whether the widget still owes its automatic focus request.
    pub open spec fn owes_focus_request(self) -> bool {
        self.auto_focus && !self.focus_requested
    }

    /// The automatic focus request: a widget with auto focus that has not
    /// asked yet asks for the focus, once.
    pub open spec fn claim(self, ctx: PassState) -> (Focus<W>, PassState) {
        if self.owes_focus_request() {
            (Focus { focus_requested: true, ..self }, ctx.request_focus())
        } else {
            (self, ctx)
        }
    }

    /// Makes the automatic focus request where it is due.
    pub fn claim_focus(&mut self, ctx: &mut PassCtx)
        ensures
            (*final(self), final(ctx)@) == old(self).claim(old(ctx)@),
    {
        if self.auto_focus && !self.focus_requested {
            self.focus_requested = true;
            ctx.request_focus();
        }
    }

    /// What a lifecycle event means for the widget itself.
    ///
    /// On attachment a widget without an identity records the running one,
    /// and the widget registers as focusable under its node. A change of
    /// focus sets the flag of the node, is told to the widget's own address,
    /// and asks for a repaint.
    pub open spec fn note(self, ctx: PassState, event: LifeCycle) -> (Focus<W>, PassState) {
        match event {
            LifeCycle::WidgetAdded => {
                let focus_node = if self.focus_node.widget_id is None {
                    FocusNode { widget_id: Some(ctx.widget_id), ..self.focus_node }
                } else {
                    self.focus_node
                };
                (Focus { focus_node, ..self }, ctx.set_focus_node(focus_node).register_for_focus())
            },
            LifeCycle::FocusChanged(value) => (
                Focus { focus_node: FocusNode { is_focused: value, ..self.focus_node }, ..self },
                ctx.submit_command(
                    Command::FocusNodeFocusChanged(value),
                    ctx.widget_id,
                ).request_paint(),
            ),
            _ => (self, ctx),
        }
    }

    /// Takes note of a lifecycle event before the child sees it.
    pub fn note_lifecycle(&mut self, ctx: &mut PassCtx, event: &LifeCycle)
        ensures
            (*final(self), final(ctx)@) == old(self).note(old(ctx)@, *event),
            old(ctx)@.wf() ==> final(ctx)@.wf(),
    {
        match event {
            LifeCycle::WidgetAdded => {
                if self.focus_node.widget_id.is_none() {
                    self.focus_node.widget_id = Some(ctx.widget_id());
                }
                ctx.set_focus_node(self.focus_node);
                ctx.register_for_focus();
            },
            LifeCycle::FocusChanged(value) => {
                self.focus_node.is_focused = *value;
                let target = ctx.widget_id();
                ctx.submit_command(Command::FocusNodeFocusChanged(*value), target);
                ctx.request_paint();
            },
            _ => {},
        }
    }

    /// The widget and the context as the child finds them in a pass: the
    /// widget's node is the ambient one, and the automatic focus request is
    /// made.
    pub open spec fn enter(self, ctx: PassState) -> (Focus<W>, PassState) {
        self.claim(ctx.set_focus_node(self.focus_node))
    }

    /// Installs the widget's node as the ambient one, makes the automatic
    /// focus request where it is due, and hands back the node that was
    /// ambient.
    pub fn install(&mut self, ctx: &mut PassCtx) -> (previous: FocusNode)
        ensures
            previous == old(ctx)@.focus_node,
            (*final(self), final(ctx)@) == old(self).enter(old(ctx)@),
    {
        let previous = ctx.focus_node();
        ctx.set_focus_node(self.focus_node);
        self.claim_focus(ctx);
        previous
    }
}

impl<T, W: Widget<T>> Widget<T> for Focus<W> {
    open spec fn on_event(self, ctx: PassState, event: Event, data: T, env: Env) -> (
        Self,
        PassState,
        T,
    ) {
        let (entered, installed) = self.enter(ctx);
        let (child, after, data) = entered.child.on_event(installed, event, data, env);
        (
            Focus { child, ..entered },
            input_response(after, event).set_focus_node(ctx.focus_node),
            data,
        )
    }

    open spec fn on_lifecycle(self, ctx: PassState, event: LifeCycle, data: T, env: Env) -> (
        Self,
        PassState,
    ) {
        let (noted, told) = self.note(ctx, event);
        let (entered, installed) = noted.enter(told);
        let (child, after) = entered.child.on_lifecycle(installed, event, data, env);
        (Focus { child, ..entered }, after.set_focus_node(ctx.focus_node))
    }

    open spec fn on_update(self, ctx: PassState, old_data: T, data: T, env: Env) -> (
        Self,
        PassState,
    ) {
        let (entered, installed) = self.enter(ctx);
        let (child, after) = entered.child.on_update(installed, old_data, data, env);
        (Focus { child, ..entered }, after.set_focus_node(ctx.focus_node))
    }

    /// The child is placed at the origin with the size it reports, and that
    /// size is reported upwards unchanged.
    open spec fn on_layout(self, ctx: PassState, bc: BoxConstraints, data: T, env: Env) -> (
        Self,
        PassState,
        Size,
    ) {
        let (entered, installed) = self.enter(ctx);
        let (child, after, size) = entered.child.on_layout(installed, bc, data, env);
        (
            Focus {
                child: child.place(Rect::spec_from_origin_size(Point::spec_origin(), size)),
                ..entered
            },
            after.set_focus_node(ctx.focus_node),
            size,
        )
    }

    open spec fn on_paint(self, ctx: PassState, data: T, env: Env) -> (Self, PassState) {
        let (entered, installed) = self.enter(ctx);
        let (child, after) = entered.child.on_paint(installed, data, env);
        (Focus { child, ..entered }, after.set_focus_node(ctx.focus_node))
    }

    fn event(&mut self, ctx: &mut PassCtx, event: &Event, data: &mut T, env: &Env) {
        let previous_focus_node = self.install(ctx);
        self.child.event(ctx, event, data, env);
        handle_input(ctx, event);
        ctx.set_focus_node(previous_focus_node);
    }

    fn lifecycle(&mut self, ctx: &mut PassCtx, event: &LifeCycle, data: &T, env: &Env) {
        let previous_focus_node = ctx.focus_node();
        self.note_lifecycle(ctx, event);
        let _ = self.install(ctx);
        self.child.lifecycle(ctx, event, data, env);
        ctx.set_focus_node(previous_focus_node);
    }

    fn update(&mut self, ctx: &mut PassCtx, old_data: &T, data: &T, env: &Env) {
        let previous_focus_node = self.install(ctx);
        self.child.update(ctx, old_data, data, env);
        ctx.set_focus_node(previous_focus_node);
    }

    fn layout(&mut self, ctx: &mut PassCtx, bc: &BoxConstraints, data: &T, env: &Env) -> (size:
        Size) {
        let previous_focus_node = self.install(ctx);
        let size = self.child.layout(ctx, bc, data, env);
        let rect = Rect::from_origin_size(Point::origin(), size);
        self.child.set_layout_rect(rect);
        ctx.set_focus_node(previous_focus_node);
        size
    }

    fn paint(&mut self, ctx: &mut PassCtx, data: &T, env: &Env) {
        let previous_focus_node = self.install(ctx);
        self.child.paint(ctx, data, env);
        ctx.set_focus_node(previous_focus_node);
    }
}

/// The child of a focus widget keeps out of the focus on attachment: it
/// leaves the pending request as it finds it.
pub open spec fn quiet_on_attachment<T, W: Widget<T>>(child: WidgetPod<W>, data: T, env: Env) -> bool {
    forall|ctx: PassState| #[trigger]
        child.on_lifecycle(ctx, LifeCycle::WidgetAdded, data, env).1.focus.request
            == ctx.focus.request
}

/// Context restoration, the widget's own part: whatever the child does in
/// a pass, the focus node that is ambient after the pass of the focus widget
/// is the one that was ambient before it.
pub proof fn lemma_focus_restores_node<T, W: Widget<T>>(
    focus: Focus<W>,
    ctx: PassState,
    event: Event,
    change: LifeCycle,
    bc: BoxConstraints,
    old_data: T,
    data: T,
    env: Env,
)
    ensures
        focus.on_event(ctx, event, data, env).1.focus_node == ctx.focus_node,
        focus.on_lifecycle(ctx, change, data, env).1.focus_node == ctx.focus_node,
        focus.on_update(ctx, old_data, data, env).1.focus_node == ctx.focus_node,
        focus.on_layout(ctx, bc, data, env).1.focus_node == ctx.focus_node,
        focus.on_paint(ctx, data, env).1.focus_node == ctx.focus_node,
{
}

/// The identity of a focus node is set once: a node that has one keeps it
/// through every pass, and attachment gives one. The flag of the node
/// changes with a notice of a focus change and with nothing else.
pub proof fn lemma_focus_identity_is_kept<T, W: Widget<T>>(
    focus: Focus<W>,
    ctx: PassState,
    event: Event,
    change: LifeCycle,
    bc: BoxConstraints,
    old_data: T,
    data: T,
    env: Env,
)
    ensures
        focus.on_event(ctx, event, data, env).0.focus_node == focus.focus_node,
        focus.on_update(ctx, old_data, data, env).0.focus_node == focus.focus_node,
        focus.on_layout(ctx, bc, data, env).0.focus_node == focus.focus_node,
        focus.on_paint(ctx, data, env).0.focus_node == focus.focus_node,
        focus.focus_node.widget_id is Some ==> focus.on_lifecycle(
            ctx,
            change,
            data,
            env,
        ).0.focus_node.widget_id == focus.focus_node.widget_id,
        change is WidgetAdded ==> focus.on_lifecycle(ctx, change, data, env).0.focus_node.widget_id
            is Some,
        focus.on_lifecycle(ctx, change, data, env).0.focus_node.is_focused == match change {
            LifeCycle::FocusChanged(value) => value,
            _ => focus.focus_node.is_focused,
        },
{
}

/// The widget that is attached last asks last: when a focus widget with
/// auto focus that has not asked yet is attached, and its child keeps out of
/// the focus, then its request is the pending one afterwards, whatever was
/// pending before, and resolving it gives the widget the focus.
pub proof fn lemma_auto_focus_asks_on_attachment<T, W: Widget<T>>(
    pod: WidgetPod<Focus<W>>,
    ctx: PassState,
    data: T,
    env: Env,
)
    requires
        pod.inner.owes_focus_request(),
        pod.id is Some || ctx.fresh_id() is Some,
        quiet_on_attachment(pod.inner.child, data, env),
    ensures
        ({
            let (attached, after) = pod.on_lifecycle(ctx, LifeCycle::WidgetAdded, data, env);
            &&& attached.id is Some
            &&& pod.id is Some ==> attached.id == pod.id
            &&& !attached.inner.owes_focus_request()
            &&& after.focus.request == Some(FocusChange::Focus(attached.id->0))
            &&& after.focus.resolve().focused == attached.id
        }),
{
    let (with_id, counted) = pod.attach(ctx);
    let inside = with_id.enter(counted);
    let (noted, told) = pod.inner.note(inside, LifeCycle::WidgetAdded);
    let (entered, installed) = noted.enter(told);
    assert(entered.child == pod.inner.child);
    assert(installed.focus.request == Some(FocusChange::Focus(with_id.id->0)));
    let quiet = entered.child.on_lifecycle(installed, LifeCycle::WidgetAdded, data, env);
    assert(quiet.1.focus.request == installed.focus.request);
}

/// Auto focus, last wins: of two focus widgets with auto focus that are
/// attached one after the other, the second holds the focus once both
/// attachments are processed and the request is resolved, provided its child
/// keeps out of the focus. Where the two have different identities, the
/// first does not hold it.
pub proof fn lemma_auto_focus_last_wins<T, A: Widget<T>, B: Widget<T>>(
    first: WidgetPod<Focus<A>>,
    second: WidgetPod<Focus<B>>,
    ctx: PassState,
    data: T,
    env: Env,
)
    requires
        first.inner.owes_focus_request(),
        second.inner.owes_focus_request(),
        second.id is Some || first.on_lifecycle(
            ctx,
            LifeCycle::WidgetAdded,
            data,
            env,
        ).1.fresh_id() is Some,
        quiet_on_attachment(second.inner.child, data, env),
    ensures
        ({
            let (a, between) = first.on_lifecycle(ctx, LifeCycle::WidgetAdded, data, env);
            let (b, after) = second.on_lifecycle(between, LifeCycle::WidgetAdded, data, env);
            &&& b.id is Some
            &&& after.focus.resolve().focused == b.id
            &&& a.id != b.id ==> after.focus.resolve().focused != a.id
        }),
{
    let (a, between) = first.on_lifecycle(ctx, LifeCycle::WidgetAdded, data, env);
    lemma_auto_focus_asks_on_attachment(second, between, data, env);
}

} // verus!
