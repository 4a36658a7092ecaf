//! A focus scope widget.

use vstd::prelude::*;
use crate::context::{PassCtx, PassState};
use crate::env::Env;
use crate::event::{Event, LifeCycle};
use crate::focus::Focus;
use crate::geometry::{BoxConstraints, Point, Rect, Size};
use crate::manager::lemma_register;
use crate::node::FocusScopeNode;
use crate::widget::{Widget, WidgetPod};

verus! {

/// A widget that serves as a scope for its descendants: moving the focus to
/// the next or the previous widget stays among the focusable widgets below
/// it.
///
/// In every pass it installs its own scope node as the ambient scope, runs
/// the pass of its child, and puts the caller's scope back, whatever the
/// child has left there.
#[derive(Clone, Debug, PartialEq, Eq)]
pub struct FocusScope<W> {
    pub child: WidgetPod<W>,
    pub focus_scope_node: FocusScopeNode,
}

impl<W> FocusScope<W> {
    /// A scope around `child`, not attached yet.
    pub open spec fn spec_new(child: W) -> FocusScope<W> {
        FocusScope { child: WidgetPod::spec_new(child), focus_scope_node: FocusScopeNode::spec_empty() }
    }

    /// Create a new scope with a child.
    #[verifier::when_used_as_spec(spec_new)]
    pub fn new(child: W) -> (scope: FocusScope<W>)
        ensures
            scope == FocusScope::spec_new(child),
    {
        FocusScope { child: WidgetPod::new(child), focus_scope_node: FocusScopeNode::empty() }
    }

    /// The scope as the lifecycle event leaves it before the child's pass:
    /// on attachment a scope without an identity records the running one.
    pub open spec fn note(self, ctx: PassState, event: LifeCycle) -> FocusScope<W> {
        if event is WidgetAdded && self.focus_scope_node.widget_id is None {
            FocusScope {
                focus_scope_node: FocusScopeNode { widget_id: Some(ctx.widget_id) },
                ..self
            }
        } else {
            self
        }
    }

    /// Records the identity of the scope when it is attached. Once recorded
    /// it stays.
    pub fn note_lifecycle(&mut self, ctx: &PassCtx, event: &LifeCycle)
        ensures
            *final(self) == old(self).note(ctx@, *event),
    {
        match event {
            LifeCycle::WidgetAdded => {
                if self.focus_scope_node.widget_id.is_none() {
                    self.focus_scope_node.widget_id = Some(ctx.widget_id());
                }
            },
            _ => {},
        }
    }

    /// Installs the scope's node as the ambient scope and hands back the one
    /// that was there.
    pub fn install(&self, ctx: &mut PassCtx) -> (previous: FocusScopeNode)
        ensures
            previous == old(ctx)@.focus_scope,
            final(ctx)@ == old(ctx)@.set_focus_scope_node(self.focus_scope_node),
    {
        let previous = ctx.focus_scope();
        ctx.set_focus_scope_node(self.focus_scope_node);
        previous
    }
}

impl<T, W: Widget<T>> Widget<T> for FocusScope<W> {
    open spec fn on_event(self, ctx: PassState, event: Event, data: T, env: Env) -> (
        Self,
        PassState,
        T,
    ) {
        let installed = ctx.set_focus_scope_node(self.focus_scope_node);
        let (child, after, data) = self.child.on_event(installed, event, data, env);
        (FocusScope { child, ..self }, after.set_focus_scope_node(ctx.focus_scope), data)
    }

    open spec fn on_lifecycle(self, ctx: PassState, event: LifeCycle, data: T, env: Env) -> (
        Self,
        PassState,
    ) {
        let noted = self.note(ctx, event);
        let installed = ctx.set_focus_scope_node(noted.focus_scope_node);
        let (child, after) = noted.child.on_lifecycle(installed, event, data, env);
        (FocusScope { child, ..noted }, after.set_focus_scope_node(ctx.focus_scope))
    }

    open spec fn on_update(self, ctx: PassState, old_data: T, data: T, env: Env) -> (
        Self,
        PassState,
    ) {
        let installed = ctx.set_focus_scope_node(self.focus_scope_node);
        let (child, after) = self.child.on_update(installed, old_data, data, env);
        (FocusScope { child, ..self }, after.set_focus_scope_node(ctx.focus_scope))
    }

    /// The child is placed at the origin with the size it reports, and that
    /// size is reported upwards unchanged.
    open spec fn on_layout(self, ctx: PassState, bc: BoxConstraints, data: T, env: Env) -> (
        Self,
        PassState,
        Size,
    ) {
        let installed = ctx.set_focus_scope_node(self.focus_scope_node);
        let (child, after, size) = self.child.on_layout(installed, bc, data, env);
        (
            FocusScope {
                child: child.place(Rect::spec_from_origin_size(Point::spec_origin(), size)),
                ..self
            },
            after.set_focus_scope_node(ctx.focus_scope),
            size,
        )
    }

    open spec fn on_paint(self, ctx: PassState, data: T, env: Env) -> (Self, PassState) {
        let installed = ctx.set_focus_scope_node(self.focus_scope_node);
        let (child, after) = self.child.on_paint(installed, data, env);
        (FocusScope { child, ..self }, after.set_focus_scope_node(ctx.focus_scope))
    }

    fn event(&mut self, ctx: &mut PassCtx, event: &Event, data: &mut T, env: &Env) {
        let previous_focus_scope = self.install(ctx);
        self.child.event(ctx, event, data, env);
        ctx.set_focus_scope_node(previous_focus_scope);
    }

    fn lifecycle(&mut self, ctx: &mut PassCtx, event: &LifeCycle, data: &T, env: &Env) {
        self.note_lifecycle(ctx, event);
        let previous_focus_scope = self.install(ctx);
        self.child.lifecycle(ctx, event, data, env);
        ctx.set_focus_scope_node(previous_focus_scope);
    }

    fn update(&mut self, ctx: &mut PassCtx, old_data: &T, data: &T, env: &Env) {
        let previous_focus_scope = self.install(ctx);
        self.child.update(ctx, old_data, data, env);
        ctx.set_focus_scope_node(previous_focus_scope);
    }

    fn layout(&mut self, ctx: &mut PassCtx, bc: &BoxConstraints, data: &T, env: &Env) -> (size:
        Size) {
        let previous_focus_scope = self.install(ctx);
        let size = self.child.layout(ctx, bc, data, env);
        let rect = Rect::from_origin_size(Point::origin(), size);
        self.child.set_layout_rect(rect);
        ctx.set_focus_scope_node(previous_focus_scope);
        size
    }

    fn paint(&mut self, ctx: &mut PassCtx, data: &T, env: &Env) {
        let previous_focus_scope = self.install(ctx);
        self.child.paint(ctx, data, env);
        ctx.set_focus_scope_node(previous_focus_scope);
    }
}

/// The child leaves the chain of focusable widgets as it finds it when it is
/// attached.
pub open spec fn keeps_chain_on_attachment<T, W: Widget<T>>(child: WidgetPod<W>, data: T, env: Env) -> bool {
    forall|ctx: PassState| #[trigger]
        child.on_lifecycle(ctx, LifeCycle::WidgetAdded, data, env).1.focus.chain == ctx.focus.chain
}

/// Innermost scope: when a scope with a focus widget right below it is
/// attached, the focus widget registers under the identity of the scope.
/// Both have an identity afterwards, and the chain is the one before with
/// the focus widget registered in the scope.
pub proof fn lemma_focus_registers_in_scope<T, W: Widget<T>>(
    scope: FocusScope<Focus<W>>,
    ctx: PassState,
    data: T,
    env: Env,
)
    requires
        scope.child.id is Some || ctx.fresh_id() is Some,
        keeps_chain_on_attachment(scope.child.inner.child, data, env),
    ensures
        ({
            let (attached, after) = scope.on_lifecycle(ctx, LifeCycle::WidgetAdded, data, env);
            let around = attached.focus_scope_node.widget_id;
            &&& around is Some
            &&& attached.child.id is Some
            &&& attached.child.inner.focus_node.widget_id is Some
            &&& after.focus.chain == ctx.focus.register(attached.child.id->0, around).chain
            &&& after.focus.is_registered(attached.child.id->0)
            &&& !ctx.focus.is_registered(attached.child.id->0) ==> after.focus.scope_of(
                attached.child.id->0,
            ) == around
        }),
{
    let noted = scope.note(ctx, LifeCycle::WidgetAdded);
    let installed = ctx.set_focus_scope_node(noted.focus_scope_node);
    let (with_id, counted) = noted.child.attach(installed);
    let inside = with_id.enter(counted);
    let (focus, told) = with_id.inner.note(inside, LifeCycle::WidgetAdded);
    let (entered, handed) = focus.enter(told);
    assert(handed.focus.chain == ctx.focus.register(
        with_id.id->0,
        noted.focus_scope_node.widget_id,
    ).chain);
    assert(entered.child == scope.child.inner.child);
    let below = entered.child.on_lifecycle(handed, LifeCycle::WidgetAdded, data, env);
    assert(below.1.focus.chain == handed.focus.chain);
    lemma_register(ctx.focus, with_id.id->0, noted.focus_scope_node.widget_id);
}

/// Context restoration, the scope's own part: whatever the child does in a
/// pass, the focus scope that is ambient after the pass of the scope widget
/// is the one that was ambient before it.
pub proof fn lemma_scope_restores_scope<T, W: Widget<T>>(
    scope: FocusScope<W>,
    ctx: PassState,
    event: Event,
    change: LifeCycle,
    bc: BoxConstraints,
    old_data: T,
    data: T,
    env: Env,
)
    ensures
        scope.on_event(ctx, event, data, env).1.focus_scope == ctx.focus_scope,
        scope.on_lifecycle(ctx, change, data, env).1.focus_scope == ctx.focus_scope,
        scope.on_update(ctx, old_data, data, env).1.focus_scope == ctx.focus_scope,
        scope.on_layout(ctx, bc, data, env).1.focus_scope == ctx.focus_scope,
        scope.on_paint(ctx, data, env).1.focus_scope == ctx.focus_scope,
{
}

/// The identity of a scope is set once: a scope that has one keeps it
/// through every pass, and attachment gives one.
pub proof fn lemma_scope_identity_is_kept<T, W: Widget<T>>(
    scope: FocusScope<W>,
    ctx: PassState,
    event: Event,
    change: LifeCycle,
    bc: BoxConstraints,
    old_data: T,
    data: T,
    env: Env,
)
    ensures
        scope.on_event(ctx, event, data, env).0.focus_scope_node == scope.focus_scope_node,
        scope.on_update(ctx, old_data, data, env).0.focus_scope_node == scope.focus_scope_node,
        scope.on_layout(ctx, bc, data, env).0.focus_scope_node == scope.focus_scope_node,
        scope.on_paint(ctx, data, env).0.focus_scope_node == scope.focus_scope_node,
        scope.focus_scope_node.widget_id is Some ==> scope.on_lifecycle(
            ctx,
            change,
            data,
            env,
        ).0.focus_scope_node == scope.focus_scope_node,
        change is WidgetAdded ==> scope.on_lifecycle(
            ctx,
            change,
            data,
            env,
        ).0.focus_scope_node.widget_id is Some,
{
}

} // verus!
