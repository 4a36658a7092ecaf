//! The widget interface and the handle through which a widget holds a child.
//!
//! The engine runs five passes over the tree: event, lifecycle, update,
//! layout and paint. A widget is modelled as a deterministic machine: for
//! each pass a spec function gives the widget, the context and the data
//! after the pass from those before it, and the executable method is held to
//! that function. Every widget leaves the ambient focus context as it found
//! it, and registers no widget twice.

use vstd::prelude::*;
use crate::context::{PassCtx, PassState};
use crate::env::Env;
use crate::event::{Event, LifeCycle};
use crate::geometry::{BoxConstraints, Rect, Size};
use crate::manager::FocusTransition;
use crate::node::{same_widget, WidgetId};

verus! {

/// A widget over application data of type `T`.
pub trait Widget<T>: Sized {
    /// The widget, the context and the data after the event pass.
    spec fn on_event(self, ctx: PassState, event: Event, data: T, env: Env) -> (Self, PassState, T);

    /// The widget and the context after the lifecycle pass.
    spec fn on_lifecycle(self, ctx: PassState, event: LifeCycle, data: T, env: Env) -> (
        Self,
        PassState,
    );

    /// The widget and the context after the update pass.
    spec fn on_update(self, ctx: PassState, old_data: T, data: T, env: Env) -> (Self, PassState);

    /// The widget and the context after the layout pass, and the size that
    /// the widget takes.
    spec fn on_layout(self, ctx: PassState, bc: BoxConstraints, data: T, env: Env) -> (
        Self,
        PassState,
        Size,
    );

    /// The widget and the context after the paint pass.
    spec fn on_paint(self, ctx: PassState, data: T, env: Env) -> (Self, PassState);

    /// Handles an event.
    fn event(&mut self, ctx: &mut PassCtx, event: &Event, data: &mut T, env: &Env)
        ensures
            (*final(self), final(ctx)@, *final(data)) == old(self).on_event(
                old(ctx)@,
                *event,
                *old(data),
                *env,
            ),
            final(ctx)@.ambient() == old(ctx)@.ambient(),
            old(ctx)@.wf() ==> final(ctx)@.wf(),
    ;

    /// Takes note of a change in the life of the widget.
    fn lifecycle(&mut self, ctx: &mut PassCtx, event: &LifeCycle, data: &T, env: &Env)
        ensures
            (*final(self), final(ctx)@) == old(self).on_lifecycle(old(ctx)@, *event, *data, *env),
            final(ctx)@.ambient() == old(ctx)@.ambient(),
            old(ctx)@.wf() ==> final(ctx)@.wf(),
    ;

    /// Takes note of a change of the data.
    fn update(&mut self, ctx: &mut PassCtx, old_data: &T, data: &T, env: &Env)
        ensures
            (*final(self), final(ctx)@) == old(self).on_update(old(ctx)@, *old_data, *data, *env),
            final(ctx)@.ambient() == old(ctx)@.ambient(),
            old(ctx)@.wf() ==> final(ctx)@.wf(),
    ;

    /// Lays the widget out within the constraints and says which size it
    /// takes.
    fn layout(&mut self, ctx: &mut PassCtx, bc: &BoxConstraints, data: &T, env: &Env) -> (size:
        Size)
        ensures
            (*final(self), final(ctx)@, size) == old(self).on_layout(old(ctx)@, *bc, *data, *env),
            final(ctx)@.ambient() == old(ctx)@.ambient(),
            old(ctx)@.wf() ==> final(ctx)@.wf(),
    ;

    /// Paints the widget.
    fn paint(&mut self, ctx: &mut PassCtx, data: &T, env: &Env)
        ensures
            (*final(self), final(ctx)@) == old(self).on_paint(old(ctx)@, *data, *env),
            final(ctx)@.ambient() == old(ctx)@.ambient(),
            old(ctx)@.wf() ==> final(ctx)@.wf(),
    ;
}

/// The handle through which a widget holds a child. It carries the child's
/// identity and layout rectangle, and makes the child's identity the running
/// one for the time of the child's pass.
#[derive(Clone, Debug, PartialEq, Eq)]
pub struct WidgetPod<W> {
    /// The identity of the child: `None` until the child is attached.
    pub id: Option<WidgetId>,
    pub inner: W,
    /// Where the parent has placed the child.
    pub layout_rect: Rect,
}

impl<W> WidgetPod<W> {
    /// The handle of a child that is not attached or placed yet.
    pub open spec fn spec_new(inner: W) -> WidgetPod<W> {
        WidgetPod { id: None, inner, layout_rect: Rect::spec_zero() }
    }

    /// The handle of a child that is not attached or placed yet.
    #[verifier::when_used_as_spec(spec_new)]
    pub fn new(inner: W) -> (pod: WidgetPod<W>)
        ensures
            pod == WidgetPod::spec_new(inner),
    {
        WidgetPod { id: None, inner, layout_rect: Rect::zero() }
    }

    /// The identity of the child, once it is attached.
    pub fn id(&self) -> (id: Option<WidgetId>)
        ensures
            id == self.id,
    {
        self.id
    }

    /// The child.
    pub fn widget(&self) -> (inner: &W)
        ensures
            *inner == self.inner,
    {
        &self.inner
    }

    /// Where the parent has placed the child.
    pub fn layout_rect(&self) -> (rect: Rect)
        ensures
            rect == self.layout_rect,
    {
        self.layout_rect
    }

    /// The handle with the child placed at `rect`.
    pub open spec fn place(self, rect: Rect) -> WidgetPod<W> {
        WidgetPod { layout_rect: rect, ..self }
    }

    /// Places the child at `rect`.
    pub fn set_layout_rect(&mut self, rect: Rect)
        ensures
            *final(self) == old(self).place(rect),
    {
        self.layout_rect = rect;
    }

    /// The context as the child sees it: with the child's identity as the
    /// running one, once the child has one.
    pub open spec fn enter(self, ctx: PassState) -> PassState {
        match self.id {
            Some(id) => ctx.set_widget_id(id),
            None => ctx,
        }
    }

    /// The handle when the child is attached: a child without an identity
    /// gets the next one of the context. Where the identities are used up
    /// the child stays without one, and runs under that of its parent.
    pub open spec fn attach(self, ctx: PassState) -> (WidgetPod<W>, PassState) {
        if self.id is None {
            (WidgetPod { id: ctx.fresh_id(), ..self }, ctx.take_id())
        } else {
            (self, ctx)
        }
    }

    /// What a move of the focus means for the child itself.
    pub open spec fn notice(self, lost: Option<WidgetId>, gained: Option<WidgetId>) -> Option<
        LifeCycle,
    > {
        if self.id is Some && gained == self.id {
            Some(LifeCycle::FocusChanged(true))
        } else if self.id is Some && lost == self.id {
            Some(LifeCycle::FocusChanged(false))
        } else {
            None
        }
    }

    fn enter_child(&self, ctx: &mut PassCtx) -> (previous: WidgetId)
        ensures
            previous == old(ctx)@.widget_id,
            final(ctx)@ == self.enter(old(ctx)@),
    {
        let previous = ctx.widget_id();
        match self.id {
            Some(id) => ctx.set_widget_id(id),
            None => {},
        }
        previous
    }
}

impl<W> WidgetPod<W> {
    /// The lifecycle pass of the child under its own identity.
    pub open spec fn deliver<T>(self, ctx: PassState, event: LifeCycle, data: T, env: Env) -> (
        WidgetPod<W>,
        PassState,
    ) where W: Widget<T> {
        let (inner, after) = self.inner.on_lifecycle(self.enter(ctx), event, data, env);
        (WidgetPod { inner, ..self }, after.set_widget_id(ctx.widget_id))
    }

    fn deliver_lifecycle<T>(&mut self, ctx: &mut PassCtx, event: &LifeCycle, data: &T, env: &Env)
        where W: Widget<T>
        ensures
            (*final(self), final(ctx)@) == old(self).deliver(old(ctx)@, *event, *data, *env),
            final(ctx)@.ambient() == old(ctx)@.ambient(),
            old(ctx)@.wf() ==> final(ctx)@.wf(),
    {
        let previous = self.enter_child(ctx);
        self.inner.lifecycle(ctx, event, data, env);
        ctx.set_widget_id(previous);
    }
}

impl<T, W: Widget<T>> Widget<T> for WidgetPod<W> {
    /// The child's pass runs under the child's identity; the parent's
    /// identity is the running one again afterwards.
    open spec fn on_event(self, ctx: PassState, event: Event, data: T, env: Env) -> (
        Self,
        PassState,
        T,
    ) {
        let (inner, after, data) = self.inner.on_event(self.enter(ctx), event, data, env);
        (WidgetPod { inner, ..self }, after.set_widget_id(ctx.widget_id), data)
    }

    /// On attachment the child gets its identity. A move of the focus is
    /// told to the child itself where it lost or gained the focus, and then
    /// sent on down the tree. A `FocusChanged` from above is meant for the
    /// parent and stops here.
    open spec fn on_lifecycle(self, ctx: PassState, event: LifeCycle, data: T, env: Env) -> (
        Self,
        PassState,
    ) {
        match event {
            LifeCycle::WidgetAdded => {
                let (attached, counted) = self.attach(ctx);
                attached.deliver(counted, event, data, env)
            },
            LifeCycle::FocusChanged(_) => (self, ctx),
            LifeCycle::RouteFocusChanged { lost, gained } => {
                let (told, noticed) = match self.notice(lost, gained) {
                    Some(own) => self.deliver(ctx, own, data, env),
                    None => (self, ctx),
                };
                told.deliver(noticed, event, data, env)
            },
            LifeCycle::HotChanged(_) => self.deliver(ctx, event, data, env),
        }
    }

    open spec fn on_update(self, ctx: PassState, old_data: T, data: T, env: Env) -> (
        Self,
        PassState,
    ) {
        let (inner, after) = self.inner.on_update(self.enter(ctx), old_data, data, env);
        (WidgetPod { inner, ..self }, after.set_widget_id(ctx.widget_id))
    }

    open spec fn on_layout(self, ctx: PassState, bc: BoxConstraints, data: T, env: Env) -> (
        Self,
        PassState,
        Size,
    ) {
        let (inner, after, size) = self.inner.on_layout(self.enter(ctx), bc, data, env);
        (WidgetPod { inner, ..self }, after.set_widget_id(ctx.widget_id), size)
    }

    open spec fn on_paint(self, ctx: PassState, data: T, env: Env) -> (Self, PassState) {
        let (inner, after) = self.inner.on_paint(self.enter(ctx), data, env);
        (WidgetPod { inner, ..self }, after.set_widget_id(ctx.widget_id))
    }

    fn event(&mut self, ctx: &mut PassCtx, event: &Event, data: &mut T, env: &Env) {
        let previous = self.enter_child(ctx);
        self.inner.event(ctx, event, data, env);
        ctx.set_widget_id(previous);
    }

    fn lifecycle(&mut self, ctx: &mut PassCtx, event: &LifeCycle, data: &T, env: &Env) {
        match event {
            LifeCycle::WidgetAdded => {
                if self.id.is_none() {
                    self.id = ctx.fresh_id();
                }
                self.deliver_lifecycle(ctx, event, data, env);
            },
            LifeCycle::FocusChanged(_) => {},
            LifeCycle::RouteFocusChanged { lost, gained } => {
                if self.id.is_some() && same_widget(*gained, self.id) {
                    self.deliver_lifecycle(ctx, &LifeCycle::FocusChanged(true), data, env);
                } else if self.id.is_some() && same_widget(*lost, self.id) {
                    self.deliver_lifecycle(ctx, &LifeCycle::FocusChanged(false), data, env);
                }
                self.deliver_lifecycle(ctx, event, data, env);
            },
            LifeCycle::HotChanged(_) => {
                self.deliver_lifecycle(ctx, event, data, env);
            },
        }
    }

    fn update(&mut self, ctx: &mut PassCtx, old_data: &T, data: &T, env: &Env) {
        let previous = self.enter_child(ctx);
        self.inner.update(ctx, old_data, data, env);
        ctx.set_widget_id(previous);
    }

    fn layout(&mut self, ctx: &mut PassCtx, bc: &BoxConstraints, data: &T, env: &Env) -> (size:
        Size) {
        let previous = self.enter_child(ctx);
        let size = self.inner.layout(ctx, bc, data, env);
        ctx.set_widget_id(previous);
        size
    }

    fn paint(&mut self, ctx: &mut PassCtx, data: &T, env: &Env) {
        let previous = self.enter_child(ctx);
        self.inner.paint(ctx, data, env);
        ctx.set_widget_id(previous);
    }
}

/// The tree and the context once the pending focus request is resolved:
/// where the focus moves, the move is sent down the tree from `root`.
pub open spec fn settled<T, W: Widget<T>>(root: W, ctx: PassState, data: T, env: Env) -> (
    W,
    PassState,
) {
    let moved = ctx.focus.transition();
    let resolved = PassState { focus: ctx.focus.resolve(), ..ctx };
    if moved.lost is None && moved.gained is None {
        (root, resolved)
    } else {
        root.on_lifecycle(
            resolved,
            LifeCycle::RouteFocusChanged { lost: moved.lost, gained: moved.gained },
            data,
            env,
        )
    }
}

/// What the engine does between two passes: it resolves the pending focus
/// request and, where the focus moves, tells the tree. The answer says which
/// widgets lost and gained the focus.
pub fn settle_focus<T, W: Widget<T>>(root: &mut W, ctx: &mut PassCtx, data: &T, env: &Env) -> (moved:
    FocusTransition)
    ensures
        moved == old(ctx)@.focus.transition(),
        (*final(root), final(ctx)@) == settled(*old(root), old(ctx)@, *data, *env),
{
    let moved = ctx.resolve_focus();
    if moved.lost.is_some() || moved.gained.is_some() {
        let route = LifeCycle::RouteFocusChanged { lost: moved.lost, gained: moved.gained };
        root.lifecycle(ctx, &route, data, env);
    }
    moved
}

} // verus!
