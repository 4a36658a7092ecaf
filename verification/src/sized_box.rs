//! A widget without children.

use vstd::prelude::*;
use crate::context::{PassCtx, PassState};
use crate::env::Env;
use crate::event::{Event, LifeCycle};
use crate::geometry::{BoxConstraints, Size};
use crate::widget::Widget;

verus! {

/// A widget of a given size that has no child and takes no part in the
/// focus: every pass leaves it, the context and the data as they are.
#[derive(Clone, Copy, Debug, PartialEq, Eq)]
pub struct SizedBox {
    pub size: Size,
}

impl SizedBox {
    pub fn new(size: Size) -> (made: SizedBox)
        ensures
            made == (SizedBox { size }),
    {
        SizedBox { size }
    }

    /// A box without extent.
    pub fn empty() -> (made: SizedBox)
        ensures
            made == (SizedBox { size: Size::spec_zero() }),
    {
        SizedBox { size: Size::zero() }
    }
}

impl<T> Widget<T> for SizedBox {
    open spec fn on_event(self, ctx: PassState, event: Event, data: T, env: Env) -> (
        Self,
        PassState,
        T,
    ) {
        (self, ctx, data)
    }

    open spec fn on_lifecycle(self, ctx: PassState, event: LifeCycle, data: T, env: Env) -> (
        Self,
        PassState,
    ) {
        (self, ctx)
    }

    open spec fn on_update(self, ctx: PassState, old_data: T, data: T, env: Env) -> (
        Self,
        PassState,
    ) {
        (self, ctx)
    }

    /// The box takes its size as far as the constraints allow.
    open spec fn on_layout(self, ctx: PassState, bc: BoxConstraints, data: T, env: Env) -> (
        Self,
        PassState,
        Size,
    ) {
        (self, ctx, bc.spec_constrain(self.size))
    }

    open spec fn on_paint(self, ctx: PassState, data: T, env: Env) -> (Self, PassState) {
        (self, ctx)
    }

    fn event(&mut self, ctx: &mut PassCtx, event: &Event, data: &mut T, env: &Env) {
    }

    fn lifecycle(&mut self, ctx: &mut PassCtx, event: &LifeCycle, data: &T, env: &Env) {
    }

    fn update(&mut self, ctx: &mut PassCtx, old_data: &T, data: &T, env: &Env) {
    }

    fn layout(&mut self, ctx: &mut PassCtx, bc: &BoxConstraints, data: &T, env: &Env) -> (size:
        Size) {
        bc.constrain(self.size)
    }

    fn paint(&mut self, ctx: &mut PassCtx, data: &T, env: &Env) {
    }
}

} // verus!
