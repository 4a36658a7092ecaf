use focus_core::{
    BoxConstraints, Color, Env, Event, Focus, FocusNode, FocusScope, FocusScopeNode, Key, KeyEvent,
    LifeCycle, Modifiers, PassCtx, PassState, Size, Widget, WidgetId,
};

/// What a widget finds in the context when its pass runs.
#[derive(Clone, Copy, Debug, PartialEq, Eq)]
struct Seen {
    widget_id: WidgetId,
    focus_node: FocusNode,
    focus_scope: FocusScopeNode,
}

/// A leaf that writes down what it finds and, if told so, leaves a context
/// of its own behind.
#[derive(Debug, Default)]
struct Probe {
    seen: Vec<Seen>,
    clobber: bool,
}

const STRAY_NODE: FocusNode = FocusNode { widget_id: Some(WidgetId(666)), is_focused: true };
const STRAY_SCOPE: FocusScopeNode = FocusScopeNode { widget_id: Some(WidgetId(667)) };

impl Probe {
    fn look(&mut self, ctx: &mut PassCtx) {
        self.seen.push(Seen {
            widget_id: ctx.widget_id(),
            focus_node: ctx.focus_node(),
            focus_scope: ctx.focus_scope(),
        });
        if self.clobber {
            ctx.set_focus_node(STRAY_NODE);
            ctx.set_focus_scope_node(STRAY_SCOPE);
            ctx.set_widget_id(WidgetId(668));
        }
    }
}

// The model functions are for the verifier alone and never run.
impl Widget<u32> for Probe {
    fn on_event(self, _: PassState, _: Event, _: u32, _: Env) -> (Self, PassState, u32) {
        unreachable!()
    }

    fn on_lifecycle(self, _: PassState, _: LifeCycle, _: u32, _: Env) -> (Self, PassState) {
        unreachable!()
    }

    fn on_update(self, _: PassState, _: u32, _: u32, _: Env) -> (Self, PassState) {
        unreachable!()
    }

    fn on_layout(self, _: PassState, _: BoxConstraints, _: u32, _: Env) -> (Self, PassState, Size) {
        unreachable!()
    }

    fn on_paint(self, _: PassState, _: u32, _: Env) -> (Self, PassState) {
        unreachable!()
    }

    fn event(&mut self, ctx: &mut PassCtx, _: &Event, data: &mut u32, _: &Env) {
        self.look(ctx);
        *data += 1;
    }

    fn lifecycle(&mut self, ctx: &mut PassCtx, _: &LifeCycle, _: &u32, _: &Env) {
        self.look(ctx);
    }

    fn update(&mut self, ctx: &mut PassCtx, _: &u32, _: &u32, _: &Env) {
        self.look(ctx);
    }

    fn layout(&mut self, ctx: &mut PassCtx, bc: &BoxConstraints, _: &u32, _: &Env) -> Size {
        self.look(ctx);
        bc.max
    }

    fn paint(&mut self, ctx: &mut PassCtx, _: &u32, _: &Env) {
        self.look(ctx);
    }
}

fn env() -> Env {
    Env::new(String::from("monospace"), 14, Color(0))
}

fn enter() -> Event {
    Event::KeyDown(KeyEvent { key: Key::Enter, mods: Modifiers::none() })
}

fn all_passes<W: Widget<u32>>(widget: &mut W, ctx: &mut PassCtx, after_each: impl Fn(&PassCtx)) {
    let mut data = 0u32;
    let bc = BoxConstraints::new(Size::zero(), Size::new(8, 9));
    widget.lifecycle(ctx, &LifeCycle::WidgetAdded, &data, &env());
    after_each(ctx);
    widget.event(ctx, &enter(), &mut data, &env());
    after_each(ctx);
    assert_eq!(data, 1);
    widget.update(ctx, &0, &data, &env());
    after_each(ctx);
    assert_eq!(widget.layout(ctx, &bc, &data, &env()), Size::new(8, 9));
    after_each(ctx);
    widget.paint(ctx, &data, &env());
    after_each(ctx);
}

#[test]
fn the_child_of_a_focus_widget_finds_its_node() {
    let mut focus = Focus::new(Probe::default());
    let mut ctx = PassCtx::new();
    ctx.set_widget_id(WidgetId(40));
    ctx.set_focus_scope_node(FocusScopeNode { widget_id: Some(WidgetId(30)) });
    let before = (ctx.focus_node(), ctx.focus_scope(), ctx.widget_id());
    all_passes(&mut focus, &mut ctx, |ctx| {
        assert_eq!((ctx.focus_node(), ctx.focus_scope(), ctx.widget_id()), before)
    });
    let expected = Seen {
        widget_id: WidgetId(1),
        focus_node: FocusNode { widget_id: Some(WidgetId(40)), is_focused: false },
        focus_scope: FocusScopeNode { widget_id: Some(WidgetId(30)) },
    };
    assert_eq!(focus.child.widget().seen, vec![expected; 5]);
}

#[test]
fn the_child_of_a_scope_finds_its_scope() {
    let mut scope = FocusScope::new(Probe::default());
    let mut ctx = PassCtx::new();
    ctx.set_widget_id(WidgetId(40));
    let outer = FocusNode { widget_id: Some(WidgetId(20)), is_focused: true };
    ctx.set_focus_node(outer);
    all_passes(&mut scope, &mut ctx, |ctx| {
        assert_eq!(ctx.focus_node(), outer);
        assert_eq!(ctx.focus_scope(), FocusScopeNode::empty());
        assert_eq!(ctx.widget_id(), WidgetId(40));
    });
    let expected = Seen {
        widget_id: WidgetId(1),
        focus_node: outer,
        focus_scope: FocusScopeNode { widget_id: Some(WidgetId(40)) },
    };
    assert_eq!(scope.child.widget().seen, vec![expected; 5]);
}

#[test]
fn before_attachment_the_child_finds_empty_nodes() {
    let mut wrapped = FocusScope::new(Focus::new(Probe::default()));
    let mut ctx = PassCtx::new();
    let mut data = 0u32;
    wrapped.event(&mut ctx, &enter(), &mut data, &env());
    wrapped.paint(&mut ctx, &data, &env());
    let expected = Seen {
        widget_id: WidgetId(0),
        focus_node: FocusNode::empty(),
        focus_scope: FocusScopeNode::empty(),
    };
    assert_eq!(wrapped.child.widget().child.widget().seen, vec![expected; 2]);
    assert_eq!(ctx, PassCtx::new());
}

#[test]
fn nested_wrappers_unwind_in_order() {
    let inner = FocusScope::new(Focus::new(Probe::default()));
    let mut outer = FocusScope::new(Focus::new(inner));
    let mut ctx = PassCtx::new();
    all_passes(&mut outer, &mut ctx, |ctx| {
        assert_eq!(ctx.focus_node(), FocusNode::empty());
        assert_eq!(ctx.focus_scope(), FocusScopeNode::empty());
        assert_eq!(ctx.widget_id(), WidgetId(0));
    });
    let outer_focus = outer.child.widget();
    let inner_scope = outer_focus.child.widget();
    let inner_focus = inner_scope.child.widget();
    assert_eq!(outer.focus_scope_node.widget_id, Some(WidgetId(0)));
    assert_eq!(outer_focus.focus_node.widget_id, Some(WidgetId(1)));
    assert_eq!(inner_scope.focus_scope_node.widget_id, Some(WidgetId(2)));
    assert_eq!(inner_focus.focus_node.widget_id, Some(WidgetId(3)));
    let expected = Seen {
        widget_id: WidgetId(4),
        focus_node: FocusNode { widget_id: Some(WidgetId(3)), is_focused: false },
        focus_scope: FocusScopeNode { widget_id: Some(WidgetId(2)) },
    };
    assert_eq!(inner_focus.child.widget().seen, vec![expected; 5]);
}

#[test]
fn a_wrapper_restores_its_slot_whatever_the_child_leaves() {
    let stray = Probe { seen: Vec::new(), clobber: true };
    let mut focus = Focus::new(stray);
    let mut ctx = PassCtx::new();
    let node = FocusNode { widget_id: Some(WidgetId(20)), is_focused: true };
    ctx.set_focus_node(node);
    all_passes(&mut focus, &mut ctx, |ctx| {
        assert_eq!(ctx.focus_node(), node);
        assert_eq!(ctx.widget_id(), WidgetId(0));
    });

    let stray = Probe { seen: Vec::new(), clobber: true };
    let mut scope = FocusScope::new(stray);
    let mut ctx = PassCtx::new();
    let around = FocusScopeNode { widget_id: Some(WidgetId(30)) };
    ctx.set_focus_scope_node(around);
    all_passes(&mut scope, &mut ctx, |ctx| {
        assert_eq!(ctx.focus_scope(), around);
        assert_eq!(ctx.widget_id(), WidgetId(0));
    });

    let stray = Probe { seen: Vec::new(), clobber: true };
    let mut both = FocusScope::new(Focus::new(stray));
    let mut ctx = PassCtx::new();
    ctx.set_focus_node(node);
    ctx.set_focus_scope_node(around);
    all_passes(&mut both, &mut ctx, |ctx| {
        assert_eq!(ctx.focus_node(), node);
        assert_eq!(ctx.focus_scope(), around);
    });
}
