use focus_core::{
    handle_input, BoxConstraints, Color, Command, Env, Event, Focus, FocusChange, FocusEntry,
    FocusNode, FocusScope, FocusScopeNode, FocusTransition, HotKey, Key, KeyEvent, LifeCycle,
    Modifiers, MouseEvent, PassCtx, Point, Rect, Size, SizedBox, Submitted, Widget, WidgetId,
    WidgetPod, settle_focus,
};

fn env() -> Env {
    Env::new(String::from("monospace"), 14, Color(0xff_ff_ff_ff))
}

fn key(key: Key, mods: Modifiers) -> Event {
    Event::KeyDown(KeyEvent { key, mods })
}

fn tab() -> Event {
    key(Key::Tab, Modifiers::none())
}

fn shift_tab() -> Event {
    key(Key::Tab, Modifiers::shift())
}

fn press() -> Event {
    Event::MouseDown(MouseEvent { pos: Point::new(3, 4) })
}

fn leaf() -> SizedBox {
    SizedBox::new(Size::new(30, 20))
}

fn loose() -> BoxConstraints {
    BoxConstraints::new(Size::zero(), Size::new(100, 100))
}

fn attach<W: Widget<u32>>(root: &mut WidgetPod<W>, ctx: &mut PassCtx) {
    root.lifecycle(ctx, &LifeCycle::WidgetAdded, &0, &env());
}

fn settle<W: Widget<u32>>(root: &mut WidgetPod<W>, ctx: &mut PassCtx) -> FocusTransition {
    settle_focus(root, ctx, &0, &env())
}

type Chain = WidgetPod<FocusScope<Focus<Focus<FocusScope<Focus<Focus<SizedBox>>>>>>>;

/// An outer scope with the focus widgets 2 and 3, and inside them an inner
/// scope with the focus widgets 5 and 6.
fn two_scopes() -> (Chain, PassCtx) {
    let inner = FocusScope::new(Focus::new(Focus::new(leaf())));
    let mut root = WidgetPod::new(FocusScope::new(Focus::new(Focus::new(inner))));
    let mut ctx = PassCtx::new();
    attach(&mut root, &mut ctx);
    (root, ctx)
}

fn give_focus<W: Widget<u32>>(root: &mut WidgetPod<W>, ctx: &mut PassCtx, to: u64) {
    let mut data = 0u32;
    root.event(ctx, &Event::Command(Command::RequestFocus(WidgetId(to))), &mut data, &env());
    settle(root, ctx);
    assert_eq!(ctx.focus.focused(), Some(WidgetId(to)));
}

#[test]
fn new_focus_is_detached_and_does_not_ask() {
    let focus = Focus::new(leaf());
    assert_eq!(focus.focus_node, FocusNode { widget_id: None, is_focused: false });
    assert_eq!(focus.focus_node, FocusNode::empty());
    assert!(!focus.auto_focus);
    assert!(!focus.focus_requested);
    assert_eq!(focus.child.id(), None);
    assert_eq!(*focus.child.widget(), leaf());
    assert_eq!(focus.child.layout_rect(), Rect::zero());
}

#[test]
fn with_auto_focus_sets_the_option_only() {
    let focus = Focus::new(leaf()).with_auto_focus(true);
    assert!(focus.auto_focus);
    assert!(!focus.focus_requested);
    assert_eq!(focus.focus_node, FocusNode::empty());
    let focus = focus.with_auto_focus(false);
    assert!(!focus.auto_focus);
}

#[test]
fn new_scope_is_detached() {
    let scope = FocusScope::new(leaf());
    assert_eq!(scope.focus_scope_node, FocusScopeNode { widget_id: None });
    assert_eq!(scope.child.id(), None);
    assert_eq!(*scope.child.widget(), leaf());
}

#[test]
fn fresh_context() {
    let ctx = PassCtx::new();
    assert_eq!(ctx.widget_id(), WidgetId(0));
    assert_eq!(ctx.focus_node(), FocusNode::empty());
    assert_eq!(ctx.focus_scope(), FocusScopeNode::empty());
    assert!(!ctx.is_handled());
    assert!(!ctx.paint_requested);
    assert!(ctx.commands.is_empty());
    assert!(ctx.drawn.is_empty());
    assert_eq!(ctx.next_id, 1);
}

#[test]
fn identities_run_from_one_and_end() {
    let mut ctx = PassCtx::new();
    assert_eq!(ctx.fresh_id(), Some(WidgetId(1)));
    assert_eq!(ctx.fresh_id(), Some(WidgetId(2)));
    ctx.next_id = u64::MAX - 1;
    assert_eq!(ctx.fresh_id(), Some(WidgetId(u64::MAX - 1)));
    assert_eq!(ctx.fresh_id(), None);
    assert_eq!(ctx.fresh_id(), None);
    assert_eq!(ctx.next_id, u64::MAX);
}

#[test]
fn attachment_records_the_identity_and_registers() {
    let mut root = WidgetPod::new(Focus::new(leaf()));
    let mut ctx = PassCtx::new();
    attach(&mut root, &mut ctx);
    assert_eq!(root.id(), Some(WidgetId(1)));
    assert_eq!(root.inner.focus_node, FocusNode { widget_id: Some(WidgetId(1)), is_focused: false });
    assert_eq!(root.inner.child.id(), Some(WidgetId(2)));
    assert_eq!(ctx.focus.chain, vec![FocusEntry { widget: WidgetId(1), scope: None }]);
    assert_eq!(ctx.focus.request, None);
    assert_eq!(ctx.widget_id(), WidgetId(0));
    assert_eq!(ctx.next_id, 3);
}

#[test]
fn a_second_attachment_changes_nothing() {
    let mut root = WidgetPod::new(FocusScope::new(Focus::new(leaf())));
    let mut ctx = PassCtx::new();
    attach(&mut root, &mut ctx);
    let before = (root.clone(), ctx.clone());
    attach(&mut root, &mut ctx);
    assert_eq!((root, ctx), before);
}

#[test]
fn a_focus_widget_registers_in_its_innermost_scope() {
    let (root, ctx) = two_scopes();
    assert_eq!(root.id(), Some(WidgetId(1)));
    assert_eq!(root.inner.focus_scope_node, FocusScopeNode { widget_id: Some(WidgetId(1)) });
    assert_eq!(
        ctx.focus.chain,
        vec![
            FocusEntry { widget: WidgetId(2), scope: Some(WidgetId(1)) },
            FocusEntry { widget: WidgetId(3), scope: Some(WidgetId(1)) },
            FocusEntry { widget: WidgetId(5), scope: Some(WidgetId(4)) },
            FocusEntry { widget: WidgetId(6), scope: Some(WidgetId(4)) },
        ]
    );
    assert_eq!(ctx.focus_scope(), FocusScopeNode::empty());
    assert_eq!(ctx.focus_node(), FocusNode::empty());
}

#[test]
fn tab_never_leaves_the_scope() {
    let (mut root, mut ctx) = two_scopes();
    let mut data = 0u32;
    for (from, to) in [(2, 3), (3, 2), (5, 6), (6, 5)] {
        give_focus(&mut root, &mut ctx, from);
        root.event(&mut ctx, &tab(), &mut data, &env());
        assert_eq!(ctx.focus.request, Some(FocusChange::Next));
        let moved = settle(&mut root, &mut ctx);
        assert_eq!(moved.gained, Some(WidgetId(to)));
        assert_eq!(ctx.focus.focused(), Some(WidgetId(to)));
    }
}

#[test]
fn tab_from_the_last_of_a_scope_wraps_to_the_first() {
    let (mut root, mut ctx) = two_scopes();
    let mut data = 0u32;
    give_focus(&mut root, &mut ctx, 3);
    root.event(&mut ctx, &tab(), &mut data, &env());
    settle(&mut root, &mut ctx);
    assert_eq!(ctx.focus.focused(), Some(WidgetId(2)));
    give_focus(&mut root, &mut ctx, 6);
    root.event(&mut ctx, &tab(), &mut data, &env());
    settle(&mut root, &mut ctx);
    assert_eq!(ctx.focus.focused(), Some(WidgetId(5)));
}

#[test]
fn shift_tab_from_the_first_of_a_scope_wraps_to_the_last() {
    let (mut root, mut ctx) = two_scopes();
    let mut data = 0u32;
    give_focus(&mut root, &mut ctx, 2);
    root.event(&mut ctx, &shift_tab(), &mut data, &env());
    assert_eq!(ctx.focus.request, Some(FocusChange::Previous));
    settle(&mut root, &mut ctx);
    assert_eq!(ctx.focus.focused(), Some(WidgetId(3)));
    give_focus(&mut root, &mut ctx, 5);
    root.event(&mut ctx, &shift_tab(), &mut data, &env());
    settle(&mut root, &mut ctx);
    assert_eq!(ctx.focus.focused(), Some(WidgetId(6)));
}

#[test]
fn a_move_of_the_focus_is_told_to_both_widgets() {
    let (mut root, mut ctx) = two_scopes();
    give_focus(&mut root, &mut ctx, 2);
    assert!(root.inner.child.inner.focus_node.is_focused);
    assert!(!root.inner.child.inner.child.inner.focus_node.is_focused);
    assert_eq!(
        ctx.commands,
        vec![Submitted { command: Command::FocusNodeFocusChanged(true), target: WidgetId(2) }]
    );
    give_focus(&mut root, &mut ctx, 3);
    assert!(!root.inner.child.inner.focus_node.is_focused);
    assert!(root.inner.child.inner.child.inner.focus_node.is_focused);
    assert_eq!(
        ctx.commands[1..],
        [
            Submitted { command: Command::FocusNodeFocusChanged(false), target: WidgetId(2) },
            Submitted { command: Command::FocusNodeFocusChanged(true), target: WidgetId(3) },
        ]
    );
    assert!(ctx.paint_requested);
}

#[test]
fn a_focus_change_from_above_stops_at_the_child_handle() {
    let mut root = WidgetPod::new(Focus::new(leaf()));
    let mut ctx = PassCtx::new();
    attach(&mut root, &mut ctx);
    root.lifecycle(&mut ctx, &LifeCycle::FocusChanged(true), &0, &env());
    assert!(!root.inner.focus_node.is_focused);
    assert!(ctx.commands.is_empty());
    root.inner.lifecycle(&mut ctx, &LifeCycle::FocusChanged(true), &0, &env());
    assert!(root.inner.focus_node.is_focused);
    assert_eq!(
        ctx.commands,
        vec![Submitted { command: Command::FocusNodeFocusChanged(true), target: WidgetId(0) }]
    );
}

#[test]
fn auto_focus_asks_once_in_the_first_pass() {
    let mut root = WidgetPod::new(Focus::new(leaf()).with_auto_focus(true));
    let mut ctx = PassCtx::new();
    attach(&mut root, &mut ctx);
    assert!(root.inner.focus_requested);
    assert_eq!(ctx.focus.request, Some(FocusChange::Focus(WidgetId(1))));
    assert_eq!(settle(&mut root, &mut ctx).gained, Some(WidgetId(1)));
    assert!(root.inner.focus_node.is_focused);
    root.update(&mut ctx, &0, &1, &env());
    root.paint(&mut ctx, &1, &env());
    assert_eq!(ctx.focus.request, None);
}

#[test]
fn auto_focus_asks_in_whichever_pass_comes_first() {
    let mut data = 0u32;
    let mut ctx = PassCtx::new();
    let mut focus = Focus::new(leaf()).with_auto_focus(true);
    focus.event(&mut ctx, &Event::KeyUp(KeyEvent { key: Key::Enter, mods: Modifiers::none() }), &mut data, &env());
    assert_eq!(ctx.focus.request, Some(FocusChange::Focus(WidgetId(0))));
    assert!(focus.focus_requested);

    let mut ctx = PassCtx::new();
    let mut focus = Focus::new(leaf()).with_auto_focus(true);
    focus.layout(&mut ctx, &loose(), &data, &env());
    assert_eq!(ctx.focus.request, Some(FocusChange::Focus(WidgetId(0))));

    let mut ctx = PassCtx::new();
    let mut focus = Focus::new(leaf()).with_auto_focus(false);
    focus.update(&mut ctx, &data, &data, &env());
    focus.paint(&mut ctx, &data, &env());
    assert_eq!(ctx.focus.request, None);
    assert!(!focus.focus_requested);
}

#[test]
fn auto_focus_last_attached_wins_among_siblings() {
    let mut a = WidgetPod::new(Focus::new(leaf()).with_auto_focus(true));
    let mut b = WidgetPod::new(Focus::new(leaf()).with_auto_focus(true));
    let mut ctx = PassCtx::new();
    attach(&mut a, &mut ctx);
    assert_eq!(ctx.focus.request, Some(FocusChange::Focus(WidgetId(1))));
    attach(&mut b, &mut ctx);
    let moved = ctx.resolve_focus();
    assert_eq!(a.id(), Some(WidgetId(1)));
    assert_eq!(b.id(), Some(WidgetId(3)));
    assert_eq!(moved, FocusTransition { lost: None, gained: Some(WidgetId(3)) });
    assert_eq!(ctx.focus.focused(), b.id());
}

#[test]
fn auto_focus_last_attached_wins_when_nested() {
    let inner = Focus::new(leaf()).with_auto_focus(true);
    let mut root = WidgetPod::new(Focus::new(inner).with_auto_focus(true));
    let mut ctx = PassCtx::new();
    attach(&mut root, &mut ctx);
    settle(&mut root, &mut ctx);
    assert_eq!(ctx.focus.focused(), Some(WidgetId(2)));
    assert!(root.inner.child.inner.focus_node.is_focused);
    assert!(!root.inner.focus_node.is_focused);
}

#[test]
fn a_pointer_press_asks_for_the_focus_and_a_repaint() {
    let mut root = WidgetPod::new(Focus::new(leaf()));
    let mut ctx = PassCtx::new();
    let mut data = 0u32;
    attach(&mut root, &mut ctx);
    root.event(&mut ctx, &press(), &mut data, &env());
    assert_eq!(ctx.focus.request, Some(FocusChange::Focus(WidgetId(1))));
    assert!(ctx.paint_requested);
    assert_eq!(data, 0);
}

#[test]
fn a_pointer_release_asks_nothing() {
    let mut root = WidgetPod::new(Focus::new(leaf()));
    let mut ctx = PassCtx::new();
    let mut data = 0u32;
    attach(&mut root, &mut ctx);
    let before = ctx.clone();
    root.event(&mut ctx, &Event::MouseUp(MouseEvent { pos: Point::origin() }), &mut data, &env());
    assert_eq!(ctx, before);
}

#[test]
fn the_tab_chords_move_the_focus_and_ask_for_a_repaint() {
    let mut ctx = PassCtx::new();
    handle_input(&mut ctx, &tab());
    assert_eq!(ctx.focus.request, Some(FocusChange::Next));
    assert!(ctx.paint_requested);
    let mut ctx = PassCtx::new();
    handle_input(&mut ctx, &shift_tab());
    assert_eq!(ctx.focus.request, Some(FocusChange::Previous));
    assert!(ctx.paint_requested);
}

#[test]
fn other_chords_are_ignored() {
    let ctrl = Modifiers { shift: false, ctrl: true, alt: false, meta: false };
    let ctrl_shift = Modifiers { shift: true, ctrl: true, alt: false, meta: false };
    let others = [
        key(Key::Tab, ctrl),
        key(Key::Tab, ctrl_shift),
        key(Key::Enter, Modifiers::none()),
        key(Key::Escape, Modifiers::shift()),
        key(Key::Character('\t'), Modifiers::none()),
        Event::KeyUp(KeyEvent { key: Key::Tab, mods: Modifiers::none() }),
        Event::Command(Command::User(7)),
        Event::Command(Command::FocusNodeFocusChanged(true)),
    ];
    for event in others {
        let mut ctx = PassCtx::new();
        handle_input(&mut ctx, &event);
        assert_eq!(ctx, PassCtx::new());
    }
}

#[test]
fn a_handled_event_is_ignored() {
    let request = Event::Command(Command::RequestFocus(WidgetId(0)));
    for event in [press(), tab(), shift_tab(), request] {
        let mut ctx = PassCtx::new();
        ctx.set_handled();
        let before = ctx.clone();
        handle_input(&mut ctx, &event);
        assert_eq!(ctx, before);
    }
}

#[test]
fn a_focus_request_counts_only_for_the_widget_it_names() {
    let mut root = WidgetPod::new(Focus::new(leaf()));
    let mut ctx = PassCtx::new();
    let mut data = 0u32;
    attach(&mut root, &mut ctx);
    let before = ctx.clone();
    root.event(&mut ctx, &Event::Command(Command::RequestFocus(WidgetId(2))), &mut data, &env());
    assert_eq!(ctx, before);
    root.event(&mut ctx, &Event::Command(Command::RequestFocus(WidgetId(1))), &mut data, &env());
    assert_eq!(ctx.focus.request, Some(FocusChange::Focus(WidgetId(1))));
    assert!(ctx.paint_requested);
}

#[test]
fn a_new_pass_clears_the_marks_of_the_last() {
    let (mut root, mut ctx) = two_scopes();
    let mut data = 0u32;
    ctx.set_handled();
    root.event(&mut ctx, &press(), &mut data, &env());
    assert_eq!(ctx.focus.request, None);
    ctx.begin_pass();
    assert!(!ctx.is_handled());
    root.event(&mut ctx, &tab(), &mut data, &env());
    assert!(ctx.paint_requested);
    assert_eq!(ctx.focus.request, Some(FocusChange::Next));
    let chain = ctx.focus.chain.clone();
    ctx.begin_pass();
    assert!(!ctx.paint_requested);
    assert_eq!(ctx.focus.request, Some(FocusChange::Next));
    assert_eq!(ctx.focus.chain, chain);
}

#[test]
fn settling_without_a_request_tells_nobody() {
    let (mut root, mut ctx) = two_scopes();
    let before = (root.clone(), ctx.clone());
    assert_eq!(settle(&mut root, &mut ctx), FocusTransition { lost: None, gained: None });
    assert_eq!((root, ctx), before);
}

#[test]
fn hot_key_matches_key_and_modifiers_exactly() {
    let chord = HotKey::new(Modifiers::shift(), Key::Tab);
    assert!(chord.matches(&KeyEvent { key: Key::Tab, mods: Modifiers::shift() }));
    assert!(!chord.matches(&KeyEvent { key: Key::Tab, mods: Modifiers::none() }));
    assert!(!chord.matches(&KeyEvent { key: Key::Enter, mods: Modifiers::shift() }));
    let plain = HotKey::new(Modifiers::none(), Key::Character('a'));
    assert!(plain.matches(&KeyEvent { key: Key::Character('a'), mods: Modifiers::none() }));
    assert!(!plain.matches(&KeyEvent { key: Key::Character('b'), mods: Modifiers::none() }));
}

#[test]
fn layout_places_the_child_at_the_origin_and_reports_its_size() {
    let mut focus = Focus::new(leaf());
    let mut scope = FocusScope::new(leaf());
    let mut ctx = PassCtx::new();
    assert_eq!(focus.layout(&mut ctx, &loose(), &0u32, &env()), Size::new(30, 20));
    assert_eq!(focus.child.layout_rect(), Rect::from_origin_size(Point::origin(), Size::new(30, 20)));
    let tight = BoxConstraints::new(Size::new(5, 5), Size::new(10, 10));
    assert_eq!(scope.layout(&mut ctx, &tight, &0u32, &env()), Size::new(10, 10));
    assert_eq!(scope.child.layout_rect(), Rect { origin: Point { x: 0, y: 0 }, size: Size::new(10, 10) });
    let wide = BoxConstraints::new(Size::new(40, 0), Size::new(50, 15));
    assert_eq!(scope.layout(&mut ctx, &wide, &0u32, &env()), Size::new(40, 15));
    assert_eq!(ctx, PassCtx::new());
}

#[test]
fn every_pass_restores_the_ambient_context() {
    let (mut root, mut ctx) = two_scopes();
    let node = FocusNode { widget_id: Some(WidgetId(70)), is_focused: true };
    let scope = FocusScopeNode { widget_id: Some(WidgetId(80)) };
    ctx.set_focus_node(node);
    ctx.set_focus_scope_node(scope);
    ctx.set_widget_id(WidgetId(90));
    let mut data = 0u32;
    let check = |ctx: &PassCtx| {
        assert_eq!(ctx.focus_node(), node);
        assert_eq!(ctx.focus_scope(), scope);
        assert_eq!(ctx.widget_id(), WidgetId(90));
    };
    for event in [press(), tab(), Event::Command(Command::RequestFocus(WidgetId(5)))] {
        root.event(&mut ctx, &event, &mut data, &env());
        check(&ctx);
    }
    let route = LifeCycle::RouteFocusChanged { lost: None, gained: Some(WidgetId(5)) };
    for event in [LifeCycle::WidgetAdded, LifeCycle::HotChanged(true), route] {
        root.lifecycle(&mut ctx, &event, &data, &env());
        check(&ctx);
    }
    root.update(&mut ctx, &0, &data, &env());
    check(&ctx);
    root.layout(&mut ctx, &loose(), &data, &env());
    check(&ctx);
    root.paint(&mut ctx, &data, &env());
    check(&ctx);
}
