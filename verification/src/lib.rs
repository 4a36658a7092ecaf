//! Keyboard-focus management for a retained-mode widget tree, with a cached
//! text layout.
//!
//! A pass walks the tree top-down, and every widget gets the same
//! [`PassCtx`], which carries the ambient focus node and focus scope. The
//! wrappers [`Focus`] and [`FocusScope`] install their own node for the time
//! of their child's pass and put the caller's node back afterwards. The
//! [`FocusManager`] inside the context keeps the chain of focusable widgets
//! and moves the focus within the scope of the widget that holds it.
//!
//! [`TextLayout`] keeps a text buffer with its measurement under a wrap
//! width; [`FixedPitch`] is a text service to measure with.

pub mod context;
pub mod env;
pub mod event;
pub mod fixed_pitch;
pub mod focus;
pub mod focus_scope;
pub mod geometry;
pub mod manager;
pub mod node;
pub mod sized_box;
pub mod text_layout;
pub mod widget;

pub use context::{PassCtx, PassState, Submitted, TextDraw};
pub use env::{Color, Env};
pub use event::{Command, Event, HotKey, Key, KeyEvent, LifeCycle, Modifiers, MouseEvent};
pub use fixed_pitch::{FixedFont, FixedLayout, FixedPitch};
pub use focus::{handle_input, Focus};
pub use focus_scope::FocusScope;
pub use geometry::{BoxConstraints, Point, Rect, Size};
pub use manager::{FocusChange, FocusEntry, FocusManager, FocusState, FocusTransition};
pub use node::{same_widget, FocusNode, FocusScopeNode, WidgetId};
pub use sized_box::SizedBox;
pub use text_layout::{layout_for_buffer, LineMetric, Text, TextLayout, TextMeasure};
pub use widget::{settle_focus, Widget, WidgetPod};
