//! The core of a retained-mode widget toolkit: a tree of composable widgets
//! that share one piece of application data, pass events and change
//! notifications down the tree, and negotiate layout by box constraints.
//!
//! Every node of the tree implements [`Widget`]: four passes, `event`,
//! `update`, `layout` and `paint`, each bound to a model that says what the
//! pass does. A parent holds each child in a [`WidgetPod`], which keeps the
//! child's rectangle and hit-tests events for it. The combinators in
//! [`widget`] wrap one child or choose between two, and [`WidgetExt`] gives
//! every widget the methods that wrap it. A [`Window`] holds the root and
//! issues the passes of a frame in their order.
//!
//! Geometry is in whole pixels. Painting appends drawing operations to a
//! list, which the host hands to whatever draws them.

pub mod constraints;
pub mod context;
pub mod data;
pub mod decimal;
pub mod env;
pub mod event;
pub mod func;
pub mod geometry;
pub mod lens;
pub mod pod;
pub mod widget;
pub mod window;

pub use crate::constraints::BoxConstraints;
pub use crate::context::{EventCtx, LayoutCtx, PaintBrush, PaintCtx, PaintOp, UpdateCtx};
pub use crate::data::Data;
pub use crate::env::{Color, Env, Value};
pub use crate::event::Event;
pub use crate::geometry::{Anchor, Insets, Point, Rect, Size, UnitPoint, UNBOUNDED};
pub use crate::lens::{Lens, LensWrap};
pub use crate::pod::WidgetPod;
pub use crate::widget::align::Align;
pub use crate::widget::button::{Button, ButtonState};
pub use crate::widget::container::Container;
pub use crate::widget::either::Either;
pub use crate::widget::env_scope::EnvScope;
pub use crate::widget::label::Label;
pub use crate::widget::padding::Padding;
pub use crate::widget::parse::Parse;
pub use crate::widget::sized_box::SizedBox;
pub use crate::widget::widget_ext::WidgetExt;
pub use crate::widget::Widget;
pub use crate::window::{FrameReport, Window};
