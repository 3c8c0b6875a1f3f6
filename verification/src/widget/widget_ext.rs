//! Convenience methods for widgets.

use vstd::prelude::*;
use crate::constraints::BoxConstraints;
use crate::context::{LayoutCtx, PaintBrush};
use crate::data::Data;
use crate::env::Env;
use crate::func::is_function1;
use crate::geometry::{Insets, UnitPoint, UNBOUNDED};
use crate::lens::{Lens, LensWrap};
use crate::widget::align::Align;
use crate::widget::container::{BorderStyle, Container};
use crate::widget::env_scope::EnvScope;
use crate::pod::WidgetPod;
use crate::widget::padding::Padding;
use crate::widget::parse::Parse;
use crate::widget::sized_box::SizedBox;
use crate::widget::Widget;

verus! {

/// Methods that every widget has for wrapping itself in a combinator.
///
/// Each method takes the widget by value and returns the combinator, which
/// owns the widget as its only child. What a method returns is what the
/// combinator's own constructor builds; for the methods without a type
/// parameter a specification function of the same name, with `spec_` before
/// it, is that tree.
pub trait WidgetExt<T: Data>: Widget<T> {
    /// This widget with `insets` around it.
    spec fn spec_padding(self, insets: Insets) -> Padding<T, Self>;

    /// This widget, centered in the room it is given.
    spec fn spec_center(self) -> Align<T, Self>;

    /// This widget at the left edge of the room it is given.
    spec fn spec_align_left(self) -> Align<T, Self>;

    /// This widget at the right edge of the room it is given.
    spec fn spec_align_right(self) -> Align<T, Self>;

    /// This widget placed at `align` along the vertical axis.
    spec fn spec_align_vertical(self, align: UnitPoint) -> Align<T, Self>;

    /// This widget placed at `align` along the horizontal axis.
    spec fn spec_align_horizontal(self, align: UnitPoint) -> Align<T, Self>;

    /// This widget with its width forced.
    spec fn spec_fix_width(self, width: u32) -> SizedBox<T, Self>;

    /// This widget with its height forced.
    spec fn spec_fix_height(self, height: u32) -> SizedBox<T, Self>;

    /// This widget, taking all the room there is.
    spec fn spec_expand(self) -> SizedBox<T, Self>;

    /// This widget on a background.
    spec fn spec_background(self, brush: PaintBrush) -> Container<T, Self>;

    /// This widget inside a border.
    spec fn spec_border(self, brush: PaintBrush, width: u32) -> Container<T, Self>;

    /// Wraps this widget in a [`Padding`] with the given insets.
    fn padding(self, insets: Insets) -> (r: Padding<T, Self>)
        ensures
            r == self.spec_padding(insets),
            self.inv() ==> r.inv(),
    ;

    /// Wraps this widget in an [`Align`] that centers it.
    fn center(self) -> (r: Align<T, Self>)
        ensures
            r == self.spec_center(),
            self.inv() ==> r.inv(),
    ;

    /// Wraps this widget in an [`Align`] that puts it at the left edge.
    fn align_left(self) -> (r: Align<T, Self>)
        ensures
            r == self.spec_align_left(),
            self.inv() ==> r.inv(),
    ;

    /// Wraps this widget in an [`Align`] that puts it at the right edge.
    fn align_right(self) -> (r: Align<T, Self>)
        ensures
            r == self.spec_align_right(),
            self.inv() ==> r.inv(),
    ;

    /// Wraps this widget in an [`Align`] that places it along the vertical
    /// axis only.
    fn align_vertical(self, align: UnitPoint) -> (r: Align<T, Self>)
        ensures
            r == self.spec_align_vertical(align),
            self.inv() ==> r.inv(),
    ;

    /// Wraps this widget in an [`Align`] that places it along the
    /// horizontal axis only.
    fn align_horizontal(self, align: UnitPoint) -> (r: Align<T, Self>)
        ensures
            r == self.spec_align_horizontal(align),
            self.inv() ==> r.inv(),
    ;

    /// Wraps this widget in a [`SizedBox`] with the given width.
    fn fix_width(self, width: u32) -> (r: SizedBox<T, Self>)
        ensures
            r == self.spec_fix_width(width),
            self.inv() ==> r.inv(),
    ;

    /// Wraps this widget in a [`SizedBox`] with the given height.
    fn fix_height(self, height: u32) -> (r: SizedBox<T, Self>)
        ensures
            r == self.spec_fix_height(height),
            self.inv() ==> r.inv(),
    ;

    /// Wraps this widget in a [`SizedBox`] that takes all the room there is.
    fn expand(self) -> (r: SizedBox<T, Self>)
        ensures
            r == self.spec_expand(),
            self.inv() ==> r.inv(),
    ;

    /// Wraps this widget in a [`Container`] with `brush` as its background.
    fn background(self, brush: PaintBrush) -> (r: Container<T, Self>)
        ensures
            r == self.spec_background(brush),
            self.inv() ==> r.inv(),
    ;

    /// Wraps this widget in a [`Container`] with the given border.
    fn border(self, brush: PaintBrush, width: u32) -> (r: Container<T, Self>)
        ensures
            r == self.spec_border(brush, width),
            self.inv() ==> r.inv(),
    ;

    /// Wraps this widget in an [`EnvScope`]: the widget and what lies below
    /// it see the environment that `f` makes of the one outside.
    fn env_scope<F: Fn(Env) -> Env>(self, f: F) -> (r: EnvScope<T, F, Self>)
        ensures
            r == EnvScope::<T, F, Self>::spec_new(f, self),
            is_function1(f) && self.inv() ==> r.inv(),
    ;

    /// Wraps this widget in a [`LensWrap`]: the result is a widget over the
    /// whole of which `lens` shows this widget a part.
    fn lens<S, L: Lens<S, T>>(self, lens: L) -> (r: LensWrap<T, L, Self>)
        ensures
            r == LensWrap::<T, L, Self>::spec_new(self, lens),
            r.child.inv() == self.inv(),
    ;

    /// Wraps this widget, a widget over text, in a [`Parse`]: the result is
    /// a widget over the number that the text spells. The text is empty at
    /// first.
    fn parse(self) -> (r: Parse<Self>) where Self: Widget<String>
        ensures
            r.widget == WidgetPod::<String, Self>::spec_new(self),
            r.state@ == Seq::<char>::empty(),
    ;
}

impl<T: Data, W: Widget<T>> WidgetExt<T> for W {
    open spec fn spec_padding(self, insets: Insets) -> Padding<T, Self> {
        Padding::spec_new(insets, self)
    }

    open spec fn spec_center(self) -> Align<T, Self> {
        Align::spec_new(UnitPoint::spec_center(), false, false, self)
    }

    open spec fn spec_align_left(self) -> Align<T, Self> {
        Align::spec_new(UnitPoint::spec_left(), false, false, self)
    }

    open spec fn spec_align_right(self) -> Align<T, Self> {
        Align::spec_new(UnitPoint::spec_right(), false, false, self)
    }

    open spec fn spec_align_vertical(self, align: UnitPoint) -> Align<T, Self> {
        Align::spec_new(align, true, false, self)
    }

    open spec fn spec_align_horizontal(self, align: UnitPoint) -> Align<T, Self> {
        Align::spec_new(align, false, true, self)
    }

    open spec fn spec_fix_width(self, width: u32) -> SizedBox<T, Self> {
        SizedBox { width: Some(width), ..SizedBox::spec_new(self) }
    }

    open spec fn spec_fix_height(self, height: u32) -> SizedBox<T, Self> {
        SizedBox { height: Some(height), ..SizedBox::spec_new(self) }
    }

    open spec fn spec_expand(self) -> SizedBox<T, Self> {
        SizedBox { width: Some(UNBOUNDED), height: Some(UNBOUNDED), ..SizedBox::spec_new(self) }
    }

    open spec fn spec_background(self, brush: PaintBrush) -> Container<T, Self> {
        Container { background: Some(brush), ..Container::spec_new(self) }
    }

    open spec fn spec_border(self, brush: PaintBrush, width: u32) -> Container<T, Self> {
        Container { border: Some(BorderStyle { brush, width }), ..Container::spec_new(self) }
    }

    fn padding(self, insets: Insets) -> (r: Padding<T, Self>) {
        Padding::new(insets, self)
    }

    fn center(self) -> (r: Align<T, Self>) {
        Align::centered(self)
    }

    fn align_left(self) -> (r: Align<T, Self>) {
        Align::left(self)
    }

    fn align_right(self) -> (r: Align<T, Self>) {
        Align::right(self)
    }

    fn align_vertical(self, align: UnitPoint) -> (r: Align<T, Self>) {
        Align::vertical(align, self)
    }

    fn align_horizontal(self, align: UnitPoint) -> (r: Align<T, Self>) {
        Align::horizontal(align, self)
    }

    fn fix_width(self, width: u32) -> (r: SizedBox<T, Self>) {
        SizedBox::new(self).width(width)
    }

    fn fix_height(self, height: u32) -> (r: SizedBox<T, Self>) {
        SizedBox::new(self).height(height)
    }

    fn expand(self) -> (r: SizedBox<T, Self>) {
        SizedBox::new(self).expand()
    }

    fn background(self, brush: PaintBrush) -> (r: Container<T, Self>) {
        Container::new(self).background(brush)
    }

    fn border(self, brush: PaintBrush, width: u32) -> (r: Container<T, Self>) {
        Container::new(self).border(brush, width)
    }

    fn env_scope<F: Fn(Env) -> Env>(self, f: F) -> (r: EnvScope<T, F, Self>) {
        EnvScope::new(f, self)
    }

    fn lens<S, L: Lens<S, T>>(self, lens: L) -> (r: LensWrap<T, L, Self>) {
        LensWrap::new(self, lens)
    }

    fn parse(self) -> (r: Parse<Self>) where Self: Widget<String> {
        Parse::new(self)
    }
}

/// Wrapping by method is wrapping by constructor: a widget that is padded
/// and then centered by the methods of [`WidgetExt`] is the tree that the
/// constructors of [`Padding`] and [`Align`] build when nested by hand, and
/// under the same constraints the two are laid out alike, down to the
/// rectangle of every child.
pub proof fn lemma_chain_is_nesting<T: Data, W: Widget<T>>(
    w: W,
    insets: Insets,
    ctx: LayoutCtx,
    bc: BoxConstraints,
    data: T,
    env: Env,
)
    ensures
        w.spec_padding(insets).spec_center() == Align::<T, Padding<T, W>>::spec_new(
            UnitPoint::spec_center(),
            false,
            false,
            Padding::<T, W>::spec_new(insets, w),
        ),
        w.spec_padding(insets).spec_center().on_layout(ctx, bc, data, env) == Align::<
            T,
            Padding<T, W>,
        >::spec_new(
            UnitPoint::spec_center(),
            false,
            false,
            Padding::<T, W>::spec_new(insets, w),
        ).on_layout(ctx, bc, data, env),
{
}

} // verus!
