//! A type for representing text that is displayed on the screen.
//!
//! A [`TextLayout`] keeps a text buffer together with its measurement under
//! a wrap width. The measurement comes from a text service; where the
//! service fails, the layout stays empty: it has no size and draws nothing.
//! Widths and heights are whole layout units; a wrap width of `None` means
//! that lines are not wrapped.

use vstd::prelude::*;
use crate::context::{PassCtx, PassState};
use crate::env::Env;
use crate::geometry::{Point, Size};

verus! {

/// The metrics of one line of a measured text.
#[derive(Clone, Copy, Debug, PartialEq, Eq)]
pub struct LineMetric {
    /// The height of the text from its top through this line.
    pub cumulative_height: u64,
}

/// A measured text: what the text service hands back for a buffer.
pub trait TextMeasure: Sized {
    /// The width of the widest line.
    spec fn measured_width(&self) -> u64;

    /// The metrics of the lines, from the top.
    spec fn line_metrics(&self) -> Seq<LineMetric>;

    /// The measurement of the same text wrapped at another width.
    spec fn rewrap(self, width: Option<u64>) -> Self;

    fn width(&self) -> (width: u64)
        ensures
            width == self.measured_width(),
    ;

    fn line_count(&self) -> (count: usize)
        ensures
            count == self.line_metrics().len(),
    ;

    /// The metrics of line `line`, counted from 0, if the text has that line.
    fn line_metric(&self, line: usize) -> (metric: Option<LineMetric>)
        ensures
            metric == if line < self.line_metrics().len() {
                Some(self.line_metrics()[line as int])
            } else {
                None
            },
    ;

    /// Wraps the text anew at `width`, in place.
    fn update_width(&mut self, width: Option<u64>)
        ensures
            *final(self) == old(self).rewrap(width),
    ;
}

/// The text service: it resolves fonts and measures text.
pub trait Text: Sized {
    type Font;

    type Layout: TextMeasure;

    /// The font of that name and size, if the service can resolve it.
    spec fn font(&self, name: Seq<char>, size: u64) -> Option<Self::Font>;

    /// The measurement of `text` in `font`, wrapped at `width`, if the
    /// service can build it.
    spec fn layout(&self, font: Self::Font, text: Seq<char>, width: Option<u64>) -> Option<
        Self::Layout,
    >;

    fn build_font(&self, name: &String, size: u64) -> (font: Option<Self::Font>)
        ensures
            font == self.font(name@, size),
    ;

    fn build_layout(&self, font: &Self::Font, text: &String, width: Option<u64>) -> (layout:
        Option<Self::Layout>)
        ensures
            layout == self.layout(*font, text@, width),
    ;
}

/// The height of a text with these lines: the cumulative height of the last
/// line, and 0 for a text without lines.
pub open spec fn height_of(lines: Seq<LineMetric>) -> u64 {
    if lines.len() == 0 {
        0
    } else {
        lines[lines.len() - 1].cumulative_height
    }
}

/// The measurement of `buffer` in the font of the environment, or `None`
/// where the font cannot be resolved or the measurement cannot be built.
pub open spec fn measurement<S: Text>(text: &S, buffer: Seq<char>, env: Env, width: Option<u64>)
    -> Option<S::Layout> {
    match text.font(env.font_name@, env.text_size) {
        Some(font) => text.layout(font, buffer, width),
        None => None,
    }
}

/// Measures `buffer` in the font of the environment. A failure of the
/// service gives `None`.
pub fn layout_for_buffer<S: Text>(buffer: &String, text: &S, env: &Env, width: Option<u64>) -> (layout:
    Option<S::Layout>)
    ensures
        layout == measurement(text, buffer@, *env, width),
{
    match text.build_font(&env.font_name, env.text_size) {
        Some(font) => text.build_layout(&font, buffer, width),
        None => None,
    }
}

/// A text buffer with its cached measurement.
#[derive(Clone, Debug, PartialEq, Eq)]
pub struct TextLayout<L> {
    pub buffer: String,
    /// The measurement, where there is one.
    pub layout: Option<L>,
    /// The width for the purpose of line breaks; that is, the width of the
    /// view, not necessarily the width of the current text. `None` means no
    /// wrapping.
    pub width: Option<u64>,
}

impl<L: TextMeasure> TextLayout<L> {
    /// The layout of `buffer` as the service `text` measures it.
    pub open spec fn measured<S: Text<Layout = L>>(
        buffer: String,
        text: &S,
        env: Env,
        width: Option<u64>,
    ) -> TextLayout<L> {
        TextLayout { buffer, layout: measurement(text, buffer@, env, width), width }
    }

    /// Builds a layout for `buffer` and measures it at once, wrapped at
    /// `width`.
    pub fn new<S: Text<Layout = L>>(buffer: String, text: &S, env: &Env, width: Option<u64>) -> (made:
        TextLayout<L>)
        ensures
            made == TextLayout::measured(buffer, text, *env, width),
    {
        let layout = layout_for_buffer(&buffer, text, env, width);
        TextLayout { buffer, layout, width }
    }

    /// Replaces the buffer and measures it from scratch, at the width the
    /// layout has.
    pub fn update_buffer<S: Text<Layout = L>>(&mut self, buffer: String, text: &S, env: &Env)
        ensures
            *final(self) == TextLayout::measured(buffer, text, *env, old(self).width),
    {
        self.layout = layout_for_buffer(&buffer, text, env, self.width);
        self.buffer = buffer;
    }

    /// The layout wrapped at `width`: an existing measurement is wrapped
    /// anew; without one only the width is kept, for the next measurement.
    pub open spec fn rewrapped(self, width: Option<u64>) -> TextLayout<L> {
        TextLayout {
            buffer: self.buffer,
            layout: match self.layout {
                Some(layout) => Some(layout.rewrap(width)),
                None => None,
            },
            width,
        }
    }

    /// Sets the wrap width.
    pub fn update_width(&mut self, width: Option<u64>)
        ensures
            *final(self) == old(self).rewrapped(width),
    {
        self.width = width;
        match &mut self.layout {
            Some(layout) => {
                layout.update_width(width);
            },
            None => {},
        }
    }

    /// The size of the layout: the measured width and the height through the
    /// last line, or the empty size without a measurement.
    pub open spec fn spec_size(&self) -> Size {
        match self.layout {
            Some(layout) => Size {
                width: layout.measured_width(),
                height: height_of(layout.line_metrics()),
            },
            None => Size::spec_zero(),
        }
    }

    /// The size of this layout.
    #[verifier::when_used_as_spec(spec_size)]
    pub fn size(&self) -> (size: Size)
        ensures
            size == self.spec_size(),
    {
        match &self.layout {
            Some(layout) => {
                let lines: usize = layout.line_count();
                let height: u64 = if lines == 0 {
                    0
                } else {
                    match layout.line_metric(lines - 1) {
                        Some(metric) => metric.cumulative_height,
                        None => 0,
                    }
                };
                Size::new(layout.width(), height)
            },
            None => Size::zero(),
        }
    }

    /// The context after the layout is drawn at `point`: a measured layout
    /// is drawn once, in the label colour; an empty one is not drawn.
    pub open spec fn drawn(&self, ctx: PassState, point: Point, env: Env) -> PassState {
        match self.layout {
            Some(_) => ctx.draw_text(point, env.label_color, self.spec_size()),
            None => ctx,
        }
    }

    /// Draws the layout at `point`.
    pub fn draw(&self, ctx: &mut PassCtx, point: Point, env: &Env)
        ensures
            final(ctx)@ == self.drawn(old(ctx)@, point, *env),
    {
        if self.layout.is_some() {
            let color = env.label_color;
            let size = self.size();
            ctx.draw_text(point, color, size);
        }
    }
}

impl<L> Default for TextLayout<L> {
    /// The layout of the empty buffer, without measurement or wrapping.
    fn default() -> (made: TextLayout<L>)
        ensures
            made.buffer@ == Seq::<char>::empty(),
            made.layout is None,
            made.width is None,
    {
        TextLayout { buffer: String::new(), layout: None, width: None }
    }
}

/// Where the font of the environment cannot be resolved, the layout is
/// empty: its size is zero, drawing it leaves the context as it was, and it
/// stays empty when its width changes.
pub proof fn lemma_empty_on_failure<S: Text>(
    buffer: String,
    text: &S,
    env: Env,
    width: Option<u64>,
    ctx: PassState,
    point: Point,
    other: Option<u64>,
)
    requires
        text.font(env.font_name@, env.text_size) is None,
    ensures
        TextLayout::measured(buffer, text, env, width).layout is None,
        TextLayout::measured(buffer, text, env, width).spec_size() == Size::spec_zero(),
        TextLayout::measured(buffer, text, env, width).drawn(ctx, point, env) == ctx,
        TextLayout::measured(buffer, text, env, width).rewrapped(other).spec_size()
            == Size::spec_zero(),
{
}

/// The same holds where the font is resolved but the measurement cannot be
/// built.
pub proof fn lemma_empty_on_layout_failure<S: Text>(
    buffer: String,
    text: &S,
    env: Env,
    width: Option<u64>,
    ctx: PassState,
    point: Point,
)
    requires
        text.font(env.font_name@, env.text_size) is Some,
        text.layout(text.font(env.font_name@, env.text_size)->0, buffer@, width) is None,
    ensures
        TextLayout::measured(buffer, text, env, width).spec_size() == Size::spec_zero(),
        TextLayout::measured(buffer, text, env, width).drawn(ctx, point, env) == ctx,
{
}

} // verus!
