//! A text service for fixed-pitch fonts.
//!
//! Every glyph of a fixed-pitch font is as wide as the next, so a text is
//! measured by counting: a line takes as many glyphs as fit into the wrap
//! width, and at least one.

use vstd::prelude::*;
use vstd::arithmetic::div_mod::{lemma_div_is_ordered, lemma_div_is_ordered_by_denominator};
use vstd::arithmetic::mul::lemma_mul_inequality;
use vstd::string::StrSliceExecFns;
use crate::text_layout::{height_of, LineMetric, Text, TextMeasure};

verus! {

/// `count` times `unit`, held at the greatest number there is.
pub open spec fn times(count: int, unit: int) -> u64 {
    if count * unit > u64::MAX {
        u64::MAX
    } else if count * unit < 0 {
        0
    } else {
        (count * unit) as u64
    }
}

fn saturating_times(count: u64, unit: u64) -> (product: u64)
    ensures
        product == times(count as int, unit as int),
{
    match count.checked_mul(unit) {
        Some(product) => product,
        None => u64::MAX,
    }
}

/// A fixed-pitch font: the advance of each glyph and the height of a line.
#[derive(Clone, Copy, Debug, PartialEq, Eq)]
pub struct FixedFont {
    pub advance: u64,
    pub line_height: u64,
}

/// A text measured in a fixed-pitch font.
#[derive(Clone, Copy, Debug, PartialEq, Eq)]
pub struct FixedLayout {
    /// The number of glyphs of the text.
    pub glyphs: usize,
    pub font: FixedFont,
    /// The width at which lines are wrapped, if they are.
    pub max_width: Option<u64>,
}

impl FixedLayout {
    /// How many glyphs a full line takes: as many as fit into the wrap
    /// width, at least one and at most all.
    pub open spec fn per_line(&self) -> int {
        if self.glyphs == 0 {
            1
        } else {
            match self.max_width {
                None => self.glyphs as int,
                Some(width) => if self.font.advance == 0 {
                    self.glyphs as int
                } else if width / self.font.advance == 0 {
                    1
                } else if width / self.font.advance > self.glyphs {
                    self.glyphs as int
                } else {
                    (width / self.font.advance) as int
                },
            }
        }
    }

    /// The number of lines.
    pub open spec fn lines(&self) -> int {
        if self.glyphs == 0 {
            0
        } else {
            (self.glyphs - 1) / self.per_line() + 1
        }
    }

    fn glyphs_per_line(&self) -> (count: usize)
        ensures
            count == self.per_line(),
            1 <= count,
            self.glyphs > 0 ==> count <= self.glyphs,
    {
        if self.glyphs == 0 {
            1
        } else {
            match self.max_width {
                None => self.glyphs,
                Some(width) => {
                    if self.font.advance == 0 {
                        self.glyphs
                    } else {
                        let fit: u64 = width / self.font.advance;
                        if fit == 0 {
                            1
                        } else if fit > self.glyphs as u64 {
                            self.glyphs
                        } else {
                            fit as usize
                        }
                    }
                },
            }
        }
    }
}

impl TextMeasure for FixedLayout {
    /// The width of a full line, or of the whole text where it is shorter.
    open spec fn measured_width(&self) -> u64 {
        if self.glyphs == 0 {
            0
        } else {
            times(self.per_line(), self.font.advance as int)
        }
    }

    /// Line `i` ends `i + 1` line heights below the top.
    open spec fn line_metrics(&self) -> Seq<LineMetric> {
        Seq::new(
            self.lines() as nat,
            |i: int| LineMetric { cumulative_height: times(i + 1, self.font.line_height as int) },
        )
    }

    open spec fn rewrap(self, width: Option<u64>) -> Self {
        FixedLayout { max_width: width, ..self }
    }

    fn width(&self) -> (width: u64) {
        if self.glyphs == 0 {
            0
        } else {
            saturating_times(self.glyphs_per_line() as u64, self.font.advance)
        }
    }

    fn line_count(&self) -> (count: usize) {
        if self.glyphs == 0 {
            0
        } else {
            let per_line: usize = self.glyphs_per_line();
            let full: usize = (self.glyphs - 1) / per_line;
            assert(full <= self.glyphs - 1) by (nonlinear_arith)
                requires
                    full == (self.glyphs - 1) / (per_line as int),
                    per_line >= 1,
                    self.glyphs >= 1,
            ;
            full + 1
        }
    }

    fn line_metric(&self, line: usize) -> (metric: Option<LineMetric>) {
        if line < self.line_count() {
            Some(
                LineMetric {
                    cumulative_height: saturating_times((line + 1) as u64, self.font.line_height),
                },
            )
        } else {
            None
        }
    }

    fn update_width(&mut self, width: Option<u64>) {
        self.max_width = width;
    }
}

/// The text service of one fixed-pitch font family.
#[derive(Clone, Debug, PartialEq, Eq)]
pub struct FixedPitch {
    /// The name of the family. No other name is resolved.
    pub family: String,
}

impl FixedPitch {
    pub fn new(family: String) -> (service: FixedPitch)
        ensures
            service == (FixedPitch { family }),
    {
        FixedPitch { family }
    }
}

impl Text for FixedPitch {
    type Font = FixedFont;

    type Layout = FixedLayout;

    /// The family of the service resolves at every size but 0. A glyph is
    /// half as wide as the line is high, rounded up.
    open spec fn font(&self, name: Seq<char>, size: u64) -> Option<FixedFont> {
        if name == self.family@ && size > 0 {
            Some(FixedFont { advance: (size / 2 + size % 2) as u64, line_height: size })
        } else {
            None
        }
    }

    /// Every text can be measured.
    open spec fn layout(&self, font: FixedFont, text: Seq<char>, width: Option<u64>) -> Option<
        FixedLayout,
    > {
        if text.len() <= usize::MAX {
            Some(FixedLayout { glyphs: text.len() as usize, font, max_width: width })
        } else {
            None
        }
    }

    fn build_font(&self, name: &String, size: u64) -> (font: Option<FixedFont>) {
        if *name == self.family && size > 0 {
            Some(FixedFont { advance: size / 2 + size % 2, line_height: size })
        } else {
            None
        }
    }

    fn build_layout(&self, font: &FixedFont, text: &String, width: Option<u64>) -> (layout:
        Option<FixedLayout>) {
        let glyphs: usize = text.as_str().unicode_len();
        Some(FixedLayout { glyphs, font: *font, max_width: width })
    }
}

/// More of the same unit is never less.
pub proof fn lemma_times_grows(fewer: int, more: int, unit: int)
    requires
        0 <= fewer <= more,
        0 <= unit,
    ensures
        times(fewer, unit) <= times(more, unit),
{
    lemma_mul_inequality(fewer, more, unit);
    lemma_mul_inequality(0, fewer, unit);
}

/// The height of a measured text is that of its lines: as many line heights
/// as it has lines.
pub proof fn lemma_height_of_lines(layout: FixedLayout)
    ensures
        0 <= layout.lines() <= layout.glyphs,
        layout.line_metrics().len() == layout.lines(),
        height_of(layout.line_metrics()) == times(layout.lines(), layout.font.line_height as int),
{
    if layout.glyphs > 0 {
        let per_line = layout.per_line();
        lemma_div_is_ordered_by_denominator(layout.glyphs - 1, 1, per_line);
        lemma_div_is_ordered(0, layout.glyphs - 1, per_line);
    }
}

/// Wrapping at a narrower width never gives fewer lines or less height, and
/// no width gives fewer lines than no wrapping.
pub proof fn lemma_narrower_wraps_more(layout: FixedLayout, narrow: u64, wide: u64)
    requires
        narrow <= wide,
    ensures
        layout.rewrap(Some(narrow)).lines() >= layout.rewrap(Some(wide)).lines(),
        layout.rewrap(Some(wide)).lines() >= layout.rewrap(None).lines(),
        height_of(layout.rewrap(Some(narrow)).line_metrics()) >= height_of(
            layout.rewrap(Some(wide)).line_metrics(),
        ),
        height_of(layout.rewrap(Some(wide)).line_metrics()) >= height_of(
            layout.rewrap(None).line_metrics(),
        ),
{
    let at_narrow = layout.rewrap(Some(narrow));
    let at_wide = layout.rewrap(Some(wide));
    let unwrapped = layout.rewrap(None);
    lemma_height_of_lines(at_narrow);
    lemma_height_of_lines(at_wide);
    lemma_height_of_lines(unwrapped);
    if layout.glyphs > 0 {
        if layout.font.advance > 0 {
            lemma_div_is_ordered(narrow as int, wide as int, layout.font.advance as int);
        }
        assert(1 <= at_narrow.per_line() <= at_wide.per_line() <= unwrapped.per_line());
        lemma_div_is_ordered_by_denominator(
            layout.glyphs - 1,
            at_narrow.per_line(),
            at_wide.per_line(),
        );
        lemma_div_is_ordered_by_denominator(
            layout.glyphs - 1,
            at_wide.per_line(),
            unwrapped.per_line(),
        );
    }
    lemma_times_grows(at_wide.lines(), at_narrow.lines(), layout.font.line_height as int);
    lemma_times_grows(unwrapped.lines(), at_wide.lines(), layout.font.line_height as int);
}

/// A text that fits into the width takes one line; one of several glyphs
/// that does not fit takes more. A single glyph is never broken.
pub proof fn lemma_wraps_where_too_wide(layout: FixedLayout, width: u64)
    requires
        layout.glyphs > 0,
        layout.font.advance > 0,
    ensures
        layout.glyphs * layout.font.advance <= width ==> layout.rewrap(Some(width)).lines() == 1,
        layout.glyphs * layout.font.advance > width && layout.glyphs > 1 ==> layout.rewrap(
            Some(width),
        ).lines() > 1,
        layout.glyphs == 1 ==> layout.rewrap(Some(width)).lines() == 1,
        layout.rewrap(None).lines() == 1,
{
    let advance = layout.font.advance as int;
    let glyphs = layout.glyphs as int;
    let wrapped = layout.rewrap(Some(width));
    let per_line = wrapped.per_line();
    assert((glyphs * advance) / advance == glyphs) by (nonlinear_arith)
        requires
            advance > 0,
    ;
    assert((glyphs - 1) / glyphs == 0) by (nonlinear_arith)
        requires
            glyphs > 0,
    ;
    if glyphs * advance <= width {
        lemma_div_is_ordered(glyphs * advance, width as int, advance);
        assert(per_line == glyphs);
    } else if glyphs > 1 {
        let fit = width as int / advance;
        assert(fit * advance <= width) by (nonlinear_arith)
            requires
                fit == width as int / advance,
                advance > 0,
                width >= 0,
        ;
        assert(fit < glyphs) by (nonlinear_arith)
            requires
                fit * advance <= width,
                glyphs * advance > width,
                advance > 0,
        ;
        assert(fit == width / layout.font.advance);
        assert(1 <= per_line < glyphs);
        assert((glyphs - 1) / per_line >= 1) by (nonlinear_arith)
            requires
                1 <= per_line <= glyphs - 1,
        ;
    }
}

} // verus!
