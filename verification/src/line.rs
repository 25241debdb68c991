//! Line drawing on the pixel grid, without depth test.
use crate::color::Rgba8;
use crate::frame_buffer::Surface;
use crate::outside::clamp_i32;
use crate::renderer::Renderer;
use vstd::arithmetic::div_mod::{lemma_fundamental_div_mod, lemma_fundamental_div_mod_converse};
use vstd::prelude::*;

verus! {

/// The integer nearest to `num / den`, for `num >= 0` and `den > 0`; of
/// two that are equally near, the greater.
pub open spec fn nearest(num: int, den: int) -> int {
    if den > 0 {
        (2 * num + den) / (2 * den)
    } else {
        0
    }
}

/// `from` moved by `by` in the direction of `to`.
pub open spec fn toward(from: int, to: int, by: int) -> int {
    if to >= from {
        from + by
    } else {
        from - by
    }
}

/// The distance between two coordinates.
pub open spec fn distance(from: int, to: int) -> int {
    if to >= from {
        to - from
    } else {
        from - to
    }
}

/// The line between two pixels, both included.
pub struct LineShape {
    pub x0: int,
    pub y0: int,
    pub x1: int,
    pub y1: int,
}

impl LineShape {
    /// The line from `start` to `end`.
    pub open spec fn between(start: (i32, i32), end: (i32, i32)) -> LineShape {
        LineShape { x0: start.0 as int, y0: start.1 as int, x1: end.0 as int, y1: end.1 as int }
    }

    /// The line that `draw_line2d` draws on `surface` for the two end
    /// points: each is first held to the pixel grid.
    pub open spec fn held_between(surface: Surface, start: (i32, i32), end: (i32, i32))
        -> LineShape {
        let last_x = last_coordinate(surface.width);
        let last_y = last_coordinate(surface.height);
        Self::between(
            (held(start.0, 0, last_x), held(start.1, 0, last_y)),
            (held(end.0, 0, last_x), held(end.1, 0, last_y)),
        )
    }

    pub open spec fn dx(self) -> int {
        distance(self.x0, self.x1)
    }

    pub open spec fn dy(self) -> int {
        distance(self.y0, self.y1)
    }

    /// Whether the line spans at least as many columns as rows.
    pub open spec fn x_major(self) -> bool {
        self.dx() >= self.dy()
    }

    /// The number of steps from the first pixel to the last: the greater
    /// of the two extents.
    pub open spec fn steps(self) -> int {
        if self.x_major() {
            self.dx()
        } else {
            self.dy()
        }
    }

    /// The pixel of step `j`, as column and row. A line that spans at
    /// least as many columns as rows has one pixel in each column, in the
    /// row nearest to the true line; any other has one pixel in each row,
    /// in the column nearest to the true line.
    pub open spec fn point(self, j: int) -> (int, int) {
        if self.x_major() {
            (
                toward(self.x0, self.x1, j),
                toward(self.y0, self.y1, nearest(j * self.dy(), self.dx())),
            )
        } else {
            (
                toward(self.x0, self.x1, nearest(j * self.dx(), self.dy())),
                toward(self.y0, self.y1, j),
            )
        }
    }

    /// The index on `surface` of the pixel of step `j`.
    pub open spec fn plot_index(self, surface: Surface, j: int) -> int {
        self.point(j).1 * surface.width + self.point(j).0
    }

    /// `surface` with the pixels of the first `n` steps colored.
    pub open spec fn plotted(self, surface: Surface, n: nat, color: Rgba8) -> Surface
        decreases n,
    {
        if n == 0 {
            surface
        } else {
            self.plotted(surface, (n - 1) as nat, color).with_color(
                self.plot_index(surface, n - 1),
                color,
            )
        }
    }

    /// `surface` with the whole line colored, both end pixels included.
    pub open spec fn drawn(self, surface: Surface, color: Rgba8) -> Surface {
        self.plotted(surface, (self.steps() + 1) as nat, color)
    }

    /// Whether both end points are pixels of `surface`.
    pub open spec fn on(self, surface: Surface) -> bool {
        &&& 0 <= self.x0 < surface.width
        &&& 0 <= self.x1 < surface.width
        &&& 0 <= self.y0 < surface.height
        &&& 0 <= self.y1 < surface.height
    }

    /// Whether a pixel lies in the rectangle that the two end points
    /// span.
    pub open spec fn spans(self, column: int, row: int) -> bool {
        &&& self.x0 <= column <= self.x1 || self.x1 <= column <= self.x0
        &&& self.y0 <= row <= self.y1 || self.y1 <= row <= self.y0
    }

    /// How to tell the nearest integer without dividing: `k` is nearest
    /// to `num / den` where twice `num` lies less than `den` above and at
    /// most `den` below `2 * k * den`.
    pub proof fn nearest_is(num: int, den: int, k: int)
        requires
            den > 0,
            2 * (k * den) <= 2 * num + den < 2 * (k * den) + 2 * den,
        ensures
            nearest(num, den) == k,
    {
        assert(2 * num + den == k * (2 * den) + (2 * num + den - 2 * (k * den)))
            by (nonlinear_arith);
        lemma_fundamental_div_mod_converse(
            2 * num + den,
            2 * den,
            k,
            2 * num + den - 2 * (k * den),
        );
    }

    /// The offset across the line stays between 0 and the smaller
    /// extent, is 0 at the first step and that extent at the last.
    pub proof fn nearest_is_between(j: int, minor: int, major: int)
        requires
            0 <= j <= major,
            0 <= minor <= major,
        ensures
            0 <= nearest(j * minor, major) <= minor,
            nearest(0 * minor, major) == 0,
            nearest(major * minor, major) == minor,
    {
        if major > 0 {
            let d = 2 * major;
            let x = 2 * (j * minor) + major;
            let q = x / d;
            lemma_fundamental_div_mod(x, d);
            assert(0 <= j * minor <= major * minor) by (nonlinear_arith)
                requires
                    0 <= j <= major,
                    0 <= minor,
            ;
            assert(0 <= q <= minor) by (nonlinear_arith)
                requires
                    x == d * q + x % d,
                    0 <= x % d < d,
                    0 <= x <= 2 * (major * minor) + major,
                    d == 2 * major,
                    major > 0,
                    0 <= minor,
            ;
            assert(0 * minor == 0);
            lemma_fundamental_div_mod_converse(2 * (0 * minor) + major, d, 0, major);
            assert(2 * (major * minor) + major == minor * d + major) by (nonlinear_arith)
                requires
                    d == 2 * major,
            ;
            lemma_fundamental_div_mod_converse(2 * (major * minor) + major, d, minor, major);
        }
    }

    /// The line starts at its first end point and ends at its second.
    pub proof fn ends_are_plotted(self)
        ensures
            self.point(0) == (self.x0, self.y0),
            self.point(self.steps()) == (self.x1, self.y1),
    {
        if self.x_major() {
            Self::nearest_is_between(0, self.dy(), self.dx());
        } else {
            Self::nearest_is_between(0, self.dx(), self.dy());
        }
    }

    /// Every pixel of the line lies in the rectangle that the two end
    /// points span.
    pub proof fn points_lie_between(self, j: int)
        requires
            0 <= j <= self.steps(),
        ensures
            self.spans(self.point(j).0, self.point(j).1),
    {
        if self.x_major() {
            Self::nearest_is_between(j, self.dy(), self.dx());
        } else {
            Self::nearest_is_between(j, self.dx(), self.dy());
        }
    }

    /// Plotting keeps the extent and the depths.
    pub proof fn plotted_keeps(self, surface: Surface, n: nat, color: Rgba8)
        requires
            surface.wf(),
        ensures
            self.plotted(surface, n, color).wf(),
            self.plotted(surface, n, color).width == surface.width,
            self.plotted(surface, n, color).height == surface.height,
            self.plotted(surface, n, color).depth == surface.depth,
        decreases n,
    {
        if n > 0 {
            self.plotted_keeps(surface, (n - 1) as nat, color);
        }
    }

    /// A pixel that is not one of the line's keeps its color.
    pub proof fn plotting_is_local(self, surface: Surface, n: nat, color: Rgba8, index: int)
        requires
            surface.wf(),
            0 <= index < surface.pixel_count(),
            forall|j: int| 0 <= j < n ==> #[trigger] self.plot_index(surface, j) != index,
        ensures
            self.plotted(surface, n, color).pixel(index) == surface.pixel(index),
        decreases n,
    {
        if n > 0 {
            self.plotting_is_local(surface, (n - 1) as nat, color, index);
            self.plotted_keeps(surface, (n - 1) as nat, color);
            assert(self.plot_index(surface, n - 1) != index);
        }
    }

    /// Every pixel has its color of before or the line's color.
    pub proof fn pixels_are_kept_or_colored(
        self,
        surface: Surface,
        n: nat,
        color: Rgba8,
        index: int,
    )
        requires
            surface.wf(),
            0 <= index < surface.pixel_count(),
        ensures
            self.plotted(surface, n, color).pixel(index) == surface.pixel(index) || self.plotted(
                surface,
                n,
                color,
            ).pixel(index) == color,
        decreases n,
    {
        if n > 0 {
            self.pixels_are_kept_or_colored(surface, (n - 1) as nat, color, index);
            self.plotted_keeps(surface, (n - 1) as nat, color);
        }
    }

    /// A pixel of the line that lies on the surface has the line's color.
    pub proof fn plotted_pixels_have_the_color(self, surface: Surface, n: nat, color: Rgba8, j: int)
        requires
            surface.wf(),
            0 <= j < n,
            0 <= self.plot_index(surface, j) < surface.pixel_count(),
        ensures
            self.plotted(surface, n, color).pixel(self.plot_index(surface, j)) == color,
        decreases n,
    {
        self.plotted_keeps(surface, (n - 1) as nat, color);
        if j < n - 1 {
            self.plotted_pixels_have_the_color(surface, (n - 1) as nat, color, j);
        }
    }

    /// Drawing a line whose end points lie on the surface changes no
    /// pixel outside the rectangle that they span.
    pub proof fn outside_the_rectangle_stays(
        self,
        surface: Surface,
        color: Rgba8,
        column: int,
        row: int,
    )
        requires
            surface.wf(),
            self.on(surface),
            0 <= column < surface.width,
            0 <= row < surface.height,
            !self.spans(column, row),
        ensures
            0 <= row * surface.width + column < surface.pixel_count(),
            self.drawn(surface, color).pixel(row * surface.width + column) == surface.pixel(
                row * surface.width + column,
            ),
    {
        let w = surface.width as int;
        let index = row * w + column;
        assert(0 <= index < w * surface.height) by (nonlinear_arith)
            requires
                0 <= column < w,
                0 <= row < surface.height,
                index == row * w + column,
        ;
        assert forall|j: int| 0 <= j < self.steps() + 1 implies #[trigger] self.plot_index(
            surface,
            j,
        ) != index by {
            self.points_lie_between(j);
            let p = self.point(j);
            if p.1 * w + p.0 == index {
                assert(p.0 == column && p.1 == row) by (nonlinear_arith)
                    requires
                        0 <= p.0 < w,
                        0 <= column < w,
                        p.1 * w + p.0 == row * w + column,
                ;
            }
        }
        self.plotting_is_local(surface, (self.steps() + 1) as nat, color, index);
    }

    /// A line along one row or one column colors every pixel between
    /// its two ends.
    pub proof fn straight_line_is_whole(self, surface: Surface, color: Rgba8, column: int, row: int)
        requires
            surface.wf(),
            self.on(surface),
            self.dx() == 0 || self.dy() == 0,
            self.spans(column, row),
        ensures
            0 <= row * surface.width + column < surface.pixel_count(),
            self.drawn(surface, color).pixel(row * surface.width + column) == color,
    {
        let j = if self.x_major() {
            distance(self.x0, column)
        } else {
            distance(self.y0, row)
        };
        if self.x_major() {
            Self::nearest_is_between(j, self.dy(), self.dx());
        } else {
            Self::nearest_is_between(j, self.dx(), self.dy());
        }
        assert(self.point(j) == (column, row));
        self.line_has_the_color(surface, color, j);
    }

    /// Every pixel of a line whose end points lie on the surface has the
    /// line's color after the drawing, the two end pixels among them.
    pub proof fn line_has_the_color(self, surface: Surface, color: Rgba8, j: int)
        requires
            surface.wf(),
            self.on(surface),
            0 <= j <= self.steps(),
        ensures
            0 <= self.plot_index(surface, j) < surface.pixel_count(),
            self.drawn(surface, color).pixel(self.plot_index(surface, j)) == color,
    {
        self.points_lie_between(j);
        let p = self.point(j);
        let w = surface.width as int;
        assert(0 <= p.1 * w + p.0 < w * surface.height) by (nonlinear_arith)
            requires
                0 <= p.0 < w,
                0 <= p.1 < surface.height,
        ;
        self.plotted_pixels_have_the_color(surface, (self.steps() + 1) as nat, color, j);
    }
}

/// The last column or row of an extent, as far as a pixel coordinate can
/// reach.
pub open spec fn last_coordinate(extent: nat) -> i32 {
    if extent - 1 > i32::MAX {
        i32::MAX
    } else {
        (extent - 1) as i32
    }
}

/// `val` held between `min` and `max`: `min` unless `val` is above it,
/// and then `val` if it is below `max`, else `max`.
pub open spec fn held(val: i32, min: i32, max: i32) -> i32 {
    if val > min {
        if val < max {
            val
        } else {
            max
        }
    } else {
        min
    }
}

impl Renderer {
    /// Each component of `val` held to the interval that `min` and `max`
    /// give for it.
    pub fn component_clamp(val: (i32, i32), min: (i32, i32), max: (i32, i32)) -> (r: (i32, i32))
        ensures
            r.0 == held(val.0, min.0, max.0),
            r.1 == held(val.1, min.1, max.1),
    {
        (clamp_i32(val.0, min.0, max.0), clamp_i32(val.1, min.1, max.1))
    }

    fn last_of(extent: usize) -> (r: i32)
        requires
            extent > 0,
        ensures
            r == last_coordinate(extent as nat),
            r >= 0,
    {
        if extent - 1 > 0x7FFF_FFFF {
            i32::MAX
        } else {
            (extent - 1) as i32
        }
    }

    /// Draws the line from pixel `start` to pixel `end`, both first held
    /// to the pixel grid, in `color`: every pixel of the line between the
    /// two, both included. The depths stay.
    pub fn draw_line2d(&mut self, start: (i32, i32), end: (i32, i32), color: &Rgba8)
        requires
            old(self).wf(),
        ensures
            final(self).wf(),
            final(self)@ == LineShape::held_between(old(self)@, start, end).drawn(
                old(self)@,
                *color,
            ),
            final(self)@.depth == old(self)@.depth,
            forall|index: int|
                0 <= index < old(self)@.pixel_count() ==> #[trigger] final(self)@.pixel(index)
                    == old(self)@.pixel(index) || final(self)@.pixel(index) == *color,
            ({
                let line = LineShape::held_between(old(self)@, start, end);
                &&& line.on(old(self)@)
                &&& forall|j: int|
                    0 <= j <= line.steps() ==> final(self)@.pixel(
                        #[trigger] line.plot_index(old(self)@, j),
                    ) == *color
                &&& final(self)@.pixel(line.y0 * old(self)@.width + line.x0) == *color
                &&& final(self)@.pixel(line.y1 * old(self)@.width + line.x1) == *color
                &&& forall|wi: usize, hi: usize|
                    (line.dx() == 0 || line.dy() == 0) && line.spans(wi as int, hi as int)
                        ==> final(self)@.pixel(#[trigger] old(self)@.pixel_index(wi, hi))
                        == *color
                &&& forall|wi: usize, hi: usize|
                    wi < old(self)@.width && hi < old(self)@.height && !line.spans(
                        wi as int,
                        hi as int,
                    ) ==> final(self)@.pixel(#[trigger] old(self)@.pixel_index(wi, hi)) == old(
                        self,
                    )@.pixel(old(self)@.pixel_index(wi, hi))
            }),
    {
        let (width, height) = self.get_back_buffer_width_height();
        let last = (Self::last_of(width), Self::last_of(height));
        let from = Self::component_clamp(start, (0, 0), last);
        let to = Self::component_clamp(end, (0, 0), last);
        let ghost shape = LineShape::between(from, to);
        let ghost before = self@;

        let x0: i64 = from.0 as i64;
        let y0: i64 = from.1 as i64;
        let x1: i64 = to.0 as i64;
        let y1: i64 = to.1 as i64;
        let dx: i64 = if x1 >= x0 {
            x1 - x0
        } else {
            x0 - x1
        };
        let dy: i64 = if y1 >= y0 {
            y1 - y0
        } else {
            y0 - y1
        };
        let x_major: bool = dx >= dy;
        let major: i64 = if x_major {
            dx
        } else {
            dy
        };
        let minor: i64 = if x_major {
            dy
        } else {
            dx
        };
        // `across` is the offset across the line at step `j`, and `rest`
        // what is left of twice the true offset, plus a half, beyond it.
        let mut j: i64 = 0;
        let mut across: i64 = 0;
        let mut rest: i64 = major;
        proof {
            LineShape::nearest_is_between(0, minor as int, major as int);
            assert(0 * minor == 0 && 0 * (2 * major) == 0) by (nonlinear_arith);
        }
        while j <= major
            invariant
                self.wf(),
                before.wf(),
                before.width == width,
                before.height == height,
                shape == LineShape::between(from, to),
                0 <= x0 <= last.0 < width,
                0 <= x1 <= last.0,
                0 <= y0 <= last.1 < height,
                0 <= y1 <= last.1,
                x0 == from.0,
                y0 == from.1,
                x1 == to.0,
                y1 == to.1,
                dx == shape.dx(),
                dy == shape.dy(),
                x_major == shape.x_major(),
                major == shape.steps(),
                minor == (if x_major {
                    dy
                } else {
                    dx
                }),
                0 <= minor <= major <= i32::MAX,
                0 <= j <= major + 1,
                j <= major ==> across == nearest(j * minor, major as int),
                j <= major && major > 0 ==> 2 * (j * minor) + major == across * (2 * major) + rest
                    && 0 <= rest < 2 * major,
                self@ == shape.plotted(before, j as nat, *color),
            decreases major + 1 - j,
        {
            proof {
                LineShape::nearest_is_between(j as int, minor as int, major as int);
                shape.plotted_keeps(before, j as nat, *color);
            }
            let column: i64 = if x_major {
                if x1 >= x0 {
                    x0 + j
                } else {
                    x0 - j
                }
            } else {
                if x1 >= x0 {
                    x0 + across
                } else {
                    x0 - across
                }
            };
            let row: i64 = if x_major {
                if y1 >= y0 {
                    y0 + across
                } else {
                    y0 - across
                }
            } else {
                if y1 >= y0 {
                    y0 + j
                } else {
                    y0 - j
                }
            };
            assert(shape.point(j as int) == (column as int, row as int));
            proof {
                shape.points_lie_between(j as int);
            }
            self.set_color_by_whi_viewport(column as usize, row as usize, color);
            let ghost across_before = across;
            let ghost rest_before = rest;
            j = j + 1;
            if j <= major {
                rest = rest + 2 * minor;
                if rest >= 2 * major {
                    rest = rest - 2 * major;
                    across = across + 1;
                }
                proof {
                    assert((across_before + 1) * (2 * major) == across_before * (2 * major) + 2
                        * major) by (nonlinear_arith);
                    assert(j * minor == (j - 1) * minor + minor) by (nonlinear_arith);
                    lemma_fundamental_div_mod_converse(
                        2 * (j * minor) + major,
                        2 * major,
                        across as int,
                        rest as int,
                    );
                }
            }
        }
        proof {
            shape.plotted_keeps(before, (shape.steps() + 1) as nat, *color);
            shape.ends_are_plotted();
            assert forall|index: int| 0 <= index < before.pixel_count() implies #[trigger] self@.pixel(
                index,
            ) == before.pixel(index) || self@.pixel(index) == *color by {
                shape.pixels_are_kept_or_colored(
                    before,
                    (shape.steps() + 1) as nat,
                    *color,
                    index,
                );
            }
            assert forall|k: int| 0 <= k <= shape.steps() implies self@.pixel(
                #[trigger] shape.plot_index(before, k),
            ) == *color by {
                shape.line_has_the_color(before, *color, k);
            }
            assert forall|wi: usize, hi: usize|
                (shape.dx() == 0 || shape.dy() == 0) && shape.spans(
                    wi as int,
                    hi as int,
                ) implies self@.pixel(#[trigger] before.pixel_index(wi, hi)) == *color by {
                shape.straight_line_is_whole(before, *color, wi as int, hi as int);
            }
            assert(shape.plot_index(before, 0) == shape.y0 * before.width + shape.x0);
            assert(shape.plot_index(before, shape.steps()) == shape.y1 * before.width + shape.x1);
            assert forall|wi: usize, hi: usize|
                wi < before.width && hi < before.height && !shape.spans(
                    wi as int,
                    hi as int,
                ) implies self@.pixel(#[trigger] before.pixel_index(wi, hi)) == before.pixel(
                before.pixel_index(wi, hi),
            ) by {
                shape.outside_the_rectangle_stays(before, *color, wi as int, hi as int);
            }
        }
    }
}

} // verus!
