//! What holds of the depth test and of committing candidates, whatever
//! the surface and the candidates are.
use crate::depth_cmp::EDepthCmpFunc;
use crate::frame_buffer::Surface;
use crate::renderer::RenderResult;
use vstd::prelude::*;

verus! {

impl Surface {
    /// The surface after one candidate.
    pub open spec fn write(self, candidate: RenderResult, mode: EDepthCmpFunc) -> Surface {
        self.depth_write(candidate.pixel, candidate.depth, candidate.color, mode)
    }

    /// The index of the pixel that a candidate is tested at, if it has
    /// one on this surface.
    pub open spec fn target(self, pixel: Option<(usize, usize)>) -> Option<int> {
        match pixel {
            Some((wi, hi)) => if self.pixel_index(wi, hi) < self.pixel_count() {
                Some(self.pixel_index(wi, hi))
            } else {
                None
            },
            None => None,
        }
    }

    /// No candidate of `a` is tested at a pixel at which one of `b` is.
    pub open spec fn apart(self, a: Seq<RenderResult>, b: Seq<RenderResult>) -> bool {
        forall|i: int, j: int|
            0 <= i < a.len() && 0 <= j < b.len() && self.target(#[trigger] a[i].pixel) is Some
                ==> self.target(a[i].pixel) != self.target(#[trigger] b[j].pixel)
    }

    /// Two surfaces of one extent.
    pub open spec fn same_extent(self, other: Surface) -> bool {
        self.width == other.width && self.height == other.height
    }

    /// A candidate changes neither the extent nor the buffers' lengths.
    pub proof fn write_keeps_shape(self, candidate: RenderResult, mode: EDepthCmpFunc)
        requires
            self.wf(),
        ensures
            self.write(candidate, mode).wf(),
            self.write(candidate, mode).same_extent(self),
    {
    }

    /// Nor do the candidates of a triangle.
    pub proof fn commit_keeps_shape(self, candidates: Seq<RenderResult>, mode: EDepthCmpFunc)
        requires
            self.wf(),
        ensures
            self.commit(candidates, mode).wf(),
            self.commit(candidates, mode).same_extent(self),
        decreases candidates.len(),
    {
        if candidates.len() > 0 {
            self.commit_keeps_shape(candidates.drop_last(), mode);
        }
    }

    /// Under "never" no candidate is written, whatever the depths are.
    pub proof fn never_writes_nothing(self, candidates: Seq<RenderResult>)
        ensures
            self.commit(candidates, EDepthCmpFunc::Never) == self,
        decreases candidates.len(),
    {
        if candidates.len() > 0 {
            self.never_writes_nothing(candidates.drop_last());
        }
    }

    /// Under "always" a candidate with a pixel on the surface is written,
    /// whatever the depths are: its depth and its color stand at that
    /// pixel afterwards.
    pub proof fn always_overwrites(self, candidate: RenderResult)
        requires
            self.wf(),
            self.target(candidate.pixel) is Some,
        ensures
            self.write(candidate, EDepthCmpFunc::Always).depth[self.target(
                candidate.pixel,
            )->0] == candidate.depth,
            self.write(candidate, EDepthCmpFunc::Always).pixel(self.target(candidate.pixel)->0)
                == candidate.color,
    {
    }

    /// A triangle without candidates, such as a culled one, leaves the
    /// surface as it was.
    pub proof fn no_candidates_no_writes(self, mode: EDepthCmpFunc)
        ensures
            self.commit(Seq::<RenderResult>::empty(), mode) == self,
            self.commit_all(Seq::<Seq<RenderResult>>::empty(), mode) == self,
            self.commit_all(seq![Seq::<RenderResult>::empty()], mode) == self,
    {
        let one = seq![Seq::<RenderResult>::empty()];
        assert(one.drop_last() =~= Seq::<Seq<RenderResult>>::empty());
        assert(one.last() == Seq::<RenderResult>::empty());
    }

    /// Two candidates that are not tested at one pixel can be written in
    /// either order.
    pub proof fn writes_commute(self, x: RenderResult, y: RenderResult, mode: EDepthCmpFunc)
        requires
            self.wf(),
            self.target(x.pixel) is Some ==> self.target(x.pixel) != self.target(y.pixel),
        ensures
            self.write(x, mode).write(y, mode) == self.write(y, mode).write(x, mode),
    {
        let xy = self.write(x, mode).write(y, mode);
        let yx = self.write(y, mode).write(x, mode);
        self.write_keeps_shape(x, mode);
        self.write_keeps_shape(y, mode);
        assert(xy.color =~= yx.color);
        assert(xy.depth =~= yx.depth);
    }

    /// A candidate that is tested at no pixel of a triangle's candidates
    /// can be written before them or after them.
    pub proof fn write_passes_commit(
        self,
        candidates: Seq<RenderResult>,
        y: RenderResult,
        mode: EDepthCmpFunc,
    )
        requires
            self.wf(),
            self.apart(candidates, seq![y]),
        ensures
            self.commit(candidates, mode).write(y, mode) == self.write(y, mode).commit(
                candidates,
                mode,
            ),
        decreases candidates.len(),
    {
        if candidates.len() > 0 {
            let rest = candidates.drop_last();
            let last = candidates.last();
            assert forall|i: int, j: int|
                0 <= i < rest.len() && 0 <= j < seq![y].len() && self.target(
                    #[trigger] rest[i].pixel,
                ) is Some implies self.target(rest[i].pixel) != self.target(
                #[trigger] seq![y][j].pixel,
            ) by {
                assert(rest[i] == candidates[i]);
            }
            self.write_passes_commit(rest, y, mode);
            let mid = self.commit(rest, mode);
            self.commit_keeps_shape(rest, mode);
            assert(seq![y][0] == y);
            assert(candidates[candidates.len() - 1] == last);
            assert(self.target(last.pixel) is Some ==> self.target(last.pixel) != self.target(
                y.pixel,
            ));
            assert(mid.target(last.pixel) == self.target(last.pixel));
            assert(mid.target(y.pixel) == self.target(y.pixel));
            mid.writes_commute(last, y, mode);
        }
    }

    /// Two triangles whose candidates are tested at no common pixel can
    /// be committed in either order: the surface comes out the same.
    pub proof fn commits_commute(
        self,
        a: Seq<RenderResult>,
        b: Seq<RenderResult>,
        mode: EDepthCmpFunc,
    )
        requires
            self.wf(),
            self.apart(a, b),
        ensures
            self.commit(a, mode).commit(b, mode) == self.commit(b, mode).commit(a, mode),
        decreases b.len(),
    {
        if b.len() > 0 {
            let rest = b.drop_last();
            let last = b.last();
            assert forall|i: int, j: int|
                0 <= i < a.len() && 0 <= j < rest.len() && self.target(#[trigger] a[i].pixel)
                    is Some implies self.target(a[i].pixel) != self.target(
                #[trigger] rest[j].pixel,
            ) by {
                assert(rest[j] == b[j]);
            }
            self.commits_commute(a, rest, mode);
            let base = self.commit(rest, mode);
            self.commit_keeps_shape(rest, mode);
            assert forall|i: int, j: int|
                0 <= i < a.len() && 0 <= j < seq![last].len() && base.target(
                    #[trigger] a[i].pixel,
                ) is Some implies base.target(a[i].pixel) != base.target(
                #[trigger] seq![last][j].pixel,
            ) by {
                assert(seq![last][j] == b[b.len() - 1]);
                assert(base.target(a[i].pixel) == self.target(a[i].pixel));
                assert(base.target(last.pixel) == self.target(last.pixel));
            }
            base.write_passes_commit(a, last, mode);
        }
    }

    /// A candidate leaves every pixel but the one it is tested at as it
    /// was, depth and color.
    pub proof fn write_is_local(self, candidate: RenderResult, mode: EDepthCmpFunc, index: int)
        requires
            self.wf(),
            0 <= index < self.pixel_count(),
            self.target(candidate.pixel) != Some(index),
        ensures
            self.write(candidate, mode).depth[index] == self.depth[index],
            self.write(candidate, mode).pixel(index) == self.pixel(index),
    {
    }

    /// A pixel at which no candidate is tested comes out as it was.
    pub proof fn untouched_pixel_stays(
        self,
        candidates: Seq<RenderResult>,
        mode: EDepthCmpFunc,
        index: int,
    )
        requires
            self.wf(),
            0 <= index < self.pixel_count(),
            forall|j: int|
                0 <= j < candidates.len() ==> self.target(#[trigger] candidates[j].pixel) != Some(
                    index,
                ),
        ensures
            self.commit(candidates, mode).depth[index] == self.depth[index],
            self.commit(candidates, mode).pixel(index) == self.pixel(index),
        decreases candidates.len(),
    {
        if candidates.len() > 0 {
            let rest = candidates.drop_last();
            let last = candidates.last();
            assert forall|j: int| 0 <= j < rest.len() implies self.target(
                #[trigger] rest[j].pixel,
            ) != Some(index) by {
                assert(rest[j] == candidates[j]);
            }
            self.untouched_pixel_stays(rest, mode, index);
            let mid = self.commit(rest, mode);
            self.commit_keeps_shape(rest, mode);
            assert(candidates[candidates.len() - 1] == last);
            assert(mid.target(last.pixel) == self.target(last.pixel));
            mid.write_is_local(last, mode, index);
        }
    }

    /// Under "always" the last candidate that is tested at a pixel
    /// stands there after the commit, with its depth and its color.
    pub proof fn always_last_candidate_stands(self, candidates: Seq<RenderResult>, i: int)
        requires
            self.wf(),
            0 <= i < candidates.len(),
            self.target(candidates[i].pixel) is Some,
            forall|j: int|
                i < j < candidates.len() ==> self.target(#[trigger] candidates[j].pixel)
                    != self.target(candidates[i].pixel),
        ensures
            self.commit(candidates, EDepthCmpFunc::Always).depth[self.target(
                candidates[i].pixel,
            )->0] == candidates[i].depth,
            self.commit(candidates, EDepthCmpFunc::Always).pixel(
                self.target(candidates[i].pixel)->0,
            ) == candidates[i].color,
        decreases candidates.len(),
    {
        let mode = EDepthCmpFunc::Always;
        let rest = candidates.drop_last();
        let last = candidates.last();
        let mid = self.commit(rest, mode);
        let index = self.target(candidates[i].pixel)->0;
        self.commit_keeps_shape(rest, mode);
        assert(candidates[candidates.len() - 1] == last);
        assert(mid.target(last.pixel) == self.target(last.pixel));
        if i == candidates.len() - 1 {
            mid.always_overwrites(last);
        } else {
            assert(rest[i] == candidates[i]);
            assert forall|j: int| i < j < rest.len() implies self.target(
                #[trigger] rest[j].pixel,
            ) != self.target(rest[i].pixel) by {
                assert(rest[j] == candidates[j]);
            }
            self.always_last_candidate_stands(rest, i);
            mid.write_is_local(last, mode, index);
        }
    }

    /// In a draw call two triangles next to each other in the order of
    /// the commit, whose candidates are tested at no common pixel, can
    /// change places: the surface comes out the same. `front` are the
    /// triangles before the two and `back` those after them.
    pub proof fn neighbours_change_places(
        self,
        front: Seq<Seq<RenderResult>>,
        a: Seq<RenderResult>,
        b: Seq<RenderResult>,
        back: Seq<Seq<RenderResult>>,
        mode: EDepthCmpFunc,
    )
        requires
            self.wf(),
            self.apart(a, b),
        ensures
            self.commit_all(front.push(a).push(b) + back, mode) == self.commit_all(
                front.push(b).push(a) + back,
                mode,
            ),
        decreases back.len(),
    {
        let ab = front.push(a).push(b);
        let ba = front.push(b).push(a);
        if back.len() == 0 {
            assert(ab + back =~= ab);
            assert(ba + back =~= ba);
            assert(ab.drop_last() =~= front.push(a));
            assert(ba.drop_last() =~= front.push(b));
            assert(front.push(a).drop_last() =~= front);
            assert(front.push(b).drop_last() =~= front);
            let base = self.commit_all(front, mode);
            self.commit_all_keeps_shape(front, mode);
            assert forall|i: int, j: int|
                0 <= i < a.len() && 0 <= j < b.len() && base.target(#[trigger] a[i].pixel)
                    is Some implies base.target(a[i].pixel) != base.target(
                #[trigger] b[j].pixel,
            ) by {
                assert(base.target(a[i].pixel) == self.target(a[i].pixel));
                assert(base.target(b[j].pixel) == self.target(b[j].pixel));
            }
            base.commits_commute(a, b, mode);
            assert(ab.last() == b && ba.last() == a);
            assert(front.push(a).last() == a && front.push(b).last() == b);
            assert(self.commit_all(front.push(a), mode) == base.commit(a, mode));
            assert(self.commit_all(front.push(b), mode) == base.commit(b, mode));
            assert(self.commit_all(ab, mode) == base.commit(a, mode).commit(b, mode));
            assert(self.commit_all(ba, mode) == base.commit(b, mode).commit(a, mode));
        } else {
            let rest = back.drop_last();
            self.neighbours_change_places(front, a, b, rest, mode);
            assert((ab + back).drop_last() =~= ab + rest);
            assert((ba + back).drop_last() =~= ba + rest);
            assert((ab + back).last() == back.last());
            assert((ba + back).last() == back.last());
            assert(self.commit_all(ab + back, mode) == self.commit_all(ab + rest, mode).commit(
                back.last(),
                mode,
            ));
            assert(self.commit_all(ba + back, mode) == self.commit_all(ba + rest, mode).commit(
                back.last(),
                mode,
            ));
        }
    }

    /// The triangles of a draw call change neither the extent nor the
    /// buffers' lengths.
    pub proof fn commit_all_keeps_shape(self, batches: Seq<Seq<RenderResult>>, mode: EDepthCmpFunc)
        requires
            self.wf(),
        ensures
            self.commit_all(batches, mode).wf(),
            self.commit_all(batches, mode).same_extent(self),
        decreases batches.len(),
    {
        if batches.len() > 0 {
            self.commit_all_keeps_shape(batches.drop_last(), mode);
            self.commit_all(batches.drop_last(), mode).commit_keeps_shape(batches.last(), mode);
        }
    }

    /// The pixels of the grid and their indices correspond one to one:
    /// a column and row on the surface give an index below the pixel
    /// count, two different places give different indices, and every
    /// such index is that of a place.
    pub proof fn grid_indices_correspond(self)
        requires
            self.wf(),
        ensures
            forall|wi: usize, hi: usize|
                wi < self.width && hi < self.height ==> 0 <= #[trigger] self.pixel_index(wi, hi)
                    < self.pixel_count(),
            forall|wi: usize, hi: usize, wj: usize, hj: usize|
                wi < self.width && hi < self.height && wj < self.width && hj < self.height
                    && #[trigger] self.pixel_index(wi, hi) == #[trigger] self.pixel_index(wj, hj)
                    ==> wi == wj && hi == hj,
            forall|index: int|
                0 <= index < self.pixel_count() ==> 0 <= index % (self.width as int) < self.width
                    && 0 <= index / (self.width as int) < self.height && #[trigger] (index / (
                self.width as int)) * self.width + index % (self.width as int) == index,
    {
        let w = self.width as int;
        let h = self.height as int;
        assert forall|wi: usize, hi: usize| wi < self.width && hi < self.height implies 0
            <= #[trigger] self.pixel_index(wi, hi) < self.pixel_count() by {
            assert(0 <= hi * w + wi < w * h) by (nonlinear_arith)
                requires
                    0 <= wi < w,
                    0 <= hi < h,
            ;
        }
        assert forall|wi: usize, hi: usize, wj: usize, hj: usize|
            wi < self.width && hi < self.height && wj < self.width && hj < self.height
                && #[trigger] self.pixel_index(wi, hi) == #[trigger] self.pixel_index(
                wj,
                hj,
            ) implies wi == wj && hi == hj by {
            assert(wi == wj && hi == hj) by (nonlinear_arith)
                requires
                    0 <= wi < w,
                    0 <= wj < w,
                    0 <= hi,
                    0 <= hj,
                    hi * w + wi == hj * w + wj,
            ;
        }
        assert forall|index: int| 0 <= index < self.pixel_count() implies 0 <= index % w < w && 0
            <= index / w < h && #[trigger] (index / w) * w + index % w == index by {
            assert(0 <= index % w < w && 0 <= index / w < h && (index / w) * w + index % w
                == index) by (nonlinear_arith)
                requires
                    0 <= index < w * h,
                    w > 0,
            ;
        }
    }
}

} // verus!
