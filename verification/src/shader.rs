//! What a shader hands to the rasterizer and takes back from it.
use crate::binary32::Binary32;
use vstd::prelude::*;

verus! {

/// One interpolable attribute, tagged by the number of its components.
#[derive(Debug, Clone, Copy)]
pub enum EShaderAttribute {
    Vec4([Binary32; 4]),
    Vec3([Binary32; 3]),
    Vec2([Binary32; 2]),
    Vec1([Binary32; 1]),
}

impl EShaderAttribute {
    /// The number of components.
    pub open spec fn arity(&self) -> nat {
        match self {
            EShaderAttribute::Vec4(_) => 4,
            EShaderAttribute::Vec3(_) => 3,
            EShaderAttribute::Vec2(_) => 2,
            EShaderAttribute::Vec1(_) => 1,
        }
    }

    /// The components, in order.
    pub open spec fn values(&self) -> Seq<Binary32> {
        match self {
            EShaderAttribute::Vec4(v) => v@,
            EShaderAttribute::Vec3(v) => v@,
            EShaderAttribute::Vec2(v) => v@,
            EShaderAttribute::Vec1(v) => v@,
        }
    }

    /// Whether `out` is what `blend` makes of `a`, `b` and `c` component
    /// by component: an attribute of their arity, each component the
    /// blend of the three components in its place.
    pub open spec fn blended<F: Fn(Binary32, Binary32, Binary32) -> Binary32>(
        a: EShaderAttribute,
        b: EShaderAttribute,
        c: EShaderAttribute,
        blend: F,
        out: EShaderAttribute,
    ) -> bool {
        &&& out.arity() == a.arity()
        &&& forall|k: int|
            0 <= k < a.arity() ==> blend.ensures(
                (a.values()[k], b.values()[k], c.values()[k]),
                #[trigger] out.values()[k],
            )
    }

    /// One attribute of a sample from the attribute at the triangle's
    /// three vertices. `blend` combines three component values, one from
    /// each vertex, under the sample's weights.
    pub fn interpolate<F: Fn(Binary32, Binary32, Binary32) -> Binary32>(
        a: &EShaderAttribute,
        b: &EShaderAttribute,
        c: &EShaderAttribute,
        blend: &F,
    ) -> (out: EShaderAttribute)
        requires
            a.arity() == b.arity(),
            b.arity() == c.arity(),
            forall|x: Binary32, y: Binary32, z: Binary32| #[trigger] blend.requires((x, y, z)),
        ensures
            Self::blended(*a, *b, *c, *blend, out),
    {
        match (a, b, c) {
            (EShaderAttribute::Vec4(x), EShaderAttribute::Vec4(y), EShaderAttribute::Vec4(z)) => {
                EShaderAttribute::Vec4(
                    [
                        blend(x[0], y[0], z[0]),
                        blend(x[1], y[1], z[1]),
                        blend(x[2], y[2], z[2]),
                        blend(x[3], y[3], z[3]),
                    ],
                )
            },
            (EShaderAttribute::Vec3(x), EShaderAttribute::Vec3(y), EShaderAttribute::Vec3(z)) => {
                EShaderAttribute::Vec3(
                    [blend(x[0], y[0], z[0]), blend(x[1], y[1], z[1]), blend(x[2], y[2], z[2])],
                )
            },
            (EShaderAttribute::Vec2(x), EShaderAttribute::Vec2(y), EShaderAttribute::Vec2(z)) => {
                EShaderAttribute::Vec2([blend(x[0], y[0], z[0]), blend(x[1], y[1], z[1])])
            },
            (EShaderAttribute::Vec1(x), EShaderAttribute::Vec1(y), EShaderAttribute::Vec1(z)) => {
                EShaderAttribute::Vec1([blend(x[0], y[0], z[0])])
            },
            _ => {
                assert(false);
                *a
            },
        }
    }

    pub fn components(&self) -> (n: usize)
        ensures
            n == self.arity(),
    {
        match self {
            EShaderAttribute::Vec4(_) => 4,
            EShaderAttribute::Vec3(_) => 3,
            EShaderAttribute::Vec2(_) => 2,
            EShaderAttribute::Vec1(_) => 1,
        }
    }
}

/// The output of the vertex stage: a clip-space position and the
/// attributes to interpolate.
#[derive(Debug)]
pub struct RasterizationData {
    pub position: [Binary32; 4],
    pub attributes: Vec<EShaderAttribute>,
}

/// How the attribute lists of a triangle's three vertices disagree.
#[derive(Debug, Clone, Copy, PartialEq, Eq, Structural)]
pub enum LayoutError {
    /// The lists differ in length; the three lengths.
    Count { a: usize, b: usize, c: usize },
    /// The lists are equally long and `attribute` is the first slot whose
    /// arities differ; the three arities there.
    Arity { attribute: usize, a: usize, b: usize, c: usize },
}

impl RasterizationData {
    /// The arities of the attributes, in order.
    pub open spec fn layout(&self) -> Seq<nat> {
        Seq::new(self.attributes.len() as nat, |i: int| self.attributes[i].arity())
    }

    /// Whether slot `i` has one arity in all three lists.
    pub open spec fn slot_agrees(a: Seq<nat>, b: Seq<nat>, c: Seq<nat>, i: int) -> bool {
        a[i] == b[i] && b[i] == c[i]
    }

    /// What `compare_layouts` returns for three layouts.
    pub open spec fn layout_verdict(a: Seq<nat>, b: Seq<nat>, c: Seq<nat>, r: Result<
        (),
        LayoutError,
    >) -> bool {
        match r {
            Ok(_) => a == b && b == c,
            Err(LayoutError::Count { a: la, b: lb, c: lc }) => {
                &&& !(a.len() == b.len() && b.len() == c.len())
                &&& la == a.len()
                &&& lb == b.len()
                &&& lc == c.len()
            },
            Err(LayoutError::Arity { attribute, a: ka, b: kb, c: kc }) => {
                &&& a.len() == b.len() && b.len() == c.len()
                &&& attribute < a.len()
                &&& forall|i: int| 0 <= i < attribute ==> Self::slot_agrees(a, b, c, i)
                &&& !Self::slot_agrees(a, b, c, attribute as int)
                &&& ka == a[attribute as int]
                &&& kb == b[attribute as int]
                &&& kc == c[attribute as int]
            },
        }
    }

    /// Holds the attribute lists of a triangle's three vertices against
    /// each other: they must be equally long and agree in arity slot by
    /// slot. The error names the first disagreement.
    pub fn compare_layouts(a: &RasterizationData, b: &RasterizationData, c: &RasterizationData) -> (r:
        Result<(), LayoutError>)
        ensures
            Self::layout_verdict(a.layout(), b.layout(), c.layout(), r),
    {
        let n = a.attributes.len();
        if n != b.attributes.len() || b.attributes.len() != c.attributes.len() {
            return Err(
                LayoutError::Count { a: n, b: b.attributes.len(), c: c.attributes.len() },
            );
        }
        let mut i: usize = 0;
        while i < n
            invariant
                i <= n,
                n == a.attributes.len(),
                n == b.attributes.len(),
                n == c.attributes.len(),
                forall|j: int|
                    0 <= j < i ==> Self::slot_agrees(a.layout(), b.layout(), c.layout(), j),
            decreases n - i,
        {
            let ka = a.attributes[i].components();
            let kb = b.attributes[i].components();
            let kc = c.attributes[i].components();
            if ka != kb || kb != kc {
                return Err(LayoutError::Arity { attribute: i, a: ka, b: kb, c: kc });
            }
            i += 1;
        }
        assert(a.layout() =~= b.layout() && b.layout() =~= c.layout()) by {
            assert forall|j: int| 0 <= j < n implies a.layout()[j] == b.layout()[j]
                && b.layout()[j] == c.layout()[j] by {
                assert(Self::slot_agrees(a.layout(), b.layout(), c.layout(), j));
            }
        }
        Ok(())
    }
}

impl RasterizationData {
    /// The attributes of a sample from those of the triangle's three
    /// vertices, slot by slot.
    pub fn interpolate<F: Fn(Binary32, Binary32, Binary32) -> Binary32>(
        a: &RasterizationData,
        b: &RasterizationData,
        c: &RasterizationData,
        blend: &F,
    ) -> (out: Vec<EShaderAttribute>)
        requires
            a.layout() == b.layout(),
            b.layout() == c.layout(),
            forall|x: Binary32, y: Binary32, z: Binary32| #[trigger] blend.requires((x, y, z)),
        ensures
            out.len() == a.attributes.len(),
            forall|i: int|
                0 <= i < out.len() ==> EShaderAttribute::blended(
                    a.attributes[i],
                    b.attributes[i],
                    c.attributes[i],
                    *blend,
                    #[trigger] out[i],
                ),
    {
        let n = a.attributes.len();
        assert(a.layout().len() == n && b.layout().len() == n && c.layout().len() == n);
        let mut out: Vec<EShaderAttribute> = Vec::new();
        let mut i: usize = 0;
        while i < n
            invariant
                i <= n,
                n == a.attributes.len(),
                n == b.attributes.len(),
                n == c.attributes.len(),
                a.layout() == b.layout(),
                b.layout() == c.layout(),
                forall|x: Binary32, y: Binary32, z: Binary32| #[trigger] blend.requires((x, y, z)),
                out.len() == i,
                forall|j: int|
                    0 <= j < i ==> EShaderAttribute::blended(
                        a.attributes[j],
                        b.attributes[j],
                        c.attributes[j],
                        *blend,
                        #[trigger] out[j],
                    ),
            decreases n - i,
        {
            assert(a.layout()[i as int] == a.attributes[i as int].arity());
            assert(b.layout()[i as int] == b.attributes[i as int].arity());
            assert(c.layout()[i as int] == c.attributes[i as int].arity());
            let slot = EShaderAttribute::interpolate(
                &a.attributes[i],
                &b.attributes[i],
                &c.attributes[i],
                blend,
            );
            out.push(slot);
            i += 1;
        }
        out
    }
}

/// What a vertex type must be to go through a draw call.
pub trait ShaderVertexData: Clone + Copy + Send + Sync {

}

/// The two programmable stages. Both are pure: a draw call may run them
/// for several triangles at once.
pub trait Shader<T: ShaderVertexData>: Send + Sync {
    /// One vertex to its clip-space position and attributes.
    fn vertex(&self, vertex_data: &T) -> RasterizationData;

    /// Interpolated attributes to a color, red first, each channel in
    /// [0, 1].
    fn fragment(&self, rasterization_data: &RasterizationData) -> [Binary32; 4];
}

} // verus!
