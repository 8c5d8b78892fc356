//! Per-face control state and the registry of the rig's 30 faces.
//!
//! The registry is the single source of truth for what the renderer draws:
//! it owns one entry per face, each holding the face's fixed geometry and
//! its mutable control state.  The only mutation is the positional
//! channel-pair mapping of an ArtNet Output payload onto a prefix of the
//! entries.

use vstd::prelude::*;
use crate::geometry::{
    Surd, V3, Quad, v3_small, v3_is_mean, surd_is_pos, surd_is_zero, quad_in_range,
    vertex_table, face_table, lemma_vertex_table_wf, lemma_face_table_wf, v3_mean,
    surd_positive,
};

verus! {

/// The mutable state of one face: its flame switched on or off, and the
/// flow value 0..=255 driving the flame's height.
#[derive(Clone, Copy, PartialEq, Eq, Structural, Debug)]
pub struct ControlState {
    pub switch: bool,
    pub flow: u8,
}

/// One face of the rig: four vertex indices, the exact center of the four
/// vertices, and the face's current control state.
#[derive(Clone, Copy, PartialEq, Eq, Structural, Debug)]
pub struct Face {
    pub corners: Quad,
    pub center: V3,
    pub state: ControlState,
}

impl Face {
    /// A face over four vertex indices: its center is the exact mean of the
    /// four referenced vertices, and its flame starts switched off with
    /// full flow, as the rig powers up.
    pub fn new(corners: Quad, vertices: &Vec<V3>) -> (f: Face)
        requires
            quad_in_range(corners, vertices@.len() as int),
            forall|i: int| 0 <= i < vertices@.len() ==> v3_small(#[trigger] vertices@[i]),
        ensures
            f.corners == corners,
            v3_is_mean(
                f.center,
                vertices@[corners.v0 as int],
                vertices@[corners.v1 as int],
                vertices@[corners.v2 as int],
                vertices@[corners.v3 as int],
            ),
            f.state == (ControlState { switch: false, flow: 255 }),
    {
        let center = v3_mean(
            &vertices[corners.v0],
            &vertices[corners.v1],
            &vertices[corners.v2],
            &vertices[corners.v3],
        );
        Face { corners, center, state: ControlState { switch: false, flow: 255 } }
    }
}

/// Entry i of a registry holds the canonical geometry of face i: the i-th
/// quad of the face table, with center the exact mean of its vertices.
pub open spec fn entry_canonical(f: Face, i: int) -> bool {
    &&& f.corners == face_table()[i]
    &&& v3_is_mean(
            f.center,
            vertex_table()[face_table()[i].v0 as int],
            vertex_table()[face_table()[i].v1 as int],
            vertex_table()[face_table()[i].v2 as int],
            vertex_table()[face_table()[i].v3 as int],
        )
}

/// Bounds under which the visual-parameter arithmetic cannot overflow;
/// every canonical center satisfies them.
pub open spec fn center_small(c: V3) -> bool {
    &&& -100 <= c.x.a <= 100 && -100 <= c.x.b <= 100 && 0 < c.x.den <= 100
    &&& -100 <= c.y.a <= 100 && -100 <= c.y.b <= 100 && 0 < c.y.den <= 100
    &&& -100 <= c.z.a <= 100 && -100 <= c.z.b <= 100 && 0 < c.z.den <= 100
}

/// How many leading faces a payload of the given length drives: one face
/// per 2-byte channel pair, capped by the number of faces, so bytes beyond
/// the rig's 60 are ignored and a short payload updates only a prefix.
pub open spec fn updated_count(n_faces: int, n_bytes: int) -> int {
    if n_bytes / 2 < n_faces {
        n_bytes / 2
    } else {
        n_faces
    }
}

/// The positional channel-pair mapping: for i below the updated count,
/// face i takes switch = (payload[2i] > 0) and flow = payload[2i+1]; every
/// later face keeps its prior entry, and no geometry ever changes.
pub open spec fn frame_applied(pre: Seq<Face>, post: Seq<Face>, payload: Seq<u8>) -> bool {
    let k = updated_count(pre.len() as int, payload.len() as int);
    &&& post.len() == pre.len()
    &&& forall|i: int|
            0 <= i < pre.len() ==> #[trigger] post[i] == (if i < k {
                Face {
                    corners: pre[i].corners,
                    center: pre[i].center,
                    state: ControlState {
                        switch: payload[2 * i] > 0,
                        flow: payload[2 * i + 1],
                    },
                }
            } else {
                pre[i]
            })
}

/// Scale factors of one face's flame, as exact 255ths: a switched-off face
/// scales to (0, 0, 0) whatever its flow; a switched-on face scales to
/// (1, 2 * flow/255, 1).
#[derive(Clone, Copy, PartialEq, Eq, Structural, Debug)]
pub struct ScaleVec {
    pub x: u16,
    pub y: u16,
    pub z: u16,
}

pub open spec fn scale_of(cs: ControlState) -> ScaleVec {
    if cs.switch {
        ScaleVec { x: 255, y: (2 * cs.flow) as u16, z: 255 }
    } else {
        ScaleVec { x: 0, y: 0, z: 0 }
    }
}

/// p is exactly 3/2 times c, axis by axis: numerators tripled and the
/// denominator doubled.
pub open spec fn surd_is_three_halves(p: Surd, c: Surd) -> bool {
    p.a == 3 * c.a && p.b == 3 * c.b && p.den == 2 * c.den
}

pub open spec fn v3_is_three_halves(p: V3, c: V3) -> bool {
    &&& surd_is_three_halves(p.x, c.x)
    &&& surd_is_three_halves(p.y, c.y)
    &&& surd_is_three_halves(p.z, c.z)
}

/// The flame cone's rest axis points along -y; rotating that axis onto the
/// center direction is degenerate exactly when the two are anti-parallel,
/// that is, when the center points along +y.  The renderer then falls back
/// to a fixed half-turn about a fixed perpendicular axis.
pub open spec fn flip_case(c: V3) -> bool {
    surd_is_zero(c.x) && surd_is_zero(c.z) && surd_is_pos(c.y)
}

/// What the renderer needs for one face each tick: where to put the flame
/// (3/2 of the way out along the face center), whether the orientation
/// rotation is the degenerate fallback, and the flame's scale factors.
#[derive(Clone, Copy, PartialEq, Eq, Structural, Debug)]
pub struct VisualParams {
    pub position: V3,
    pub axis_flip: bool,
    pub scale: ScaleVec,
}

/// The fixed-order store of the rig's faces.
pub struct FaceRegistry {
    pub faces: Vec<Face>,
}

impl FaceRegistry {
    /// One entry per physical face, always.
    pub open spec fn wf(self) -> bool {
        self.faces@.len() == 30
    }

    /// Every entry carries its canonical geometry.
    pub open spec fn geometry_canonical(self) -> bool {
        forall|i: int| 0 <= i < self.faces@.len() ==> #[trigger] entry_canonical(self.faces@[i], i)
    }

    /// A registry over the canonical geometry: 30 entries in face-table
    /// order, each center the exact mean of its four vertices, every flame
    /// off with full flow.
    pub fn construct(vertices: &Vec<V3>, quads: &Vec<Quad>) -> (r: FaceRegistry)
        requires
            vertices@ == vertex_table(),
            quads@ == face_table(),
        ensures
            r.wf(),
            r.geometry_canonical(),
            forall|i: int|
                0 <= i < 30 ==> (#[trigger] r.faces@[i]).state == (ControlState {
                    switch: false,
                    flow: 255,
                }),
    {
        let mut faces: Vec<Face> = Vec::new();
        let mut i: usize = 0;
        while i < quads.len()
            invariant
                vertices@ == vertex_table(),
                quads@ == face_table(),
                i <= quads.len(),
                faces@.len() == i,
                forall|j: int| 0 <= j < i ==> entry_canonical(#[trigger] faces@[j], j),
                forall|j: int|
                    0 <= j < i ==> (#[trigger] faces@[j]).state == (ControlState {
                        switch: false,
                        flow: 255,
                    }),
            decreases quads.len() - i,
        {
            proof {
                lemma_vertex_table_wf();
                lemma_face_table_wf();
            }
            let f = Face::new(quads[i], vertices);
            faces.push(f);
            i += 1;
        }
        FaceRegistry { faces }
    }

    /// How many faces the registry holds.
    pub fn len(&self) -> (n: usize)
        ensures
            n == self.faces@.len(),
    {
        self.faces.len()
    }

    /// Applies one ArtNet Output payload positionally: the i-th 2-byte
    /// channel pair switches and sets the flow of face i, for as many
    /// leading faces as the payload covers; the rest keep their state.
    /// Any payload length is valid data; nothing fails.
    pub fn apply_frame(&mut self, payload: &[u8])
        ensures
            frame_applied(old(self).faces@, final(self).faces@, payload@),
    {
        let half: usize = payload.len() / 2;
        let n: usize = if half < self.faces.len() {
            half
        } else {
            self.faces.len()
        };
        let mut i: usize = 0;
        while i < n
            invariant
                i <= n,
                n as int == updated_count(old(self).faces@.len() as int, payload@.len() as int),
                n <= old(self).faces@.len(),
                2 * n <= payload@.len(),
                n <= usize::MAX / 2,
                self.faces@.len() == old(self).faces@.len(),
                forall|j: int|
                    0 <= j < i ==> #[trigger] self.faces@[j] == (Face {
                        corners: old(self).faces@[j].corners,
                        center: old(self).faces@[j].center,
                        state: ControlState {
                            switch: payload@[2 * j] > 0,
                            flow: payload@[2 * j + 1],
                        },
                    }),
                forall|j: int|
                    i <= j < self.faces@.len() ==> #[trigger] self.faces@[j] == old(self).faces@[j],
            decreases n - i,
        {
            let sw = payload[2 * i] > 0;
            let fl = payload[2 * i + 1];
            let mut f = self.faces[i];
            f.state = ControlState { switch: sw, flow: fl };
            self.faces.set(i, f);
            i += 1;
        }
    }

    /// The renderer's per-face read: position, orientation case and scale,
    /// purely from the stored entry, touching nothing.
    pub fn visual_params(&self, i: usize) -> (p: VisualParams)
        requires
            i < self.faces@.len(),
            center_small(self.faces@[i as int].center),
        ensures
            v3_is_three_halves(p.position, self.faces@[i as int].center),
            p.axis_flip == flip_case(self.faces@[i as int].center),
            p.scale == scale_of(self.faces@[i as int].state),
    {
        let f = self.faces[i];
        let c = f.center;
        let position = V3 {
            x: Surd { a: 3 * c.x.a, b: 3 * c.x.b, den: 2 * c.x.den },
            y: Surd { a: 3 * c.y.a, b: 3 * c.y.b, den: 2 * c.y.den },
            z: Surd { a: 3 * c.z.a, b: 3 * c.z.b, den: 2 * c.z.den },
        };
        let axis_flip = c.x.a == 0 && c.x.b == 0 && c.z.a == 0 && c.z.b == 0
            && surd_positive(&c.y);
        let scale = if f.state.switch {
            ScaleVec { x: 255, y: 2 * (f.state.flow as u16), z: 255 }
        } else {
            ScaleVec { x: 0, y: 0, z: 0 }
        };
        VisualParams { position, axis_flip, scale }
    }

    /// Everything the renderer reads in one tick, face by face, in face
    /// order: a read has no side effect and may run at any rate.
    pub fn visual_snapshot(&self) -> (ps: Vec<VisualParams>)
        requires
            self.wf(),
            self.geometry_canonical(),
        ensures
            ps@.len() == self.faces@.len(),
            forall|i: int|
                0 <= i < ps@.len() ==> {
                    &&& v3_is_three_halves((#[trigger] ps@[i]).position, self.faces@[i].center)
                    &&& ps@[i].axis_flip == flip_case(self.faces@[i].center)
                    &&& ps@[i].scale == scale_of(self.faces@[i].state)
                },
    {
        let mut ps: Vec<VisualParams> = Vec::new();
        let mut i: usize = 0;
        while i < self.faces.len()
            invariant
                self.wf(),
                self.geometry_canonical(),
                i <= self.faces@.len(),
                ps@.len() == i,
                forall|j: int|
                    0 <= j < i ==> {
                        &&& v3_is_three_halves(
                                (#[trigger] ps@[j]).position,
                                self.faces@[j].center,
                            )
                        &&& ps@[j].axis_flip == flip_case(self.faces@[j].center)
                        &&& ps@[j].scale == scale_of(self.faces@[j].state)
                    },
            decreases self.faces@.len() - i,
        {
            proof {
                lemma_canonical_centers_small(*self);
            }
            ps.push(self.visual_params(i));
            i += 1;
        }
        ps
    }
}

/// Applying a frame never moves, resizes or reshapes the faces: geometry
/// is computed once at startup and only control state ever changes, so a
/// registry over canonical geometry stays over canonical geometry.
pub proof fn lemma_frame_preserves_geometry(
    pre: FaceRegistry,
    post: FaceRegistry,
    payload: Seq<u8>,
)
    requires
        frame_applied(pre.faces@, post.faces@, payload),
        pre.wf(),
        pre.geometry_canonical(),
    ensures
        post.wf(),
        post.geometry_canonical(),
{
    assert forall|i: int| 0 <= i < post.faces@.len() implies entry_canonical(
        #[trigger] post.faces@[i],
        i,
    ) by {
        assert(entry_canonical(pre.faces@[i], i));
        assert(post.faces@[i].corners == pre.faces@[i].corners);
        assert(post.faces@[i].center == pre.faces@[i].center);
    }
}

/// Canonical centers lie within the bounds of the visual-parameter
/// arithmetic: each is a mean of four table vertices, whose numerators sum
/// to at most 80 in magnitude over denominator 32.
pub proof fn lemma_canonical_centers_small(r: FaceRegistry)
    requires
        r.wf(),
        r.geometry_canonical(),
    ensures
        forall|i: int| 0 <= i < r.faces@.len() ==> center_small((#[trigger] r.faces@[i]).center),
{
    lemma_vertex_table_wf();
    lemma_face_table_wf();
    assert forall|i: int| 0 <= i < r.faces@.len() implies center_small(
        (#[trigger] r.faces@[i]).center,
    ) by {
        assert(entry_canonical(r.faces@[i], i));
    }
}

} // verus!
