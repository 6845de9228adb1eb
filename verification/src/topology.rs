//! Mesh topology: the index buffers and vertex budgets of the four
//! primitives. Vertex coordinates are floating point and live with the
//! renderer; everything combinatorial — which vertices exist, how they are
//! stitched into triangles, and that every index stays in range — is built
//! and proved here. The layouts mirror the tessellation surfaces: quad
//! strips for cylindrical sides and annular caps, fans for solid caps,
//! a grid for spherical surfaces, and two-triangle wedge faces closing
//! partial sweeps.

use vstd::prelude::*;
use crate::model::{SolidSection, SolidV, solid_name_v, push_dv};

verus! {

/// The combinatorial part of a triangle mesh: how many vertices the surface
/// uses and the triangle index list over them.
#[derive(Debug, PartialEq)]
pub struct TriangleTopology {
    pub vertex_count: u32,
    pub indices: Vec<u32>,
}

/// Every triangle is three indices and every index names a vertex.
pub open spec fn topo_valid(t: TriangleTopology) -> bool {
    &&& t.indices@.len() % 3 == 0
    &&& forall|k: int| 0 <= k < t.indices@.len() ==> (#[trigger] t.indices@[k]) < t.vertex_count
}

pub open spec fn tri(a: int, b: int, c: int) -> Seq<u32> {
    seq![a as u32, b as u32, c as u32]
}

/// A quad strip over vertex pairs: quad `i` sits on base vertex `base + 2i`
/// and contributes two triangles with the given offsets.
pub open spec fn strip_spec(
    base: int,
    n: int,
    o1: int,
    o2: int,
    o3: int,
    o4: int,
    o5: int,
    o6: int,
) -> Seq<u32>
    decreases n,
{
    if n <= 0 {
        Seq::empty()
    } else {
        let b = base + 2 * (n - 1);
        strip_spec(base, n - 1, o1, o2, o3, o4, o5, o6) + tri(b + o1, b + o2, b + o3) + tri(
            b + o4,
            b + o5,
            b + o6,
        )
    }
}

/// A fan around a center vertex over a rim of `n + 1` vertices.
pub open spec fn fan_spec(center: int, n: int, flip: bool) -> Seq<u32>
    decreases n,
{
    if n <= 0 {
        Seq::empty()
    } else {
        fan_spec(center, n - 1, flip) + (if flip {
            tri(center, center + n + 1, center + n)
        } else {
            tri(center, center + n, center + n + 1)
        })
    }
}

/// One row of grid quads: quad `i` sits on `rowbase + i` with the row stride
/// `cols`.
pub open spec fn grid_row_spec(rowbase: int, cols: int, n: int, invert: bool) -> Seq<u32>
    decreases n,
{
    if n <= 0 {
        Seq::empty()
    } else {
        let a = rowbase + (n - 1);
        grid_row_spec(rowbase, cols, n - 1, invert) + (if invert {
            tri(a, a + cols, a + 1) + tri(a + 1, a + cols, a + cols + 1)
        } else {
            tri(a, a + 1, a + cols) + tri(a + 1, a + cols + 1, a + cols)
        })
    }
}

/// A grid of `rows` quad rows, each of `ncols` quads over rows of `cols`
/// vertices.
pub open spec fn grid_spec(base: int, cols: int, rows: int, ncols: int, invert: bool) -> Seq<u32>
    decreases rows,
{
    if rows <= 0 {
        Seq::empty()
    } else {
        grid_spec(base, cols, rows - 1, ncols, invert) + grid_row_spec(
            base + (rows - 1) * cols,
            cols,
            ncols,
            invert,
        )
    }
}

/// The two triangles of a wedge face over four vertices; start and end faces
/// mirror their winding.
pub open spec fn wedge_spec(base: int, start: bool) -> Seq<u32> {
    if start {
        tri(base, base + 2, base + 1) + tri(base, base + 3, base + 2)
    } else {
        tri(base, base + 1, base + 2) + tri(base, base + 2, base + 3)
    }
}

// ─────────────────────────────────────────────────────────────────────────────
// Index pushers
// ─────────────────────────────────────────────────────────────────────────────

fn push_strip(
    indices: &mut Vec<u32>,
    base: u32,
    n: u32,
    o1: u32,
    o2: u32,
    o3: u32,
    o4: u32,
    o5: u32,
    o6: u32,
)
    requires
        o1 <= 3 && o2 <= 3 && o3 <= 3 && o4 <= 3 && o5 <= 3 && o6 <= 3,
        base + 2 * n + 3 <= u32::MAX,
    ensures
        final(indices)@ == old(indices)@ + strip_spec(
            base as int,
            n as int,
            o1 as int,
            o2 as int,
            o3 as int,
            o4 as int,
            o5 as int,
            o6 as int,
        ),
        forall|k: int|
            old(indices)@.len() <= k < final(indices)@.len() ==> (#[trigger] final(indices)@[k])
                < base + 2 * n + 2,
{
    let ghost base0 = old(indices)@;
    let mut i: u32 = 0;
    proof {
        assert(base0 + strip_spec(base as int, 0, o1 as int, o2 as int, o3 as int, o4 as int, o5 as int, o6 as int) =~= base0);
    }
    while i < n
        invariant
            i <= n,
            o1 <= 3 && o2 <= 3 && o3 <= 3 && o4 <= 3 && o5 <= 3 && o6 <= 3,
            base + 2 * n + 3 <= u32::MAX,
            indices@ == base0 + strip_spec(
                base as int,
                i as int,
                o1 as int,
                o2 as int,
                o3 as int,
                o4 as int,
                o5 as int,
                o6 as int,
            ),
            forall|k: int|
                base0.len() <= k < indices@.len() ==> (#[trigger] indices@[k]) < base + 2 * n + 2,
        decreases n - i,
    {
        let b = base + 2 * i;
        indices.push(b + o1);
        indices.push(b + o2);
        indices.push(b + o3);
        indices.push(b + o4);
        indices.push(b + o5);
        indices.push(b + o6);
        proof {
            assert(indices@ =~= base0 + strip_spec(
                base as int,
                i as int + 1,
                o1 as int,
                o2 as int,
                o3 as int,
                o4 as int,
                o5 as int,
                o6 as int,
            ));
        }
        i += 1;
    }
}

fn push_fan(indices: &mut Vec<u32>, center: u32, n: u32, flip: bool)
    requires
        center + n + 2 <= u32::MAX,
    ensures
        final(indices)@ == old(indices)@ + fan_spec(center as int, n as int, flip),
        forall|k: int|
            old(indices)@.len() <= k < final(indices)@.len() ==> (#[trigger] final(indices)@[k])
                < center + n + 2,
{
    let ghost base0 = old(indices)@;
    let mut i: u32 = 0;
    proof {
        assert(base0 + fan_spec(center as int, 0, flip) =~= base0);
    }
    while i < n
        invariant
            i <= n,
            center + n + 2 <= u32::MAX,
            indices@ == base0 + fan_spec(center as int, i as int, flip),
            forall|k: int|
                base0.len() <= k < indices@.len() ==> (#[trigger] indices@[k]) < center + n + 2,
        decreases n - i,
    {
        if flip {
            indices.push(center);
            indices.push(center + i + 2);
            indices.push(center + i + 1);
        } else {
            indices.push(center);
            indices.push(center + i + 1);
            indices.push(center + i + 2);
        }
        proof {
            assert(indices@ =~= base0 + fan_spec(center as int, i as int + 1, flip));
        }
        i += 1;
    }
}

fn push_grid(indices: &mut Vec<u32>, base: u32, cols: u32, rows: u32, ncols: u32, invert: bool)
    requires
        ncols < cols,
        base + (rows + 1) * cols <= u32::MAX,
    ensures
        final(indices)@ == old(indices)@ + grid_spec(
            base as int,
            cols as int,
            rows as int,
            ncols as int,
            invert,
        ),
        forall|k: int|
            old(indices)@.len() <= k < final(indices)@.len() ==> (#[trigger] final(indices)@[k])
                < base + (rows + 1) * cols,
{
    let ghost base0 = old(indices)@;
    let mut j: u32 = 0;
    proof {
        assert(base0 + grid_spec(base as int, cols as int, 0, ncols as int, invert) =~= base0);
    }
    while j < rows
        invariant
            j <= rows,
            ncols < cols,
            base + (rows + 1) * cols <= u32::MAX,
            indices@ == base0 + grid_spec(base as int, cols as int, j as int, ncols as int, invert),
            forall|k: int|
                base0.len() <= k < indices@.len() ==> (#[trigger] indices@[k]) < base + (rows + 1)
                    * cols,
        decreases rows - j,
    {
        proof {
            assert((j as int) * (cols as int) <= ((rows as int) + 1) * (cols as int) && (j as int
                + 2) * (cols as int) <= ((rows as int) + 1) * (cols as int) && (j as int + 2) * (
            cols as int) == (j as int) * (cols as int) + 2 * (cols as int)) by (nonlinear_arith)
                requires
                    0 <= (j as int) < (rows as int),
                    0 <= cols as int,
            ;
        }
        let rowbase = base + j * cols;
        let ghost mid = indices@;
        let mut i: u32 = 0;
        proof {
            assert((j + 1) * cols == j * cols + cols) by (nonlinear_arith);
            assert((j as int) * (cols as int) <= (rows as int) * (cols as int)) by (nonlinear_arith)
                requires
                    0 <= j as int <= rows as int,
                    cols as int >= 0,
            ;
            assert(mid + grid_row_spec(rowbase as int, cols as int, 0, invert) =~= mid);
        }
        while i < ncols
            invariant
                i <= ncols,
                ncols < cols,
                j < rows,
                base + (rows + 1) * cols <= u32::MAX,
                rowbase == base + j * cols,
                rowbase as int + cols as int + cols as int <= base as int + ((rows + 1)
                    * cols) as int,
                indices@ == mid + grid_row_spec(rowbase as int, cols as int, i as int, invert),
                forall|k: int|
                    base0.len() <= k < mid.len() ==> (#[trigger] indices@[k]) < base + (rows + 1)
                        * cols,
                forall|k: int|
                    mid.len() <= k < indices@.len() ==> (#[trigger] indices@[k]) < base + (rows + 1)
                        * cols,
                mid.len() >= base0.len(),
                forall|k: int| base0.len() <= k < mid.len() ==> indices@[k] == mid[k],
            decreases ncols - i,
        {
            let a = rowbase + i;
            if invert {
                indices.push(a);
                indices.push(a + cols);
                indices.push(a + 1);
                indices.push(a + 1);
                indices.push(a + cols);
                indices.push(a + cols + 1);
            } else {
                indices.push(a);
                indices.push(a + 1);
                indices.push(a + cols);
                indices.push(a + 1);
                indices.push(a + cols + 1);
                indices.push(a + cols);
            }
            proof {
                assert(indices@ =~= mid + grid_row_spec(rowbase as int, cols as int, i as int + 1, invert));
            }
            i += 1;
        }
        proof {
            assert((j + 1) * cols == j * cols + cols) by (nonlinear_arith);
            assert(indices@ =~= base0 + grid_spec(
                base as int,
                cols as int,
                j as int + 1,
                ncols as int,
                invert,
            ));
        }
        j += 1;
    }
}

fn push_wedge(indices: &mut Vec<u32>, base: u32, start: bool)
    requires
        base + 3 <= u32::MAX,
    ensures
        final(indices)@ == old(indices)@ + wedge_spec(base as int, start),
        forall|k: int|
            old(indices)@.len() <= k < final(indices)@.len() ==> (#[trigger] final(indices)@[k])
                < base + 4,
{
    if start {
        indices.push(base);
        indices.push(base + 2);
        indices.push(base + 1);
        indices.push(base);
        indices.push(base + 3);
        indices.push(base + 2);
    } else {
        indices.push(base);
        indices.push(base + 1);
        indices.push(base + 2);
        indices.push(base);
        indices.push(base + 2);
        indices.push(base + 3);
    }
    proof {
        assert(indices@ =~= old(indices)@ + wedge_spec(base as int, start));
    }
}

pub open spec fn clamp_seg(segments: int, lo: int) -> int {
    if segments < lo {
        lo
    } else {
        segments
    }
}

// ─────────────────────────────────────────────────────────────────────────────
// Box
// ─────────────────────────────────────────────────────────────────────────────

/// The triangles of the first `n` box faces: four vertices per face, two
/// triangles each.
pub open spec fn box_faces_spec(n: int) -> Seq<u32>
    decreases n,
{
    if n <= 0 {
        Seq::empty()
    } else {
        let b = 4 * (n - 1);
        box_faces_spec(n - 1) + tri(b, b + 1, b + 2) + tri(b, b + 2, b + 3)
    }
}

/// The box mesh layout: 24 vertices (4 per face, for flat normals) and 12
/// triangles.
pub fn box_topology() -> (t: TriangleTopology)
    ensures
        t.vertex_count == 24,
        t.indices@ == box_faces_spec(6),
        t.indices@.len() == 36,
        topo_valid(t),
{
    let mut indices: Vec<u32> = Vec::new();
    let mut f: u32 = 0;
    proof {
        assert(indices@ =~= box_faces_spec(0));
    }
    while f < 6
        invariant
            f <= 6,
            indices@ == box_faces_spec(f as int),
            indices@.len() == 6 * f,
            forall|k: int| 0 <= k < indices@.len() ==> (#[trigger] indices@[k]) < 24,
        decreases 6 - f,
    {
        let b = 4 * f;
        indices.push(b);
        indices.push(b + 1);
        indices.push(b + 2);
        indices.push(b);
        indices.push(b + 2);
        indices.push(b + 3);
        proof {
            assert(indices@ =~= box_faces_spec(f as int + 1));
        }
        f += 1;
    }
    TriangleTopology { vertex_count: 24, indices }
}

// ─────────────────────────────────────────────────────────────────────────────
// Tube
// ─────────────────────────────────────────────────────────────────────────────

pub open spec fn tube_vertex_count_spec(has_hole: bool, full_circle: bool, seg: int) -> int {
    2 * (seg + 1) + (if has_hole {
        2 * (seg + 1)
    } else {
        0
    }) + 2 * (if has_hole {
        2 * (seg + 1)
    } else {
        seg + 2
    }) + (if full_circle {
        0int
    } else {
        8int
    })
}

pub open spec fn tube_triangle_count_spec(has_hole: bool, full_circle: bool, seg: int) -> int {
    2 * seg + (if has_hole {
        2 * seg
    } else {
        0
    }) + 2 * (if has_hole {
        2 * seg
    } else {
        seg
    }) + (if full_circle {
        0int
    } else {
        4int
    })
}

/// The tube index list: outer side strip, inner strip when hollow, the two
/// caps (annular strips when hollow, fans when solid), and two wedge faces
/// when the sweep is partial.
pub open spec fn tube_indices_spec(has_hole: bool, full_circle: bool, seg: int) -> Seq<u32> {
    let outer = strip_spec(0, seg, 0, 2, 3, 0, 3, 1);
    let ib = 2 * (seg + 1);
    let inner = if has_hole {
        strip_spec(ib, seg, 0, 3, 2, 0, 1, 3)
    } else {
        Seq::empty()
    };
    let cb1 = ib + (if has_hole {
        2 * (seg + 1)
    } else {
        0
    });
    let top = if has_hole {
        strip_spec(cb1, seg, 0, 1, 3, 0, 3, 2)
    } else {
        fan_spec(cb1, seg, false)
    };
    let cb2 = cb1 + (if has_hole {
        2 * (seg + 1)
    } else {
        seg + 2
    });
    let bottom = if has_hole {
        strip_spec(cb2, seg, 0, 3, 1, 0, 2, 3)
    } else {
        fan_spec(cb2, seg, true)
    };
    let wb = cb2 + (if has_hole {
        2 * (seg + 1)
    } else {
        seg + 2
    });
    let wedges = if full_circle {
        Seq::empty()
    } else {
        wedge_spec(wb, true) + wedge_spec(wb + 4, false)
    };
    outer + inner + top + bottom + wedges
}

/// The tube topology for a clamped segment count (at least 3).
#[verifier::rlimit(100)]
pub fn tube_topology(has_hole: bool, full_circle: bool, segments: u32) -> (t: TriangleTopology)
    requires
        segments <= 100000,
    ensures
        ({
            let seg = clamp_seg(segments as int, 3);
            &&& t.indices@ == tube_indices_spec(has_hole, full_circle, seg)
            &&& t.vertex_count as int == tube_vertex_count_spec(has_hole, full_circle, seg)
            &&& t.indices@.len() == 3 * tube_triangle_count_spec(has_hole, full_circle, seg)
            &&& topo_valid(t)
        }),
{
    let seg: u32 = if segments < 3 {
        3
    } else {
        segments
    };
    let mut indices: Vec<u32> = Vec::new();
    push_strip(&mut indices, 0, seg, 0, 2, 3, 0, 3, 1);
    let mut alloc: u32 = 2 * (seg + 1);
    proof {
        assert(forall|k: int| 0 <= k < indices@.len() ==> (#[trigger] indices@[k]) < alloc);
    }
    if has_hole {
        push_strip(&mut indices, alloc, seg, 0, 3, 2, 0, 1, 3);
        alloc = alloc + 2 * (seg + 1);
    }
    let ghost after_inner = indices@;
    proof {
        assert(forall|k: int| 0 <= k < indices@.len() ==> (#[trigger] indices@[k]) < alloc);
    }
    if has_hole {
        push_strip(&mut indices, alloc, seg, 0, 1, 3, 0, 3, 2);
        alloc = alloc + 2 * (seg + 1);
    } else {
        push_fan(&mut indices, alloc, seg, false);
        alloc = alloc + seg + 2;
    }
    proof {
        assert(forall|k: int| 0 <= k < indices@.len() ==> (#[trigger] indices@[k]) < alloc);
    }
    if has_hole {
        push_strip(&mut indices, alloc, seg, 0, 3, 1, 0, 2, 3);
        alloc = alloc + 2 * (seg + 1);
    } else {
        push_fan(&mut indices, alloc, seg, true);
        alloc = alloc + seg + 2;
    }
    proof {
        assert(forall|k: int| 0 <= k < indices@.len() ==> (#[trigger] indices@[k]) < alloc);
    }
    if !full_circle {
        push_wedge(&mut indices, alloc, true);
        push_wedge(&mut indices, alloc + 4, false);
        alloc = alloc + 8;
    }
    proof {
        assert(forall|k: int| 0 <= k < indices@.len() ==> (#[trigger] indices@[k]) < alloc);
    }
    let t = TriangleTopology { vertex_count: alloc, indices };
    proof {
        let seg_i = clamp_seg(segments as int, 3);
        assert(seg_i == seg as int);
        assert(t.indices@ =~= tube_indices_spec(has_hole, full_circle, seg_i));
        lemma_strip_len(0, seg_i, 0, 2, 3, 0, 3, 1);
        lemma_strip_len(2 * (seg_i + 1), seg_i, 0, 3, 2, 0, 1, 3);
        lemma_strip_len(2 * (seg_i + 1) + 2 * (seg_i + 1), seg_i, 0, 1, 3, 0, 3, 2);
        lemma_strip_len(2 * (seg_i + 1), seg_i, 0, 1, 3, 0, 3, 2);
        lemma_strip_len(2 * (seg_i + 1) + 2 * (seg_i + 1) + 2 * (seg_i + 1), seg_i, 0, 3, 1, 0, 2, 3);
        lemma_fan_len(2 * (seg_i + 1), seg_i, false);
        lemma_fan_len(2 * (seg_i + 1) + (seg_i + 2), seg_i, true);
    }
    t
}

// ─────────────────────────────────────────────────────────────────────────────
// Cone
// ─────────────────────────────────────────────────────────────────────────────

pub open spec fn cone_vertex_count_spec(
    has_hole: bool,
    full_circle: bool,
    top_disk: bool,
    bottom_disk: bool,
    seg: int,
) -> int {
    2 * (seg + 1) + (if has_hole {
        2 * (seg + 1)
    } else {
        0
    }) + (if has_hole {
        2 * (seg + 1)
    } else if top_disk {
        seg + 2
    } else {
        0
    }) + (if has_hole {
        2 * (seg + 1)
    } else if bottom_disk {
        seg + 2
    } else {
        0
    }) + (if full_circle {
        0int
    } else {
        8int
    })
}

pub open spec fn cone_triangle_count_spec(
    has_hole: bool,
    full_circle: bool,
    top_disk: bool,
    bottom_disk: bool,
    seg: int,
) -> int {
    2 * seg + (if has_hole {
        2 * seg
    } else {
        0int
    }) + (if has_hole {
        2 * seg
    } else if top_disk {
        seg
    } else {
        0int
    }) + (if has_hole {
        2 * seg
    } else if bottom_disk {
        seg
    } else {
        0int
    }) + (if full_circle {
        0int
    } else {
        4int
    })
}

/// The cone index list: like the tube, except that a solid cap is emitted
/// only when its radius is positive (`top_disk` / `bottom_disk`).
pub open spec fn cone_indices_spec(
    has_hole: bool,
    full_circle: bool,
    top_disk: bool,
    bottom_disk: bool,
    seg: int,
) -> Seq<u32> {
    let outer = strip_spec(0, seg, 0, 2, 3, 0, 3, 1);
    let ib = 2 * (seg + 1);
    let inner = if has_hole {
        strip_spec(ib, seg, 0, 3, 2, 0, 1, 3)
    } else {
        Seq::empty()
    };
    let cb1 = ib + (if has_hole {
        2 * (seg + 1)
    } else {
        0
    });
    let top = if has_hole {
        strip_spec(cb1, seg, 0, 1, 3, 0, 3, 2)
    } else if top_disk {
        fan_spec(cb1, seg, false)
    } else {
        Seq::empty()
    };
    let cb2 = cb1 + (if has_hole {
        2 * (seg + 1)
    } else if top_disk {
        seg + 2
    } else {
        0
    });
    let bottom = if has_hole {
        strip_spec(cb2, seg, 0, 3, 1, 0, 2, 3)
    } else if bottom_disk {
        fan_spec(cb2, seg, true)
    } else {
        Seq::empty()
    };
    let wb = cb2 + (if has_hole {
        2 * (seg + 1)
    } else if bottom_disk {
        seg + 2
    } else {
        0
    });
    let wedges = if full_circle {
        Seq::empty()
    } else {
        wedge_spec(wb, true) + wedge_spec(wb + 4, false)
    };
    outer + inner + top + bottom + wedges
}

/// The cone topology for a clamped segment count (at least 3).
#[verifier::rlimit(100)]
pub fn cone_topology(
    has_hole: bool,
    full_circle: bool,
    top_disk: bool,
    bottom_disk: bool,
    segments: u32,
) -> (t: TriangleTopology)
    requires
        segments <= 100000,
    ensures
        ({
            let seg = clamp_seg(segments as int, 3);
            &&& t.indices@ == cone_indices_spec(has_hole, full_circle, top_disk, bottom_disk, seg)
            &&& t.vertex_count as int == cone_vertex_count_spec(
                has_hole,
                full_circle,
                top_disk,
                bottom_disk,
                seg,
            )
            &&& t.indices@.len() == 3 * cone_triangle_count_spec(
                has_hole,
                full_circle,
                top_disk,
                bottom_disk,
                seg,
            )
            &&& topo_valid(t)
        }),
{
    let seg: u32 = if segments < 3 {
        3
    } else {
        segments
    };
    let mut indices: Vec<u32> = Vec::new();
    push_strip(&mut indices, 0, seg, 0, 2, 3, 0, 3, 1);
    let mut alloc: u32 = 2 * (seg + 1);
    proof {
        assert(forall|k: int| 0 <= k < indices@.len() ==> (#[trigger] indices@[k]) < alloc);
    }
    if has_hole {
        push_strip(&mut indices, alloc, seg, 0, 3, 2, 0, 1, 3);
        alloc = alloc + 2 * (seg + 1);
    }
    proof {
        assert(forall|k: int| 0 <= k < indices@.len() ==> (#[trigger] indices@[k]) < alloc);
    }
    if has_hole {
        push_strip(&mut indices, alloc, seg, 0, 1, 3, 0, 3, 2);
        alloc = alloc + 2 * (seg + 1);
    } else if top_disk {
        push_fan(&mut indices, alloc, seg, false);
        alloc = alloc + seg + 2;
    }
    proof {
        assert(forall|k: int| 0 <= k < indices@.len() ==> (#[trigger] indices@[k]) < alloc);
    }
    if has_hole {
        push_strip(&mut indices, alloc, seg, 0, 3, 1, 0, 2, 3);
        alloc = alloc + 2 * (seg + 1);
    } else if bottom_disk {
        push_fan(&mut indices, alloc, seg, true);
        alloc = alloc + seg + 2;
    }
    proof {
        assert(forall|k: int| 0 <= k < indices@.len() ==> (#[trigger] indices@[k]) < alloc);
    }
    if !full_circle {
        push_wedge(&mut indices, alloc, true);
        push_wedge(&mut indices, alloc + 4, false);
        alloc = alloc + 8;
    }
    proof {
        assert(forall|k: int| 0 <= k < indices@.len() ==> (#[trigger] indices@[k]) < alloc);
    }
    let t = TriangleTopology { vertex_count: alloc, indices };
    proof {
        let seg_i = clamp_seg(segments as int, 3);
        assert(t.indices@ =~= cone_indices_spec(has_hole, full_circle, top_disk, bottom_disk, seg_i));
        lemma_strip_len(0, seg_i, 0, 2, 3, 0, 3, 1);
        lemma_cone_parts_len(has_hole, top_disk, bottom_disk, seg_i);
        assert(t.vertex_count as int == cone_vertex_count_spec(
            has_hole,
            full_circle,
            top_disk,
            bottom_disk,
            seg_i,
        ));
        assert(t.indices@.len() == 3 * cone_triangle_count_spec(
            has_hole,
            full_circle,
            top_disk,
            bottom_disk,
            seg_i,
        ));
        assert(topo_valid(t));
    }
    t
}

proof fn lemma_cone_parts_len(has_hole: bool, top_disk: bool, bottom_disk: bool, seg: int)
    ensures
        ({
            let ib = 2 * (seg + 1);
            let cb1 = ib + (if has_hole {
                2 * (seg + 1)
            } else {
                0int
            });
            let cb2 = cb1 + (if has_hole {
                2 * (seg + 1)
            } else if top_disk {
                seg + 2
            } else {
                0int
            });
            &&& strip_spec(ib, seg, 0, 3, 2, 0, 1, 3).len() == if seg <= 0 {
                0int
            } else {
                6 * seg
            }
            &&& strip_spec(cb1, seg, 0, 1, 3, 0, 3, 2).len() == if seg <= 0 {
                0int
            } else {
                6 * seg
            }
            &&& fan_spec(cb1, seg, false).len() == if seg <= 0 {
                0int
            } else {
                3 * seg
            }
            &&& strip_spec(cb2, seg, 0, 3, 1, 0, 2, 3).len() == if seg <= 0 {
                0int
            } else {
                6 * seg
            }
            &&& fan_spec(cb2, seg, true).len() == if seg <= 0 {
                0int
            } else {
                3 * seg
            }
        }),
{
    let ib = 2 * (seg + 1);
    lemma_strip_len(ib, seg, 0, 3, 2, 0, 1, 3);
    let cb1 = ib + (if has_hole {
        2 * (seg + 1)
    } else {
        0
    });
    lemma_strip_len(cb1, seg, 0, 1, 3, 0, 3, 2);
    lemma_fan_len(cb1, seg, false);
    let cb2 = cb1 + (if has_hole {
        2 * (seg + 1)
    } else if top_disk {
        seg + 2
    } else {
        0
    });
    lemma_strip_len(cb2, seg, 0, 3, 1, 0, 2, 3);
    lemma_fan_len(cb2, seg, true);
}

// ─────────────────────────────────────────────────────────────────────────────
// Sphere
// ─────────────────────────────────────────────────────────────────────────────

pub open spec fn sphere_vertex_count_spec(
    has_hole: bool,
    full_phi: bool,
    start_cap: bool,
    end_cap: bool,
    phi_seg: int,
    theta_seg: int,
) -> int {
    let grid = (theta_seg + 1) * (phi_seg + 1);
    grid + (if has_hole {
        grid
    } else {
        0
    }) + (if full_phi {
        0
    } else {
        4 * (theta_seg + 1)
    }) + (if start_cap {
        if has_hole {
            2 * (phi_seg + 1)
        } else {
            phi_seg + 2
        }
    } else {
        0
    }) + (if end_cap {
        if has_hole {
            2 * (phi_seg + 1)
        } else {
            phi_seg + 2
        }
    } else {
        0
    })
}

pub open spec fn sphere_triangle_count_spec(
    has_hole: bool,
    full_phi: bool,
    start_cap: bool,
    end_cap: bool,
    phi_seg: int,
    theta_seg: int,
) -> int {
    let grid_tris = 2 * theta_seg * phi_seg;
    grid_tris + (if has_hole {
        grid_tris
    } else {
        0int
    }) + (if full_phi {
        0int
    } else {
        4 * theta_seg
    }) + (if start_cap {
        if has_hole {
            2 * phi_seg
        } else {
            phi_seg
        }
    } else {
        0int
    }) + (if end_cap {
        if has_hole {
            2 * phi_seg
        } else {
            phi_seg
        }
    } else {
        0int
    })
}

/// The sphere index list: the outer latitude/longitude grid, the inner grid
/// when hollow, two phi wedge strips when the azimuthal sweep is partial,
/// and an annular strip or fan at each polar cut.
pub open spec fn sphere_indices_spec(
    has_hole: bool,
    full_phi: bool,
    start_cap: bool,
    end_cap: bool,
    phi_seg: int,
    theta_seg: int,
) -> Seq<u32> {
    let cols = phi_seg + 1;
    let grid = (theta_seg + 1) * cols;
    let outer = grid_spec(0, cols, theta_seg, phi_seg, false);
    let b1 = grid;
    let inner = if has_hole {
        grid_spec(b1, cols, theta_seg, phi_seg, true)
    } else {
        Seq::empty()
    };
    let b2 = b1 + (if has_hole {
        grid
    } else {
        0
    });
    let wedges = if full_phi {
        Seq::empty()
    } else {
        strip_spec(b2, theta_seg, 0, 1, 3, 0, 3, 2) + strip_spec(
            b2 + 2 * (theta_seg + 1),
            theta_seg,
            0,
            3,
            1,
            0,
            2,
            3,
        )
    };
    let b3 = b2 + (if full_phi {
        0
    } else {
        4 * (theta_seg + 1)
    });
    let cap1 = if start_cap {
        if has_hole {
            strip_spec(b3, phi_seg, 0, 3, 1, 0, 2, 3)
        } else {
            fan_spec(b3, phi_seg, true)
        }
    } else {
        Seq::empty()
    };
    let b4 = b3 + (if start_cap {
        if has_hole {
            2 * (phi_seg + 1)
        } else {
            phi_seg + 2
        }
    } else {
        0
    });
    let cap2 = if end_cap {
        if has_hole {
            strip_spec(b4, phi_seg, 0, 1, 3, 0, 3, 2)
        } else {
            fan_spec(b4, phi_seg, false)
        }
    } else {
        Seq::empty()
    };
    outer + inner + wedges + cap1 + cap2
}

/// The sphere topology: `phi_seg` is the clamped segment count (at least 4),
/// `theta_seg` its half.
#[verifier::rlimit(100)]
#[verifier::spinoff_prover]
pub fn sphere_topology(
    has_hole: bool,
    full_phi: bool,
    start_cap: bool,
    end_cap: bool,
    segments: u32,
) -> (t: TriangleTopology)
    requires
        segments <= 60000,
    ensures
        ({
            let phi_seg = clamp_seg(segments as int, 4);
            let theta_seg = phi_seg / 2;
            &&& t.indices@ == sphere_indices_spec(
                has_hole,
                full_phi,
                start_cap,
                end_cap,
                phi_seg,
                theta_seg,
            )
            &&& t.vertex_count as int == sphere_vertex_count_spec(
                has_hole,
                full_phi,
                start_cap,
                end_cap,
                phi_seg,
                theta_seg,
            )
            &&& t.indices@.len() == 3 * sphere_triangle_count_spec(
                has_hole,
                full_phi,
                start_cap,
                end_cap,
                phi_seg,
                theta_seg,
            )
            &&& topo_valid(t)
        }),
{
    let phi_seg: u32 = if segments < 4 {
        4
    } else {
        segments
    };
    let theta_seg: u32 = phi_seg / 2;
    let cols: u32 = phi_seg + 1;
    proof {
        assert((theta_seg as int + 1) * (cols as int) <= 30001 * 60001) by (nonlinear_arith)
            requires
                0 <= theta_seg as int + 1 <= 30001,
                0 <= cols as int <= 60001,
        ;
    }
    let grid: u32 = (theta_seg + 1) * cols;
    let ghost phi_i = phi_seg as int;
    let ghost theta_i = theta_seg as int;
    let ghost cols_i = phi_i + 1;
    let ghost grid_i = (theta_i + 1) * cols_i;
    proof {
        assert(grid as int == grid_i);
    }
    let ghost b2 = grid_i + (if has_hole {
        grid_i
    } else {
        0int
    });
    let ghost b3 = b2 + (if full_phi {
        0int
    } else {
        4 * (theta_i + 1)
    });
    let ghost b4 = b3 + (if start_cap {
        if has_hole {
            2 * (phi_i + 1)
        } else {
            phi_i + 2
        }
    } else {
        0int
    });
    let ghost souter = grid_spec(0, cols_i, theta_i, phi_i, false);
    let ghost sinner = if has_hole {
        grid_spec(grid_i, cols_i, theta_i, phi_i, true)
    } else {
        Seq::<u32>::empty()
    };
    let ghost swedges = if full_phi {
        Seq::<u32>::empty()
    } else {
        strip_spec(b2, theta_i, 0, 1, 3, 0, 3, 2) + strip_spec(
            b2 + 2 * (theta_i + 1),
            theta_i,
            0,
            3,
            1,
            0,
            2,
            3,
        )
    };
    let ghost scap1 = if start_cap {
        if has_hole {
            strip_spec(b3, phi_i, 0, 3, 1, 0, 2, 3)
        } else {
            fan_spec(b3, phi_i, true)
        }
    } else {
        Seq::<u32>::empty()
    };
    let ghost scap2 = if end_cap {
        if has_hole {
            strip_spec(b4, phi_i, 0, 1, 3, 0, 3, 2)
        } else {
            fan_spec(b4, phi_i, false)
        }
    } else {
        Seq::<u32>::empty()
    };
    let mut indices: Vec<u32> = Vec::new();
    push_grid(&mut indices, 0, cols, theta_seg, phi_seg, false);
    let mut alloc: u32 = grid;
    proof {
        assert(indices@ =~= souter);
        assert(forall|k: int| 0 <= k < indices@.len() ==> (#[trigger] indices@[k]) < alloc);
    }
    if has_hole {
        push_grid(&mut indices, alloc, cols, theta_seg, phi_seg, true);
        alloc = alloc + grid;
    }
    proof {
        assert(indices@ =~= souter + sinner);
        assert(forall|k: int| 0 <= k < indices@.len() ==> (#[trigger] indices@[k]) < alloc);
        assert(alloc as int == b2);
    }
    if !full_phi {
        push_strip(&mut indices, alloc, theta_seg, 0, 1, 3, 0, 3, 2);
        push_strip(&mut indices, alloc + 2 * (theta_seg + 1), theta_seg, 0, 3, 1, 0, 2, 3);
        alloc = alloc + 4 * (theta_seg + 1);
    }
    proof {
        assert(indices@ =~= (souter + sinner) + swedges);
        assert(forall|k: int| 0 <= k < indices@.len() ==> (#[trigger] indices@[k]) < alloc);
        assert(alloc as int == b3);
    }
    if start_cap {
        if has_hole {
            push_strip(&mut indices, alloc, phi_seg, 0, 3, 1, 0, 2, 3);
            alloc = alloc + 2 * (phi_seg + 1);
        } else {
            push_fan(&mut indices, alloc, phi_seg, true);
            alloc = alloc + phi_seg + 2;
        }
    }
    proof {
        assert(indices@ =~= ((souter + sinner) + swedges) + scap1);
        assert(forall|k: int| 0 <= k < indices@.len() ==> (#[trigger] indices@[k]) < alloc);
        assert(alloc as int == b4);
    }
    if end_cap {
        if has_hole {
            push_strip(&mut indices, alloc, phi_seg, 0, 1, 3, 0, 3, 2);
            alloc = alloc + 2 * (phi_seg + 1);
        } else {
            push_fan(&mut indices, alloc, phi_seg, false);
            alloc = alloc + phi_seg + 2;
        }
    }
    proof {
        assert(indices@ =~= (((souter + sinner) + swedges) + scap1) + scap2);
        assert(forall|k: int| 0 <= k < indices@.len() ==> (#[trigger] indices@[k]) < alloc);
    }
    let t = TriangleTopology { vertex_count: alloc, indices };
    proof {
        assert(phi_i == clamp_seg(segments as int, 4) && theta_i == phi_i / 2);
        assert(t.indices@ == sphere_indices_spec(
            has_hole,
            full_phi,
            start_cap,
            end_cap,
            phi_i,
            theta_i,
        ));
        lemma_grid_len(0, cols_i, theta_i, phi_i, false);
        lemma_grid_len(grid_i, cols_i, theta_i, phi_i, true);
        lemma_sphere_parts_len(has_hole, full_phi, start_cap, phi_i, theta_i);
        assert(t.vertex_count as int == sphere_vertex_count_spec(
            has_hole,
            full_phi,
            start_cap,
            end_cap,
            phi_i,
            theta_i,
        ));
        assert(3 * (2 * theta_i * phi_i) == theta_i * 6 * phi_i) by (nonlinear_arith);
        assert(t.indices@.len() == 3 * sphere_triangle_count_spec(
            has_hole,
            full_phi,
            start_cap,
            end_cap,
            phi_i,
            theta_i,
        ));
        assert(topo_valid(t));
    }
    t
}

proof fn lemma_sphere_parts_len(
    has_hole: bool,
    full_phi: bool,
    start_cap: bool,
    phi_seg: int,
    theta_seg: int,
)
    ensures
        ({
            let grid = (theta_seg + 1) * (phi_seg + 1);
            let b2 = grid + (if has_hole {
                grid
            } else {
                0int
            });
            let b3 = b2 + (if full_phi {
                0int
            } else {
                4 * (theta_seg + 1)
            });
            let b4 = b3 + (if start_cap {
                if has_hole {
                    2 * (phi_seg + 1)
                } else {
                    phi_seg + 2
                }
            } else {
                0int
            });
            &&& strip_spec(b2, theta_seg, 0, 1, 3, 0, 3, 2).len() == if theta_seg <= 0 {
                0int
            } else {
                6 * theta_seg
            }
            &&& strip_spec(b2 + 2 * (theta_seg + 1), theta_seg, 0, 3, 1, 0, 2, 3).len() == if theta_seg
                <= 0 {
                0int
            } else {
                6 * theta_seg
            }
            &&& strip_spec(b3, phi_seg, 0, 3, 1, 0, 2, 3).len() == if phi_seg <= 0 {
                0int
            } else {
                6 * phi_seg
            }
            &&& fan_spec(b3, phi_seg, true).len() == if phi_seg <= 0 {
                0int
            } else {
                3 * phi_seg
            }
            &&& strip_spec(b4, phi_seg, 0, 1, 3, 0, 3, 2).len() == if phi_seg <= 0 {
                0int
            } else {
                6 * phi_seg
            }
            &&& fan_spec(b4, phi_seg, false).len() == if phi_seg <= 0 {
                0int
            } else {
                3 * phi_seg
            }
        }),
{
    let grid = (theta_seg + 1) * (phi_seg + 1);
    let b2 = grid + (if has_hole {
        grid
    } else {
        0
    });
    lemma_strip_len(b2, theta_seg, 0, 1, 3, 0, 3, 2);
    lemma_strip_len(b2 + 2 * (theta_seg + 1), theta_seg, 0, 3, 1, 0, 2, 3);
    let b3 = b2 + (if full_phi {
        0
    } else {
        4 * (theta_seg + 1)
    });
    lemma_strip_len(b3, phi_seg, 0, 3, 1, 0, 2, 3);
    lemma_fan_len(b3, phi_seg, true);
    let b4 = b3 + (if start_cap {
        if has_hole {
            2 * (phi_seg + 1)
        } else {
            phi_seg + 2
        }
    } else {
        0
    });
    lemma_strip_len(b4, phi_seg, 0, 1, 3, 0, 3, 2);
    lemma_fan_len(b4, phi_seg, false);
}

// ─────────────────────────────────────────────────────────────────────────────
// The tessellation plan
// ─────────────────────────────────────────────────────────────────────────────

/// The mesh name planned for every solid: one mesh per solid, under the
/// solid's own name. Tessellating each planned entry therefore yields
/// exactly as many meshes as there are solids.
pub fn tessellation_names(solids: &SolidSection) -> (r: Vec<String>)
    ensures
        r.deep_view() == solids.deep_view().solids.map_values(|s: SolidV| solid_name_v(s)),
        r@.len() == solids.solids@.len(),
{
    let ghost target = solids.deep_view().solids.map_values(|s: SolidV| solid_name_v(s));
    let mut out: Vec<String> = Vec::new();
    let mut i: usize = 0;
    proof {
        assert(out.deep_view() =~= target.take(0));
    }
    while i < solids.solids.len()
        invariant
            i <= solids.solids@.len(),
            target == solids.deep_view().solids.map_values(|s: SolidV| solid_name_v(s)),
            out.deep_view() == target.take(i as int),
        decreases solids.solids@.len() - i,
    {
        let name = String::from_str(solids.solids[i].name());
        push_dv(&mut out, name);
        proof {
            assert(out.deep_view() =~= target.take(i as int + 1));
        }
        i += 1;
    }
    proof {
        assert(target.take(target.len() as int) =~= target);
    }
    out
}

proof fn lemma_strip_len(base: int, n: int, o1: int, o2: int, o3: int, o4: int, o5: int, o6: int)
    ensures
        strip_spec(base, n, o1, o2, o3, o4, o5, o6).len() == if n <= 0 {
            0int
        } else {
            6 * n
        },
    decreases n,
{
    if n > 0 {
        lemma_strip_len(base, n - 1, o1, o2, o3, o4, o5, o6);
    }
}

proof fn lemma_fan_len(center: int, n: int, flip: bool)
    ensures
        fan_spec(center, n, flip).len() == if n <= 0 {
            0int
        } else {
            3 * n
        },
    decreases n,
{
    if n > 0 {
        lemma_fan_len(center, n - 1, flip);
    }
}

proof fn lemma_grid_row_len(rowbase: int, cols: int, n: int, invert: bool)
    ensures
        grid_row_spec(rowbase, cols, n, invert).len() == if n <= 0 {
            0int
        } else {
            6 * n
        },
    decreases n,
{
    if n > 0 {
        lemma_grid_row_len(rowbase, cols, n - 1, invert);
    }
}

proof fn lemma_grid_len(base: int, cols: int, rows: int, ncols: int, invert: bool)
    ensures
        grid_spec(base, cols, rows, ncols, invert).len() == if rows <= 0 || ncols <= 0 {
            0int
        } else {
            rows * 6 * ncols
        },
    decreases rows,
{
    if rows > 0 {
        lemma_grid_len(base, cols, rows - 1, ncols, invert);
        lemma_grid_row_len(base + (rows - 1) * cols, cols, ncols, invert);
        if ncols > 0 {
            assert(rows * 6 * ncols == (rows - 1) * 6 * ncols + 6 * ncols) by (nonlinear_arith);
        }
    }
}

} // verus!
