use vstd::prelude::*;

verus! {

/// Pixel dimensions of a window, a swapchain image or a framebuffer.
#[derive(Clone, Copy, Debug, PartialEq, Eq, Structural)]
pub struct Extent {
    pub width: u32,
    pub height: u32,
}

impl Extent {
    pub fn new(width: u32, height: u32) -> (r: Extent)
        ensures
            r.width == width,
            r.height == height,
    {
        Extent { width, height }
    }
}

} // verus!

verus! {

/// Whether every index names one of `vertex_count` vertices.
pub open spec fn indices_in_range(indices: Seq<u16>, vertex_count: nat) -> bool {
    forall|k: int| 0 <= k < indices.len() ==> (indices[k] as nat) < vertex_count
}

/// The triangle list that an indexed mesh stands for: the vertex that each
/// index names, in the order of the indices.
pub open spec fn unrolled<T>(vertices: Seq<T>, indices: Seq<u16>) -> Seq<T> {
    indices.map_values(|i: u16| vertices[i as int])
}

/// Expands an indexed mesh into a plain triangle list, so that a draw needs
/// no index buffer. `None` when an index names no vertex.
pub fn unroll_indexed<T: Copy>(vertices: &Vec<T>, indices: &Vec<u16>) -> (r: Option<Vec<T>>)
    ensures
        r is Some <==> indices_in_range(indices@, vertices@.len()),
        r matches Some(v) ==> v@ == unrolled(vertices@, indices@),
{
    let mut out: Vec<T> = Vec::new();
    let mut k: usize = 0;
    while k < indices.len()
        invariant
            k <= indices@.len(),
            forall|j: int| 0 <= j < k ==> (indices@[j] as nat) < vertices@.len(),
            out@ == unrolled(vertices@, indices@.take(k as int)),
        decreases indices@.len() - k,
    {
        let i = indices[k] as usize;
        if i >= vertices.len() {
            return None;
        }
        out.push(vertices[i]);
        proof {
            assert(indices@.take(k as int + 1) == indices@.take(k as int).push(indices@[k as int]));
        }
        k = k + 1;
    }
    proof {
        assert(indices@.take(k as int) == indices@);
    }
    Some(out)
}

} // verus!
