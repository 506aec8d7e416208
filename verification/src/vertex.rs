//! Vertex data of the static triangle, and the host-visible vertex buffer it
//! is written into.
//!
//! A position component is stored as the bit pattern of an IEEE-754
//! single-precision number, so that the data model is exact: the buffer holds
//! plain 32-bit words, and writing and reading them back is stated and proved
//! word for word.

use vstd::prelude::*;

verus! {

/// Bit pattern of -0.5.
pub const NEG_HALF_BITS: u32 = 0xBF00_0000;

/// Bit pattern of -0.25.
pub const NEG_QUARTER_BITS: u32 = 0xBE80_0000;

/// Bit pattern of 0.0.
pub const ZERO_BITS: u32 = 0x0000_0000;

/// Bit pattern of 0.5.
pub const HALF_BITS: u32 = 0x3F00_0000;

/// Bit pattern of -0.1.
pub const NEG_TENTH_BITS: u32 = 0xBDCC_CCCD;

/// A 2D vertex position; each component is the bit pattern of a
/// single-precision number.
#[derive(Clone, Copy, Debug)]
pub struct Vertex {
    pub position: [u32; 2],
}

impl PartialEq for Vertex {
    fn eq(&self, o: &Vertex) -> (r: bool) {
        self.position[0] == o.position[0] && self.position[1] == o.position[1]
    }
}

impl Eq for Vertex {

}

impl vstd::std_specs::cmp::PartialEqSpecImpl for Vertex {
    open spec fn obeys_eq_spec() -> bool {
        true
    }

    open spec fn eq_spec(&self, o: &Vertex) -> bool {
        self.position[0] == o.position[0] && self.position[1] == o.position[1]
    }
}

impl From<[u32; 2]> for Vertex {
    fn from(pos: [u32; 2]) -> (v: Vertex) {
        Vertex { position: pos }
    }
}

impl vstd::std_specs::convert::FromSpecImpl<[u32; 2]> for Vertex {
    open spec fn obeys_from_spec() -> bool {
        true
    }

    open spec fn from_spec(pos: [u32; 2]) -> Vertex {
        Vertex { position: pos }
    }
}

/// The three fixed positions of the triangle, in the order they are written
/// into the vertex buffer.
pub open spec fn triangle_positions_spec() -> Seq<Vertex> {
    seq![
        Vertex { position: [NEG_HALF_BITS, NEG_QUARTER_BITS] },
        Vertex { position: [ZERO_BITS, HALF_BITS] },
        Vertex { position: [NEG_QUARTER_BITS, NEG_TENTH_BITS] },
    ]
}

/// The three fixed triangle positions as a vector.
pub fn triangle_positions() -> (v: Vec<Vertex>)
    ensures
        v@ == triangle_positions_spec(),
{
    let mut v: Vec<Vertex> = Vec::new();
    v.push(Vertex { position: [NEG_HALF_BITS, NEG_QUARTER_BITS] });
    v.push(Vertex { position: [ZERO_BITS, HALF_BITS] });
    v.push(Vertex { position: [NEG_QUARTER_BITS, NEG_TENTH_BITS] });
    proof {
        assert(v@ =~= triangle_positions_spec());
    }
    v
}

/// A host-writable buffer of vertices. Models the one buffer the session
/// creates: sized once, then written slot by slot.
pub struct VertexBuffer {
    cells: Vec<Vertex>,
}

impl View for VertexBuffer {
    type V = Seq<Vertex>;

    closed spec fn view(&self) -> Seq<Vertex> {
        self.cells@
    }
}

impl VertexBuffer {
    /// Creates a buffer of `len` slots, each holding the all-zero position.
    pub fn array(len: usize) -> (b: VertexBuffer)
        ensures
            b@.len() == len,
            forall|i: int| 0 <= i < len ==> b@[i] == (Vertex { position: [ZERO_BITS, ZERO_BITS] }),
    {
        let mut cells: Vec<Vertex> = Vec::new();
        let mut k: usize = 0;
        while k < len
            invariant
                k <= len,
                cells@.len() == k,
                forall|i: int|
                    0 <= i < k ==> cells@[i] == (Vertex { position: [ZERO_BITS, ZERO_BITS] }),
            decreases len - k,
        {
            cells.push(Vertex { position: [ZERO_BITS, ZERO_BITS] });
            k = k + 1;
        }
        VertexBuffer { cells }
    }

    /// The number of slots.
    pub fn len(&self) -> (n: usize)
        ensures
            n == self@.len(),
    {
        self.cells.len()
    }

    /// Writes one vertex into slot `i`.
    pub fn write(&mut self, i: usize, v: Vertex)
        requires
            i < old(self)@.len(),
        ensures
            final(self)@ == old(self)@.update(i as int, v),
    {
        self.cells.set(i, v);
    }

    /// Reads the vertex in slot `i` back.
    pub fn read(&self, i: usize) -> (v: Vertex)
        requires
            i < self@.len(),
        ensures
            v == self@[i as int],
    {
        self.cells[i]
    }

    /// Writes the three fixed triangle positions into slots 0, 1 and 2.
    pub fn write_triangle(&mut self)
        requires
            old(self)@.len() == 3,
        ensures
            final(self)@ == triangle_positions_spec(),
    {
        self.write(0, Vertex { position: [NEG_HALF_BITS, NEG_QUARTER_BITS] });
        self.write(1, Vertex { position: [ZERO_BITS, HALF_BITS] });
        self.write(2, Vertex { position: [NEG_QUARTER_BITS, NEG_TENTH_BITS] });
        proof {
            assert(self@ =~= triangle_positions_spec());
        }
    }
}

/// Round trip: after writing any three vertices into slots 0, 1 and 2 of a
/// three-slot buffer, the buffer holds exactly those vertices, so reading the
/// slots back yields them unchanged.
pub proof fn lemma_write_read_round_trip(s: Seq<Vertex>, v0: Vertex, v1: Vertex, v2: Vertex)
    requires
        s.len() == 3,
    ensures
        s.update(0, v0).update(1, v1).update(2, v2) =~= seq![v0, v1, v2],
        s.update(0, v0).update(1, v1).update(2, v2)[0] == v0,
        s.update(0, v0).update(1, v1).update(2, v2)[1] == v1,
        s.update(0, v0).update(1, v1).update(2, v2)[2] == v2,
{
}

} // verus!
