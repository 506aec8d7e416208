//! Shader assets: the embedded compiled payloads, the conversion of a payload
//! into the 32-bit instruction words the context consumes, and the statically
//! declared entry-point interfaces.

use vstd::prelude::*;

pub mod test_frag;
pub mod test_vert;

verus! {

/// The magic number that opens every compiled shader payload, as its first
/// 32-bit word.
pub const SPIRV_MAGIC: u32 = 0x0723_0203;

/// The two hardware capability flags the vertex asset loader checks before it
/// accepts a device.
#[derive(Clone, Copy, Debug, PartialEq, Eq, Structural)]
pub struct DeviceFeatures {
    pub shader_clip_distance: bool,
    pub shader_cull_distance: bool,
}

/// The vertex asset loader accepts a device only when both checked
/// capability flags are supported.
pub open spec fn vertex_capabilities_ok(f: DeviceFeatures) -> bool {
    f.shader_clip_distance && f.shader_cull_distance
}

/// Which pipeline stage a shader entry point belongs to.
#[derive(Clone, Copy, Debug, PartialEq, Eq, Structural)]
pub enum ShaderStage {
    Vertex,
    Fragment,
}

/// One vertex-input attribute: its location and its declared name.
#[derive(Clone, Copy, Debug)]
pub struct InputBinding {
    pub location: u32,
    pub name: &'static str,
}

/// A named shader entry point with its statically declared interface. No
/// runtime reflection happens: the fields are fixed at asset-authoring time.
#[derive(Clone, Debug)]
pub struct EntryPointDesc {
    pub name: &'static str,
    pub stage: ShaderStage,
    pub inputs: Vec<InputBinding>,
}

/// A descriptor-set layout declaration; the assets here declare none.
#[derive(Clone, Copy, Debug)]
pub struct DescriptorSetLayoutDesc;

/// A bound descriptor set; the assets here declare none.
#[derive(Clone, Copy, Debug)]
pub struct DescriptorSetDesc;

/// The 32-bit word that bytes `4*i .. 4*i+4` of a payload spell, in
/// little-endian order.
pub open spec fn le_word_at(s: Seq<u8>, i: int) -> u32 {
    (s[4 * i] + s[4 * i + 1] * 0x100 + s[4 * i + 2] * 0x1_0000 + s[4 * i + 3] * 0x100_0000) as u32
}

/// The instruction words of a payload: every four bytes, little-endian.
pub open spec fn words_of(s: Seq<u8>) -> Seq<u32> {
    Seq::new((s.len() / 4) as nat, |i: int| le_word_at(s, i))
}

/// Converts a payload into its 32-bit instruction words, four bytes per word
/// in little-endian order.
pub fn spirv_words(bytes: &Vec<u8>) -> (r: Vec<u32>)
    requires
        bytes@.len() % 4 == 0,
    ensures
        r@ == words_of(bytes@),
        r@.len() == bytes@.len() / 4,
{
    proof {
        vstd::arithmetic::div_mod::lemma_fundamental_div_mod(bytes@.len() as int, 4);
    }
    let n = bytes.len() / 4;
    let mut r: Vec<u32> = Vec::new();
    let mut k: usize = 0;
    while k < n
        invariant
            k <= n,
            n == bytes@.len() / 4,
            bytes@.len() == 4 * n,
            bytes@.len() <= usize::MAX,
            r@.len() == k,
            forall|i: int| 0 <= i < k ==> r@[i] == le_word_at(bytes@, i),
        decreases n - k,
    {
        let b0 = bytes[4 * k];
        let b1 = bytes[4 * k + 1];
        let b2 = bytes[4 * k + 2];
        let b3 = bytes[4 * k + 3];
        let w: u32 = b0 as u32 + (b1 as u32) * 0x100 + (b2 as u32) * 0x1_0000 + (b3 as u32)
            * 0x100_0000;
        r.push(w);
        k = k + 1;
    }
    proof {
        assert(r@ =~= words_of(bytes@));
    }
    r
}

} // verus!
