//! The fragment-stage shader asset: its embedded compiled payload, the
//! loader that turns it into an asset, and the statically declared entry
//! point.

use vstd::prelude::*;
use crate::shaders::{DescriptorSetDesc, DescriptorSetLayoutDesc, EntryPointDesc, ShaderStage,
    spirv_words, words_of, SPIRV_MAGIC};

verus! {

/// The exact byte sequence of the embedded fragment shader payload.
pub open spec fn test_frag_payload() -> Seq<u8> {
    seq![
        3u8, 2, 35, 7, 0, 0, 1, 0, 1, 0, 8, 0, 13, 0, 0, 0, 0, 0, 0, 0, 17, 0, 2, 0, 1, 0, 0, 0,
        11, 0, 6, 0, 1, 0, 0, 0, 71, 76, 83, 76, 46, 115, 116, 100, 46, 52, 53, 48, 0, 0, 0, 0,
        14, 0, 3, 0, 0, 0, 0, 0, 1, 0, 0, 0, 15, 0, 6, 0, 4, 0, 0, 0, 4, 0, 0, 0, 109, 97, 105,
        110, 0, 0, 0, 0, 9, 0, 0, 0, 16, 0, 3, 0, 4, 0, 0, 0, 7, 0, 0, 0, 3, 0, 3, 0, 2, 0, 0, 0,
        194, 1, 0, 0, 4, 0, 9, 0, 71, 76, 95, 65, 82, 66, 95, 115, 101, 112, 97, 114, 97, 116,
        101, 95, 115, 104, 97, 100, 101, 114, 95, 111, 98, 106, 101, 99, 116, 115, 0, 0, 4, 0, 9,
        0, 71, 76, 95, 65, 82, 66, 95, 115, 104, 97, 100, 105, 110, 103, 95, 108, 97, 110, 103,
        117, 97, 103, 101, 95, 52, 50, 48, 112, 97, 99, 107, 0, 5, 0, 4, 0, 4, 0, 0, 0, 109, 97,
        105, 110, 0, 0, 0, 0, 5, 0, 4, 0, 9, 0, 0, 0, 102, 95, 99, 111, 108, 111, 114, 0, 71, 0,
        4, 0, 9, 0, 0, 0, 30, 0, 0, 0, 0, 0, 0, 0, 19, 0, 2, 0, 2, 0, 0, 0, 33, 0, 3, 0, 3, 0, 0,
        0, 2, 0, 0, 0, 22, 0, 3, 0, 6, 0, 0, 0, 32, 0, 0, 0, 23, 0, 4, 0, 7, 0, 0, 0, 6, 0, 0, 0,
        4, 0, 0, 0, 32, 0, 4, 0, 8, 0, 0, 0, 3, 0, 0, 0, 7, 0, 0, 0, 59, 0, 4, 0, 8, 0, 0, 0, 9,
        0, 0, 0, 3, 0, 0, 0, 43, 0, 4, 0, 6, 0, 0, 0, 10, 0, 0, 0, 0, 0, 128, 63, 43, 0, 4, 0, 6,
        0, 0, 0, 11, 0, 0, 0, 0, 0, 0, 0, 44, 0, 7, 0, 7, 0, 0, 0, 12, 0, 0, 0, 10, 0, 0, 0, 11,
        0, 0, 0, 11, 0, 0, 0, 10, 0, 0, 0, 54, 0, 5, 0, 2, 0, 0, 0, 4, 0, 0, 0, 0, 0, 0, 0, 3, 0,
        0, 0, 248, 0, 2, 0, 5, 0, 0, 0, 62, 0, 3, 0, 9, 0, 0, 0, 12, 0, 0, 0, 253, 0, 1, 0, 56,
        0, 1, 0
    ]
}

/// The embedded compiled payload of the fragment shader: 420 bytes,
/// produced by the external shader compiler and never modified here.
pub fn test_frag_bytes() -> (r: Vec<u8>)
    ensures
        r@ == test_frag_payload(),
        r@.len() == 420,
        r@.len() % 4 == 0,
        r@[0] == 3,
        r@[1] == 2,
        r@[2] == 35,
        r@[3] == 7,
{
    let r: Vec<u8> = vec![
        3u8, 2, 35, 7, 0, 0, 1, 0, 1, 0, 8, 0, 13, 0, 0, 0, 0, 0, 0, 0, 17, 0, 2, 0, 1, 0, 0, 0,
        11, 0, 6, 0, 1, 0, 0, 0, 71, 76, 83, 76, 46, 115, 116, 100, 46, 52, 53, 48, 0, 0, 0, 0,
        14, 0, 3, 0, 0, 0, 0, 0, 1, 0, 0, 0, 15, 0, 6, 0, 4, 0, 0, 0, 4, 0, 0, 0, 109, 97, 105,
        110, 0, 0, 0, 0, 9, 0, 0, 0, 16, 0, 3, 0, 4, 0, 0, 0, 7, 0, 0, 0, 3, 0, 3, 0, 2, 0, 0, 0,
        194, 1, 0, 0, 4, 0, 9, 0, 71, 76, 95, 65, 82, 66, 95, 115, 101, 112, 97, 114, 97, 116,
        101, 95, 115, 104, 97, 100, 101, 114, 95, 111, 98, 106, 101, 99, 116, 115, 0, 0, 4, 0, 9,
        0, 71, 76, 95, 65, 82, 66, 95, 115, 104, 97, 100, 105, 110, 103, 95, 108, 97, 110, 103,
        117, 97, 103, 101, 95, 52, 50, 48, 112, 97, 99, 107, 0, 5, 0, 4, 0, 4, 0, 0, 0, 109, 97,
        105, 110, 0, 0, 0, 0, 5, 0, 4, 0, 9, 0, 0, 0, 102, 95, 99, 111, 108, 111, 114, 0, 71, 0,
        4, 0, 9, 0, 0, 0, 30, 0, 0, 0, 0, 0, 0, 0, 19, 0, 2, 0, 2, 0, 0, 0, 33, 0, 3, 0, 3, 0, 0,
        0, 2, 0, 0, 0, 22, 0, 3, 0, 6, 0, 0, 0, 32, 0, 0, 0, 23, 0, 4, 0, 7, 0, 0, 0, 6, 0, 0, 0,
        4, 0, 0, 0, 32, 0, 4, 0, 8, 0, 0, 0, 3, 0, 0, 0, 7, 0, 0, 0, 59, 0, 4, 0, 8, 0, 0, 0, 9,
        0, 0, 0, 3, 0, 0, 0, 43, 0, 4, 0, 6, 0, 0, 0, 10, 0, 0, 0, 0, 0, 128, 63, 43, 0, 4, 0, 6,
        0, 0, 0, 11, 0, 0, 0, 0, 0, 0, 0, 44, 0, 7, 0, 7, 0, 0, 0, 12, 0, 0, 0, 10, 0, 0, 0, 11,
        0, 0, 0, 11, 0, 0, 0, 10, 0, 0, 0, 54, 0, 5, 0, 2, 0, 0, 0, 4, 0, 0, 0, 0, 0, 0, 0, 3, 0,
        0, 0, 248, 0, 2, 0, 5, 0, 0, 0, 62, 0, 3, 0, 9, 0, 0, 0, 12, 0, 0, 0, 253, 0, 1, 0, 56,
        0, 1, 0,
    ];
    proof {
        assert(r@ =~= test_frag_payload());
    }
    r
}


/// The fragment shader asset: the validated instruction words of its payload.
pub struct TestFrag {
    words: Vec<u32>,
}

impl View for TestFrag {
    type V = Seq<u32>;

    closed spec fn view(&self) -> Seq<u32> {
        self.words@
    }
}

impl TestFrag {
    /// Builds the asset from a payload. The fragment loader has no capability
    /// gate.
    pub fn from_bytes(bytes: &Vec<u8>) -> (a: TestFrag)
        requires
            bytes@.len() % 4 == 0,
        ensures
            a@ == words_of(bytes@),
    {
        TestFrag { words: spirv_words(bytes) }
    }

    /// Loads the embedded fragment shader asset: the payload is converted to
    /// instruction words unconditionally.
    pub fn load() -> (a: TestFrag)
        ensures
            a@ == words_of(test_frag_payload()),
            a@.len() == 105,
            a@[0] == SPIRV_MAGIC,
    {
        let bytes = test_frag_bytes();
        TestFrag::from_bytes(&bytes)
    }

    /// The instruction words of the compiled module, handed unmodified to the
    /// graphics context.
    pub fn module(&self) -> (r: &Vec<u32>)
        ensures
            r@ == self@,
    {
        &self.words
    }

    /// A descriptor of the entry point named `main`: fragment stage, with no
    /// extra inputs and no resource bindings.
    pub fn main_entry_point(&self) -> (r: EntryPointDesc)
        ensures
            r.name@ == "main"@,
            r.stage == ShaderStage::Fragment,
            r.inputs@.len() == 0,
    {
        EntryPointDesc { name: "main", stage: ShaderStage::Fragment, inputs: Vec::new() }
    }
}

/// The empty resource-binding layout of this asset: no descriptor sets and no
/// push constants are declared.
#[derive(Clone, Copy, Debug, Default)]
pub struct Layout;

impl Layout {
    /// The descriptor-set layouts this layout declares: none.
    pub fn decode_descriptor_set_layouts(&self) -> (r: Vec<DescriptorSetLayoutDesc>)
        ensures
            r@.len() == 0,
    {
        Vec::new()
    }

    /// The bound descriptor sets this layout declares: none.
    pub fn decode_descriptor_sets(&self) -> (r: Vec<DescriptorSetDesc>)
        ensures
            r@.len() == 0,
    {
        Vec::new()
    }
}

} // verus!
