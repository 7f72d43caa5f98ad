//! Shape handling for raw SPIR-V bytecode.
//!
//! A shader file is consumed as a whole byte payload and handed to the
//! platform's raw shader-module constructor as 32-bit words. That
//! constructor does not validate SPIR-V completeness — callers assert
//! that the file is valid bytecode — but the byte stream must at least
//! decompose into little-endian words that open with the SPIR-V magic
//! number and a full five-word header. This module states and checks
//! exactly that shape, and nothing more.

use vstd::prelude::*;

use crate::errors::ShaderError;

verus! {

/// The magic number that opens every little-endian SPIR-V module.
pub const SPIRV_MAGIC: u32 = 0x0723_0203;

/// The number of words in a SPIR-V module header.
pub const SPIRV_HEADER_WORDS: usize = 5;

/// The 32-bit word stored little-endian at byte offset `4 * i`.
pub open spec fn word_at(bytes: Seq<u8>, i: int) -> u32 {
    (bytes[4 * i] as u32) | ((bytes[4 * i + 1] as u32) << 8) | ((bytes[4 * i + 2] as u32) << 16)
        | ((bytes[4 * i + 3] as u32) << 24)
}

/// The word stream encoded by a byte payload: one little-endian word
/// per four bytes, in order. A function of the bytes alone.
pub open spec fn spirv_words(bytes: Seq<u8>) -> Seq<u32> {
    Seq::new((bytes.len() / 4) as nat, |i: int| word_at(bytes, i))
}

/// The byte payload has the shape of a SPIR-V module: whole words, a
/// full header, and the magic number in front.
pub open spec fn spirv_shape_ok(bytes: Seq<u8>) -> bool {
    &&& bytes.len() % 4 == 0
    &&& bytes.len() / 4 >= SPIRV_HEADER_WORDS
    &&& word_at(bytes, 0) == SPIRV_MAGIC
}

/// Decomposes a shader payload into the words that are handed to the
/// raw shader-module constructor. Rejects the payload — an empty file
/// in particular — exactly when it does not have the shape of a SPIR-V
/// module; no further validation is performed.
pub fn prepare_spirv(bytes: &[u8]) -> (r: Result<Vec<u32>, ShaderError>)
    ensures
        match r {
            Ok(words) => spirv_shape_ok(bytes@) && words@ == spirv_words(bytes@),
            Err(e) => e == ShaderError::ShaderModuleRejected && !spirv_shape_ok(bytes@),
        },
{
    let len = bytes.len();
    if len % 4 != 0 {
        return Err(ShaderError::ShaderModuleRejected);
    }
    let n_words = len / 4;
    if n_words < SPIRV_HEADER_WORDS {
        return Err(ShaderError::ShaderModuleRejected);
    }

    let mut words: Vec<u32> = Vec::new();
    let mut i: usize = 0;
    while i < n_words
        invariant
            len == bytes@.len(),
            len % 4 == 0,
            n_words == len / 4,
            i <= n_words,
            words@.len() == i,
            forall|k: int| 0 <= k < i ==> words@[k] == word_at(bytes@, k),
        decreases n_words - i,
    {
        assert(4 * n_words <= len);
        assert(4 * i + 3 < len);
        let w = (bytes[4 * i] as u32) | ((bytes[4 * i + 1] as u32) << 8)
            | ((bytes[4 * i + 2] as u32) << 16) | ((bytes[4 * i + 3] as u32) << 24);
        words.push(w);
        i = i + 1;
    }

    if words[0] != SPIRV_MAGIC {
        return Err(ShaderError::ShaderModuleRejected);
    }

    assert(words@ =~= spirv_words(bytes@));
    Ok(words)
}

/// Loading one shader file twice prepares identical word streams: the
/// code handed to the device is a function of the file's bytes alone,
/// so two modules made from the same file carry the same program.
pub proof fn lemma_spirv_words_deterministic(b1: Seq<u8>, b2: Seq<u8>)
    requires
        b1 == b2,
    ensures
        spirv_words(b1) == spirv_words(b2),
{
}

} // verus!
