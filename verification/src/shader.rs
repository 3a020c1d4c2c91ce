//! Shader bytecode validation: precompiled bytecode must be a whole number
//! of 32-bit words, or loading fails with an alignment error.

use vstd::prelude::*;

use crate::codec::{read_u32_at, spec_word_at};
use crate::error::EngineError;

verus! {

/// Converts shader bytecode into the 32-bit words the host API consumes.
/// Fails with an alignment error exactly when the byte length is not a
/// multiple of four; otherwise every word is read little endian.
pub fn bytecode_to_words(bytes: &Vec<u8>) -> (r: Result<Vec<u32>, EngineError>)
    ensures
        match r {
            Ok(words) => {
                &&& bytes@.len() % 4 == 0
                &&& words@.len() == bytes@.len() / 4
                &&& forall|w: int| 0 <= w < words@.len() ==> words@[w] == spec_word_at(bytes@, w)
            },
            Err(e) => {
                &&& bytes@.len() % 4 != 0
                &&& e == EngineError::MisalignedShaderBytecode
            },
        },
{
    let n = bytes.len();
    if n % 4 != 0 {
        return Err(EngineError::MisalignedShaderBytecode);
    }
    let count = n / 4;
    let mut words: Vec<u32> = Vec::new();
    let mut w: usize = 0;
    while w < count
        invariant
            n == bytes@.len(),
            n % 4 == 0,
            count == n / 4,
            w <= count,
            words@.len() == w,
            forall|q: int| 0 <= q < w ==> words@[q] == spec_word_at(bytes@, q),
        decreases count - w,
    {
        let word = read_u32_at(bytes, 4 * w);
        words.push(word);
        w = w + 1;
    }
    Ok(words)
}

} // verus!
