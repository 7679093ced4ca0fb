use vstd::prelude::*;

use vstd::string::StringSliceAdditionalSpecFns;

use crate::error::{FastTextError, TextArgument};

verus! {

/// No byte of `b` is the nul terminator.
pub open spec fn nul_free(b: Seq<u8>) -> bool {
    forall|i: int| 0 <= i < b.len() ==> b[i] != 0u8
}

/// `p` is the offset of the first nul byte of `b`.
pub open spec fn first_nul(b: Seq<u8>, p: int) -> bool {
    &&& 0 <= p < b.len()
    &&& b[p] == 0u8
    &&& nul_free(b.subrange(0, p))
}

/// The native form of a text: its UTF-8 bytes followed by one nul terminator.
pub open spec fn c_text(b: Seq<u8>) -> Seq<u8> {
    b.push(0u8)
}

/// `out` is what encoding argument `arg`, a text of bytes `b`, gives: its
/// native form where `b` is nul-free, and otherwise the offset of its first nul.
pub open spec fn encodes(arg: TextArgument, b: Seq<u8>, out: Result<Vec<u8>, FastTextError>) -> bool {
    match out {
        Ok(v) => nul_free(b) && v@ == c_text(b),
        Err(e) => exists|p: usize| e == FastTextError::Encoding(arg, p) && first_nul(b, p as int),
    }
}

/// Encodes `s`, the argument `arg` of an operation, as a nul-terminated byte
/// string for the native side.
///
/// A text whose bytes hold a nul has no such form: the error then names the
/// argument and gives the offset of its first nul byte.
pub fn encode_text(s: &str, arg: TextArgument) -> (out: Result<Vec<u8>, FastTextError>)
    ensures
        encodes(arg, s.spec_bytes(), out),
{
    let bytes = s.as_bytes();
    let n = bytes.len();
    let mut out: Vec<u8> = Vec::new();
    let mut i: usize = 0;
    while i < n
        invariant
            n == bytes@.len(),
            bytes@ == s.spec_bytes(),
            i <= n,
            out@ == bytes@.subrange(0, i as int),
            nul_free(out@),
        decreases n - i,
    {
        let b = bytes[i];
        if b == 0 {
            assert(first_nul(s.spec_bytes(), i as int));
            assert(!nul_free(s.spec_bytes()));
            return Err(FastTextError::Encoding(arg, i));
        }
        out.push(b);
        i = i + 1;
        assert(out@ =~= bytes@.subrange(0, i as int));
    }
    assert(bytes@.subrange(0, n as int) =~= bytes@);
    out.push(0);
    Ok(out)
}

} // verus!
