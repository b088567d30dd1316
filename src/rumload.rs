//! Assembly of a program image: a byte stream, four bytes per word, most
//! significant byte first.

use vstd::prelude::*;

verus! {

/// The big-endian word formed by bytes `4i .. 4i + 4` of `b`.
pub open spec fn word_at(b: Seq<u8>, i: int) -> u32 {
    (b[4 * i] as int * 0x100_0000 + b[4 * i + 1] as int * 0x1_0000 + b[4 * i + 2] as int * 0x100
        + b[4 * i + 3] as int) as u32
}

/// The words of a program image, or `None` when its length is not a
/// multiple of four.
pub fn load(bytes: &[u8]) -> (r: Option<Vec<u32>>)
    ensures
        bytes@.len() % 4 != 0 <==> r is None,
        r matches Some(words) ==> words@ == Seq::new(
            (bytes@.len() / 4) as nat,
            |i: int| word_at(bytes@, i),
        ),
{
    if bytes.len() % 4 != 0 {
        return None;
    }
    let len = bytes.len();
    let n = len / 4;
    let mut words: Vec<u32> = Vec::with_capacity(n);
    let mut i: usize = 0;
    while i < n
        invariant
            len == bytes@.len(),
            n == bytes@.len() / 4,
            bytes@.len() % 4 == 0,
            i <= n,
            words@ == Seq::new(i as nat, |k: int| word_at(bytes@, k)),
        decreases n - i,
    {
        assert(4 * i + 3 < len) by (nonlinear_arith)
            requires
                i < n,
                n == len / 4,
                len % 4 == 0,
        ;
        let j = 4 * i;
        let w: u32 = (bytes[j] as u32) * 0x100_0000 + (bytes[j + 1] as u32) * 0x1_0000
            + (bytes[j + 2] as u32) * 0x100 + (bytes[j + 3] as u32);
        words.push(w);
        i = i + 1;
        assert(words@ =~= Seq::new(i as nat, |k: int| word_at(bytes@, k)));
    }
    Some(words)
}

} // verus!
