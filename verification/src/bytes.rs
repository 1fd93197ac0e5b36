use vstd::prelude::*;

verus! {

/// The four little-endian bytes of one 32-bit vertex scalar.
pub open spec fn word_bytes(w: u32) -> Seq<u8> {
    seq![
        (w & 0xff) as u8,
        ((w >> 8) & 0xff) as u8,
        ((w >> 16) & 0xff) as u8,
        ((w >> 24) & 0xff) as u8,
    ]
}

/// The contiguous byte image of a sequence of 32-bit vertex scalars: each
/// word contributes its four little-endian bytes, in order.
pub open spec fn bytes_of_words(ws: Seq<u32>) -> Seq<u8>
    decreases ws.len(),
{
    if ws.len() == 0 {
        Seq::empty()
    } else {
        word_bytes(ws[0]) + bytes_of_words(ws.skip(1))
    }
}

/// The byte image is exactly four bytes per scalar.
pub proof fn lemma_bytes_of_words_len(ws: Seq<u32>)
    ensures
        bytes_of_words(ws).len() == 4 * ws.len(),
    decreases ws.len(),
{
    if ws.len() > 0 {
        lemma_bytes_of_words_len(ws.skip(1));
    }
}

proof fn lemma_bytes_of_words_push(ws: Seq<u32>, w: u32)
    ensures
        bytes_of_words(ws.push(w)) == bytes_of_words(ws) + word_bytes(w),
    decreases ws.len(),
{
    if ws.len() == 0 {
        let pushed = ws.push(w);
        assert(pushed[0] == w);
        assert(pushed.skip(1) =~= Seq::<u32>::empty());
        assert(bytes_of_words(pushed.skip(1)) == Seq::<u8>::empty());
        assert(bytes_of_words(pushed) == word_bytes(w) + Seq::<u8>::empty());
        assert(bytes_of_words(ws) == Seq::<u8>::empty());
        assert(bytes_of_words(pushed) =~= bytes_of_words(ws) + word_bytes(w));
    } else {
        assert(ws.push(w).skip(1) =~= ws.skip(1).push(w));
        lemma_bytes_of_words_push(ws.skip(1), w);
        assert(bytes_of_words(ws.push(w)) =~= bytes_of_words(ws) + word_bytes(w));
    }
}

/// Turns vertex scalars into the contiguous little-endian byte image that is
/// uploaded to a GPU buffer, four bytes per scalar, with no value
/// transformation.
pub fn words_to_bytes(words: &Vec<u32>) -> (bytes: Vec<u8>)
    ensures
        bytes@ == bytes_of_words(words@),
        bytes@.len() == 4 * words@.len(),
{
    let mut bytes: Vec<u8> = Vec::new();
    let mut i: usize = 0;
    while i < words.len()
        invariant
            i <= words@.len(),
            bytes@ == bytes_of_words(words@.take(i as int)),
        decreases words@.len() - i,
    {
        let w = words[i];
        assert((w & 0xff) < 256 && ((w >> 8) & 0xff) < 256 && ((w >> 16) & 0xff) < 256 && (
        (w >> 24) & 0xff) < 256) by (bit_vector);
        proof {
            lemma_bytes_of_words_push(words@.take(i as int), w);
            assert(words@.take(i as int).push(w) =~= words@.take(i as int + 1));
        }
        bytes.push((w & 0xff) as u8);
        bytes.push(((w >> 8) & 0xff) as u8);
        bytes.push(((w >> 16) & 0xff) as u8);
        bytes.push(((w >> 24) & 0xff) as u8);
        proof {
            assert(bytes@ =~= bytes_of_words(words@.take(i as int + 1)));
        }
        i = i + 1;
    }
    proof {
        assert(words@.take(words@.len() as int) =~= words@);
        lemma_bytes_of_words_len(words@);
    }
    bytes
}

} // verus!
