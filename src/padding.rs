use vstd::prelude::*;

verus! {

/// The block size, in bytes, that padded buffers are aligned to.
pub const BLOCK_SIZE: usize = 16;

/// `s` followed by the zero bytes that `add_padding` appends.
pub open spec fn padded(s: Seq<u8>) -> Seq<u8> {
    s + Seq::new((16 - s.len() % 16) as nat, |i: int| 0u8)
}

/// Appends zero bytes to `input` until its length is a multiple of the block
/// size. A buffer that is already aligned gains one whole block of zeros.
pub fn add_padding(input: &mut Vec<u8>)
    requires
        old(input).len() + 16 <= usize::MAX,
    ensures
        final(input)@ == padded(old(input)@),
{
    let remainder: usize = BLOCK_SIZE - input.len() % BLOCK_SIZE;
    let ghost start = input@;
    let mut k: usize = 0;
    while k < remainder
        invariant
            remainder == 16 - start.len() % 16,
            k <= remainder,
            input@ == start + Seq::new(k as nat, |i: int| 0u8),
        decreases remainder - k,
    {
        input.push(0);
        k = k + 1;
        assert(input@ =~= start + Seq::new(k as nat, |i: int| 0u8));
    }
}

/// The bytes of `s` that are not zero, in their order.
pub open spec fn unpadded(s: Seq<u8>) -> Seq<u8> {
    s.filter(|b: u8| b != 0u8)
}

/// Removes every zero byte from `input`, keeping the other bytes in order.
pub fn remove_padding(input: &mut Vec<u8>)
    ensures
        final(input)@ == unpadded(old(input)@),
{
    let mut unpadded_plaintext: Vec<u8> = Vec::new();
    let n: usize = input.len();
    let mut i: usize = 0;
    while i < n
        invariant
            n == input.len(),
            i <= n,
            unpadded_plaintext@ == unpadded(input@.subrange(0, i as int)),
        decreases n - i,
    {
        let sign: u8 = input[i];
        proof {
            assert(input@.subrange(0, i + 1) =~= input@.subrange(0, i as int).push(sign));
            input@.subrange(0, i as int).lemma_filter_push(sign, |b: u8| b != 0u8);
        }
        if sign > 0 {
            unpadded_plaintext.push(sign);
        }
        i = i + 1;
    }
    assert(input@.subrange(0, n as int) =~= input@);
    input.clear();
    input.append(&mut unpadded_plaintext);
}

/// A sequence whose bytes are all nonzero loses nothing to `unpadded`.
proof fn lemma_unpadded_of_nonzero(s: Seq<u8>)
    requires
        forall|i: int| 0 <= i < s.len() ==> s[i] != 0u8,
    ensures
        unpadded(s) == s,
    decreases s.len(),
{
    if s.len() > 0 {
        let init = s.drop_last();
        lemma_unpadded_of_nonzero(init);
        init.lemma_filter_push(s.last(), |b: u8| b != 0u8);
        assert(init.push(s.last()) =~= s);
    } else {
        reveal(Seq::filter);
    }
}

/// Padding round trip: removing the padding of a padded buffer whose bytes
/// were all nonzero gives back the buffer.
pub proof fn lemma_padding_round_trip(s: Seq<u8>)
    requires
        forall|i: int| 0 <= i < s.len() ==> s[i] != 0u8,
    ensures
        unpadded(padded(s)) == s,
{
    let zeros = Seq::new((16 - s.len() % 16) as nat, |i: int| 0u8);
    Seq::filter_distributes_over_add(s, zeros, |b: u8| b != 0u8);
    lemma_unpadded_of_nonzero(s);
    zeros.lemma_all_neg_filter_empty(|b: u8| b != 0u8);
    assert(unpadded(zeros) =~= Seq::<u8>::empty());
    assert(s + Seq::<u8>::empty() =~= s);
}

} // verus!
