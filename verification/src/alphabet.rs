//! The four-letter nucleotide alphabet, the pairing of its bases and the
//! reverse complement of a read.

use vstd::prelude::*;

verus! {

/// Adenine, as the byte of the letter `A`.
pub const BASE_A: u8 = 65;

/// Thymine, as the byte of the letter `T`.
pub const BASE_T: u8 = 84;

/// Cytosine, as the byte of the letter `C`.
pub const BASE_C: u8 = 67;

/// Guanine, as the byte of the letter `G`.
pub const BASE_G: u8 = 71;

/// Whether a byte is one of the four bases.
pub open spec fn is_base(b: u8) -> bool {
    b == BASE_A || b == BASE_T || b == BASE_C || b == BASE_G
}

/// Whether every byte of a read is one of the four bases.
pub open spec fn all_bases(read: Seq<u8>) -> bool {
    forall|i: int| 0 <= i < read.len() ==> is_base(#[trigger] read[i])
}

/// The pairing partner of a base: `A` with `T`, `C` with `G`. A byte that is
/// no base is its own partner.
pub open spec fn complement_spec(base: u8) -> u8 {
    if base == BASE_A {
        BASE_T
    } else if base == BASE_T {
        BASE_A
    } else if base == BASE_C {
        BASE_G
    } else if base == BASE_G {
        BASE_C
    } else {
        base
    }
}

/// The reverse complement of a read: position `i` of the result holds the
/// partner of the byte `i` places before the end of the read.
pub open spec fn reverse_complement_spec(read: Seq<u8>) -> Seq<u8> {
    Seq::new(read.len(), |i: int| complement_spec(read[read.len() - 1 - i]))
}

/// Returns the pairing partner of `base`.
pub fn complement(base: u8) -> (partner: u8)
    ensures
        partner == complement_spec(base),
{
    if base == BASE_A {
        BASE_T
    } else if base == BASE_T {
        BASE_A
    } else if base == BASE_C {
        BASE_G
    } else if base == BASE_G {
        BASE_C
    } else {
        base
    }
}

/// Returns the reverse complement of `seq`.
pub fn reverse_complement(seq: &[u8]) -> (mate: Vec<u8>)
    ensures
        mate@ == reverse_complement_spec(seq@),
{
    let n: usize = seq.len();
    let mut mate: Vec<u8> = Vec::with_capacity(n);
    let mut i: usize = 0;
    while i < n
        invariant
            n == seq@.len(),
            i <= n,
            mate@.len() == i,
            forall|k: int| 0 <= k < i ==> #[trigger] mate@[k] == complement_spec(seq@[n - 1 - k]),
        decreases n - i,
    {
        mate.push(complement(seq[n - 1 - i]));
        i += 1;
    }
    assert(mate@ =~= reverse_complement_spec(seq@));
    mate
}

/// Pairing a byte twice gives the byte back.
pub proof fn complement_is_involution(base: u8)
    ensures
        complement_spec(complement_spec(base)) == base,
{
}

/// The partner of a base is a base, and only a base has a base as partner.
pub proof fn complement_keeps_alphabet(base: u8)
    ensures
        is_base(complement_spec(base)) <==> is_base(base),
{
}

/// The reverse complement of a read is as long as the read.
pub proof fn reverse_complement_keeps_length(read: Seq<u8>)
    ensures
        reverse_complement_spec(read).len() == read.len(),
{
}

/// Taking the reverse complement twice gives the read back, whatever bytes
/// the read holds.
pub proof fn reverse_complement_is_involution(read: Seq<u8>)
    ensures
        reverse_complement_spec(reverse_complement_spec(read)) == read,
{
    let once = reverse_complement_spec(read);
    let twice = reverse_complement_spec(once);
    assert forall|i: int| 0 <= i < read.len() implies twice[i] == read[i] by {
        complement_is_involution(read[i]);
    }
    assert(twice =~= read);
}

/// The reverse complement of a read over the four bases is again a read over
/// the four bases.
pub proof fn reverse_complement_keeps_alphabet(read: Seq<u8>)
    requires
        all_bases(read),
    ensures
        all_bases(reverse_complement_spec(read)),
{
    let mate = reverse_complement_spec(read);
    assert forall|i: int| 0 <= i < mate.len() implies is_base(#[trigger] mate[i]) by {
        complement_keeps_alphabet(read[read.len() - 1 - i]);
    }
}

/// The reverse complement is the plain reversal with every byte replaced by
/// its partner.
pub proof fn reverse_complement_is_reversed_complement(read: Seq<u8>)
    ensures
        reverse_complement_spec(read) == read.reverse().map_values(|b: u8| complement_spec(b)),
{
    assert(reverse_complement_spec(read) =~= read.reverse().map_values(
        |b: u8| complement_spec(b),
    ));
}

} // verus!
