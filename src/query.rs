//! Preparing a text query for the text encoder.
use vstd::prelude::*;

verus! {

/// Number of token ids that the text encoder takes.
pub const TEXT_LEN: usize = 77;

/// The encoder input for token ids `ids`: the first `len` ids, padded with zeros to
/// `len` ids when there are fewer.
pub open spec fn padded_ids(ids: Seq<u32>, len: nat) -> Seq<u32> {
    Seq::new(len, |i: int| if i < ids.len() { ids[i] } else { 0u32 })
}

/// Truncates or zero-pads `ids` to exactly `len` ids.
pub fn pad_token_ids(ids: &Vec<u32>, len: usize) -> (r: Vec<u32>)
    ensures
        r@ == padded_ids(ids@, len as nat),
{
    let mut r: Vec<u32> = Vec::new();
    let mut i: usize = 0;
    while i < len
        invariant
            i <= len,
            r@ =~= padded_ids(ids@, len as nat).take(i as int),
        decreases len - i,
    {
        if i < ids.len() {
            r.push(ids[i]);
        } else {
            r.push(0);
        }
        i = i + 1;
    }
    proof {
        assert(padded_ids(ids@, len as nat).take(len as int) =~= padded_ids(ids@, len as nat));
    }
    r
}

} // verus!
