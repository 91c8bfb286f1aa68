//! Channel order of rasterized pixels.

use vstd::prelude::*;

verus! {

/// `out` is `data` with the red and blue channel of each whole four-byte
/// pixel swapped; a trailing partial pixel is kept as it is.
pub open spec fn is_bgra_of(out: Seq<u8>, data: Seq<u8>) -> bool {
    &&& out.len() == data.len()
    &&& forall|k: int|
        #![trigger out[4 * k]]
        0 <= k < data.len() / 4 ==> {
            &&& out[4 * k] == data[4 * k + 2]
            &&& out[4 * k + 1] == data[4 * k + 1]
            &&& out[4 * k + 2] == data[4 * k]
            &&& out[4 * k + 3] == data[4 * k + 3]
        }
    &&& forall|i: int| 4 * (data.len() / 4) <= i < data.len() ==> #[trigger] out[i] == data[i]
}

/// Swap the red and blue channels of every whole four-byte pixel, turning
/// RGBA data into BGRA data and back.
pub fn swap_red_blue(data: &mut Vec<u8>)
    ensures
        is_bgra_of(final(data)@, old(data)@),
{
    let n = data.len();
    let pixels = n / 4;
    let mut k: usize = 0;
    while k < pixels
        invariant
            n == old(data)@.len(),
            data@.len() == n,
            pixels == n / 4,
            k <= pixels,
            forall|j: int|
                #![trigger data@[4 * j]]
                0 <= j < k ==> {
                    &&& data@[4 * j] == old(data)@[4 * j + 2]
                    &&& data@[4 * j + 1] == old(data)@[4 * j + 1]
                    &&& data@[4 * j + 2] == old(data)@[4 * j]
                    &&& data@[4 * j + 3] == old(data)@[4 * j + 3]
                },
            forall|i: int| 4 * k <= i < n ==> #[trigger] data@[i] == old(data)@[i],
        decreases pixels - k,
    {
        let p = 4 * k;
        let red = data[p];
        let blue = data[p + 2];
        data.set(p, blue);
        data.set(p + 2, red);
        k = k + 1;
    }
}

} // verus!
