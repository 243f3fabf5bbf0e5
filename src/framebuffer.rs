use vstd::prelude::*;

verus! {

/// Bytes per pixel of a frame: red, green, blue and alpha.
pub const BYTES_PER_PIXEL: usize = 4;

/// Column and row of the pixel at `index` in a frame laid out row by row.
pub fn pixel_position(index: usize, width: usize) -> (r: (usize, usize))
    requires
        width > 0,
    ensures
        r.0 == index % width,
        r.1 == index / width,
        r.0 < width,
        r.1 * width + r.0 == index,
{
    let x = index % width;
    let y = index / width;
    proof {
        vstd::arithmetic::div_mod::lemma_fundamental_div_mod(index as int, width as int);
    }
    (x, y)
}

/// The frame bytes for one RGB colour per pixel: each pixel takes four bytes, its
/// colour followed by an opaque alpha.
pub open spec fn frame_bytes_match(colors: Seq<[u8; 3]>, bytes: Seq<u8>) -> bool {
    &&& bytes.len() == BYTES_PER_PIXEL * colors.len()
    &&& forall|i: int, c: int|
        0 <= i < colors.len() && 0 <= c < 3 ==> bytes[BYTES_PER_PIXEL * i + c]
            == #[trigger] colors[i][c]
    &&& forall|i: int| 0 <= i < colors.len() ==> bytes[#[trigger] (BYTES_PER_PIXEL * i + 3)] == 255
}

/// Lays out a frame of RGBA bytes from one RGB colour per pixel.
pub fn encode_frame(colors: &Vec<[u8; 3]>) -> (r: Vec<u8>)
    requires
        BYTES_PER_PIXEL * colors@.len() <= usize::MAX,
    ensures
        frame_bytes_match(colors@, r@),
{
    let mut bytes: Vec<u8> = Vec::new();
    let mut i: usize = 0;
    while i < colors.len()
        invariant
            i <= colors@.len(),
            BYTES_PER_PIXEL * colors@.len() <= usize::MAX,
            frame_bytes_match(colors@.take(i as int), bytes@),
        decreases colors@.len() - i,
    {
        let rgb = colors[i];
        bytes.push(rgb[0]);
        bytes.push(rgb[1]);
        bytes.push(rgb[2]);
        bytes.push(255);
        proof {
            let prev = colors@.take(i as int);
            let next = colors@.take(i + 1);
            assert forall|k: int, c: int| 0 <= k < next.len() && 0 <= c < 3 implies bytes@[
                BYTES_PER_PIXEL * k + c] == #[trigger] next[k][c] by {
                if k < i {
                    assert(next[k] == prev[k]);
                }
            }
            assert forall|k: int| 0 <= k < next.len() implies bytes@[#[trigger] (BYTES_PER_PIXEL * k
                + 3)] == 255 by {
                if k < i {
                    assert(bytes@[BYTES_PER_PIXEL * k + 3] == 255);
                }
            }
        }
        i = i + 1;
    }
    assert(colors@.take(colors@.len() as int) =~= colors@);
    bytes
}

} // verus!
