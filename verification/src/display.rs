//! Gray images and the four-channel display buffers they are copied to.

use vstd::prelude::*;

verus! {

/// A grayscale image, one byte per pixel, in display order: row by row,
/// `width` pixels per row.
pub struct GrayImage {
    pub width: usize,
    pub height: usize,
    pub pixels: Vec<u8>,
}

/// The mathematical content of a [`GrayImage`].
pub ghost struct GrayImageView {
    pub width: nat,
    pub height: nat,
    pub pixels: Seq<u8>,
}

impl View for GrayImage {
    type V = GrayImageView;

    open spec fn view(&self) -> GrayImageView {
        GrayImageView { width: self.width as nat, height: self.height as nat, pixels: self.pixels@ }
    }
}

impl GrayImage {
    /// An independent copy of the image.
    pub fn duplicate(&self) -> (copy: GrayImage)
        ensures
            copy@ == self@,
    {
        GrayImage { width: self.width, height: self.height, pixels: self.pixels.clone() }
    }
}

/// An independent copy of a list of candidate pixels.
pub fn duplicate_candidates(candidates: &Vec<(usize, usize)>) -> (copy: Vec<(usize, usize)>)
    ensures
        copy@ == candidates@,
{
    let mut copy: Vec<(usize, usize)> = Vec::new();
    let mut i: usize = 0;
    while i < candidates.len()
        invariant
            0 <= i <= candidates.len(),
            copy@ == candidates@.take(i as int),
        decreases candidates.len() - i,
    {
        copy.push(candidates[i]);
        assert(candidates@.take(i + 1) =~= candidates@.take(i as int).push(candidates@[i as int]));
        i = i + 1;
    }
    assert(candidates@.take(candidates.len() as int) =~= candidates@);
    copy
}

/// A four-channel display buffer after a gray image was copied into it: pixel
/// `k` of the image fills bytes `4k..4k+3` with its value and byte `4k+3`
/// with full opacity. What lies beyond the image is left as it was.
pub open spec fn expand_gray(buffer: Seq<u8>, pixels: Seq<u8>) -> Seq<u8> {
    Seq::new(
        buffer.len(),
        |k: int|
            if k / 4 < pixels.len() {
                if k % 4 == 3 {
                    255u8
                } else {
                    pixels[k / 4]
                }
            } else {
                buffer[k]
            },
    )
}

/// Whether the copy of `pixels` into a buffer of `len` bytes stays inside the
/// buffer: the buffer is made of whole four-byte cells, or the image ends
/// before the buffer's last, partial cell.
pub open spec fn expand_fits(len: nat, pixels: Seq<u8>) -> bool {
    len % 4 == 0 || pixels.len() <= len / 4
}

/// Copies a gray image into a four-channel display buffer.
pub fn update_kf_data(current_data: &mut Vec<u8>, kf: &GrayImage)
    requires
        expand_fits(old(current_data)@.len(), kf@.pixels),
    ensures
        final(current_data)@ == expand_gray(old(current_data)@, kf@.pixels),
{
    let len = current_data.len();
    let n = kf.pixels.len();
    let ghost before = current_data@;
    let mut i: usize = 0;
    while i < n && 4 * i < len
        invariant
            len == before.len(),
            current_data.len() == len,
            n == kf.pixels.len(),
            0 <= i <= n,
            4 * i < len + 4,
            expand_fits(len as nat, kf@.pixels),
            forall|k: int| 0 <= k < len && k < 4 * i ==> current_data@[k] == expand_gray(before, kf@.pixels)[k],
            forall|k: int| 4 * i <= k < len ==> current_data@[k] == before[k],
        decreases n - i,
    {
        let value = kf.pixels[i];
        let at = 4 * i;
        assert(at + 3 < len);
        current_data[at] = value;
        current_data[at + 1] = value;
        current_data[at + 2] = value;
        current_data[at + 3] = 255;
        i = i + 1;
    }
    assert(current_data@ =~= expand_gray(before, kf@.pixels));
}

/// The offset in a display buffer of the cell of pixel `(x, y)`, for rows of
/// `width` pixels.
pub open spec fn cell_offset(width: int, candidate: (usize, usize)) -> int {
    4 * (candidate.1 * width + candidate.0)
}

/// Whether the cell of every candidate lies inside a buffer of `len` bytes.
pub open spec fn overlay_fits(len: nat, width: nat, candidates: Seq<(usize, usize)>) -> bool {
    forall|i: int|
        0 <= i < candidates.len() ==> cell_offset(width as int, #[trigger] candidates[i]) + 2 < len
}

/// Decides [`overlay_fits`].
pub fn overlay_fits_in(len: usize, width: usize, candidates: &Vec<(usize, usize)>) -> (fits: bool)
    ensures
        fits == overlay_fits(len as nat, width as nat, candidates@),
{
    let mut i: usize = 0;
    while i < candidates.len()
        invariant
            0 <= i <= candidates.len(),
            overlay_fits(len as nat, width as nat, candidates@.take(i as int)),
        decreases candidates.len() - i,
    {
        let (x, y) = candidates[i];
        assert(y * width <= 0xffff_ffff_ffff_ffff * 0xffff_ffff_ffff_ffff) by (nonlinear_arith)
            requires
                0 <= y <= 0xffff_ffff_ffff_ffff,
                0 <= width <= 0xffff_ffff_ffff_ffff,
        ;
        let cell: u128 = (y as u128) * (width as u128) + (x as u128);
        if len < 3 || cell > ((len - 3) / 4) as u128 {
            assert(!(cell_offset(width as int, candidates@[i as int]) + 2 < len));
            return false;
        }
        assert(candidates@.take(i + 1) =~= candidates@.take(i as int).push(candidates@[i as int]));
        i = i + 1;
    }
    assert(candidates@.take(candidates.len() as int) =~= candidates@);
    true
}

/// Whether byte `k` of a display buffer belongs to the cell of a candidate.
pub open spec fn in_candidate_cell(width: nat, candidates: Seq<(usize, usize)>, k: int) -> bool {
    exists|i: int|
        0 <= i < candidates.len() && cell_offset(width as int, #[trigger] candidates[i]) == 4 * (k / 4)
}

/// A display buffer after the candidates were highlighted: the three colour
/// bytes of every candidate's cell become `255, 0, 0`; opacity and all other
/// cells are left as they were.
pub open spec fn highlight(buffer: Seq<u8>, width: nat, candidates: Seq<(usize, usize)>) -> Seq<u8> {
    Seq::new(
        buffer.len(),
        |k: int|
            if k % 4 != 3 && in_candidate_cell(width, candidates, k) {
                if k % 4 == 0 {
                    255u8
                } else {
                    0u8
                }
            } else {
                buffer[k]
            },
    )
}

/// Highlights the candidate pixels in a display buffer whose rows are `width`
/// pixels long.
pub fn highlight_candidates(data: &mut Vec<u8>, width: usize, candidates: &Vec<(usize, usize)>)
    requires
        overlay_fits(old(data)@.len(), width as nat, candidates@),
    ensures
        final(data)@ == highlight(old(data)@, width as nat, candidates@),
{
    let ghost before = data@;
    let n = candidates.len();
    let mut i: usize = 0;
    while i < n
        invariant
            0 <= i <= n,
            n == candidates.len(),
            data.len() == before.len(),
            overlay_fits(before.len(), width as nat, candidates@),
            data@ == highlight(before, width as nat, candidates@.take(i as int)),
        decreases n - i,
    {
        let (x, y) = candidates[i];
        let ghost pix_int = cell_offset(width as int, candidates@[i as int]);
        assert(pix_int + 2 < data.len());
        assert(0 <= y * width <= pix_int) by (nonlinear_arith)
            requires
                pix_int == 4 * (y * width + x),
                0 <= x,
                0 <= y,
                0 <= width,
        ;
        let pix = 4 * (y * width + x);
        let ghost prev = data@;
        data[pix] = 255;
        data[pix + 1] = 0;
        data[pix + 2] = 0;
        proof {
            let done = candidates@.take(i as int);
            let next = candidates@.take(i + 1);
            assert(next =~= done.push(candidates@[i as int]));
            assert forall|k: int| 0 <= k < before.len() implies data@[k] == highlight(
                before,
                width as nat,
                next,
            )[k] by {
                if in_candidate_cell(width as nat, done, k) {
                    let j = choose|j: int|
                        0 <= j < done.len() && cell_offset(width as int, #[trigger] done[j]) == 4 * (k / 4);
                    assert(next[j] == done[j]);
                    assert(in_candidate_cell(width as nat, next, k));
                }
                if 4 * (k / 4) == pix {
                    assert(cell_offset(width as int, next[i as int]) == 4 * (k / 4));
                    assert(in_candidate_cell(width as nat, next, k));
                }
                if in_candidate_cell(width as nat, next, k) {
                    let j = choose|j: int|
                        0 <= j < next.len() && cell_offset(width as int, #[trigger] next[j]) == 4 * (k / 4);
                    if j < i {
                        assert(done[j] == next[j]);
                        assert(in_candidate_cell(width as nat, done, k));
                    }
                }
            }
            assert(data@ =~= highlight(before, width as nat, next));
        }
        i = i + 1;
    }
    assert(candidates@.take(n as int) =~= candidates@);
}

} // verus!
