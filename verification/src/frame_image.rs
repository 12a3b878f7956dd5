use vstd::prelude::*;

verus! {

/// One RGBA pixel, its four channels in that order.
pub type Rgba = (u8, u8, u8, u8);

/// A decoded video frame as an image: its size in pixels and its pixels row by row.
pub struct FrameImage {
    /// Width and height, in pixels.
    pub size: (usize, usize),
    /// The pixels, row by row.
    pub pixels: Vec<Rgba>,
}

/// The pixel that starts at byte `4 * i` of an RGBA frame.
pub open spec fn pixel_at(data: Seq<u8>, i: int) -> Rgba {
    (data[4 * i], data[4 * i + 1], data[4 * i + 2], data[4 * i + 3])
}

/// The pixels of an RGBA frame: each whole group of four bytes is one pixel; bytes left
/// over after the last whole group are ignored.
pub open spec fn frame_pixels(data: Seq<u8>) -> Seq<Rgba> {
    Seq::new(data.len() / 4, |i: int| pixel_at(data, i))
}

proof fn lemma_pixel_in_bounds(len: int, i: int)
    requires
        0 <= i < len / 4,
        0 <= len,
    ensures
        4 * i + 3 < len,
{
    assert(4 * i + 3 < len) by (nonlinear_arith)
        requires
            0 <= i < len / 4,
            0 <= len,
    ;
}

/// A whole frame of `width` by `height` RGBA pixels turns into exactly `width * height`
/// pixels.
pub proof fn law_whole_frame_pixel_count(data: Seq<u8>, width: nat, height: nat)
    requires
        data.len() == 4 * (width * height),
    ensures
        frame_pixels(data).len() == width * height,
{
    assert(data.len() / 4 == width * height) by (nonlinear_arith)
        requires
            data.len() == 4 * (width * height),
    ;
}

/// Each pixel of a frame is the four bytes at its place, in the order they stand: red,
/// green, blue, alpha; and there is one pixel for each whole group of four bytes.
pub proof fn law_pixels_are_the_frame_bytes(data: Seq<u8>, i: int)
    requires
        0 <= i < data.len() / 4,
    ensures
        frame_pixels(data).len() == data.len() / 4,
        frame_pixels(data)[i].0 == data[4 * i],
        frame_pixels(data)[i].1 == data[4 * i + 1],
        frame_pixels(data)[i].2 == data[4 * i + 2],
        frame_pixels(data)[i].3 == data[4 * i + 3],
{
}

/// Turns a decoded RGBA frame of `width` by `height` pixels into an image.
pub fn video_frame_to_image(width: u32, height: u32, data: &[u8]) -> (image: FrameImage)
    ensures
        image.size == (width as usize, height as usize),
        image.pixels@ == frame_pixels(data@),
{
    let n: usize = data.len() / 4;
    let mut pixels: Vec<Rgba> = Vec::new();
    let mut i: usize = 0;
    while i < n
        invariant
            n == data@.len() / 4,
            data@.len() <= usize::MAX,
            i <= n,
            pixels@.len() == i,
            forall|k: int| 0 <= k < i ==> #[trigger] pixels@[k] == pixel_at(data@, k),
        decreases n - i,
    {
        proof {
            lemma_pixel_in_bounds(data@.len() as int, i as int);
        }
        let b: usize = 4 * i;
        pixels.push((data[b], data[b + 1], data[b + 2], data[b + 3]));
        i = i + 1;
    }
    assert(pixels@ =~= frame_pixels(data@));
    FrameImage { size: (width as usize, height as usize), pixels }
}

} // verus!
