use vstd::prelude::*;

use crate::frame_image::{frame_pixels, video_frame_to_image, FrameImage};

verus! {

/// The label of the pause button: "Play" while the stream is paused, "Pause" otherwise.
pub open spec fn spec_pause_button_label(paused: bool) -> Seq<char> {
    if paused {
        "Play"@
    } else {
        "Pause"@
    }
}

/// The pause button of a stream that is `paused` or not: its label, and whether a click on
/// it asks for paused playback.
pub fn pause_button(paused: bool) -> (button: (String, bool))
    ensures
        button.0@ == spec_pause_button_label(paused),
        button.1 == !paused,
{
    proof {
        reveal_strlit("Play");
        reveal_strlit("Pause");
    }
    if paused {
        (String::from_str("Play"), false)
    } else {
        (String::from_str("Pause"), true)
    }
}

/// The image to show for a stream of the given size: a frame that has just arrived replaces
/// the one shown before; while none arrives the last one stays.
pub fn frame_to_show(last: Option<FrameImage>, received: Option<Vec<u8>>, size: (u32, u32)) -> (shown: Option<FrameImage>)
    ensures
        received is None ==> shown == last,
        received matches Some(data) ==> (shown matches Some(img) && img.size == (
            size.0 as usize,
            size.1 as usize,
        ) && img.pixels@ == frame_pixels(data@)),
{
    match received {
        Some(data) => Some(video_frame_to_image(size.0, size.1, data.as_slice())),
        None => last,
    }
}

} // verus!
