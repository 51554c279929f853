//! What holds of every picture.
use vstd::prelude::*;

use crate::logo::{opaque, painted, pictured, Frame, FrameView, Image};

verus! {

/// A picture is what its fields say.
pub proof fn a_picture_is_what_its_fields_say(frame: Frame, image: Image)
    ensures
        pictured(Some(image)) == Some(image@),
        pictured(None) is None,
        frame@.color == frame.color,
        frame@.pixels == frame.pixels@,
        frame@.width == frame.width,
        frame@.height == frame.height,
        image@.rgba == image.rgba@,
        image@.width == image.width,
        image@.height == image.height,
{
}

/// A picture keeps its size; one with transparency keeps its bytes; one without colours, or with a
/// palette, is not taken.
pub proof fn a_picture_keeps_its_size(frame: FrameView)
    ensures
        painted(frame) is Some <==> frame.color is Rgba || frame.color is Rgb,
        painted(frame) matches Some(image) ==> image.width == frame.width && image.height
            == frame.height,
        frame.color is Rgba ==> painted(frame)->0.rgba == frame.pixels,
{
}

/// Each pixel of three bytes becomes one of four: the three, and one that makes it opaque.
pub proof fn each_pixel_becomes_opaque(before: Seq<u8>, r: u8, g: u8, b: u8)
    requires
        before.len() % 3 == 0,
    ensures
        opaque(before + seq![r, g, b]) == opaque(before) + seq![r, g, b, 255u8],
        opaque(seq![]).len() == 0,
{
    let all = before + seq![r, g, b];
    let left = opaque(all);
    let right = opaque(before) + seq![r, g, b, 255u8];
    assert(all.len() / 3 == before.len() / 3 + 1);
    assert(left.len() == right.len());
    let n = opaque(before).len() as int;
    assert(n == (before.len() / 3) * 4);
    assert forall|i: int| 0 <= i < left.len() implies left[i] == right[i] by {
        if i < n {
            if i % 4 != 3 {
                assert(3 * (i / 4) + i % 4 < before.len());
            }
        } else {
            let k = i - n;
            assert(i % 4 == k && i / 4 == before.len() / 3);
            if k < 3 {
                assert(all[3 * (i / 4) + i % 4] == seq![r, g, b][k]);
            }
        }
    }
    assert(left =~= right);
}

}
