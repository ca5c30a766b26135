//! The command lines that make the external decoder produce frames: it crops
//! the source to the display's aspect ratio around its centre, scales it to
//! the display's size and writes raw 16-bit pixels.

use vstd::prelude::*;
use vstd::string::StringExecFns;

verus! {

/// The character of one decimal digit.
pub open spec fn digit(d: nat) -> char
    recommends
        d < 10,
{
    if d == 0 {
        '0'
    } else if d == 1 {
        '1'
    } else if d == 2 {
        '2'
    } else if d == 3 {
        '3'
    } else if d == 4 {
        '4'
    } else if d == 5 {
        '5'
    } else if d == 6 {
        '6'
    } else if d == 7 {
        '7'
    } else if d == 8 {
        '8'
    } else {
        '9'
    }
}

/// A number in decimal, without sign or leading zeros.
pub open spec fn decimal(n: nat) -> Seq<char>
    decreases n,
{
    if n < 10 {
        seq![digit(n)]
    } else {
        decimal(n / 10).push(digit(n % 10))
    }
}

/// `a/b` in decimal.
pub open spec fn ratio(a: nat, b: nat) -> Seq<char> {
    decimal(a) + "/"@ + decimal(b)
}

/// The crop step: where the source is wider than the display's aspect ratio
/// its width is cut, where it is taller its height.
pub open spec fn crop_text(width: u16, height: u16) -> Seq<char> {
    "crop='if(gt(iw/ih,"@ + ratio(width as nat, height as nat) + "),ih*"@ + ratio(
        width as nat,
        height as nat,
    ) + ",iw)':'if(gt(iw/ih,"@ + ratio(width as nat, height as nat) + "),ih,iw*"@ + ratio(
        height as nat,
        width as nat,
    ) + ")'"@
}

/// The filter for a still image: crop, then scale to the display's size.
pub open spec fn image_filter_text(width: u16, height: u16) -> Seq<char> {
    crop_text(width, height) + ",scale="@ + decimal(width as nat) + ":"@ + decimal(height as nat)
        + ":flags=lanczos"@
}

/// The filter for a video: that of an image, then the frame rate.
pub open spec fn video_filter_text(width: u16, height: u16, fps: u32) -> Seq<char> {
    image_filter_text(width, height) + ",fps="@ + decimal(fps as nat)
}

/// The texts of a list of arguments.
pub open spec fn texts(args: Seq<String>) -> Seq<Seq<char>> {
    Seq::new(args.len(), |i: int| args[i]@)
}

/// The arguments that decode one image into one frame written to `output`.
pub open spec fn image_args_text(
    filepath: Seq<char>,
    width: u16,
    height: u16,
    output: Seq<char>,
) -> Seq<Seq<char>> {
    seq![
        "-i"@,
        filepath,
        "-vf"@,
        image_filter_text(width, height),
        "-frames:v"@,
        "1"@,
        "-pix_fmt"@,
        "rgb565be"@,
        "-f"@,
        "rawvideo"@,
        "-y"@,
        output,
    ]
}

/// The arguments that decode a video, over and over, into frames written to
/// the decoder's standard output.
pub open spec fn video_args_text(filepath: Seq<char>, width: u16, height: u16, fps: u32) -> Seq<
    Seq<char>,
> {
    seq![
        "-stream_loop"@,
        "-1"@,
        "-i"@,
        filepath,
        "-vf"@,
        video_filter_text(width, height, fps),
        "-pix_fmt"@,
        "rgb565be"@,
        "-f"@,
        "rawvideo"@,
        "-"@,
    ]
}

fn digit_text(d: u64) -> (s: &'static str)
    requires
        d < 10,
    ensures
        s@ == seq![digit(d as nat)],
{
    proof {
        reveal_strlit("0");
        reveal_strlit("1");
        reveal_strlit("2");
        reveal_strlit("3");
        reveal_strlit("4");
        reveal_strlit("5");
        reveal_strlit("6");
        reveal_strlit("7");
        reveal_strlit("8");
        reveal_strlit("9");
    }
    let s = if d == 0 {
        "0"
    } else if d == 1 {
        "1"
    } else if d == 2 {
        "2"
    } else if d == 3 {
        "3"
    } else if d == 4 {
        "4"
    } else if d == 5 {
        "5"
    } else if d == 6 {
        "6"
    } else if d == 7 {
        "7"
    } else if d == 8 {
        "8"
    } else {
        "9"
    };
    assert(s@ =~= seq![digit(d as nat)]);
    s
}

/// Appends `n` in decimal.
pub fn append_decimal(s: &mut String, n: u64)
    ensures
        final(s)@ == old(s)@ + decimal(n as nat),
    decreases n,
{
    if n >= 10 {
        append_decimal(s, n / 10);
    }
    s.append(digit_text(n % 10));
    assert(s@ =~= old(s)@ + decimal(n as nat));
}

fn append_ratio(s: &mut String, a: u16, b: u16)
    ensures
        final(s)@ == old(s)@ + ratio(a as nat, b as nat),
{
    append_decimal(s, a as u64);
    s.append("/");
    append_decimal(s, b as u64);
    assert(s@ =~= old(s)@ + ratio(a as nat, b as nat));
}

/// Writes the crop step.
pub fn crop_filter(width: u16, height: u16) -> (s: String)
    ensures
        s@ == crop_text(width, height),
{
    let mut s = String::from_str("crop='if(gt(iw/ih,");
    append_ratio(&mut s, width, height);
    s.append("),ih*");
    append_ratio(&mut s, width, height);
    s.append(",iw)':'if(gt(iw/ih,");
    append_ratio(&mut s, width, height);
    s.append("),ih,iw*");
    append_ratio(&mut s, height, width);
    s.append(")'");
    s
}

/// Writes the filter for a still image.
pub fn image_filter(width: u16, height: u16) -> (s: String)
    ensures
        s@ == image_filter_text(width, height),
{
    let mut s = crop_filter(width, height);
    s.append(",scale=");
    append_decimal(&mut s, width as u64);
    s.append(":");
    append_decimal(&mut s, height as u64);
    s.append(":flags=lanczos");
    s
}

/// Writes the filter for a video.
pub fn video_filter(width: u16, height: u16, fps: u32) -> (s: String)
    ensures
        s@ == video_filter_text(width, height, fps),
{
    let mut s = image_filter(width, height);
    s.append(",fps=");
    append_decimal(&mut s, fps as u64);
    s
}

/// Lists the decoder's arguments for one still image.
pub fn image_args(filepath: &str, width: u16, height: u16, output: &str) -> (args: Vec<String>)
    ensures
        texts(args@) == image_args_text(filepath@, width, height, output@),
{
    let mut args: Vec<String> = Vec::new();
    args.push(String::from_str("-i"));
    args.push(String::from_str(filepath));
    args.push(String::from_str("-vf"));
    args.push(image_filter(width, height));
    args.push(String::from_str("-frames:v"));
    args.push(String::from_str("1"));
    args.push(String::from_str("-pix_fmt"));
    args.push(String::from_str("rgb565be"));
    args.push(String::from_str("-f"));
    args.push(String::from_str("rawvideo"));
    args.push(String::from_str("-y"));
    args.push(String::from_str(output));
    assert(texts(args@) =~= image_args_text(filepath@, width, height, output@));
    args
}

/// Lists the decoder's arguments for a looping video.
pub fn video_args(filepath: &str, width: u16, height: u16, fps: u32) -> (args: Vec<String>)
    ensures
        texts(args@) == video_args_text(filepath@, width, height, fps),
{
    let mut args: Vec<String> = Vec::new();
    args.push(String::from_str("-stream_loop"));
    args.push(String::from_str("-1"));
    args.push(String::from_str("-i"));
    args.push(String::from_str(filepath));
    args.push(String::from_str("-vf"));
    args.push(video_filter(width, height, fps));
    args.push(String::from_str("-pix_fmt"));
    args.push(String::from_str("rgb565be"));
    args.push(String::from_str("-f"));
    args.push(String::from_str("rawvideo"));
    args.push(String::from_str("-"));
    assert(texts(args@) =~= video_args_text(filepath@, width, height, fps));
    args
}

} // verus!
