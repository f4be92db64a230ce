//! The command line that launches the encoder.

use vstd::prelude::*;
use crate::decimal::{decimal, decimal_string};

verus! {

/// The text that declares the frame size: width, `x`, height.
pub open spec fn size_text(width: nat, height: nat) -> Seq<char> {
    decimal(width) + seq!['x'] + decimal(height)
}

/// The arguments that make the encoder read raw RGBA frames of
/// `width` by `height` pixels at `fps` frames per second from its
/// standard input and write the video to `out_file`, replacing a file
/// that is already there.
pub open spec fn encoder_arguments(out_file: Seq<char>, width: nat, height: nat, fps: nat) -> Seq<
    Seq<char>,
> {
    seq![
        "-loglevel"@,
        "verbose"@,
        "-y"@,
        "-f"@,
        "rawvideo"@,
        "-pix_fmt"@,
        "rgba"@,
        "-s"@,
        size_text(width, height),
        "-r"@,
        decimal(fps),
        "-i"@,
        "-"@,
        out_file,
    ]
}

/// The name of the encoder's executable.
pub fn program() -> (name: &'static str)
    ensures
        name@ == "ffmpeg"@,
{
    "ffmpeg"
}

/// Writes the frame size as the encoder wants it.
pub fn size_string(width: usize, height: usize) -> (text: String)
    ensures
        text@ == size_text(width as nat, height as nat),
{
    let mut text = decimal_string(width as u64);
    let rows = decimal_string(height as u64);
    proof {
        reveal_strlit("x");
    }
    text.append("x");
    text.append(rows.as_str());
    text
}

/// Builds the arguments to launch the encoder with. The encoder's
/// standard input is to be a pipe; its other streams stay the caller's.
pub fn arguments(out_file: &str, width: usize, height: usize, fps: u32) -> (args: Vec<String>)
    ensures
        args.deep_view() == encoder_arguments(out_file@, width as nat, height as nat, fps as nat),
{
    let mut args: Vec<String> = Vec::new();
    args.push("-loglevel".to_owned());
    args.push("verbose".to_owned());
    args.push("-y".to_owned());
    args.push("-f".to_owned());
    args.push("rawvideo".to_owned());
    args.push("-pix_fmt".to_owned());
    args.push("rgba".to_owned());
    args.push("-s".to_owned());
    args.push(size_string(width, height));
    args.push("-r".to_owned());
    args.push(decimal_string(fps as u64));
    args.push("-i".to_owned());
    args.push("-".to_owned());
    args.push(out_file.to_owned());
    assert(args.deep_view() =~= encoder_arguments(
        out_file@,
        width as nat,
        height as nat,
        fps as nat,
    ));
    args
}

} // verus!
