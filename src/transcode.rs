//! The transcoder invocation: whether one is needed and its arguments.
use vstd::prelude::*;
use crate::text::same_text;

verus! {

/// The extension of the raw download.
pub open spec fn raw_ext() -> Seq<char> {
    "ts"@
}

/// A download in `format` needs a conversion of the raw file.
pub fn needs_conversion(format: &str) -> (r: bool)
    ensures
        r == (format@ != raw_ext()),
{
    !same_text(format, "ts")
}

/// The encoding arguments for a target format.
pub open spec fn codec_args(format: Seq<char>) -> Seq<Seq<char>> {
    if format == "mp3"@ {
        seq!["-vn"@, "-acodec"@, "libmp3lame"@]
    } else if format == "wav"@ {
        seq!["-vn"@, "-acodec"@, "pcm_s16le"@]
    } else {
        Seq::empty()
    }
}

/// The transcoder's full argument list.
pub open spec fn transcoder_args_of(input: Seq<char>, output: Seq<char>, format: Seq<char>) -> Seq<
    Seq<char>,
> {
    seq!["-y"@, "-i"@, input] + codec_args(format) + seq![output]
}

/// The arguments that convert `input` into `output` in `format`: overwrite,
/// the input, an audio-only codec for `mp3` and `wav`, and the output.
pub fn transcoder_args(input: &str, output: &str, format: &str) -> (r: Vec<String>)
    ensures
        r@.map_values(|a: String| a@) == transcoder_args_of(input@, output@, format@),
{
    let mut v: Vec<String> = Vec::new();
    v.push(String::from_str("-y"));
    v.push(String::from_str("-i"));
    v.push(String::from_str(input));
    if same_text(format, "mp3") {
        v.push(String::from_str("-vn"));
        v.push(String::from_str("-acodec"));
        v.push(String::from_str("libmp3lame"));
    } else if same_text(format, "wav") {
        v.push(String::from_str("-vn"));
        v.push(String::from_str("-acodec"));
        v.push(String::from_str("pcm_s16le"));
    }
    v.push(String::from_str(output));
    assert(v@.map_values(|a: String| a@) =~= transcoder_args_of(input@, output@, format@));
    v
}

} // verus!
