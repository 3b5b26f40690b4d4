//! Encoding of recorded audio for upload: the encoder command line, the content types,
//! and how an encoder failure is reported. The encoder process is run by the caller.
use crate::custom_openai::AudioFormat;
use crate::text::{concat2, signed_decimal, signed_decimal_string};
use vstd::prelude::*;

verus! {

/// The views of a list of texts.
pub open spec fn arg_views(v: Seq<String>) -> Seq<Seq<char>> {
    v.map_values(|s: String| s@)
}

/// The encoder's name for a format.
pub open spec fn format_name(f: AudioFormat) -> Seq<char> {
    match f {
        AudioFormat::Flac => "flac"@,
        AudioFormat::Wav => "wav"@,
    }
}

/// The MIME type of encoded audio.
pub open spec fn content_type_text(f: AudioFormat) -> Seq<char> {
    match f {
        AudioFormat::Flac => "audio/flac"@,
        AudioFormat::Wav => "audio/wav"@,
    }
}

/// Extra encoder options: the strongest FLAC compression; none for WAV.
pub open spec fn extra_encoder_args(f: AudioFormat) -> Seq<Seq<char>> {
    match f {
        AudioFormat::Flac => seq!["-compression_level"@, "12"@],
        AudioFormat::Wav => Seq::empty(),
    }
}

/// The ffmpeg arguments that read mono 16 kHz little-endian 32-bit float samples from
/// standard input and write the encoded audio to standard output.
pub open spec fn ffmpeg_arg_list(f: AudioFormat) -> Seq<Seq<char>> {
    seq![
        "-hide_banner"@,
        "-loglevel"@,
        "error"@,
        "-f"@,
        "f32le"@,
        "-ar"@,
        "16000"@,
        "-ac"@,
        "1"@,
        "-i"@,
        "pipe:0"@,
    ] + extra_encoder_args(f) + seq!["-f"@, format_name(f), "pipe:1"@]
}

fn push_arg(out: &mut Vec<String>, a: &str)
    ensures
        arg_views(final(out)@) == arg_views(old(out)@).push(a@),
{
    let ghost before = out@;
    out.push(String::from_str(a));
    assert(arg_views(out@) =~= arg_views(before).push(a@));
}

/// The ffmpeg arguments for encoding to `format` (see `ffmpeg_arg_list`).
pub fn ffmpeg_args(format: AudioFormat) -> (r: Vec<String>)
    ensures
        arg_views(r@) == ffmpeg_arg_list(format),
{
    let mut r: Vec<String> = Vec::new();
    push_arg(&mut r, "-hide_banner");
    push_arg(&mut r, "-loglevel");
    push_arg(&mut r, "error");
    push_arg(&mut r, "-f");
    push_arg(&mut r, "f32le");
    push_arg(&mut r, "-ar");
    push_arg(&mut r, "16000");
    push_arg(&mut r, "-ac");
    push_arg(&mut r, "1");
    push_arg(&mut r, "-i");
    push_arg(&mut r, "pipe:0");
    match format {
        AudioFormat::Flac => {
            push_arg(&mut r, "-compression_level");
            push_arg(&mut r, "12");
            push_arg(&mut r, "-f");
            push_arg(&mut r, "flac");
        },
        AudioFormat::Wav => {
            push_arg(&mut r, "-f");
            push_arg(&mut r, "wav");
        },
    }
    push_arg(&mut r, "pipe:1");
    assert(arg_views(r@) =~= ffmpeg_arg_list(format));
    r
}

/// The MIME type of audio encoded to `format`.
pub fn content_type(format: AudioFormat) -> (r: &'static str)
    ensures
        r@ == content_type_text(format),
{
    match format {
        AudioFormat::Flac => "audio/flac",
        AudioFormat::Wav => "audio/wav",
    }
}

/// Whether `n` samples need the encoder at all: an empty recording encodes to no bytes
/// without running it.
pub fn needs_encoding(n: usize) -> (r: bool)
    ensures
        r == (n > 0),
{
    n > 0
}

/// The debug form of an optional exit code: `Some(<code>)` or `None`.
pub open spec fn exit_code_debug(code: Option<i32>) -> Seq<char> {
    match code {
        Some(c) => "Some("@ + signed_decimal(c as int) + ")"@,
        None => "None"@,
    }
}

/// The message of a failed encoding: `ffmpeg exited with status <code>: <stderr>`.
pub fn encoder_failure_message(code: Option<i32>, stderr: &str) -> (r: String)
    ensures
        r@ == "ffmpeg exited with status "@ + exit_code_debug(code) + ": "@ + stderr@,
{
    let code_text = match code {
        Some(c) => {
            let d = signed_decimal_string(c as i64);
            crate::text::concat3("Some(", d.as_str(), ")")
        },
        None => String::from_str("None"),
    };
    let r = concat2("ffmpeg exited with status ", code_text.as_str());
    r.concat(": ").concat(stderr)
}

} // verus!
