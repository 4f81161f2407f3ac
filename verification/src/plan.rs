//! The argument sequence of a conversion.
//!
//! [`plan`] says, for every request, which sequence of arguments the encoder
//! is to be started with, or why there is none. [`build_ffmpeg_args`]
//! computes it.

use vstd::prelude::*;
use vstd::string::*;
use crate::formats::{
    audio_codecs,
    audio_codecs_for_format,
    container_named,
    video_codecs,
    video_codecs_for_format,
    Container,
};
use crate::request::{CodecKind, ConversionOptions, ConversionRequest, PlanError, PlanFailure};
use crate::request::text_of;
use crate::rules::{slice_text_of, AudioOverride, AudioRule, FormatOverrides, FormatRules};
use crate::text::{
    append_texts,
    decimal,
    decimal_text,
    digit_char,
    digit_text,
    has_text,
    push_text,
    push_texts,
    text_eq,
};

verus! {

/// The format of a request that names none.
pub open spec fn default_format() -> Seq<char> {
    "mp4"@
}

/// The format identifier that a request is planned for.
pub open spec fn format_of(req: ConversionRequest) -> Seq<char> {
    match req.format {
        Some(f) => f,
        None => default_format(),
    }
}

/// A time of `ms` milliseconds, written in seconds with three decimals.
pub open spec fn seconds_text(ms: nat) -> Seq<char> {
    decimal(ms / 1000) + "."@ + seq![
        digit_char(ms / 100 % 10),
        digit_char(ms / 10 % 10),
        digit_char(ms % 10),
    ]
}

/// A bitrate in kilobits per second, as the encoder reads it.
pub open spec fn bitrate_text(kbps: nat) -> Seq<char> {
    decimal(kbps) + "k"@
}

/// The overwrite flag, the seek flag where the range does not start at zero,
/// the input and the duration.
pub open spec fn input_flags(req: ConversionRequest) -> Seq<Seq<char>> {
    let seek = if req.start_ms > 0 {
        seq!["-ss"@, seconds_text(req.start_ms as nat)]
    } else {
        seq![]
    };
    seq!["-y"@] + seek + seq![
        "-i"@,
        req.input_path,
        "-t"@,
        seconds_text((req.end_ms - req.start_ms) as nat),
    ]
}

/// The filter that scales to `width` by `height`.
pub open spec fn scale_term(width: u32, height: u32) -> Seq<char> {
    "scale="@ + decimal(width as nat) + ":"@ + decimal(height as nat)
}

/// The filter that sets the frame rate.
pub open spec fn rate_term(fps: Seq<char>) -> Seq<char> {
    "fps="@ + fps
}

/// Whether a request asks for any filter: a size, given by both width and
/// height, or a frame rate.
pub open spec fn has_filters(req: ConversionRequest) -> bool {
    (req.width is Some && req.height is Some) || req.fps is Some
}

/// The filters of a request, joined by commas.
pub open spec fn filter_graph(req: ConversionRequest) -> Seq<char> {
    if req.width is Some && req.height is Some {
        let scale = scale_term(req.width->0, req.height->0);
        match req.fps {
            Some(fps) => scale + ","@ + rate_term(fps),
            None => scale,
        }
    } else {
        match req.fps {
            Some(fps) => rate_term(fps),
            None => Seq::empty(),
        }
    }
}

/// The filter flag with its value, where the request asks for a filter.
pub open spec fn filter_flags(req: ConversionRequest) -> Seq<Seq<char>> {
    if has_filters(req) {
        seq!["-vf"@, filter_graph(req)]
    } else {
        seq![]
    }
}

/// The codec of a stream that must be encoded: the wanted one if the format
/// accepts it, the format's first where none is wanted.
pub open spec fn chosen_codec(
    kind: CodecKind,
    format: Seq<char>,
    allowed: Seq<Seq<char>>,
    wanted: Option<Seq<char>>,
) -> Result<Seq<char>, PlanFailure> {
    if allowed.len() == 0 {
        Err(PlanFailure::NoCodecAvailable { kind, format })
    } else {
        match wanted {
            Some(codec) => if allowed.contains(codec) {
                Ok(codec)
            } else {
                Err(PlanFailure::CodecNotAllowed { kind, codec, format })
            },
            None => Ok(allowed[0]),
        }
    }
}

/// The codec of a stream that may be left out: the wanted one if the format
/// accepts it, else the format's first, and none where the format has none.
pub open spec fn chosen_codec_or_default(
    allowed: Seq<Seq<char>>,
    wanted: Option<Seq<char>>,
) -> Option<Seq<char>> {
    if wanted is Some && allowed.contains(wanted->0) {
        wanted
    } else if allowed.len() > 0 {
        Some(allowed[0])
    } else {
        None
    }
}

/// The arguments that follow the duration when only audio is wanted.
pub open spec fn audio_only_flags(req: ConversionRequest, format: Seq<char>) -> Result<
    Seq<Seq<char>>,
    PlanFailure,
> {
    match chosen_codec(CodecKind::Audio, format, audio_codecs(format), req.audio_codec) {
        Ok(codec) => Ok(seq!["-vn"@, "-c:a"@, codec] + audio_bitrate_flags(req.audio_bitrate_kbps)),
        Err(failure) => Err(failure),
    }
}

/// The audio bitrate flag with its value, where a bitrate is asked for.
pub open spec fn audio_bitrate_flags(bitrate: Option<u64>) -> Seq<Seq<char>> {
    match bitrate {
        Some(kbps) => seq!["-b:a"@, bitrate_text(kbps as nat)],
        None => seq![],
    }
}

/// The rules of the format that an identifier names.
pub open spec fn rules_of(format: Seq<char>) -> Option<FormatRules> {
    match container_named(format) {
        Some(container) => container.rules(),
        None => None,
    }
}

/// The pixel format that a video codec writes by default.
pub open spec fn codec_pixel_format(codec: Seq<char>) -> Seq<char> {
    if codec == "prores_ks"@ {
        "yuv422p10le"@
    } else if codec == "mjpeg"@ {
        "yuvj422p"@
    } else {
        "yuv420p"@
    }
}

/// The flags that a video codec needs beside its name.
pub open spec fn codec_flags(codec: Seq<char>) -> Seq<Seq<char>> {
    if codec == "prores_ks"@ {
        seq!["-profile:v"@, "3"@]
    } else {
        seq![]
    }
}

/// The video codec that is written: the format's, where it forces one.
pub open spec fn final_video_codec(rules: FormatRules, chosen: Seq<char>) -> Seq<char> {
    match rules.video_codec {
        Some(forced) => forced,
        None => chosen,
    }
}

/// The audio codec that is written, if any, after the format's rule.
pub open spec fn final_audio_codec(rules: FormatRules, chosen: Option<Seq<char>>) -> Option<
    Seq<char>,
> {
    match rules.audio {
        AudioRule::Keep => chosen,
        AudioRule::Force(forced) => Some(forced),
        AudioRule::Remove => None,
    }
}

/// The pixel format that is written: the format's, where it forces one, else
/// that of the chosen codec.
pub open spec fn final_pixel_format(rules: FormatRules, chosen: Seq<char>) -> Seq<char> {
    match rules.pixel_format {
        Some(forced) => forced,
        None => codec_pixel_format(chosen),
    }
}

/// The video codec flag with its value, and the preset where the format allows
/// one and the codec is the H.264 encoder.
pub open spec fn video_codec_flags(codec: Seq<char>, preset: bool) -> Seq<Seq<char>> {
    if preset && codec == "libx264"@ {
        seq!["-c:v"@, codec, "-preset"@, "medium"@]
    } else {
        seq!["-c:v"@, codec]
    }
}

/// The video bitrate flag with its value, where a bitrate is asked for and the
/// codec is not the GIF encoder.
pub open spec fn video_bitrate_flags(codec: Seq<char>, bitrate: Option<u64>) -> Seq<Seq<char>> {
    match bitrate {
        Some(kbps) => if codec != "gif"@ {
            seq!["-b:v"@, bitrate_text(kbps as nat)]
        } else {
            seq![]
        },
        None => seq![],
    }
}

/// The audio codec flag with its value and the bitrate, where there is audio.
pub open spec fn audio_flags(codec: Option<Seq<char>>, bitrate: Option<u64>) -> Seq<Seq<char>> {
    match codec {
        Some(c) => seq!["-c:a"@, c] + audio_bitrate_flags(bitrate),
        None => seq![],
    }
}

/// The arguments that follow the duration when video is wanted, for codecs
/// that were chosen and the rules of the format.
pub open spec fn encoding_flags(
    req: ConversionRequest,
    rules: FormatRules,
    video: Seq<char>,
    audio: Option<Seq<char>>,
) -> Seq<Seq<char>> {
    filter_flags(req) + video_codec_flags(final_video_codec(rules, video), rules.preset)
        + video_bitrate_flags(final_video_codec(rules, video), req.video_bitrate_kbps)
        + audio_flags(final_audio_codec(rules, audio), req.audio_bitrate_kbps) + codec_flags(video)
        + rules.flags + seq!["-pix_fmt"@, final_pixel_format(rules, video)]
}

/// The arguments that follow the duration when video is wanted.
pub open spec fn video_flags(req: ConversionRequest, format: Seq<char>) -> Result<
    Seq<Seq<char>>,
    PlanFailure,
> {
    match chosen_codec(CodecKind::Video, format, video_codecs(format), req.video_codec) {
        Err(failure) => Err(failure),
        Ok(video) => match rules_of(format) {
            None => Err(PlanFailure::UnsupportedFormat { format }),
            Some(rules) => Ok(
                encoding_flags(
                    req,
                    rules,
                    video,
                    chosen_codec_or_default(audio_codecs(format), req.audio_codec),
                ),
            ),
        },
    }
}

/// The argument sequence of a request, without the name of the encoder; or
/// the reason why the request cannot be carried out.
pub open spec fn plan(req: ConversionRequest) -> Result<Seq<Seq<char>>, PlanFailure> {
    if req.end_ms <= req.start_ms {
        Err(PlanFailure::InvalidRange)
    } else {
        let flags = if req.is_audio_only {
            audio_only_flags(req, format_of(req))
        } else {
            video_flags(req, format_of(req))
        };
        match flags {
            Ok(flags) => Ok(input_flags(req) + flags + seq![req.output_path]),
            Err(failure) => Err(failure),
        }
    }
}

/// The mathematical content of what planning returns.
pub open spec fn plan_view(r: Result<Vec<String>, PlanError>) -> Result<
    Seq<Seq<char>>,
    PlanFailure,
> {
    match r {
        Ok(args) => Ok(args.deep_view()),
        Err(e) => Err(e@),
    }
}

/// Writes a time of `ms` milliseconds in seconds with three decimals.
pub fn format_seconds(ms: u64) -> (s: String)
    ensures
        s@ == seconds_text(ms as nat),
{
    let mut s = decimal_text(ms / 1000);
    s.append(".");
    s.append(digit_text(ms / 100 % 10));
    s.append(digit_text(ms / 10 % 10));
    s.append(digit_text(ms % 10));
    assert(s@ =~= seconds_text(ms as nat));
    s
}

/// Writes a bitrate in kilobits per second as the encoder reads it.
pub fn format_bitrate(kbps: u64) -> (s: String)
    ensures
        s@ == bitrate_text(kbps as nat),
{
    let mut s = decimal_text(kbps);
    s.append("k");
    s
}

/// Chooses the codec of a stream that must be encoded.
pub fn choose_codec<'a>(
    kind: CodecKind,
    format: &str,
    allowed: &Vec<&'static str>,
    wanted: &'a Option<String>,
) -> (r: Result<&'a str, PlanError>)
    ensures
        (match r {
            Ok(codec) => chosen_codec(kind, format@, allowed.deep_view(), text_of(*wanted)) == Ok::<
                Seq<char>,
                PlanFailure,
            >(codec@),
            Err(e) => chosen_codec(kind, format@, allowed.deep_view(), text_of(*wanted)) == Err::<
                Seq<char>,
                PlanFailure,
            >(e@),
        }),
{
    if allowed.len() == 0 {
        return Err(PlanError::NoCodecAvailable { kind, format: format.to_owned() });
    }
    match wanted {
        Some(codec) => {
            if has_text(allowed, codec.as_str()) {
                Ok(codec.as_str())
            } else {
                Err(
                    PlanError::CodecNotAllowed {
                        kind,
                        codec: codec.clone(),
                        format: format.to_owned(),
                    },
                )
            }
        },
        None => Ok(allowed[0]),
    }
}

/// Chooses the codec of a stream that may be left out.
pub fn choose_codec_or_default<'a>(allowed: &Vec<&'static str>, wanted: &'a Option<String>) -> (r:
    Option<&'a str>)
    ensures
        slice_text_of(r) == chosen_codec_or_default(allowed.deep_view(), text_of(*wanted)),
{
    match wanted {
        Some(codec) => {
            if has_text(allowed, codec.as_str()) {
                return Some(codec.as_str());
            }
        },
        None => {},
    }
    if allowed.len() > 0 {
        Some(allowed[0])
    } else {
        None
    }
}

/// Writes the filters of a request, joined by commas.
fn filter_text(options: &ConversionOptions) -> (s: String)
    ensures
        s@ == filter_graph(options@),
{
    let mut s = String::new();
    match (options.width, options.height) {
        (Some(width), Some(height)) => {
            s.append("scale=");
            s.append(decimal_text(width as u64).as_str());
            s.append(":");
            s.append(decimal_text(height as u64).as_str());
            if options.fps.is_some() {
                s.append(",");
            }
        },
        _ => {},
    }
    match &options.fps {
        Some(fps) => {
            s.append("fps=");
            s.append(fps.as_str());
        },
        None => {},
    }
    assert(s@ =~= filter_graph(options@));
    s
}

/// Starts the argument sequence of a request whose range is valid.
fn input_args(options: &ConversionOptions) -> (args: Vec<String>)
    requires
        options.start_ms < options.end_ms,
    ensures
        args.deep_view() == input_flags(options@),
{
    let mut args: Vec<String> = Vec::new();
    push_text(&mut args, "-y");
    if options.start_ms > 0 {
        push_text(&mut args, "-ss");
        push_text(&mut args, format_seconds(options.start_ms).as_str());
    }
    push_text(&mut args, "-i");
    push_text(&mut args, options.input_path.as_str());
    push_text(&mut args, "-t");
    push_text(&mut args, format_seconds(options.end_ms - options.start_ms).as_str());
    assert(args.deep_view() =~= input_flags(options@));
    args
}

/// Appends the audio bitrate flag with its value, where a bitrate is asked for.
fn push_audio_bitrate(args: &mut Vec<String>, bitrate: Option<u64>)
    ensures
        final(args).deep_view() == old(args).deep_view() + audio_bitrate_flags(bitrate),
{
    if let Some(kbps) = bitrate {
        push_text(args, "-b:a");
        push_text(args, format_bitrate(kbps).as_str());
    }
    assert(args.deep_view() =~= old(args).deep_view() + audio_bitrate_flags(bitrate));
}

/// Plans what follows the duration when only audio is wanted.
fn audio_only_args(options: &ConversionOptions, format: &str) -> (r: Result<Vec<String>, PlanError>)
    ensures
        plan_view(r) == audio_only_flags(options@, format@),
{
    let allowed = audio_codecs_for_format(format);
    match choose_codec(CodecKind::Audio, format, &allowed, &options.audio_codec) {
        Ok(codec) => {
            let mut args: Vec<String> = Vec::new();
            push_text(&mut args, "-vn");
            push_text(&mut args, "-c:a");
            push_text(&mut args, codec);
            push_audio_bitrate(&mut args, options.audio_bitrate_kbps);
            assert(args.deep_view() =~= seq!["-vn"@, "-c:a"@, codec@] + audio_bitrate_flags(
                options.audio_bitrate_kbps,
            ));
            Ok(args)
        },
        Err(e) => Err(e),
    }
}

/// Appends the filter flag with its value, where the request asks for a filter.
fn push_filters(args: &mut Vec<String>, options: &ConversionOptions)
    ensures
        final(args).deep_view() == old(args).deep_view() + filter_flags(options@),
{
    if (options.width.is_some() && options.height.is_some()) || options.fps.is_some() {
        push_text(args, "-vf");
        push_text(args, filter_text(options).as_str());
    }
    assert(args.deep_view() =~= old(args).deep_view() + filter_flags(options@));
}

/// Appends the video codec flag with its value, and the preset where it applies.
fn push_video_codec(args: &mut Vec<String>, codec: &str, preset: bool)
    ensures
        final(args).deep_view() == old(args).deep_view() + video_codec_flags(codec@, preset),
{
    push_text(args, "-c:v");
    push_text(args, codec);
    if preset && text_eq(codec, "libx264") {
        push_text(args, "-preset");
        push_text(args, "medium");
    }
    assert(args.deep_view() =~= old(args).deep_view() + video_codec_flags(codec@, preset));
}

/// Appends the video bitrate flag with its value, where it applies.
fn push_video_bitrate(args: &mut Vec<String>, codec: &str, bitrate: Option<u64>)
    ensures
        final(args).deep_view() == old(args).deep_view() + video_bitrate_flags(codec@, bitrate),
{
    if let Some(kbps) = bitrate {
        if !text_eq(codec, "gif") {
            push_text(args, "-b:v");
            push_text(args, format_bitrate(kbps).as_str());
        }
    }
    assert(args.deep_view() =~= old(args).deep_view() + video_bitrate_flags(codec@, bitrate));
}

/// Appends the audio codec flag with its value and the bitrate, where there
/// is audio.
fn push_audio(args: &mut Vec<String>, codec: Option<&str>, bitrate: Option<u64>)
    ensures
        final(args).deep_view() == old(args).deep_view() + audio_flags(
            slice_text_of(codec),
            bitrate,
        ),
{
    if let Some(name) = codec {
        push_text(args, "-c:a");
        push_text(args, name);
        push_audio_bitrate(args, bitrate);
    }
    assert(args.deep_view() =~= old(args).deep_view() + audio_flags(slice_text_of(codec), bitrate));
}

/// Appends the flags that a video codec needs beside its name.
fn push_codec_flags(args: &mut Vec<String>, codec: &str)
    ensures
        final(args).deep_view() == old(args).deep_view() + codec_flags(codec@),
{
    if text_eq(codec, "prores_ks") {
        push_text(args, "-profile:v");
        push_text(args, "3");
    }
    assert(args.deep_view() =~= old(args).deep_view() + codec_flags(codec@));
}

/// The pixel format that a video codec writes by default.
fn default_pixel_format(codec: &str) -> (r: &'static str)
    ensures
        r@ == codec_pixel_format(codec@),
{
    if text_eq(codec, "prores_ks") {
        "yuv422p10le"
    } else if text_eq(codec, "mjpeg") {
        "yuvj422p"
    } else {
        "yuv420p"
    }
}

/// Plans what follows the duration when video is wanted, for codecs that were
/// chosen and the rules of the format.
fn encoding_args(
    options: &ConversionOptions,
    rules: &FormatOverrides,
    video: &str,
    audio: Option<&str>,
) -> (args: Vec<String>)
    ensures
        args.deep_view() == encoding_flags(options@, rules@, video@, slice_text_of(audio)),
{
    let video_codec: &str = match rules.video_codec {
        Some(forced) => forced,
        None => video,
    };
    let audio_codec: Option<&str> = match rules.audio {
        AudioOverride::Keep => audio,
        AudioOverride::Force(forced) => Some(forced),
        AudioOverride::Remove => None,
    };
    let pixel_format: &str = match rules.pixel_format {
        Some(forced) => forced,
        None => default_pixel_format(video),
    };
    let mut args: Vec<String> = Vec::new();
    assert(args.deep_view() =~= Seq::<Seq<char>>::empty());
    push_filters(&mut args, options);
    assert(args.deep_view() =~= filter_flags(options@));
    push_video_codec(&mut args, video_codec, rules.preset);
    push_video_bitrate(&mut args, video_codec, options.video_bitrate_kbps);
    push_audio(&mut args, audio_codec, options.audio_bitrate_kbps);
    push_codec_flags(&mut args, video);
    push_texts(&mut args, &rules.flags);
    let ghost before = args.deep_view();
    push_text(&mut args, "-pix_fmt");
    push_text(&mut args, pixel_format);
    assert(args.deep_view() =~= before + seq!["-pix_fmt"@, pixel_format@]);
    args
}

/// Plans what follows the duration when video is wanted.
fn video_args(options: &ConversionOptions, format: &str) -> (r: Result<Vec<String>, PlanError>)
    ensures
        plan_view(r) == video_flags(options@, format@),
{
    let allowed_video = video_codecs_for_format(format);
    let video = match choose_codec(CodecKind::Video, format, &allowed_video, &options.video_codec) {
        Ok(codec) => codec,
        Err(e) => {
            return Err(e);
        },
    };
    let allowed_audio = audio_codecs_for_format(format);
    let audio = choose_codec_or_default(&allowed_audio, &options.audio_codec);
    let rules = match Container::from_name(format) {
        Some(container) => container.overrides(),
        None => None,
    };
    match rules {
        Some(rules) => Ok(encoding_args(options, &rules, video, audio)),
        None => Err(PlanError::UnsupportedFormat { format: format.to_owned() }),
    }
}

/// Plans the argument sequence of a conversion: the arguments to start the
/// encoder with, in order and without the encoder's own name.
///
/// A request whose range is empty or reversed is refused before anything
/// else is looked at.
pub fn build_ffmpeg_args(options: &ConversionOptions) -> (r: Result<Vec<String>, PlanError>)
    ensures
        plan_view(r) == plan(options@),
        options.end_ms <= options.start_ms ==> r == Err::<Vec<String>, PlanError>(
            PlanError::InvalidRange,
        ),
{
    if options.end_ms <= options.start_ms {
        return Err(PlanError::InvalidRange);
    }
    let format: &str = match &options.format {
        Some(f) => f.as_str(),
        None => "mp4",
    };
    assert(format@ == format_of(options@));
    let flags = if options.is_audio_only {
        audio_only_args(options, format)
    } else {
        video_args(options, format)
    };
    match flags {
        Ok(flags) => {
            let mut args = input_args(options);
            append_texts(&mut args, flags);
            push_text(&mut args, options.output_path.as_str());
            assert(args.deep_view() =~= input_flags(options@) + flags.deep_view()
                + seq![options.output_path@]);
            Ok(args)
        },
        Err(e) => Err(e),
    }
}

} // verus!
