//! What holds of every plan, of the table of formats and of the numerals
//! that stand in a plan.

use vstd::prelude::*;
use crate::formats::{audio_codecs, container_named, video_codecs, Container};
use crate::plan::{
    audio_bitrate_flags,
    bitrate_text,
    chosen_codec,
    chosen_codec_or_default,
    encoding_flags,
    filter_flags,
    filter_graph,
    final_video_codec,
    has_filters,
    format_of,
    input_flags,
    plan,
    rules_of,
    seconds_text,
    video_bitrate_flags,
    video_flags,
};
use crate::number::{all_digits, digit_value, digits_of, digits_value, unsigned_value};
use crate::probe::{first_video, is_video, media_info, ReportModel, StreamModel};
use crate::request::{CodecKind, ConversionRequest, PlanFailure};
use crate::text::{decimal, digit_char};

verus! {

/// The identifiers of the containers are known character by character.
proof fn lemma_container_names_revealed()
    ensures
        "mp4"@ == seq!['m', 'p', '4'],
        "mov"@ == seq!['m', 'o', 'v'],
        "mkv"@ == seq!['m', 'k', 'v'],
        "webm"@ == seq!['w', 'e', 'b', 'm'],
        "avi"@ == seq!['a', 'v', 'i'],
        "flv"@ == seq!['f', 'l', 'v'],
        "gif"@ == seq!['g', 'i', 'f'],
        "mp3"@ == seq!['m', 'p', '3'],
        "wav"@ == seq!['w', 'a', 'v'],
        "flac"@ == seq!['f', 'l', 'a', 'c'],
        "m4a"@ == seq!['m', '4', 'a'],
        "aac"@ == seq!['a', 'a', 'c'],
        "ogg"@ == seq!['o', 'g', 'g'],
        "opus"@ == seq!['o', 'p', 'u', 's'],
{
    reveal_strlit("mp4");
    reveal_strlit("mov");
    reveal_strlit("mkv");
    reveal_strlit("webm");
    reveal_strlit("avi");
    reveal_strlit("flv");
    reveal_strlit("gif");
    reveal_strlit("mp3");
    reveal_strlit("wav");
    reveal_strlit("flac");
    reveal_strlit("m4a");
    reveal_strlit("aac");
    reveal_strlit("ogg");
    reveal_strlit("opus");
    assert("mp4"@ =~= seq!['m', 'p', '4']);
    assert("mov"@ =~= seq!['m', 'o', 'v']);
    assert("mkv"@ =~= seq!['m', 'k', 'v']);
    assert("webm"@ =~= seq!['w', 'e', 'b', 'm']);
    assert("avi"@ =~= seq!['a', 'v', 'i']);
    assert("flv"@ =~= seq!['f', 'l', 'v']);
    assert("gif"@ =~= seq!['g', 'i', 'f']);
    assert("mp3"@ =~= seq!['m', 'p', '3']);
    assert("wav"@ =~= seq!['w', 'a', 'v']);
    assert("flac"@ =~= seq!['f', 'l', 'a', 'c']);
    assert("m4a"@ =~= seq!['m', '4', 'a']);
    assert("aac"@ =~= seq!['a', 'a', 'c']);
    assert("ogg"@ =~= seq!['o', 'g', 'g']);
    assert("opus"@ =~= seq!['o', 'p', 'u', 's']);
}

/// Every container is found by its own identifier: no two containers share
/// one.
pub proof fn lemma_container_found_by_name(container: Container)
    ensures
        container_named(container.name()) == Some(container),
{
    lemma_container_names_revealed();
    // Any two identifiers differ in length or in one of their first three
    // characters.
    let name = container.name();
    let first_three = (name[0], name[1], name[2]);
    assert(name.len() >= 3);
}

/// No two video codecs share a name.
proof fn lemma_video_codec_names_differ()
    ensures
        "libx264"@ != "libx265"@,
        "libx264"@ != "libvpx-vp9"@,
        "libx264"@ != "prores_ks"@,
        "libx264"@ != "mjpeg"@,
        "libx264"@ != "gif"@,
        "libx265"@ != "libvpx-vp9"@,
        "libx265"@ != "prores_ks"@,
        "libx265"@ != "mjpeg"@,
        "libx265"@ != "gif"@,
        "libvpx-vp9"@ != "prores_ks"@,
        "libvpx-vp9"@ != "mjpeg"@,
        "libvpx-vp9"@ != "gif"@,
        "prores_ks"@ != "mjpeg"@,
        "prores_ks"@ != "gif"@,
        "mjpeg"@ != "gif"@,
{
    reveal_strlit("libx264");
    reveal_strlit("libx265");
    reveal_strlit("libvpx-vp9");
    reveal_strlit("prores_ks");
    reveal_strlit("mjpeg");
    reveal_strlit("gif");
    assert("libx264"@[6] == '4' && "libx265"@[6] == '5');
    assert("libx264"@.len() == 7 && "libx265"@.len() == 7 && "libvpx-vp9"@.len() == 10);
    assert("prores_ks"@.len() == 9 && "mjpeg"@.len() == 5 && "gif"@.len() == 3);
}

/// A number that is written in decimal and read again is the same number.
pub proof fn lemma_decimal_is_read_back(n: nat)
    ensures
        decimal(n).len() > 0,
        all_digits(decimal(n)),
        digits_value(decimal(n)) == n,
        unsigned_value(decimal(n)) == Some(n),
    decreases n,
{
    let text = decimal(n);
    assert(digit_value(digit_char(n % 10)) == Some(n % 10));
    if n < 10 {
        assert(text.drop_last() =~= Seq::<char>::empty());
        assert(digits_value(text.drop_last()) == 0);
        assert(text.last() == digit_char(n));
    } else {
        lemma_decimal_is_read_back(n / 10);
        assert(text.drop_last() =~= decimal(n / 10));
        assert(text.last() == digit_char(n % 10));
        assert forall|i: int| 0 <= i < text.len() implies (#[trigger] digit_value(text[i])) is Some by {
            if i < text.len() - 1 {
                assert(text[i] == decimal(n / 10)[i]);
            }
        }
    }
    assert(digits_value(text) == digits_value(text.drop_last()) * 10 + n % 10);
    assert(digit_value(text[0]) is Some);
    assert(digits_of(text) == text);
}

/// A time in seconds is written with a digit first.
proof fn lemma_seconds_start_with_digit(ms: nat)
    ensures
        seconds_text(ms).len() > 0,
        digit_value(seconds_text(ms)[0]) is Some,
{
    lemma_decimal_is_read_back(ms / 1000);
    assert(seconds_text(ms)[0] == decimal(ms / 1000)[0]);
}

/// The filters of a request start with the name of a filter.
proof fn lemma_filter_graph_starts_with_letter(req: ConversionRequest)
    requires
        has_filters(req),
    ensures
        filter_graph(req).len() > 0,
        filter_graph(req)[0] == 's' || filter_graph(req)[0] == 'f',
{
    reveal_strlit("scale=");
    reveal_strlit("fps=");
    if req.width is Some && req.height is Some {
        assert(filter_graph(req)[0] == "scale="@[0]);
    } else {
        assert(filter_graph(req)[0] == "fps="@[0]);
    }
}

/// Up to the filters, a plan holds no flag but those of overwriting, seeking,
/// input, duration and filters, unless the input path is written like one.
proof fn lemma_leading_flags(req: ConversionRequest, token: Seq<char>)
    requires
        (input_flags(req) + filter_flags(req)).contains(token),
        token.len() > 0 && token[0] == '-',
        token != req.input_path,
    ensures
        token == "-y"@ || token == "-ss"@ || token == "-i"@ || token == "-t"@ || token == "-vf"@,
{
    let head = input_flags(req) + filter_flags(req);
    let i = choose|i: int| 0 <= i < head.len() && head[i] == token;
    lemma_seconds_start_with_digit(req.start_ms as nat);
    lemma_seconds_start_with_digit((req.end_ms - req.start_ms) as nat);
    if has_filters(req) {
        lemma_filter_graph_starts_with_letter(req);
    }
    if i < input_flags(req).len() {
        assert(head[i] == input_flags(req)[i]);
    } else {
        assert(head[i] == filter_flags(req)[i - input_flags(req).len()]);
    }
}

/// The flags of the codecs and their settings are none of the flags that a
/// plan starts with.
proof fn lemma_flag_names_differ()
    ensures
        "-c:a"@ != "-y"@ && "-c:a"@ != "-ss"@ && "-c:a"@ != "-i"@ && "-c:a"@ != "-t"@ && "-c:a"@
            != "-vf"@,
        "-b:a"@ != "-y"@ && "-b:a"@ != "-ss"@ && "-b:a"@ != "-i"@ && "-b:a"@ != "-t"@ && "-b:a"@
            != "-vf"@,
        "-b:v"@ != "-y"@ && "-b:v"@ != "-ss"@ && "-b:v"@ != "-i"@ && "-b:v"@ != "-t"@ && "-b:v"@
            != "-vf"@,
        "-preset"@ != "-y"@ && "-preset"@ != "-ss"@ && "-preset"@ != "-i"@ && "-preset"@ != "-t"@
            && "-preset"@ != "-vf"@,
        "-c:a"@[0] == '-' && "-b:a"@[0] == '-' && "-b:v"@[0] == '-' && "-preset"@[0] == '-',
        "-c:a"@.len() == 4 && "-b:a"@.len() == 4 && "-b:v"@.len() == 4 && "-preset"@.len() == 7,
{
    reveal_strlit("-c:a");
    reveal_strlit("-b:a");
    reveal_strlit("-b:v");
    reveal_strlit("-preset");
    reveal_strlit("-y");
    reveal_strlit("-ss");
    reveal_strlit("-i");
    reveal_strlit("-t");
    reveal_strlit("-vf");
    assert("-c:a"@.len() == 4 && "-b:a"@.len() == 4 && "-b:v"@.len() == 4);
    assert("-preset"@.len() == 7);
    assert("-y"@.len() == 2 && "-ss"@.len() == 3 && "-i"@.len() == 2 && "-t"@.len() == 2);
    assert("-vf"@.len() == 3);
}

/// A flag that is none of those a plan starts with, and that does not stand
/// among the arguments after the filters, stands nowhere in the plan, unless
/// the input or the output path is written like it.
proof fn lemma_flag_is_absent(req: ConversionRequest, rest: Seq<Seq<char>>, flag: Seq<char>)
    requires
        flag.len() > 0 && flag[0] == '-',
        flag != "-y"@ && flag != "-ss"@ && flag != "-i"@ && flag != "-t"@ && flag != "-vf"@,
        flag != req.input_path,
        flag != req.output_path,
        !rest.contains(flag),
    ensures
        !(input_flags(req) + filter_flags(req) + rest + seq![req.output_path]).contains(flag),
{
    let head = input_flags(req) + filter_flags(req);
    let all = head + rest + seq![req.output_path];
    if all.contains(flag) {
        let i = choose|i: int| 0 <= i < all.len() && all[i] == flag;
        if i < head.len() {
            assert(head[i] == flag);
            lemma_leading_flags(req, flag);
        } else if i < head.len() + rest.len() {
            assert(rest[i - head.len()] == flag);
        }
    }
}

/// A bitrate is written with a digit first.
proof fn lemma_bitrate_starts_with_digit(kbps: nat)
    ensures
        bitrate_text(kbps).len() > 0,
        digit_value(bitrate_text(kbps)[0]) is Some,
{
    lemma_decimal_is_read_back(kbps);
    assert(bitrate_text(kbps)[0] == decimal(kbps)[0]);
}

/// Every plan starts with the overwrite flag and ends with the output path.
/// The input flag and the input path follow the overwrite flag at once where
/// the range starts at zero; otherwise the seek flag and the start time stand
/// between them, before the input.
pub proof fn lemma_plan_frame(req: ConversionRequest)
    requires
        plan(req) is Ok,
    ensures
        plan(req)->Ok_0.len() >= 6,
        plan(req)->Ok_0.first() == "-y"@,
        plan(req)->Ok_0.last() == req.output_path,
        req.start_ms == 0 ==> plan(req)->Ok_0.subrange(1, 5) == seq![
            "-i"@,
            req.input_path,
            "-t"@,
            seconds_text((req.end_ms - req.start_ms) as nat),
        ],
        req.start_ms > 0 ==> plan(req)->Ok_0.subrange(1, 7) == seq![
            "-ss"@,
            seconds_text(req.start_ms as nat),
            "-i"@,
            req.input_path,
            "-t"@,
            seconds_text((req.end_ms - req.start_ms) as nat),
        ],
{
    let args = plan(req)->Ok_0;
    let head = input_flags(req);
    assert(forall|i: int| 0 <= i < head.len() ==> args[i] == head[i]);
    if req.start_ms == 0 {
        assert(args.subrange(1, 5) =~= seq![
            "-i"@,
            req.input_path,
            "-t"@,
            seconds_text((req.end_ms - req.start_ms) as nat),
        ]);
    } else {
        assert(args.subrange(1, 7) =~= seq![
            "-ss"@,
            seconds_text(req.start_ms as nat),
            "-i"@,
            req.input_path,
            "-t"@,
            seconds_text((req.end_ms - req.start_ms) as nat),
        ]);
    }
}

/// A plan is refused for its range exactly when the range is empty or
/// reversed, whatever else the request holds.
pub proof fn lemma_range_is_checked_first(req: ConversionRequest)
    ensures
        req.end_ms <= req.start_ms <==> plan(req) == Err::<Seq<Seq<char>>, PlanFailure>(
            PlanFailure::InvalidRange,
        ),
{
}

/// A request that names no codec is given the first codec of the format's
/// list, for video and for audio alike.
pub proof fn lemma_default_codec_is_first(format: Seq<char>)
    ensures
        video_codecs(format).len() > 0 ==> chosen_codec(
            CodecKind::Video,
            format,
            video_codecs(format),
            None,
        ) == Ok::<Seq<char>, PlanFailure>(video_codecs(format)[0]),
        audio_codecs(format).len() > 0 ==> chosen_codec(
            CodecKind::Audio,
            format,
            audio_codecs(format),
            None,
        ) == Ok::<Seq<char>, PlanFailure>(audio_codecs(format)[0]),
        audio_codecs(format).len() > 0 ==> chosen_codec_or_default(audio_codecs(format), None)
            == Some(audio_codecs(format)[0]),
{
}

/// Every format that accepts a video codec has rules for writing it.
pub proof fn lemma_formats_with_video_have_rules(format: Seq<char>)
    ensures
        video_codecs(format).len() > 0 ==> rules_of(format) is Some,
{
}

/// No format forces a video codec other than its default on a request that
/// named none.
pub proof fn lemma_forced_video_codec_is_default(format: Seq<char>)
    requires
        video_codecs(format).len() > 0,
    ensures
        rules_of(format) is Some,
        final_video_codec(rules_of(format)->0, video_codecs(format)[0]) == video_codecs(format)[0],
{
}

/// No plan fails for want of rules: a format without rules has no video
/// codec, and is refused for that.
pub proof fn lemma_plan_never_unsupported(req: ConversionRequest)
    ensures
        !(plan(req) matches Err(PlanFailure::UnsupportedFormat { .. })),
{
    lemma_formats_with_video_have_rules(format_of(req));
}

/// With no video codec named, video is encoded with the first codec of the
/// format's list.
pub proof fn lemma_plan_default_video_codec(req: ConversionRequest)
    requires
        req.start_ms < req.end_ms,
        !req.is_audio_only,
        req.video_codec is None,
        video_codecs(format_of(req)).len() > 0,
    ensures
        rules_of(format_of(req)) is Some,
        plan(req) == Ok::<Seq<Seq<char>>, PlanFailure>(
            input_flags(req) + encoding_flags(
                req,
                rules_of(format_of(req))->0,
                video_codecs(format_of(req))[0],
                chosen_codec_or_default(audio_codecs(format_of(req)), req.audio_codec),
            ) + seq![req.output_path],
        ),
        final_video_codec(rules_of(format_of(req))->0, video_codecs(format_of(req))[0])
            == video_codecs(format_of(req))[0],
{
    lemma_forced_video_codec_is_default(format_of(req));
}

/// With only audio wanted and no audio codec named, audio is encoded with the
/// first codec of the format's list.
pub proof fn lemma_plan_default_audio_codec(req: ConversionRequest)
    requires
        req.start_ms < req.end_ms,
        req.is_audio_only,
        req.audio_codec is None,
        audio_codecs(format_of(req)).len() > 0,
    ensures
        plan(req) == Ok::<Seq<Seq<char>>, PlanFailure>(
            input_flags(req) + (seq!["-vn"@, "-c:a"@, audio_codecs(format_of(req))[0]]
                + audio_bitrate_flags(req.audio_bitrate_kbps)) + seq![req.output_path],
        ),
{
}

/// A video codec that the format does not accept is refused.
pub proof fn lemma_video_codec_must_be_allowed(req: ConversionRequest)
    requires
        req.start_ms < req.end_ms,
        !req.is_audio_only,
        req.video_codec is Some,
        video_codecs(format_of(req)).len() > 0,
        !video_codecs(format_of(req)).contains(req.video_codec->0),
    ensures
        plan(req) == Err::<Seq<Seq<char>>, PlanFailure>(
            PlanFailure::CodecNotAllowed {
                kind: CodecKind::Video,
                codec: req.video_codec->0,
                format: format_of(req),
            },
        ),
{
}

/// Beside video, an audio codec that the format does not accept is not
/// refused: the plan is that of the same request with no audio codec named,
/// which takes the format's first.
pub proof fn lemma_unknown_audio_codec_is_ignored(req: ConversionRequest)
    requires
        !req.is_audio_only,
        req.audio_codec is Some,
        !audio_codecs(format_of(req)).contains(req.audio_codec->0),
    ensures
        plan(req) == plan(ConversionRequest { audio_codec: None, ..req }),
        chosen_codec_or_default(audio_codecs(format_of(req)), req.audio_codec)
            == chosen_codec_or_default(audio_codecs(format_of(req)), None),
        audio_codecs(format_of(req)).len() > 0 ==> chosen_codec_or_default(
            audio_codecs(format_of(req)),
            req.audio_codec,
        ) == Some(audio_codecs(format_of(req))[0]),
{
}

/// A request for MP4 that starts at zero and asks for nothing else is
/// planned as: overwrite, input, duration, H.264 with the medium preset, AAC,
/// fast start, 8-bit 4:2:0 pixels, output.
pub proof fn lemma_plain_mp4_plan(req: ConversionRequest)
    requires
        req.start_ms == 0,
        req.end_ms > 0,
        req.format is None || req.format == Some("mp4"@),
        !req.is_audio_only,
        req.width is None,
        req.height is None,
        req.fps is None,
        req.video_bitrate_kbps is None,
        req.audio_bitrate_kbps is None,
        req.video_codec is None,
        req.audio_codec is None,
    ensures
        plan(req) == Ok::<Seq<Seq<char>>, PlanFailure>(
            seq![
                "-y"@,
                "-i"@,
                req.input_path,
                "-t"@,
                seconds_text(req.end_ms as nat),
                "-c:v"@,
                "libx264"@,
                "-preset"@,
                "medium"@,
                "-c:a"@,
                "aac"@,
                "-movflags"@,
                "+faststart"@,
                "-pix_fmt"@,
                "yuv420p"@,
                req.output_path,
            ],
        ),
{
    lemma_video_codec_names_differ();
    let rules = rules_of("mp4"@)->0;
    let flags = encoding_flags(req, rules, "libx264"@, Some("aac"@));
    assert(flags =~= seq![
        "-c:v"@,
        "libx264"@,
        "-preset"@,
        "medium"@,
        "-c:a"@,
        "aac"@,
        "-movflags"@,
        "+faststart"@,
        "-pix_fmt"@,
        "yuv420p"@,
    ]);
    assert(video_flags(req, "mp4"@) == Ok::<Seq<Seq<char>>, PlanFailure>(flags));
    assert(input_flags(req) =~= seq![
        "-y"@,
        "-i"@,
        req.input_path,
        "-t"@,
        seconds_text(req.end_ms as nat),
    ]);
    assert(input_flags(req) + flags + seq![req.output_path] =~= seq![
        "-y"@,
        "-i"@,
        req.input_path,
        "-t"@,
        seconds_text(req.end_ms as nat),
        "-c:v"@,
        "libx264"@,
        "-preset"@,
        "medium"@,
        "-c:a"@,
        "aac"@,
        "-movflags"@,
        "+faststart"@,
        "-pix_fmt"@,
        "yuv420p"@,
        req.output_path,
    ]);
}

/// A GIF is always planned without audio and without a video bitrate: after
/// the input and the filters come the GIF encoder, the flag that disables
/// audio, the endless loop and 8-bit RGB pixels, whatever bitrates and audio
/// codec the request names.
pub proof fn lemma_gif_plan(req: ConversionRequest)
    requires
        req.start_ms < req.end_ms,
        req.format == Some("gif"@),
        !req.is_audio_only,
        req.video_codec is None || req.video_codec == Some("gif"@),
    ensures
        plan(req) == Ok::<Seq<Seq<char>>, PlanFailure>(
            input_flags(req) + filter_flags(req) + seq![
                "-c:v"@,
                "gif"@,
                "-an"@,
                "-loop"@,
                "0"@,
                "-pix_fmt"@,
                "rgb8"@,
            ] + seq![req.output_path],
        ),
        plan(req)->Ok_0.contains("-an"@),
        plan(req)->Ok_0.contains("-loop"@),
        req.input_path != "-c:a"@ && req.output_path != "-c:a"@ ==> !plan(req)->Ok_0.contains(
            "-c:a"@,
        ),
        req.input_path != "-b:v"@ && req.output_path != "-b:v"@ ==> !plan(req)->Ok_0.contains(
            "-b:v"@,
        ),
        req.input_path != "-b:a"@ && req.output_path != "-b:a"@ ==> !plan(req)->Ok_0.contains(
            "-b:a"@,
        ),
{
    lemma_video_codec_names_differ();
    lemma_container_found_by_name(Container::Gif);
    assert(video_codecs("gif"@) =~= seq!["gif"@]);
    assert(video_codecs("gif"@)[0] == "gif"@);
    let rules = rules_of("gif"@)->0;
    let audio = chosen_codec_or_default(audio_codecs("gif"@), req.audio_codec);
    let fixed = seq!["-c:v"@, "gif"@, "-an"@, "-loop"@, "0"@, "-pix_fmt"@, "rgb8"@];
    let flags = encoding_flags(req, rules, "gif"@, audio);
    assert(flags =~= filter_flags(req) + fixed);
    assert(video_flags(req, "gif"@) == Ok::<Seq<Seq<char>>, PlanFailure>(flags));
    let args = input_flags(req) + filter_flags(req) + fixed + seq![req.output_path];
    assert(input_flags(req) + flags + seq![req.output_path] =~= args);
    let head = (input_flags(req).len() + filter_flags(req).len()) as int;
    assert(args[head + 2] == "-an"@);
    assert(args[head + 3] == "-loop"@);
    lemma_flag_names_differ();
    reveal_strlit("-c:v");
    reveal_strlit("gif");
    reveal_strlit("-an");
    reveal_strlit("-loop");
    reveal_strlit("0");
    reveal_strlit("-pix_fmt");
    reveal_strlit("rgb8");
    assert("-c:v"@[3] == 'v' && "gif"@[0] == 'g' && "-an"@.len() == 3 && "-loop"@.len() == 5);
    assert("0"@.len() == 1 && "-pix_fmt"@.len() == 8 && "rgb8"@[0] == 'r');
    reveal_strlit("-c:a");
    reveal_strlit("-b:a");
    reveal_strlit("-b:v");
    assert("-c:a"@[3] == 'a' && "-b:a"@[1] == 'b' && "-b:v"@[1] == 'b' && "-c:v"@[1] == 'c');
    assert(!fixed.contains("-c:a"@));
    assert(!fixed.contains("-b:v"@));
    assert(!fixed.contains("-b:a"@));
    if req.input_path != "-c:a"@ && req.output_path != "-c:a"@ {
        lemma_flag_is_absent(req, fixed, "-c:a"@);
    }
    if req.input_path != "-b:v"@ && req.output_path != "-b:v"@ {
        lemma_flag_is_absent(req, fixed, "-b:v"@);
    }
    if req.input_path != "-b:a"@ && req.output_path != "-b:a"@ {
        lemma_flag_is_absent(req, fixed, "-b:a"@);
    }
}

/// A WebM is always encoded with VP9 and Opus and never with a preset,
/// whatever audio codec the request names.
pub proof fn lemma_webm_plan(req: ConversionRequest)
    requires
        req.start_ms < req.end_ms,
        req.format == Some("webm"@),
        !req.is_audio_only,
        req.video_codec is None || req.video_codec == Some("libvpx-vp9"@),
    ensures
        plan(req) == Ok::<Seq<Seq<char>>, PlanFailure>(
            input_flags(req) + filter_flags(req) + seq!["-c:v"@, "libvpx-vp9"@]
                + video_bitrate_flags("libvpx-vp9"@, req.video_bitrate_kbps) + seq![
                "-c:a"@,
                "libopus"@,
            ] + audio_bitrate_flags(req.audio_bitrate_kbps) + seq!["-pix_fmt"@, "yuv420p"@]
                + seq![req.output_path],
        ),
        "libvpx-vp9"@ != "gif"@,
        req.input_path != "-preset"@ && req.output_path != "-preset"@ ==> !plan(
            req,
        )->Ok_0.contains("-preset"@),
{
    lemma_video_codec_names_differ();
    lemma_container_found_by_name(Container::Webm);
    assert(video_codecs("webm"@) =~= seq!["libvpx-vp9"@]);
    assert(video_codecs("webm"@)[0] == "libvpx-vp9"@);
    let rules = rules_of("webm"@)->0;
    let audio = chosen_codec_or_default(audio_codecs("webm"@), req.audio_codec);
    let flags = encoding_flags(req, rules, "libvpx-vp9"@, audio);
    let shown = filter_flags(req) + seq!["-c:v"@, "libvpx-vp9"@] + video_bitrate_flags(
        "libvpx-vp9"@,
        req.video_bitrate_kbps,
    ) + seq!["-c:a"@, "libopus"@] + audio_bitrate_flags(req.audio_bitrate_kbps) + seq![
        "-pix_fmt"@,
        "yuv420p"@,
    ];
    assert(flags =~= shown);
    assert(video_flags(req, "webm"@) == Ok::<Seq<Seq<char>>, PlanFailure>(flags));
    assert(input_flags(req) + flags + seq![req.output_path] =~= input_flags(req) + filter_flags(
        req,
    ) + seq!["-c:v"@, "libvpx-vp9"@] + video_bitrate_flags("libvpx-vp9"@, req.video_bitrate_kbps)
        + seq!["-c:a"@, "libopus"@] + audio_bitrate_flags(req.audio_bitrate_kbps) + seq![
        "-pix_fmt"@,
        "yuv420p"@,
    ] + seq![req.output_path]);
    if req.input_path != "-preset"@ && req.output_path != "-preset"@ {
        let rest = seq!["-c:v"@, "libvpx-vp9"@] + video_bitrate_flags(
            "libvpx-vp9"@,
            req.video_bitrate_kbps,
        ) + seq!["-c:a"@, "libopus"@] + audio_bitrate_flags(req.audio_bitrate_kbps) + seq![
            "-pix_fmt"@,
            "yuv420p"@,
        ];
        lemma_flag_names_differ();
        reveal_strlit("-c:v");
        reveal_strlit("libvpx-vp9");
        reveal_strlit("-b:v");
        reveal_strlit("-c:a");
        reveal_strlit("libopus");
        reveal_strlit("-b:a");
        reveal_strlit("-pix_fmt");
        reveal_strlit("yuv420p");
        reveal_strlit("-preset");
        assert("-c:v"@.len() == 4 && "libvpx-vp9"@[0] == 'l' && "-b:v"@.len() == 4);
        assert("-c:a"@.len() == 4 && "libopus"@[0] == 'l' && "-b:a"@.len() == 4);
        assert("-pix_fmt"@.len() == 8 && "yuv420p"@[0] == 'y' && "-preset"@[0] == '-');
        if req.video_bitrate_kbps is Some {
            lemma_bitrate_starts_with_digit(req.video_bitrate_kbps->0 as nat);
        }
        if req.audio_bitrate_kbps is Some {
            lemma_bitrate_starts_with_digit(req.audio_bitrate_kbps->0 as nat);
        }
        assert forall|i: int| 0 <= i < rest.len() implies rest[i] != "-preset"@ by {
            let a = seq!["-c:v"@, "libvpx-vp9"@];
            let b = video_bitrate_flags("libvpx-vp9"@, req.video_bitrate_kbps);
            let c = seq!["-c:a"@, "libopus"@];
            let d = audio_bitrate_flags(req.audio_bitrate_kbps);
            let e = seq!["-pix_fmt"@, "yuv420p"@];
            if i < 2 {
                assert(rest[i] == a[i]);
            } else if i < 2 + b.len() {
                assert(rest[i] == b[i - 2]);
            } else if i < 4 + b.len() {
                assert(rest[i] == c[i - 2 - b.len()]);
            } else if i < 4 + b.len() + d.len() {
                assert(rest[i] == d[i - 4 - b.len()]);
            } else {
                assert(rest[i] == e[i - 4 - b.len() - d.len()]);
            }
        }
        lemma_flag_is_absent(req, rest, "-preset"@);
        assert(input_flags(req) + filter_flags(req) + rest + seq![req.output_path] =~= input_flags(
            req,
        ) + flags + seq![req.output_path]);
    }
}

/// For WebM, any video codec but VP9 is refused.
pub proof fn lemma_webm_accepts_only_vp9(req: ConversionRequest)
    requires
        req.start_ms < req.end_ms,
        req.format == Some("webm"@),
        !req.is_audio_only,
        req.video_codec is Some,
        req.video_codec != Some("libvpx-vp9"@),
    ensures
        plan(req) == Err::<Seq<Seq<char>>, PlanFailure>(
            PlanFailure::CodecNotAllowed {
                kind: CodecKind::Video,
                codec: req.video_codec->0,
                format: "webm"@,
            },
        ),
{
    lemma_container_found_by_name(Container::Webm);
    assert(video_codecs("webm"@) =~= seq!["libvpx-vp9"@]);
}

/// The stream from which the picture is described is the first in the list
/// that carries video; there is none exactly when no stream carries video.
pub proof fn lemma_first_video_is_first<T>(streams: Seq<StreamModel<T>>)
    ensures
        first_video(streams) is None <==> forall|i: int|
            0 <= i < streams.len() ==> !is_video(#[trigger] streams[i]),
        first_video(streams) is Some ==> exists|i: int|
            0 <= i < streams.len() && #[trigger] streams[i] == first_video(streams)->0 && is_video(
                streams[i],
            ) && forall|j: int| 0 <= j < i ==> !is_video(#[trigger] streams[j]),
    decreases streams.len(),
{
    if streams.len() > 0 {
        if is_video(streams[0]) {
            assert(streams[0] == first_video(streams)->0);
        } else {
            let rest = streams.drop_first();
            lemma_first_video_is_first(rest);
            assert(forall|i: int| 0 <= i < rest.len() ==> rest[i] == streams[i + 1]);
            if first_video(rest) is Some {
                let k = choose|i: int|
                    0 <= i < rest.len() && #[trigger] rest[i] == first_video(rest)->0 && is_video(
                        rest[i],
                    ) && forall|j: int| 0 <= j < i ==> !is_video(#[trigger] rest[j]);
                assert(streams[k + 1] == first_video(streams)->0);
                assert forall|j: int| 0 <= j < k + 1 implies !is_video(#[trigger] streams[j]) by {
                    if j > 0 {
                        assert(streams[j] == rest[j - 1]);
                    }
                }
            } else {
                assert forall|i: int| 0 <= i < streams.len() implies !is_video(
                    #[trigger] streams[i],
                ) by {
                    if i > 0 {
                        assert(streams[i] == rest[i - 1]);
                    }
                }
            }
        }
    }
}

/// Media without a video stream is described as audio only: no picture size
/// and no frame rate, whatever the streams hold, and the duration as given.
pub proof fn lemma_no_video_no_picture<T>(report: ReportModel<T>)
    requires
        report.format is Some,
        report.format->0.duration is Some,
        report.streams is Some,
        forall|i: int|
            0 <= i < report.streams->0.len() ==> !is_video(#[trigger] report.streams->0[i]),
    ensures
        media_info(report) is Ok,
        !media_info(report)->Ok_0.has_video,
        media_info(report)->Ok_0.width is None,
        media_info(report)->Ok_0.height is None,
        media_info(report)->Ok_0.fps is None,
        media_info(report)->Ok_0.duration_seconds == report.format->0.duration->0,
{
    lemma_first_video_is_first(report.streams->0);
}

/// Every description is well formed.
pub proof fn lemma_description_is_well_formed<T>(report: ReportModel<T>)
    ensures
        media_info(report) is Ok ==> media_info(report)->Ok_0.well_formed(),
{
}

} // verus!
