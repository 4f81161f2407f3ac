use media_plan::number::parse_u64;
use media_plan::probe::{
    parse_media_info, split_frame_rate, FormatSection, MediaInfo, ProbeError, ProbeField,
    ProbeReport, RateTerms, StreamEntry,
};

fn stream(kind: Option<&str>) -> StreamEntry<f64> {
    StreamEntry {
        codec_type: kind.map(|k| k.to_string()),
        width: None,
        height: None,
        avg_frame_rate: None,
        r_frame_rate: None,
        bit_rate: None,
    }
}

fn report(streams: Vec<StreamEntry<f64>>) -> ProbeReport<f64> {
    ProbeReport {
        format: Some(FormatSection { duration: Some(12.5), bit_rate: None }),
        streams: Some(streams),
    }
}

fn evaluate(rate: &str) -> Option<f64> {
    match split_frame_rate(rate) {
        RateTerms::Single(term) => term.parse::<f64>().ok(),
        RateTerms::Ratio { numerator, denominator } => {
            let n = numerator.parse::<f64>().ok()?;
            let d = denominator.parse::<f64>().ok()?;
            if d == 0.0 {
                None
            } else {
                Some(n / d)
            }
        }
    }
}

#[test]
fn format_section_is_required() {
    let r: ProbeReport<f64> = ProbeReport { format: None, streams: Some(vec![]) };
    assert_eq!(parse_media_info(r), Err(ProbeError::MissingSection));
    let r: ProbeReport<f64> = ProbeReport { format: None, streams: None };
    assert_eq!(parse_media_info(r), Err(ProbeError::MissingSection));
    assert_eq!(ProbeError::MissingSection.message(), "Missing format section");
}

#[test]
fn duration_is_required() {
    let r: ProbeReport<f64> = ProbeReport {
        format: Some(FormatSection { duration: None, bit_rate: Some("1000".to_string()) }),
        streams: None,
    };
    let e = parse_media_info(r).unwrap_err();
    assert_eq!(e, ProbeError::MissingField(ProbeField::Duration));
    assert_eq!(e.message(), "Missing duration");
}

#[test]
fn stream_list_is_required() {
    let r: ProbeReport<f64> = ProbeReport {
        format: Some(FormatSection { duration: Some(1.0), bit_rate: None }),
        streams: None,
    };
    let e = parse_media_info(r).unwrap_err();
    assert_eq!(e, ProbeError::MissingField(ProbeField::Streams));
    assert_eq!(e.message(), "Missing streams");
}

#[test]
fn no_streams_is_audio_only() {
    assert_eq!(
        parse_media_info(report(vec![])),
        Ok(MediaInfo {
            duration_seconds: 12.5,
            width: None,
            height: None,
            fps: None,
            bitrate_kbps: None,
            has_video: false,
        })
    );
}

#[test]
fn without_video_stream_nothing_of_the_picture_is_known() {
    let mut audio = stream(Some("audio"));
    audio.width = Some(640);
    audio.height = Some(480);
    audio.avg_frame_rate = Some(25.0);
    audio.r_frame_rate = Some(25.0);
    audio.bit_rate = Some("128000".to_string());
    let mut untyped = stream(None);
    untyped.width = Some(1);
    let info = parse_media_info(report(vec![audio, untyped, stream(Some("Video"))])).unwrap();
    assert_eq!(
        info,
        MediaInfo {
            duration_seconds: 12.5,
            width: None,
            height: None,
            fps: None,
            bitrate_kbps: None,
            has_video: false,
        }
    );
}

#[test]
fn first_video_stream_is_described() {
    let mut first = stream(Some("video"));
    first.width = Some(1920);
    first.height = Some(1080);
    first.avg_frame_rate = Some(29.97);
    first.r_frame_rate = Some(30.0);
    first.bit_rate = Some("4000999".to_string());
    let mut second = stream(Some("video"));
    second.width = Some(640);
    second.height = Some(360);
    second.avg_frame_rate = Some(10.0);
    let info = parse_media_info(report(vec![stream(Some("audio")), first, second])).unwrap();
    assert_eq!(
        info,
        MediaInfo {
            duration_seconds: 12.5,
            width: Some(1920),
            height: Some(1080),
            fps: Some(29.97),
            bitrate_kbps: Some(4000),
            has_video: true,
        }
    );
}

#[test]
fn declared_rate_stands_in_for_the_average() {
    let mut video = stream(Some("video"));
    video.r_frame_rate = Some(25.0);
    let info = parse_media_info(report(vec![video])).unwrap();
    assert_eq!(info.fps, Some(25.0));
    assert!(info.has_video);
    assert_eq!(info.width, None);
    assert_eq!(info.height, None);
}

#[test]
fn video_without_rates_has_no_frame_rate() {
    let mut video = stream(Some("video"));
    video.width = Some(320);
    let info = parse_media_info(report(vec![video])).unwrap();
    assert_eq!(info.fps, None);
    assert_eq!(info.width, Some(320));
    assert_eq!(info.height, None);
    assert!(info.has_video);
}

#[test]
fn dimensions_keep_their_low_32_bits() {
    let mut video = stream(Some("video"));
    video.width = Some(u32::MAX as u64);
    video.height = Some((1u64 << 32) + 7);
    let info = parse_media_info(report(vec![video])).unwrap();
    assert_eq!(info.width, Some(u32::MAX));
    assert_eq!(info.height, Some(7));
}

#[test]
fn container_bit_rate_is_preferred() {
    let mut video = stream(Some("video"));
    video.bit_rate = Some("5000000".to_string());
    let mut r = report(vec![video]);
    r.format = Some(FormatSection { duration: Some(3.0), bit_rate: Some("1234567".to_string()) });
    let info = parse_media_info(r).unwrap();
    assert_eq!(info.bitrate_kbps, Some(1234));
    assert_eq!(info.duration_seconds, 3.0);
}

#[test]
fn unreadable_container_bit_rate_falls_back_to_the_stream() {
    let mut video = stream(Some("video"));
    video.bit_rate = Some("999".to_string());
    let mut r = report(vec![video]);
    r.format = Some(FormatSection { duration: Some(3.0), bit_rate: Some("N/A".to_string()) });
    assert_eq!(parse_media_info(r).unwrap().bitrate_kbps, Some(0));
}

#[test]
fn audio_stream_bit_rate_is_not_used() {
    let mut audio = stream(Some("audio"));
    audio.bit_rate = Some("128000".to_string());
    assert_eq!(parse_media_info(report(vec![audio])).unwrap().bitrate_kbps, None);
}

#[test]
fn container_bit_rate_without_video() {
    let mut r = report(vec![stream(Some("audio"))]);
    r.format = Some(FormatSection { duration: Some(3.0), bit_rate: Some("320000".to_string()) });
    let info = parse_media_info(r).unwrap();
    assert_eq!(info.bitrate_kbps, Some(320));
    assert!(!info.has_video);
}

#[test]
fn numbers_may_be_of_any_type() {
    let r: ProbeReport<String> = ProbeReport {
        format: Some(FormatSection { duration: Some("1.5".to_string()), bit_rate: None }),
        streams: Some(vec![StreamEntry {
            codec_type: Some("video".to_string()),
            width: Some(2),
            height: Some(3),
            avg_frame_rate: None,
            r_frame_rate: Some("24/1".to_string()),
            bit_rate: None,
        }]),
    };
    let info = parse_media_info(r).unwrap();
    assert_eq!(info.duration_seconds, "1.5");
    assert_eq!(info.fps, Some("24/1".to_string()));
}

#[test]
fn splitting_a_ratio() {
    assert_eq!(
        split_frame_rate("30000/1001"),
        RateTerms::Ratio { numerator: "30000".to_string(), denominator: "1001".to_string() }
    );
    assert_eq!(
        split_frame_rate("0/0"),
        RateTerms::Ratio { numerator: "0".to_string(), denominator: "0".to_string() }
    );
    assert_eq!(
        split_frame_rate("/"),
        RateTerms::Ratio { numerator: "".to_string(), denominator: "".to_string() }
    );
    assert_eq!(
        split_frame_rate("1/2/3"),
        RateTerms::Ratio { numerator: "1".to_string(), denominator: "2/3".to_string() }
    );
    assert_eq!(
        split_frame_rate("é/ü"),
        RateTerms::Ratio { numerator: "é".to_string(), denominator: "ü".to_string() }
    );
}

#[test]
fn splitting_a_single_term() {
    assert_eq!(split_frame_rate("25"), RateTerms::Single("25".to_string()));
    assert_eq!(split_frame_rate(""), RateTerms::Single("".to_string()));
    assert_eq!(split_frame_rate("23.976"), RateTerms::Single("23.976".to_string()));
}

#[test]
fn split_agrees_with_split_once() {
    for rate in ["30000/1001", "25", "", "/", "a/", "/b", "1/2/3", "//", "x/y/", "é/ü/ö"] {
        let expected = match rate.split_once('/') {
            Some((n, d)) => {
                RateTerms::Ratio { numerator: n.to_string(), denominator: d.to_string() }
            }
            None => RateTerms::Single(rate.to_string()),
        };
        assert_eq!(split_frame_rate(rate), expected);
    }
}

#[test]
fn frame_rates_evaluated_from_their_terms() {
    let ntsc = evaluate("30000/1001").unwrap();
    assert!((ntsc - 29.97).abs() < 0.001);
    assert_eq!(evaluate("0/0"), None);
    assert_eq!(evaluate("25"), Some(25.0));
    assert_eq!(evaluate("25/x"), None);
    assert_eq!(evaluate(""), None);
}

#[test]
fn unusable_average_rate_falls_back_to_the_declared_rate() {
    let mut video = stream(Some("video"));
    video.avg_frame_rate = evaluate("0/0");
    video.r_frame_rate = evaluate("25/1");
    assert_eq!(parse_media_info(report(vec![video])).unwrap().fps, Some(25.0));

    let mut video = stream(Some("video"));
    video.avg_frame_rate = evaluate("0/0");
    video.r_frame_rate = evaluate("n/a");
    assert_eq!(parse_media_info(report(vec![video])).unwrap().fps, None);
}

#[test]
fn reading_unsigned_integers() {
    assert_eq!(parse_u64("0"), Some(0));
    assert_eq!(parse_u64("007"), Some(7));
    assert_eq!(parse_u64("+15"), Some(15));
    assert_eq!(parse_u64("128000"), Some(128000));
    assert_eq!(parse_u64("18446744073709551615"), Some(u64::MAX));
    assert_eq!(parse_u64("18446744073709551616"), None);
    assert_eq!(parse_u64("99999999999999999999999"), None);
    assert_eq!(parse_u64(""), None);
    assert_eq!(parse_u64("+"), None);
    assert_eq!(parse_u64("++1"), None);
    assert_eq!(parse_u64("1+"), None);
    assert_eq!(parse_u64("-1"), None);
    assert_eq!(parse_u64("-0"), None);
    assert_eq!(parse_u64(" 1"), None);
    assert_eq!(parse_u64("1 "), None);
    assert_eq!(parse_u64("1_000"), None);
    assert_eq!(parse_u64("1.0"), None);
    assert_eq!(parse_u64("12a"), None);
    assert_eq!(parse_u64("٣"), None);
    assert_eq!(parse_u64("99999999999999999999x"), None);
}

#[test]
fn reading_agrees_with_the_standard_parser() {
    for text in [
        "0", "1", "+1", "-1", "", "+", "00", "+00", "18446744073709551615",
        "18446744073709551616", "1844674407370955161", "184467440737095516150", "a", "1a", "+-1",
        "４２", "42\n",
    ] {
        assert_eq!(parse_u64(text), text.parse::<u64>().ok());
    }
}
