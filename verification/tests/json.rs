use media_plan::json::{read_probe_output, read_probe_report, MalformedOutput};
use media_plan::probe::{
    parse_media_info, split_frame_rate, FormatSection, MediaInfo, ProbeError, ProbeField,
    ProbeReport, RateTerms, StreamEntry,
};

fn rate(text: &str) -> Option<f64> {
    match split_frame_rate(text) {
        RateTerms::Single(term) => term.parse::<f64>().ok(),
        RateTerms::Ratio { numerator, denominator } => {
            let n = numerator.parse::<f64>().ok()?;
            let d = denominator.parse::<f64>().ok()?;
            if d == 0.0 {
                None
            } else {
                Some(n / d)
            }
        }
    }
}

fn evaluated(report: ProbeReport<String>) -> ProbeReport<f64> {
    ProbeReport {
        format: report.format.map(|f| FormatSection {
            duration: f.duration.and_then(|d| d.parse::<f64>().ok()),
            bit_rate: f.bit_rate,
        }),
        streams: report.streams.map(|streams| {
            streams
                .into_iter()
                .map(|s| StreamEntry {
                    codec_type: s.codec_type,
                    width: s.width,
                    height: s.height,
                    avg_frame_rate: s.avg_frame_rate.and_then(|r| rate(&r)),
                    r_frame_rate: s.r_frame_rate.and_then(|r| rate(&r)),
                    bit_rate: s.bit_rate,
                })
                .collect()
        }),
    }
}

fn analyze(json: &str) -> Result<MediaInfo<f64>, ProbeError> {
    parse_media_info(evaluated(read_probe_output(json.as_bytes()).unwrap()))
}

const MOVIE: &str = r#"{
    "streams": [
        {"index": 0, "codec_type": "audio", "bit_rate": "128000", "avg_frame_rate": "0/0"},
        {"index": 1, "codec_type": "video", "width": 1280, "height": 720,
         "avg_frame_rate": "30000/1001", "r_frame_rate": "30/1", "bit_rate": "2500000"},
        {"index": 2, "codec_type": "video", "width": 64, "height": 48}
    ],
    "format": {"filename": "a.mp4", "duration": "12.345000", "bit_rate": "2700500"}
}"#;

#[test]
fn report_is_read_field_by_field() {
    let report = read_probe_output(MOVIE.as_bytes()).unwrap();
    assert_eq!(
        report.format,
        Some(FormatSection {
            duration: Some("12.345000".to_string()),
            bit_rate: Some("2700500".to_string()),
        })
    );
    assert_eq!(
        report.streams,
        Some(vec![
            StreamEntry {
                codec_type: Some("audio".to_string()),
                width: None,
                height: None,
                avg_frame_rate: Some("0/0".to_string()),
                r_frame_rate: None,
                bit_rate: Some("128000".to_string()),
            },
            StreamEntry {
                codec_type: Some("video".to_string()),
                width: Some(1280),
                height: Some(720),
                avg_frame_rate: Some("30000/1001".to_string()),
                r_frame_rate: Some("30/1".to_string()),
                bit_rate: Some("2500000".to_string()),
            },
            StreamEntry {
                codec_type: Some("video".to_string()),
                width: Some(64),
                height: Some(48),
                avg_frame_rate: None,
                r_frame_rate: None,
                bit_rate: None,
            },
        ])
    );
}

#[test]
fn decoded_document_is_read_alike() {
    let document: serde_json::Value = serde_json::from_str(MOVIE).unwrap();
    assert_eq!(read_probe_report(&document), read_probe_output(MOVIE.as_bytes()).unwrap());
}

#[test]
fn movie_is_described() {
    let info = analyze(MOVIE).unwrap();
    assert_eq!(info.duration_seconds, 12.345);
    assert_eq!(info.width, Some(1280));
    assert_eq!(info.height, Some(720));
    assert!((info.fps.unwrap() - 29.97).abs() < 0.001);
    assert_eq!(info.bitrate_kbps, Some(2700));
    assert!(info.has_video);
}

#[test]
fn audio_file_is_described() {
    let info = analyze(
        r#"{"format": {"duration": "3.5"}, "streams": [{"codec_type": "audio", "width": 5,
            "avg_frame_rate": "25/1", "bit_rate": "64000"}]}"#,
    )
    .unwrap();
    assert_eq!(
        info,
        MediaInfo {
            duration_seconds: 3.5,
            width: None,
            height: None,
            fps: None,
            bitrate_kbps: None,
            has_video: false,
        }
    );
}

#[test]
fn declared_rate_is_used_when_the_average_is_zero_over_zero() {
    let info = analyze(
        r#"{"format": {"duration": "1"}, "streams": [{"codec_type": "video",
            "avg_frame_rate": "0/0", "r_frame_rate": "25"}]}"#,
    )
    .unwrap();
    assert_eq!(info.fps, Some(25.0));
}

#[test]
fn stream_bit_rate_is_used_without_a_container_bit_rate() {
    let info = analyze(
        r#"{"format": {"duration": "1"}, "streams": [{"codec_type": "video",
            "bit_rate": "1999999"}]}"#,
    )
    .unwrap();
    assert_eq!(info.bitrate_kbps, Some(1999));
}

#[test]
fn missing_parts_are_reported_in_order() {
    assert_eq!(analyze(r#"{}"#), Err(ProbeError::MissingSection));
    assert_eq!(analyze(r#"{"streams": []}"#), Err(ProbeError::MissingSection));
    assert_eq!(analyze(r#"[1, 2]"#), Err(ProbeError::MissingSection));
    assert_eq!(
        analyze(r#"{"format": {}}"#),
        Err(ProbeError::MissingField(ProbeField::Duration))
    );
    assert_eq!(
        analyze(r#"{"format": 5, "streams": []}"#),
        Err(ProbeError::MissingField(ProbeField::Duration))
    );
    assert_eq!(
        analyze(r#"{"format": {"duration": 12.5}, "streams": []}"#),
        Err(ProbeError::MissingField(ProbeField::Duration))
    );
    assert_eq!(
        analyze(r#"{"format": {"duration": "soon"}, "streams": []}"#),
        Err(ProbeError::MissingField(ProbeField::Duration))
    );
    assert_eq!(
        analyze(r#"{"format": {"duration": "2"}}"#),
        Err(ProbeError::MissingField(ProbeField::Streams))
    );
    assert_eq!(
        analyze(r#"{"format": {"duration": "2"}, "streams": {"0": {}}}"#),
        Err(ProbeError::MissingField(ProbeField::Streams))
    );
}

#[test]
fn fields_of_another_kind_are_absent() {
    let report = read_probe_output(
        br#"{"format": {"duration": 7, "bit_rate": 9},
             "streams": [{"codec_type": 1, "width": "640", "height": -3,
                          "avg_frame_rate": 25, "r_frame_rate": null, "bit_rate": ["1"]},
                         "video", 4]}"#,
    )
    .unwrap();
    let empty = StreamEntry {
        codec_type: None,
        width: None,
        height: None,
        avg_frame_rate: None,
        r_frame_rate: None,
        bit_rate: None,
    };
    assert_eq!(report.format, Some(FormatSection { duration: None, bit_rate: None }));
    assert_eq!(report.streams, Some(vec![empty.clone(), empty.clone(), empty]));
}

#[test]
fn output_that_is_no_json_is_refused() {
    for bytes in [&b""[..], b"{", b"{\"format\": }", b"not json", b"{} {}", b"\xff\xfe"] {
        let e = read_probe_output(bytes).unwrap_err();
        assert!(!e.reason.is_empty());
        assert_eq!(e.message(), format!("Failed to parse ffprobe JSON: {}", e.reason));
    }
}

#[test]
fn reason_is_the_decoder_s_message() {
    let expected = serde_json::from_slice::<serde_json::Value>(b"[1,").unwrap_err().to_string();
    assert_eq!(read_probe_output(b"[1,"), Err(MalformedOutput { reason: expected }));
}
