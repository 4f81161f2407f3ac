use media_plan::formats::{audio_codecs_for_format, video_codecs_for_format, Container};
use media_plan::rules::AudioOverride;
use media_plan::text::{decimal_text, digit_text, has_text, text_eq};

#[test]
fn video_codecs_of_each_format() {
    assert_eq!(video_codecs_for_format("mp4"), vec!["libx264", "libx265"]);
    assert_eq!(video_codecs_for_format("mov"), vec!["libx264", "libx265", "prores_ks", "mjpeg"]);
    assert_eq!(
        video_codecs_for_format("mkv"),
        vec!["libx264", "libx265", "libvpx-vp9", "prores_ks", "mjpeg"]
    );
    assert_eq!(video_codecs_for_format("webm"), vec!["libvpx-vp9"]);
    assert_eq!(video_codecs_for_format("avi"), vec!["libx264", "mjpeg"]);
    assert_eq!(video_codecs_for_format("flv"), vec!["libx264"]);
    assert_eq!(video_codecs_for_format("gif"), vec!["gif"]);
    for format in ["mp3", "wav", "flac", "m4a", "aac", "ogg", "opus", "", "Mp4", "mp4 ", "zip"] {
        assert!(video_codecs_for_format(format).is_empty());
    }
}

#[test]
fn audio_codecs_of_each_format() {
    assert_eq!(audio_codecs_for_format("mp4"), vec!["aac", "libmp3lame"]);
    assert_eq!(audio_codecs_for_format("mov"), vec!["aac"]);
    assert_eq!(
        audio_codecs_for_format("mkv"),
        vec!["aac", "libopus", "libvorbis", "libmp3lame", "flac"]
    );
    assert_eq!(audio_codecs_for_format("webm"), vec!["libopus", "libvorbis"]);
    assert_eq!(audio_codecs_for_format("avi"), vec!["libmp3lame"]);
    assert_eq!(audio_codecs_for_format("flv"), vec!["aac"]);
    assert!(audio_codecs_for_format("gif").is_empty());
    assert_eq!(audio_codecs_for_format("mp3"), vec!["libmp3lame"]);
    assert_eq!(audio_codecs_for_format("wav"), vec!["pcm_s16le"]);
    assert_eq!(audio_codecs_for_format("flac"), vec!["flac"]);
    assert_eq!(audio_codecs_for_format("m4a"), vec!["aac"]);
    assert_eq!(audio_codecs_for_format("aac"), vec!["aac"]);
    assert_eq!(audio_codecs_for_format("ogg"), vec!["libvorbis"]);
    assert_eq!(audio_codecs_for_format("opus"), vec!["libopus"]);
    for format in ["", "MP3", "zip"] {
        assert!(audio_codecs_for_format(format).is_empty());
    }
}

#[test]
fn containers_by_name() {
    assert_eq!(Container::from_name("mp4"), Some(Container::Mp4));
    assert_eq!(Container::from_name("mov"), Some(Container::Mov));
    assert_eq!(Container::from_name("mkv"), Some(Container::Mkv));
    assert_eq!(Container::from_name("webm"), Some(Container::Webm));
    assert_eq!(Container::from_name("avi"), Some(Container::Avi));
    assert_eq!(Container::from_name("flv"), Some(Container::Flv));
    assert_eq!(Container::from_name("gif"), Some(Container::Gif));
    assert_eq!(Container::from_name("mp3"), Some(Container::Mp3));
    assert_eq!(Container::from_name("wav"), Some(Container::Wav));
    assert_eq!(Container::from_name("flac"), Some(Container::Flac));
    assert_eq!(Container::from_name("m4a"), Some(Container::M4a));
    assert_eq!(Container::from_name("aac"), Some(Container::Aac));
    assert_eq!(Container::from_name("ogg"), Some(Container::Ogg));
    assert_eq!(Container::from_name("opus"), Some(Container::Opus));
    assert_eq!(Container::from_name("mp"), None);
    assert_eq!(Container::from_name("mp44"), None);
    assert_eq!(Container::from_name(""), None);
}

#[test]
fn rules_of_each_container() {
    let mp4 = Container::Mp4.overrides().unwrap();
    assert_eq!(mp4.video_codec, None);
    assert_eq!(mp4.audio, AudioOverride::Keep);
    assert!(mp4.preset);
    assert_eq!(mp4.pixel_format, None);
    assert_eq!(mp4.flags, vec!["-movflags", "+faststart"]);
    assert_eq!(Container::Mov.overrides(), Some(mp4));

    let mkv = Container::Mkv.overrides().unwrap();
    assert_eq!(mkv.audio, AudioOverride::Keep);
    assert!(mkv.flags.is_empty());

    let webm = Container::Webm.overrides().unwrap();
    assert_eq!(webm.video_codec, Some("libvpx-vp9"));
    assert_eq!(webm.audio, AudioOverride::Force("libopus"));
    assert!(!webm.preset);

    assert_eq!(Container::Avi.overrides().unwrap().audio, AudioOverride::Force("mp3"));
    assert_eq!(Container::Flv.overrides().unwrap().audio, AudioOverride::Force("aac"));

    let gif = Container::Gif.overrides().unwrap();
    assert_eq!(gif.video_codec, Some("gif"));
    assert_eq!(gif.audio, AudioOverride::Remove);
    assert!(!gif.preset);
    assert_eq!(gif.pixel_format, Some("rgb8"));
    assert_eq!(gif.flags, vec!["-an", "-loop", "0"]);

    for audio in [
        Container::Mp3,
        Container::Wav,
        Container::Flac,
        Container::M4a,
        Container::Aac,
        Container::Ogg,
        Container::Opus,
    ] {
        assert_eq!(audio.overrides(), None);
        assert!(audio.video_codec_names().is_empty());
    }
}

#[test]
fn every_format_with_video_has_rules() {
    for name in ["mp4", "mov", "mkv", "webm", "avi", "flv", "gif"] {
        assert!(!video_codecs_for_format(name).is_empty());
        assert!(Container::from_name(name).unwrap().overrides().is_some());
    }
}

#[test]
fn decimal_numerals() {
    assert_eq!(decimal_text(0), "0");
    assert_eq!(decimal_text(7), "7");
    assert_eq!(decimal_text(10), "10");
    assert_eq!(decimal_text(1_234_567_890), "1234567890");
    assert_eq!(decimal_text(u64::MAX), "18446744073709551615");
    for d in 0..10u64 {
        assert_eq!(digit_text(d), d.to_string());
    }
}

#[test]
fn comparing_text() {
    assert!(text_eq("", ""));
    assert!(text_eq("mp4", "mp4"));
    assert!(!text_eq("mp4", "mp3"));
    assert!(!text_eq("mp4", "mp"));
    assert!(!text_eq("mp", "mp4"));
    assert!(text_eq("é/ü", "é/ü"));
    assert!(!text_eq("é", "e"));
    assert!(has_text(&vec!["a", "b"], "b"));
    assert!(!has_text(&vec!["a", "b"], "ab"));
    assert!(!has_text(&vec![], ""));
}
