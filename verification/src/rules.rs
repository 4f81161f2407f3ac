//! What a container format forces on a video encoding, whatever codecs were
//! chosen before: codecs, pixel format and container flags.

use vstd::prelude::*;
use crate::formats::Container;

verus! {

/// What a format does to the audio codec that was chosen.
pub enum AudioRule {
    /// The chosen codec stays.
    Keep,
    /// This codec replaces the chosen one.
    Force(Seq<char>),
    /// The output has no audio.
    Remove,
}

/// The rules of one format, as mathematical values.
pub struct FormatRules {
    /// The video codec that replaces the chosen one, if any.
    pub video_codec: Option<Seq<char>>,
    pub audio: AudioRule,
    /// Whether an encoder preset may be written.
    pub preset: bool,
    /// The pixel format that replaces the codec's own, if any.
    pub pixel_format: Option<Seq<char>>,
    /// Flags that the format adds.
    pub flags: Seq<Seq<char>>,
}

/// What a format does to the audio codec that was chosen.
#[derive(Clone, Copy, Debug, PartialEq, Eq)]
pub enum AudioOverride {
    Keep,
    Force(&'static str),
    Remove,
}

impl View for AudioOverride {
    type V = AudioRule;

    open spec fn view(&self) -> AudioRule {
        match *self {
            AudioOverride::Keep => AudioRule::Keep,
            AudioOverride::Force(codec) => AudioRule::Force(codec@),
            AudioOverride::Remove => AudioRule::Remove,
        }
    }
}

/// The rules of one format.
#[derive(Clone, Debug, PartialEq, Eq)]
pub struct FormatOverrides {
    pub video_codec: Option<&'static str>,
    pub audio: AudioOverride,
    pub preset: bool,
    pub pixel_format: Option<&'static str>,
    pub flags: Vec<&'static str>,
}

/// The characters of an optional string slice.
pub open spec fn slice_text_of(s: Option<&str>) -> Option<Seq<char>> {
    match s {
        Some(t) => Some(t@),
        None => None,
    }
}

impl View for FormatOverrides {
    type V = FormatRules;

    open spec fn view(&self) -> FormatRules {
        FormatRules {
            video_codec: slice_text_of(self.video_codec),
            audio: self.audio@,
            preset: self.preset,
            pixel_format: slice_text_of(self.pixel_format),
            flags: self.flags.deep_view(),
        }
    }
}

/// Rules that change nothing and add `flags`.
pub open spec fn plain_rules(flags: Seq<Seq<char>>) -> FormatRules {
    FormatRules {
        video_codec: None,
        audio: AudioRule::Keep,
        preset: true,
        pixel_format: None,
        flags,
    }
}

impl Container {
    /// The rules of the container; none for a container that holds no video.
    pub open spec fn rules(self) -> Option<FormatRules> {
        match self {
            Container::Mp4 | Container::Mov => Some(plain_rules(seq!["-movflags"@, "+faststart"@])),
            Container::Mkv => Some(plain_rules(seq![])),
            Container::Webm => Some(
                FormatRules {
                    video_codec: Some("libvpx-vp9"@),
                    audio: AudioRule::Force("libopus"@),
                    preset: false,
                    pixel_format: None,
                    flags: seq![],
                },
            ),
            Container::Avi => Some(
                FormatRules { audio: AudioRule::Force("mp3"@), ..plain_rules(seq![]) },
            ),
            Container::Flv => Some(
                FormatRules { audio: AudioRule::Force("aac"@), ..plain_rules(seq![]) },
            ),
            Container::Gif => Some(
                FormatRules {
                    video_codec: Some("gif"@),
                    audio: AudioRule::Remove,
                    preset: false,
                    pixel_format: Some("rgb8"@),
                    flags: seq!["-an"@, "-loop"@, "0"@],
                },
            ),
            _ => None,
        }
    }

    /// The rules of the container; none for a container that holds no video.
    pub fn overrides(self) -> (r: Option<FormatOverrides>)
        ensures
            (match r {
                Some(o) => self.rules() == Some(o@),
                None => self.rules() is None,
            }),
    {
        let r = match self {
            Container::Mp4 | Container::Mov => Some(
                FormatOverrides {
                    video_codec: None,
                    audio: AudioOverride::Keep,
                    preset: true,
                    pixel_format: None,
                    flags: vec!["-movflags", "+faststart"],
                },
            ),
            Container::Mkv => Some(
                FormatOverrides {
                    video_codec: None,
                    audio: AudioOverride::Keep,
                    preset: true,
                    pixel_format: None,
                    flags: vec![],
                },
            ),
            Container::Webm => Some(
                FormatOverrides {
                    video_codec: Some("libvpx-vp9"),
                    audio: AudioOverride::Force("libopus"),
                    preset: false,
                    pixel_format: None,
                    flags: vec![],
                },
            ),
            Container::Avi => Some(
                FormatOverrides {
                    video_codec: None,
                    audio: AudioOverride::Force("mp3"),
                    preset: true,
                    pixel_format: None,
                    flags: vec![],
                },
            ),
            Container::Flv => Some(
                FormatOverrides {
                    video_codec: None,
                    audio: AudioOverride::Force("aac"),
                    preset: true,
                    pixel_format: None,
                    flags: vec![],
                },
            ),
            Container::Gif => Some(
                FormatOverrides {
                    video_codec: Some("gif"),
                    audio: AudioOverride::Remove,
                    preset: false,
                    pixel_format: Some("rgb8"),
                    flags: vec!["-an", "-loop", "0"],
                },
            ),
            _ => None,
        };
        proof {
            if r is Some {
                assert(r->0@.flags =~= self.rules()->0.flags);
            }
        }
        r
    }
}

} // verus!
