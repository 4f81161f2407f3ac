//! The container formats the planner knows, and the codecs each of them
//! accepts. The first codec of a list is the one chosen when the caller
//! names none.

use vstd::prelude::*;
use crate::text::text_eq;

verus! {

/// A container format.
#[derive(Clone, Copy, Debug, PartialEq, Eq, Structural)]
pub enum Container {
    Mp4,
    Mov,
    Mkv,
    Webm,
    Avi,
    Flv,
    Gif,
    Mp3,
    Wav,
    Flac,
    M4a,
    Aac,
    Ogg,
    Opus,
}

/// The container that an identifier names, if any.
pub open spec fn container_named(name: Seq<char>) -> Option<Container> {
    if name == "mp4"@ {
        Some(Container::Mp4)
    } else if name == "mov"@ {
        Some(Container::Mov)
    } else if name == "mkv"@ {
        Some(Container::Mkv)
    } else if name == "webm"@ {
        Some(Container::Webm)
    } else if name == "avi"@ {
        Some(Container::Avi)
    } else if name == "flv"@ {
        Some(Container::Flv)
    } else if name == "gif"@ {
        Some(Container::Gif)
    } else if name == "mp3"@ {
        Some(Container::Mp3)
    } else if name == "wav"@ {
        Some(Container::Wav)
    } else if name == "flac"@ {
        Some(Container::Flac)
    } else if name == "m4a"@ {
        Some(Container::M4a)
    } else if name == "aac"@ {
        Some(Container::Aac)
    } else if name == "ogg"@ {
        Some(Container::Ogg)
    } else if name == "opus"@ {
        Some(Container::Opus)
    } else {
        None
    }
}

impl Container {
    /// The identifier of the container.
    pub open spec fn name(self) -> Seq<char> {
        match self {
            Container::Mp4 => "mp4"@,
            Container::Mov => "mov"@,
            Container::Mkv => "mkv"@,
            Container::Webm => "webm"@,
            Container::Avi => "avi"@,
            Container::Flv => "flv"@,
            Container::Gif => "gif"@,
            Container::Mp3 => "mp3"@,
            Container::Wav => "wav"@,
            Container::Flac => "flac"@,
            Container::M4a => "m4a"@,
            Container::Aac => "aac"@,
            Container::Ogg => "ogg"@,
            Container::Opus => "opus"@,
        }
    }

    /// The video codecs the container accepts, the default first.
    pub open spec fn video_codecs(self) -> Seq<Seq<char>> {
        match self {
            Container::Mp4 => seq!["libx264"@, "libx265"@],
            Container::Mov => seq!["libx264"@, "libx265"@, "prores_ks"@, "mjpeg"@],
            Container::Mkv => seq![
                "libx264"@,
                "libx265"@,
                "libvpx-vp9"@,
                "prores_ks"@,
                "mjpeg"@,
            ],
            Container::Webm => seq!["libvpx-vp9"@],
            Container::Avi => seq!["libx264"@, "mjpeg"@],
            Container::Flv => seq!["libx264"@],
            Container::Gif => seq!["gif"@],
            _ => seq![],
        }
    }

    /// The audio codecs the container accepts, the default first.
    pub open spec fn audio_codecs(self) -> Seq<Seq<char>> {
        match self {
            Container::Mp4 => seq!["aac"@, "libmp3lame"@],
            Container::Mov => seq!["aac"@],
            Container::Mkv => seq!["aac"@, "libopus"@, "libvorbis"@, "libmp3lame"@, "flac"@],
            Container::Webm => seq!["libopus"@, "libvorbis"@],
            Container::Avi => seq!["libmp3lame"@],
            Container::Flv => seq!["aac"@],
            Container::Gif => seq![],
            Container::Mp3 => seq!["libmp3lame"@],
            Container::Wav => seq!["pcm_s16le"@],
            Container::Flac => seq!["flac"@],
            Container::M4a => seq!["aac"@],
            Container::Aac => seq!["aac"@],
            Container::Ogg => seq!["libvorbis"@],
            Container::Opus => seq!["libopus"@],
        }
    }

    /// Looks a container up by its identifier.
    pub fn from_name(name: &str) -> (r: Option<Container>)
        ensures
            r == container_named(name@),
    {
        if text_eq(name, "mp4") {
            Some(Container::Mp4)
        } else if text_eq(name, "mov") {
            Some(Container::Mov)
        } else if text_eq(name, "mkv") {
            Some(Container::Mkv)
        } else if text_eq(name, "webm") {
            Some(Container::Webm)
        } else if text_eq(name, "avi") {
            Some(Container::Avi)
        } else if text_eq(name, "flv") {
            Some(Container::Flv)
        } else if text_eq(name, "gif") {
            Some(Container::Gif)
        } else if text_eq(name, "mp3") {
            Some(Container::Mp3)
        } else if text_eq(name, "wav") {
            Some(Container::Wav)
        } else if text_eq(name, "flac") {
            Some(Container::Flac)
        } else if text_eq(name, "m4a") {
            Some(Container::M4a)
        } else if text_eq(name, "aac") {
            Some(Container::Aac)
        } else if text_eq(name, "ogg") {
            Some(Container::Ogg)
        } else if text_eq(name, "opus") {
            Some(Container::Opus)
        } else {
            None
        }
    }

    /// The names of the video codecs the container accepts, the default first.
    pub fn video_codec_names(self) -> (r: Vec<&'static str>)
        ensures
            r.deep_view() == self.video_codecs(),
    {
        let r = match self {
            Container::Mp4 => vec!["libx264", "libx265"],
            Container::Mov => vec!["libx264", "libx265", "prores_ks", "mjpeg"],
            Container::Mkv => vec!["libx264", "libx265", "libvpx-vp9", "prores_ks", "mjpeg"],
            Container::Webm => vec!["libvpx-vp9"],
            Container::Avi => vec!["libx264", "mjpeg"],
            Container::Flv => vec!["libx264"],
            Container::Gif => vec!["gif"],
            _ => vec![],
        };
        assert(r.deep_view() =~= self.video_codecs());
        r
    }

    /// The names of the audio codecs the container accepts, the default first.
    pub fn audio_codec_names(self) -> (r: Vec<&'static str>)
        ensures
            r.deep_view() == self.audio_codecs(),
    {
        let r = match self {
            Container::Mp4 => vec!["aac", "libmp3lame"],
            Container::Mov => vec!["aac"],
            Container::Mkv => vec!["aac", "libopus", "libvorbis", "libmp3lame", "flac"],
            Container::Webm => vec!["libopus", "libvorbis"],
            Container::Avi => vec!["libmp3lame"],
            Container::Flv => vec!["aac"],
            Container::Gif => vec![],
            Container::Mp3 => vec!["libmp3lame"],
            Container::Wav => vec!["pcm_s16le"],
            Container::Flac => vec!["flac"],
            Container::M4a => vec!["aac"],
            Container::Aac => vec!["aac"],
            Container::Ogg => vec!["libvorbis"],
            Container::Opus => vec!["libopus"],
        };
        assert(r.deep_view() =~= self.audio_codecs());
        r
    }
}

/// The video codecs accepted for a format identifier; none for an identifier
/// that names no container.
pub open spec fn video_codecs(format: Seq<char>) -> Seq<Seq<char>> {
    match container_named(format) {
        Some(c) => c.video_codecs(),
        None => seq![],
    }
}

/// The audio codecs accepted for a format identifier; none for an identifier
/// that names no container.
pub open spec fn audio_codecs(format: Seq<char>) -> Seq<Seq<char>> {
    match container_named(format) {
        Some(c) => c.audio_codecs(),
        None => seq![],
    }
}

/// The video codecs accepted for `fmt`, the default first.
pub fn video_codecs_for_format(fmt: &str) -> (r: Vec<&'static str>)
    ensures
        r.deep_view() == video_codecs(fmt@),
{
    match Container::from_name(fmt) {
        Some(c) => c.video_codec_names(),
        None => {
            let r: Vec<&'static str> = Vec::new();
            assert(r.deep_view() =~= Seq::<Seq<char>>::empty());
            r
        },
    }
}

/// The audio codecs accepted for `fmt`, the default first.
pub fn audio_codecs_for_format(fmt: &str) -> (r: Vec<&'static str>)
    ensures
        r.deep_view() == audio_codecs(fmt@),
{
    match Container::from_name(fmt) {
        Some(c) => c.audio_codec_names(),
        None => {
            let r: Vec<&'static str> = Vec::new();
            assert(r.deep_view() =~= Seq::<Seq<char>>::empty());
            r
        },
    }
}

} // verus!
