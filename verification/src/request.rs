//! A conversion request, and the ways in which planning it can fail.

use vstd::prelude::*;
use vstd::string::*;

verus! {

/// The characters of an optional string.
pub open spec fn text_of(s: Option<String>) -> Option<Seq<char>> {
    match s {
        Some(t) => Some(t@),
        None => None,
    }
}

/// What the caller asks of one conversion.
///
/// `fps` is the frame rate as it is to be written on the command line.
#[derive(Clone, Debug, PartialEq, Eq)]
pub struct ConversionOptions {
    pub input_path: String,
    pub output_path: String,
    pub start_ms: u64,
    pub end_ms: u64,
    pub width: Option<u32>,
    pub height: Option<u32>,
    pub fps: Option<String>,
    pub video_bitrate_kbps: Option<u64>,
    pub audio_bitrate_kbps: Option<u64>,
    pub format: Option<String>,
    pub is_audio_only: bool,
    pub video_codec: Option<String>,
    pub audio_codec: Option<String>,
}

/// The mathematical content of a [`ConversionOptions`].
pub struct ConversionRequest {
    pub input_path: Seq<char>,
    pub output_path: Seq<char>,
    pub start_ms: u64,
    pub end_ms: u64,
    pub width: Option<u32>,
    pub height: Option<u32>,
    pub fps: Option<Seq<char>>,
    pub video_bitrate_kbps: Option<u64>,
    pub audio_bitrate_kbps: Option<u64>,
    pub format: Option<Seq<char>>,
    pub is_audio_only: bool,
    pub video_codec: Option<Seq<char>>,
    pub audio_codec: Option<Seq<char>>,
}

impl View for ConversionOptions {
    type V = ConversionRequest;

    open spec fn view(&self) -> ConversionRequest {
        ConversionRequest {
            input_path: self.input_path@,
            output_path: self.output_path@,
            start_ms: self.start_ms,
            end_ms: self.end_ms,
            width: self.width,
            height: self.height,
            fps: text_of(self.fps),
            video_bitrate_kbps: self.video_bitrate_kbps,
            audio_bitrate_kbps: self.audio_bitrate_kbps,
            format: text_of(self.format),
            is_audio_only: self.is_audio_only,
            video_codec: text_of(self.video_codec),
            audio_codec: text_of(self.audio_codec),
        }
    }
}

/// The kind of stream a codec encodes.
#[derive(Clone, Copy, Debug, PartialEq, Eq, Structural)]
pub enum CodecKind {
    Video,
    Audio,
}

/// Why no argument sequence could be planned.
#[derive(Clone, Debug, PartialEq, Eq)]
pub enum PlanError {
    /// The end of the range is not after its start.
    InvalidRange,
    /// The format accepts no codec of the kind that is needed.
    NoCodecAvailable { kind: CodecKind, format: String },
    /// The requested codec is not among those the format accepts.
    CodecNotAllowed { kind: CodecKind, codec: String, format: String },
    /// The format has codecs but no rules for writing it.
    UnsupportedFormat { format: String },
}

/// The mathematical content of a [`PlanError`].
pub enum PlanFailure {
    InvalidRange,
    NoCodecAvailable { kind: CodecKind, format: Seq<char> },
    CodecNotAllowed { kind: CodecKind, codec: Seq<char>, format: Seq<char> },
    UnsupportedFormat { format: Seq<char> },
}

impl View for PlanError {
    type V = PlanFailure;

    open spec fn view(&self) -> PlanFailure {
        match *self {
            PlanError::InvalidRange => PlanFailure::InvalidRange,
            PlanError::NoCodecAvailable { kind, format } => PlanFailure::NoCodecAvailable {
                kind,
                format: format@,
            },
            PlanError::CodecNotAllowed { kind, codec, format } => PlanFailure::CodecNotAllowed {
                kind,
                codec: codec@,
                format: format@,
            },
            PlanError::UnsupportedFormat { format } => PlanFailure::UnsupportedFormat {
                format: format@,
            },
        }
    }
}

/// The text that reports a failure to a person.
pub open spec fn failure_message(failure: PlanFailure) -> Seq<char> {
    match failure {
        PlanFailure::InvalidRange => "End time must be greater than start time"@,
        PlanFailure::NoCodecAvailable { kind: CodecKind::Video, format } => {
            "No video codecs available for format: "@ + format
        },
        PlanFailure::NoCodecAvailable { kind: CodecKind::Audio, format } => {
            "No audio codecs available for format: "@ + format
        },
        PlanFailure::CodecNotAllowed { kind: CodecKind::Video, codec, format } => {
            "Video codec "@ + codec + " not allowed for format "@ + format
        },
        PlanFailure::CodecNotAllowed { kind: CodecKind::Audio, codec, format } => {
            "Audio codec "@ + codec + " not allowed for format "@ + format
        },
        PlanFailure::UnsupportedFormat { format } => "Unsupported format: "@ + format,
    }
}

impl PlanError {
    /// The text that reports the failure to a person.
    pub fn message(&self) -> (r: String)
        ensures
            r@ == failure_message(self@),
    {
        match self {
            PlanError::InvalidRange => "End time must be greater than start time".to_owned(),
            PlanError::NoCodecAvailable { kind, format } => {
                let mut r = match kind {
                    CodecKind::Video => "No video codecs available for format: ".to_owned(),
                    CodecKind::Audio => "No audio codecs available for format: ".to_owned(),
                };
                r.append(format.as_str());
                r
            },
            PlanError::CodecNotAllowed { kind, codec, format } => {
                let mut r = match kind {
                    CodecKind::Video => "Video codec ".to_owned(),
                    CodecKind::Audio => "Audio codec ".to_owned(),
                };
                r.append(codec.as_str());
                r.append(" not allowed for format ");
                r.append(format.as_str());
                r
            },
            PlanError::UnsupportedFormat { format } => {
                let mut r = "Unsupported format: ".to_owned();
                r.append(format.as_str());
                r
            },
        }
    }
}

} // verus!
