//! A media prober's report, and the description of the media that is read
//! from it.
//!
//! The report's real-valued fields, the duration and the frame rates, are
//! held in a type `T` that the library only passes on: text while the report
//! is as it was read, a number once the caller has evaluated the text.

use vstd::prelude::*;
use vstd::string::*;
use crate::number::{parse_u64, unsigned_64};
use crate::request::text_of;
use crate::text::text_eq;

verus! {

/// The container-level part of a report.
#[derive(Clone, Debug, PartialEq)]
pub struct FormatSection<T> {
    /// The duration in seconds; none where the field is absent or is no number.
    pub duration: Option<T>,
    /// The bit rate in bits per second, as decimal text.
    pub bit_rate: Option<String>,
}

/// One stream of a report.
#[derive(Clone, Debug, PartialEq)]
pub struct StreamEntry<T> {
    pub codec_type: Option<String>,
    pub width: Option<u64>,
    pub height: Option<u64>,
    /// The average frame rate; none where the field is absent or cannot be
    /// evaluated.
    pub avg_frame_rate: Option<T>,
    /// The declared frame rate; none where the field is absent or cannot be
    /// evaluated.
    pub r_frame_rate: Option<T>,
    /// The bit rate in bits per second, as decimal text.
    pub bit_rate: Option<String>,
}

/// A prober's report: the format section and the list of streams, each of
/// which may be missing.
#[derive(Clone, Debug, PartialEq)]
pub struct ProbeReport<T> {
    pub format: Option<FormatSection<T>>,
    pub streams: Option<Vec<StreamEntry<T>>>,
}

/// The mathematical content of a [`FormatSection`].
pub struct FormatModel<T> {
    pub duration: Option<T>,
    pub bit_rate: Option<Seq<char>>,
}

/// The mathematical content of a [`StreamEntry`].
pub struct StreamModel<T> {
    pub codec_type: Option<Seq<char>>,
    pub width: Option<u64>,
    pub height: Option<u64>,
    pub avg_frame_rate: Option<T>,
    pub r_frame_rate: Option<T>,
    pub bit_rate: Option<Seq<char>>,
}

/// The mathematical content of a [`ProbeReport`].
pub struct ReportModel<T> {
    pub format: Option<FormatModel<T>>,
    pub streams: Option<Seq<StreamModel<T>>>,
}

impl<T> View for FormatSection<T> {
    type V = FormatModel<T>;

    open spec fn view(&self) -> FormatModel<T> {
        FormatModel { duration: self.duration, bit_rate: text_of(self.bit_rate) }
    }
}

impl<T> View for StreamEntry<T> {
    type V = StreamModel<T>;

    open spec fn view(&self) -> StreamModel<T> {
        StreamModel {
            codec_type: text_of(self.codec_type),
            width: self.width,
            height: self.height,
            avg_frame_rate: self.avg_frame_rate,
            r_frame_rate: self.r_frame_rate,
            bit_rate: text_of(self.bit_rate),
        }
    }
}

impl<T> View for ProbeReport<T> {
    type V = ReportModel<T>;

    open spec fn view(&self) -> ReportModel<T> {
        ReportModel {
            format: match self.format {
                Some(format) => Some(format@),
                None => None,
            },
            streams: match self.streams {
                Some(streams) => Some(streams@.map_values(|s: StreamEntry<T>| s@)),
                None => None,
            },
        }
    }
}

/// The content of a stream whose real-valued fields are text.
pub open spec fn stream_texts(stream: StreamModel<String>) -> StreamModel<Seq<char>> {
    StreamModel {
        codec_type: stream.codec_type,
        width: stream.width,
        height: stream.height,
        avg_frame_rate: text_of(stream.avg_frame_rate),
        r_frame_rate: text_of(stream.r_frame_rate),
        bit_rate: stream.bit_rate,
    }
}

/// The content of a report whose real-valued fields are text.
pub open spec fn report_texts(report: ReportModel<String>) -> ReportModel<Seq<char>> {
    ReportModel {
        format: match report.format {
            Some(format) => Some(
                FormatModel { duration: text_of(format.duration), bit_rate: format.bit_rate },
            ),
            None => None,
        },
        streams: match report.streams {
            Some(streams) => Some(streams.map_values(|s: StreamModel<String>| stream_texts(s))),
            None => None,
        },
    }
}

/// What is known of a piece of media. `N` is the type of its real numbers.
#[derive(Clone, Debug, PartialEq)]
pub struct MediaInfo<N> {
    pub duration_seconds: N,
    pub width: Option<u32>,
    pub height: Option<u32>,
    pub fps: Option<N>,
    pub bitrate_kbps: Option<u64>,
    pub has_video: bool,
}

impl<N> MediaInfo<N> {
    /// Media without a video stream has no picture size and no frame rate.
    pub open spec fn well_formed(&self) -> bool {
        !self.has_video ==> self.width is None && self.height is None && self.fps is None
    }
}

/// A field that a report must hold.
#[derive(Clone, Copy, Debug, PartialEq, Eq, Structural)]
pub enum ProbeField {
    Duration,
    Streams,
}

/// Why a report describes no media.
#[derive(Clone, Copy, Debug, PartialEq, Eq, Structural)]
pub enum ProbeError {
    /// The report has no format section.
    MissingSection,
    /// The report lacks a field, or holds one that cannot be read.
    MissingField(ProbeField),
}

/// The text that reports a failure to a person.
pub open spec fn probe_error_message(e: ProbeError) -> Seq<char> {
    match e {
        ProbeError::MissingSection => "Missing format section"@,
        ProbeError::MissingField(ProbeField::Duration) => "Missing duration"@,
        ProbeError::MissingField(ProbeField::Streams) => "Missing streams"@,
    }
}

impl ProbeError {
    /// The text that reports the failure to a person.
    pub fn message(&self) -> (r: String)
        ensures
            r@ == probe_error_message(*self),
    {
        match self {
            ProbeError::MissingSection => "Missing format section".to_owned(),
            ProbeError::MissingField(ProbeField::Duration) => "Missing duration".to_owned(),
            ProbeError::MissingField(ProbeField::Streams) => "Missing streams".to_owned(),
        }
    }
}

/// Whether a stream carries video.
pub open spec fn is_video<T>(stream: StreamModel<T>) -> bool {
    stream.codec_type == Some("video"@)
}

/// The first stream that carries video, if there is one.
pub open spec fn first_video<T>(streams: Seq<StreamModel<T>>) -> Option<StreamModel<T>>
    decreases streams.len(),
{
    if streams.len() == 0 {
        None
    } else if is_video(streams[0]) {
        Some(streams[0])
    } else {
        first_video(streams.drop_first())
    }
}

/// A picture dimension as the description holds it: the low 32 bits of the
/// reported number.
pub open spec fn low_32(v: u64) -> u32 {
    (v % 0x1_0000_0000) as u32
}

/// The bit rate that a field writes, if it writes one.
pub open spec fn bit_rate_of(field: Option<Seq<char>>) -> Option<u64> {
    match field {
        Some(text) => unsigned_64(text),
        None => None,
    }
}

/// The bit rate of the media in kilobits per second, rounded down: that of
/// the container where it is given and readable, else that of the video
/// stream.
pub open spec fn kbps_of<T>(format: FormatModel<T>, video: Option<StreamModel<T>>) -> Option<u64> {
    let bits = if bit_rate_of(format.bit_rate) is Some {
        bit_rate_of(format.bit_rate)
    } else {
        match video {
            Some(v) => bit_rate_of(v.bit_rate),
            None => None,
        }
    };
    match bits {
        Some(b) => Some(b / 1000),
        None => None,
    }
}

/// The frame rate of a video stream: the average rate where it is usable,
/// else the declared rate.
pub open spec fn frame_rate_of<T>(video: StreamModel<T>) -> Option<T> {
    if video.avg_frame_rate is Some {
        video.avg_frame_rate
    } else {
        video.r_frame_rate
    }
}

/// The description of the media behind a report, with its format section,
/// duration and stream list, and the first video stream if there is one.
pub open spec fn described<T>(
    format: FormatModel<T>,
    duration: T,
    video: Option<StreamModel<T>>,
) -> MediaInfo<T> {
    match video {
        Some(v) => MediaInfo {
            duration_seconds: duration,
            width: match v.width {
                Some(w) => Some(low_32(w)),
                None => None,
            },
            height: match v.height {
                Some(h) => Some(low_32(h)),
                None => None,
            },
            fps: frame_rate_of(v),
            bitrate_kbps: kbps_of(format, video),
            has_video: true,
        },
        None => MediaInfo {
            duration_seconds: duration,
            width: None,
            height: None,
            fps: None,
            bitrate_kbps: kbps_of(format, video),
            has_video: false,
        },
    }
}

/// What a report says of the media, or what it lacks. The format section is
/// looked for first, then the duration, then the stream list.
pub open spec fn media_info<T>(report: ReportModel<T>) -> Result<MediaInfo<T>, ProbeError> {
    match report.format {
        None => Err(ProbeError::MissingSection),
        Some(format) => match format.duration {
            None => Err(ProbeError::MissingField(ProbeField::Duration)),
            Some(duration) => match report.streams {
                None => Err(ProbeError::MissingField(ProbeField::Streams)),
                Some(streams) => Ok(described(format, duration, first_video(streams))),
            },
        },
    }
}

/// Skipping streams that carry no video does not change which is the first
/// that does.
proof fn lemma_first_video_skips<T>(streams: Seq<StreamModel<T>>, n: int)
    requires
        0 <= n <= streams.len(),
        forall|j: int| 0 <= j < n ==> !is_video(#[trigger] streams[j]),
    ensures
        first_video(streams) == first_video(streams.skip(n)),
    decreases n,
{
    if n == 0 {
        assert(streams.skip(0) =~= streams);
    } else {
        lemma_first_video_skips(streams, n - 1);
        let rest = streams.skip(n - 1);
        assert(rest[0] == streams[n - 1]);
        assert(rest.drop_first() =~= streams.skip(n));
    }
}

/// Finds the first stream that carries video.
fn first_video_index<T>(streams: &Vec<StreamEntry<T>>) -> (r: Option<usize>)
    ensures
        (match r {
            Some(i) => i < streams.len() && first_video(
                streams@.map_values(|s: StreamEntry<T>| s@),
            ) == Some(streams[i as int]@),
            None => first_video(streams@.map_values(|s: StreamEntry<T>| s@)) is None,
        }),
{
    let ghost models = streams@.map_values(|s: StreamEntry<T>| s@);
    let mut i: usize = 0;
    while i < streams.len()
        invariant
            i <= streams.len(),
            models == streams@.map_values(|s: StreamEntry<T>| s@),
            forall|j: int| 0 <= j < i ==> !is_video(#[trigger] models[j]),
        decreases streams.len() - i,
    {
        let video = match &streams[i].codec_type {
            Some(kind) => text_eq(kind.as_str(), "video"),
            None => false,
        };
        assert(video == is_video(models[i as int]));
        if video {
            proof {
                lemma_first_video_skips(models, i as int);
                assert(models.skip(i as int)[0] == models[i as int]);
            }
            return Some(i);
        }
        i = i + 1;
    }
    proof {
        lemma_first_video_skips(models, i as int);
        assert(models.skip(i as int).len() == 0);
    }
    None
}

/// Reads the bit rate that a field writes.
fn read_bit_rate(field: &Option<String>) -> (r: Option<u64>)
    ensures
        r == bit_rate_of(text_of(*field)),
{
    match field {
        Some(text) => parse_u64(text.as_str()),
        None => None,
    }
}

/// Keeps the low 32 bits of a picture dimension.
fn narrow(dimension: Option<u64>) -> (r: Option<u32>)
    ensures
        r == (match dimension {
            Some(v) => Some(low_32(v)),
            None => None,
        }),
{
    match dimension {
        Some(v) => Some((v % 0x1_0000_0000) as u32),
        None => None,
    }
}

/// Describes the media behind a prober's report.
///
/// The report must hold a format section with a duration, and a list of
/// streams, which may be empty. The picture size and the frame rate are those
/// of the first video stream; without one the media is audio only.
pub fn parse_media_info<T>(report: ProbeReport<T>) -> (r: Result<MediaInfo<T>, ProbeError>)
    ensures
        r == media_info(report@),
        r is Ok ==> r->Ok_0.well_formed(),
        r is Ok && first_video(report@.streams->0) is None ==> (!r->Ok_0.has_video
            && r->Ok_0.width is None && r->Ok_0.height is None && r->Ok_0.fps is None
            && r->Ok_0.duration_seconds == report@.format->0.duration->0),
{
    let ProbeReport { format, streams } = report;
    let format = match format {
        Some(f) => f,
        None => {
            return Err(ProbeError::MissingSection);
        },
    };
    let ghost format_model = format@;
    let FormatSection { duration, bit_rate } = format;
    let duration = match duration {
        Some(d) => d,
        None => {
            return Err(ProbeError::MissingField(ProbeField::Duration));
        },
    };
    let mut streams = match streams {
        Some(s) => s,
        None => {
            return Err(ProbeError::MissingField(ProbeField::Streams));
        },
    };
    let container_rate = read_bit_rate(&bit_rate);
    match first_video_index(&streams) {
        Some(i) => {
            let video = streams.remove(i);
            let ghost video_model = video@;
            let StreamEntry { codec_type, width, height, avg_frame_rate, r_frame_rate, bit_rate } =
                video;
            let bits = match container_rate {
                Some(b) => Some(b),
                None => read_bit_rate(&bit_rate),
            };
            let info = MediaInfo {
                duration_seconds: duration,
                width: narrow(width),
                height: narrow(height),
                fps: match avg_frame_rate {
                    Some(rate) => Some(rate),
                    None => r_frame_rate,
                },
                bitrate_kbps: match bits {
                    Some(b) => Some(b / 1000),
                    None => None,
                },
                has_video: true,
            };
            assert(info == described(format_model, duration, Some(video_model)));
            Ok(info)
        },
        None => {
            let info = MediaInfo {
                duration_seconds: duration,
                width: None,
                height: None,
                fps: None,
                bitrate_kbps: match container_rate {
                    Some(b) => Some(b / 1000),
                    None => None,
                },
                has_video: false,
            };
            assert(info == described(format_model, duration, None));
            Ok(info)
        },
    }
}

/// The terms of a frame-rate expression: one number, or the numerator and
/// the denominator of a ratio.
#[derive(Clone, Debug, PartialEq, Eq)]
pub enum RateTerms {
    Single(String),
    Ratio { numerator: String, denominator: String },
}

/// Splits a frame-rate expression at its first `/`.
///
/// An expression without `/` is a single term. Otherwise the numerator is
/// what stands before the first `/` and the denominator all that follows it.
pub fn split_frame_rate(rate: &str) -> (r: RateTerms)
    ensures
        (match r {
            RateTerms::Single(term) => term@ == rate@ && !rate@.contains('/'),
            RateTerms::Ratio { numerator, denominator } => {
                &&& rate@ == numerator@ + seq!['/'] + denominator@
                &&& !numerator@.contains('/')
            },
        }),
{
    let len = rate.unicode_len();
    let mut n: usize = 0;
    for c in it: rate.chars()
        invariant
            n == it.index(),
            it.seq() == rate@,
            rate@.len() == len,
            forall|j: int| 0 <= j < n ==> rate@[j] != '/',
    {
        if c == '/' {
            let numerator = rate.substring_char(0, n).to_owned();
            let denominator = rate.substring_char(n + 1, len).to_owned();
            assert(rate@ =~= numerator@ + seq!['/'] + denominator@);
            return RateTerms::Ratio { numerator, denominator };
        }
        n = n + 1;
    }
    RateTerms::Single(rate.to_owned())
}

} // verus!
