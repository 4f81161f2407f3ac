//! Reading a prober's report from the JSON document that the prober prints.
//!
//! The document is decoded and walked by `serde_json`. [`Json`] is the
//! mathematical tree that a decoded value stands for; that the functions of
//! `serde_json` walk a value as its tree says is not proved here.

use vstd::prelude::*;
use vstd::string::*;
use serde_json::Value;
use crate::probe::{
    report_texts,
    stream_texts,
    FormatModel,
    FormatSection,
    ProbeReport,
    ReportModel,
    StreamEntry,
    StreamModel,
};
use crate::request::text_of;

verus! {

/// `serde_json::Value`, a decoded JSON value. Nothing of its inside is known
/// here but what [`json_tree`] names.
#[verifier::external_type_specification]
#[verifier::external_body]
pub struct ExValue(serde_json::Value);

/// `serde_json::Error`, what the decoder reports of bytes that it refuses.
#[verifier::external_type_specification]
#[verifier::external_body]
pub struct ExJsonError(serde_json::Error);

/// A JSON value, as a mathematical tree.
pub enum Json {
    Null,
    Bool(bool),
    /// A number. `unsigned` is its value where it is held as a non-negative
    /// integer of 64 bits, and nothing otherwise.
    Number { unsigned: Option<u64> },
    Text(Seq<char>),
    Array(Seq<Json>),
    Object(Map<Seq<char>, Json>),
}

impl Json {
    /// The member of an object under `key`.
    pub open spec fn member(self, key: Seq<char>) -> Option<Json> {
        match self {
            Json::Object(members) => if members.contains_key(key) {
                Some(members[key])
            } else {
                None
            },
            _ => None,
        }
    }

    /// The characters of a string.
    pub open spec fn text(self) -> Option<Seq<char>> {
        match self {
            Json::Text(t) => Some(t),
            _ => None,
        }
    }

    /// The items of an array.
    pub open spec fn items(self) -> Option<Seq<Json>> {
        match self {
            Json::Array(items) => Some(items),
            _ => None,
        }
    }

    /// The value of a number that is held as an unsigned integer.
    pub open spec fn unsigned(self) -> Option<u64> {
        match self {
            Json::Number { unsigned } => unsigned,
            _ => None,
        }
    }

    /// The text of the member under `key`, where there is such a member and
    /// it is a string.
    pub open spec fn member_text(self, key: Seq<char>) -> Option<Seq<char>> {
        match self.member(key) {
            Some(found) => found.text(),
            None => None,
        }
    }

    /// The number of the member under `key`, where there is such a member and
    /// it is held as an unsigned integer.
    pub open spec fn member_unsigned(self, key: Seq<char>) -> Option<u64> {
        match self.member(key) {
            Some(found) => found.unsigned(),
            None => None,
        }
    }
}

/// The tree that a `serde_json::Value` holds: null, a boolean, a number, a
/// string, the trees of an array's items in order, or the trees of an
/// object's members by their keys.
pub uninterp spec fn json_tree(value: Value) -> Json;

/// The tree of the value that `serde_json::from_slice` decodes from `bytes`;
/// none where it reports an error.
pub uninterp spec fn json_parsed(bytes: Seq<u8>) -> Option<Json>;

/// Calls `serde_json::from_slice` to decode one JSON value from `bytes`.
/// The contract claims only that the outcome depends on the bytes alone:
/// [`json_parsed`] is the name of the tree that is decoded from them.
#[verifier::external_body]
fn decode(bytes: &[u8]) -> (r: Result<Value, serde_json::Error>)
    ensures
        (match r {
            Ok(value) => json_parsed(bytes@) == Some(json_tree(value)),
            Err(_) => json_parsed(bytes@) is None,
        }),
{
    serde_json::from_slice(bytes)
}

/// Calls `Value::get` with a string key: the member under that key where the
/// value is an object that has one, and nothing otherwise.
#[verifier::external_body]
fn member<'a>(value: &'a Value, key: &str) -> (r: Option<&'a Value>)
    ensures
        (match r {
            Some(found) => json_tree(*value).member(key@) == Some(json_tree(*found)),
            None => json_tree(*value).member(key@) is None,
        }),
{
    value.get(key)
}

/// Calls `Value::as_str`: the string where the value is one, and nothing
/// otherwise.
#[verifier::external_body]
fn text<'a>(value: &'a Value) -> (r: Option<&'a str>)
    ensures
        (match r {
            Some(t) => json_tree(*value).text() == Some(t@),
            None => json_tree(*value).text() is None,
        }),
{
    value.as_str()
}

/// Calls `Value::as_array`: the items where the value is an array, and
/// nothing otherwise.
#[verifier::external_body]
fn items<'a>(value: &'a Value) -> (r: Option<&'a Vec<Value>>)
    ensures
        (match r {
            Some(list) => json_tree(*value).items() == Some(
                list@.map_values(|v: Value| json_tree(v)),
            ),
            None => json_tree(*value).items() is None,
        }),
{
    value.as_array()
}

/// Calls `Value::as_u64`: the number where the value is one that is held as
/// an unsigned integer, and nothing otherwise.
#[verifier::external_body]
fn unsigned(value: &Value) -> (r: Option<u64>)
    ensures
        r == json_tree(*value).unsigned(),
{
    value.as_u64()
}

/// The stream that a JSON value describes.
pub open spec fn stream_of(value: Json) -> StreamModel<Seq<char>> {
    StreamModel {
        codec_type: value.member_text("codec_type"@),
        width: value.member_unsigned("width"@),
        height: value.member_unsigned("height"@),
        avg_frame_rate: value.member_text("avg_frame_rate"@),
        r_frame_rate: value.member_text("r_frame_rate"@),
        bit_rate: value.member_text("bit_rate"@),
    }
}

/// The report that a JSON document holds: its member `format`, whatever kind
/// of value that is, and its member `streams` where that is an array.
pub open spec fn report_of(document: Json) -> ReportModel<Seq<char>> {
    ReportModel {
        format: match document.member("format"@) {
            Some(format) => Some(
                FormatModel {
                    duration: format.member_text("duration"@),
                    bit_rate: format.member_text("bit_rate"@),
                },
            ),
            None => None,
        },
        streams: match document.member("streams"@) {
            Some(streams) => match streams.items() {
                Some(list) => Some(list.map_values(|v: Json| stream_of(v))),
                None => None,
            },
            None => None,
        },
    }
}

/// Reads the string member of `value` under `key`.
fn read_text(value: &Value, key: &str) -> (r: Option<String>)
    ensures
        text_of(r) == json_tree(*value).member_text(key@),
{
    match member(value, key) {
        Some(found) => match text(found) {
            Some(t) => Some(t.to_owned()),
            None => None,
        },
        None => None,
    }
}

/// Reads the unsigned member of `value` under `key`.
fn read_unsigned(value: &Value, key: &str) -> (r: Option<u64>)
    ensures
        r == json_tree(*value).member_unsigned(key@),
{
    match member(value, key) {
        Some(found) => unsigned(found),
        None => None,
    }
}

/// Reads one stream of a report.
fn read_stream(value: &Value) -> (r: StreamEntry<String>)
    ensures
        stream_texts(r@) == stream_of(json_tree(*value)),
{
    StreamEntry {
        codec_type: read_text(value, "codec_type"),
        width: read_unsigned(value, "width"),
        height: read_unsigned(value, "height"),
        avg_frame_rate: read_text(value, "avg_frame_rate"),
        r_frame_rate: read_text(value, "r_frame_rate"),
        bit_rate: read_text(value, "bit_rate"),
    }
}

/// The content of a list of streams whose real-valued fields are text.
pub open spec fn stream_list_texts(streams: Seq<StreamEntry<String>>) -> Seq<
    StreamModel<Seq<char>>,
> {
    streams.map_values(|s: StreamEntry<String>| stream_texts(s@))
}

/// Reads the streams of a report, in order, where `value` is an array.
fn read_streams(value: &Value) -> (r: Option<Vec<StreamEntry<String>>>)
    ensures
        (match r {
            Some(streams) => json_tree(*value).items() is Some && stream_list_texts(streams@)
                == json_tree(*value).items()->0.map_values(|v: Json| stream_of(v)),
            None => json_tree(*value).items() is None,
        }),
{
    match items(value) {
        Some(list) => {
            let mut streams: Vec<StreamEntry<String>> = Vec::new();
            let mut i: usize = 0;
            while i < list.len()
                invariant
                    i <= list.len(),
                    streams.len() == i,
                    forall|j: int|
                        0 <= j < i ==> stream_texts(#[trigger] streams[j]@) == stream_of(
                            json_tree(list[j]),
                        ),
                decreases list.len() - i,
            {
                streams.push(read_stream(&list[i]));
                i = i + 1;
            }
            assert(stream_list_texts(streams@) =~= list@.map_values(
                |v: Value| json_tree(v),
            ).map_values(|v: Json| stream_of(v)));
            Some(streams)
        },
        None => None,
    }
}

/// Reads a prober's report from a decoded JSON document. The duration and the
/// frame rates are left as the text that the document holds.
pub fn read_probe_report(document: &Value) -> (r: ProbeReport<String>)
    ensures
        report_texts(r@) == report_of(json_tree(*document)),
{
    let format = match member(document, "format") {
        Some(section) => Some(
            FormatSection {
                duration: read_text(section, "duration"),
                bit_rate: read_text(section, "bit_rate"),
            },
        ),
        None => None,
    };
    let streams = match member(document, "streams") {
        Some(value) => read_streams(value),
        None => None,
    };
    let r = ProbeReport { format, streams };
    proof {
        if r.streams is Some {
            assert(report_texts(r@).streams->0 =~= stream_list_texts(r.streams->0@));
        }
    }
    r
}

/// The prober's output is no JSON document.
#[derive(Clone, Debug, PartialEq, Eq)]
pub struct MalformedOutput {
    /// What the decoder found wrong, and where.
    pub reason: String,
}

impl MalformedOutput {
    /// The text that reports the failure to a person.
    pub fn message(&self) -> (r: String)
        ensures
            r@ == "Failed to parse ffprobe JSON: "@ + self.reason@,
    {
        let mut r = "Failed to parse ffprobe JSON: ".to_owned();
        r.append(self.reason.as_str());
        r
    }
}

/// Reads a prober's report from the bytes that the prober printed.
///
/// The bytes are refused where they do not decode as one JSON document;
/// whatever decodes is read as [`read_probe_report`] reads it.
pub fn read_probe_output(output: &[u8]) -> (r: Result<ProbeReport<String>, MalformedOutput>)
    ensures
        (match r {
            Ok(report) => json_parsed(output@) is Some && report_texts(report@) == report_of(
                json_parsed(output@)->0,
            ),
            Err(_) => json_parsed(output@) is None,
        }),
{
    match decode(output) {
        Ok(document) => Ok(read_probe_report(&document)),
        Err(e) => Err(MalformedOutput { reason: e.to_string() }),
    }
}

} // verus!
