//! The answer to a track listing: a video and its audio tracks.

use vstd::prelude::*;
use crate::failure::{FailureModel, ProtocolFault, ProtocolFaultModel, WorkerFailure};
use crate::json::{Json, field, get_field, json_parse, parse_json};
use crate::message::{MessageModel, decode_message, message_of, text_or};

verus! {

/// One audio track of a video. Indices need not be contiguous.
#[derive(Debug, PartialEq, Eq)]
pub struct AudioTrack {
    pub index: i32,
    pub language: String,
    pub title: String,
    pub codec: String,
}

/// Mathematical value of an `AudioTrack`.
pub struct TrackModel {
    pub index: int,
    pub language: Seq<char>,
    pub title: Seq<char>,
    pub codec: Seq<char>,
}

impl View for AudioTrack {
    type V = TrackModel;

    open spec fn view(&self) -> TrackModel {
        TrackModel {
            index: self.index as int,
            language: self.language@,
            title: self.title@,
            codec: self.codec@,
        }
    }
}

/// A video file and its audio tracks, in the worker's order.
#[derive(Debug, PartialEq, Eq)]
pub struct VideoInfo {
    pub file_path: String,
    pub audio_tracks: Vec<AudioTrack>,
}

/// Mathematical value of a `VideoInfo`.
pub struct VideoInfoModel {
    pub file_path: Seq<char>,
    pub audio_tracks: Seq<TrackModel>,
}

impl View for VideoInfo {
    type V = VideoInfoModel;

    open spec fn view(&self) -> VideoInfoModel {
        VideoInfoModel {
            file_path: self.file_path@,
            audio_tracks: Seq::new(self.audio_tracks@.len(), |i: int| self.audio_tracks@[i]@),
        }
    }
}

/// A required text field: only a string will do.
pub open spec fn required_text(found: Option<Json>) -> Option<Seq<char>> {
    match found {
        Some(Json::Text(text)) => Some(text@),
        _ => None,
    }
}

/// A required track index: a whole number that fits in 32 bits with sign.
pub open spec fn required_index(found: Option<Json>) -> Option<int> {
    match found {
        Some(Json::Unsigned(n)) => if n <= i32::MAX {
            Some(n as int)
        } else {
            None
        },
        Some(Json::Negative(n)) => if i32::MIN <= n <= i32::MAX {
            Some(n as int)
        } else {
            None
        },
        _ => None,
    }
}

/// The track that a document stands for: an object with the members `index`,
/// `language`, `title` and `codec`, or an array of exactly these four in this
/// order.
pub open spec fn track_of(json: Json) -> Option<TrackModel> {
    match (
        required_index(field(json, "index"@, 0, 4)),
        required_text(field(json, "language"@, 1, 4)),
        required_text(field(json, "title"@, 2, 4)),
        required_text(field(json, "codec"@, 3, 4)),
    ) {
        (Some(index), Some(language), Some(title), Some(codec)) => Some(
            TrackModel { index, language, title, codec },
        ),
        _ => None,
    }
}

/// The tracks that a list of documents stands for: one for each item, in the
/// same order, provided every item stands for a track.
pub open spec fn tracks_of(items: Seq<Json>) -> Option<Seq<TrackModel>> {
    if forall|i: int| 0 <= i < items.len() ==> (#[trigger] track_of(items[i])).is_some() {
        Some(Seq::new(items.len(), |i: int| track_of(items[i]).unwrap()))
    } else {
        None
    }
}

/// The video description that a document stands for: an object with the
/// members `filePath` (a string) and `audioTracks` (an array of tracks), or an
/// array of exactly these two in this order.
pub open spec fn video_info_of(json: Json) -> Option<VideoInfoModel> {
    match (required_text(field(json, "filePath"@, 0, 2)), field(json, "audioTracks"@, 1, 2)) {
        (Some(file_path), Some(Json::Array(items))) => match tracks_of(items@) {
            Some(audio_tracks) => Some(VideoInfoModel { file_path, audio_tracks }),
            None => None,
        },
        _ => None,
    }
}

/// What a track listing resolves to, given what the parser made of the
/// worker's whole output.
pub open spec fn tracks_outcome(parsed: Result<Json, Seq<char>>) -> Result<
    VideoInfoModel,
    FailureModel,
> {
    match parsed {
        Err(detail) => Err(FailureModel::Protocol(ProtocolFaultModel::Malformed(detail))),
        Ok(json) => match message_of(json) {
            None => Err(FailureModel::Protocol(ProtocolFaultModel::NotAnEnvelope)),
            Some(message) => if !message.success {
                Err(FailureModel::Worker(text_or(message.message, "Unknown error"@)))
            } else {
                match message.data {
                    None => Err(FailureModel::Protocol(ProtocolFaultModel::NoVideoInfo)),
                    Some(data) => match video_info_of(data) {
                        Some(info) => Ok(info),
                        None => Err(FailureModel::Protocol(ProtocolFaultModel::NoVideoInfo)),
                    },
                }
            },
        },
    }
}

/// Mathematical value of the result of a track listing.
pub open spec fn tracks_result_view(result: Result<VideoInfo, WorkerFailure>) -> Result<
    VideoInfoModel,
    FailureModel,
> {
    match result {
        Ok(info) => Ok(info@),
        Err(failure) => Err(failure@),
    }
}

/// Decodes one audio track.
pub fn decode_track(json: &Json) -> (r: Option<AudioTrack>)
    ensures
        match r {
            Some(track) => track_of(*json) == Some(track@),
            None => track_of(*json).is_none(),
        },
{
    let index: i32 = match get_field(json, "index", 0, 4) {
        Some(Json::Unsigned(n)) => {
            if *n <= 2147483647u64 {
                *n as i32
            } else {
                return None;
            }
        },
        Some(Json::Negative(n)) => {
            if -2147483648i64 <= *n && *n <= 2147483647i64 {
                *n as i32
            } else {
                return None;
            }
        },
        _ => {
            return None;
        },
    };
    let language = match get_field(json, "language", 1, 4) {
        Some(Json::Text(text)) => text.clone(),
        _ => {
            return None;
        },
    };
    let title = match get_field(json, "title", 2, 4) {
        Some(Json::Text(text)) => text.clone(),
        _ => {
            return None;
        },
    };
    let codec = match get_field(json, "codec", 3, 4) {
        Some(Json::Text(text)) => text.clone(),
        _ => {
            return None;
        },
    };
    Some(AudioTrack { index, language, title, codec })
}

/// Decodes a list of audio tracks, keeping their order.
pub fn decode_tracks(items: &Vec<Json>) -> (r: Option<Vec<AudioTrack>>)
    ensures
        match r {
            Some(tracks) => tracks_of(items@) == Some(
                Seq::new(tracks@.len(), |i: int| tracks@[i]@),
            ),
            None => tracks_of(items@).is_none(),
        },
{
    let mut tracks: Vec<AudioTrack> = Vec::new();
    let mut i: usize = 0;
    while i < items.len()
        invariant
            i <= items.len(),
            tracks@.len() == i,
            forall|k: int| 0 <= k < i ==> #[trigger] track_of(items@[k]) == Some(tracks@[k]@),
        decreases items.len() - i,
    {
        match decode_track(&items[i]) {
            Some(track) => {
                tracks.push(track);
            },
            None => {
                assert(track_of(items@[i as int]).is_none());
                return None;
            },
        }
        i += 1;
    }
    assert(tracks_of(items@).is_some());
    assert(tracks_of(items@).unwrap() =~= Seq::new(tracks@.len(), |i: int| tracks@[i]@));
    Some(tracks)
}

/// Decodes a video description.
pub fn decode_video_info(json: &Json) -> (r: Option<VideoInfo>)
    ensures
        match r {
            Some(info) => video_info_of(*json) == Some(info@),
            None => video_info_of(*json).is_none(),
        },
{
    let file_path = match get_field(json, "filePath", 0, 2) {
        Some(Json::Text(text)) => text.clone(),
        _ => {
            return None;
        },
    };
    match get_field(json, "audioTracks", 1, 2) {
        Some(Json::Array(items)) => match decode_tracks(items) {
            Some(audio_tracks) => Some(VideoInfo { file_path, audio_tracks }),
            None => None,
        },
        _ => None,
    }
}

/// Resolves a track listing from what the parser made of the worker's output.
///
/// Output that is not JSON, or not an envelope, is a protocol failure. An
/// envelope that reports failure gives the worker's message, or
/// `Unknown error` where it has none. One that reports success gives the video
/// description in its data, and a protocol failure where the data holds none.
pub fn resolve_parsed_tracks(parsed: Result<Json, String>) -> (r: Result<VideoInfo, WorkerFailure>)
    ensures
        tracks_result_view(r) == tracks_outcome(
            match parsed {
                Ok(json) => Ok(json),
                Err(detail) => Err(detail@),
            },
        ),
{
    let json = match parsed {
        Ok(json) => json,
        Err(detail) => {
            return Err(WorkerFailure::Protocol(ProtocolFault::Malformed(detail)));
        },
    };
    let message = match decode_message(json) {
        Some(message) => message,
        None => {
            return Err(WorkerFailure::Protocol(ProtocolFault::NotAnEnvelope));
        },
    };
    if !message.success {
        let text = match message.message {
            Some(text) => text,
            None => "Unknown error".to_owned(),
        };
        return Err(WorkerFailure::Worker(text));
    }
    match message.data {
        None => Err(WorkerFailure::Protocol(ProtocolFault::NoVideoInfo)),
        Some(data) => match decode_video_info(&data) {
            Some(info) => Ok(info),
            None => Err(WorkerFailure::Protocol(ProtocolFault::NoVideoInfo)),
        },
    }
}

/// Resolves a track listing from the worker's whole output, read as a single
/// JSON document once the worker has exited.
pub fn resolve_tracks(output: &str) -> (r: Result<VideoInfo, WorkerFailure>)
    ensures
        tracks_result_view(r) == tracks_outcome(json_parse(output@)),
{
    resolve_parsed_tracks(parse_json(output))
}

/// A successful track listing reports exactly the tracks of its data: as many
/// as the array `audioTracks` has items, each with the fields of the item at
/// its place, and the file path that the data names.
pub proof fn law_tracks_match_data(
    json: Json,
    message: MessageModel,
    data: Json,
    items: Seq<Json>,
    info: VideoInfoModel,
)
    requires
        message_of(json) == Some(message),
        message.success,
        message.data == Some(data),
        field(data, "audioTracks"@, 1, 2) matches Some(Json::Array(list)) && list@ == items,
        tracks_outcome(Ok(json)) == Ok::<VideoInfoModel, FailureModel>(info),
    ensures
        info.audio_tracks.len() == items.len(),
        forall|i: int|
            0 <= i < items.len() ==> track_of(items[i]) == Some(#[trigger] info.audio_tracks[i]),
        required_text(field(data, "filePath"@, 0, 2)) == Some(info.file_path),
{
}

} // verus!
