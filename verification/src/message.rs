//! The envelope that carries every message of the worker.

use vstd::prelude::*;
use crate::json::{Json, field, get_field, get_member, member, take_field, take_member};

verus! {

/// One message of the worker: whether it reports success, an optional text,
/// and optional data.
#[derive(Debug, PartialEq, Eq)]
pub struct WorkerMessage {
    pub success: bool,
    pub message: Option<String>,
    pub data: Option<Json>,
}

/// Mathematical value of a `WorkerMessage`.
pub struct MessageModel {
    pub success: bool,
    pub message: Option<Seq<char>>,
    pub data: Option<Json>,
}

impl View for WorkerMessage {
    type V = MessageModel;

    open spec fn view(&self) -> MessageModel {
        MessageModel {
            success: self.success,
            message: match self.message {
                Some(text) => Some(text@),
                None => None,
            },
            data: self.data,
        }
    }
}

/// An optional text field: absent or `null` is no text, a string is that
/// text, anything else is an error (the outer `None`).
pub open spec fn optional_text(found: Option<Json>) -> Option<Option<Seq<char>>> {
    match found {
        None => Some(None),
        Some(Json::Null) => Some(None),
        Some(Json::Text(text)) => Some(Some(text@)),
        Some(_) => None,
    }
}

/// An optional field of any shape: absent or `null` is no value.
pub open spec fn optional_value(found: Option<Json>) -> Option<Json> {
    match found {
        Some(Json::Null) => None,
        other => other,
    }
}

/// The envelope that a document stands for, if it stands for one.
///
/// The document must be an object, or an array of exactly three items in the
/// order `success`, `message`, `data`. `success` must be there and be a
/// boolean; `message` may be missing or `null`, else it must be a string;
/// `data` may be missing or `null`, else it is kept as it is. Other members of
/// an object are ignored.
pub open spec fn message_of(json: Json) -> Option<MessageModel> {
    match field(json, "success"@, 0, 3) {
        Some(Json::Bool(success)) => match optional_text(field(json, "message"@, 1, 3)) {
            Some(message) => Some(
                MessageModel { success, message, data: optional_value(field(json, "data"@, 2, 3)) },
            ),
            None => None,
        },
        _ => None,
    }
}

/// The progress value of a message: the member `progress` of its data, where
/// the message's text is exactly `progress` and its data is an object with
/// such a member. Every other message carries no progress and is a candidate
/// for the final answer.
pub open spec fn progress_of(message: MessageModel) -> Option<Json> {
    if message.message == Some("progress"@) {
        match message.data {
            Some(data) => member(data, "progress"@),
            None => None,
        }
    } else {
        None
    }
}

/// The text of a message, or `fallback` where it has none.
pub open spec fn text_or(message: Option<Seq<char>>, fallback: Seq<char>) -> Seq<char> {
    match message {
        Some(text) => text,
        None => fallback,
    }
}

/// A message sorted into one of its two kinds.
#[derive(Debug, PartialEq, Eq)]
pub enum Classified {
    /// A progress update, by the value it reports.
    Progress(Json),
    /// A candidate for the final answer.
    Final(WorkerMessage),
}

/// Decodes a document into the envelope it stands for.
pub fn decode_message(json: Json) -> (r: Option<WorkerMessage>)
    ensures
        match r {
            Some(message) => message_of(json) == Some(message@),
            None => message_of(json).is_none(),
        },
{
    let success = match get_field(&json, "success", 0, 3) {
        Some(Json::Bool(flag)) => *flag,
        _ => {
            return None;
        },
    };
    let message = match get_field(&json, "message", 1, 3) {
        None => None,
        Some(Json::Null) => None,
        Some(Json::Text(text)) => Some(text.clone()),
        Some(_) => {
            return None;
        },
    };
    let data = match take_field(json, "data", 2, 3) {
        Some(Json::Null) => None,
        other => other,
    };
    Some(WorkerMessage { success, message, data })
}

impl WorkerMessage {
    /// Whether this message is a progress update.
    pub fn is_progress(&self) -> (r: bool)
        ensures
            r == progress_of(self@).is_some(),
    {
        let named = match &self.message {
            Some(text) => {
                let wanted = "progress".to_owned();
                *text == wanted
            },
            None => false,
        };
        if !named {
            return false;
        }
        match &self.data {
            Some(data) => match get_member(data, "progress") {
                Some(_) => true,
                None => false,
            },
            None => false,
        }
    }

    /// Sorts the message: a progress update gives up its progress value, any
    /// other message is kept whole as a candidate for the final answer.
    pub fn classify(self) -> (r: Classified)
        ensures
            match progress_of(self@) {
                Some(value) => r == Classified::Progress(value),
                None => r matches Classified::Final(kept) && kept@ == self@,
            },
    {
        let WorkerMessage { success, message, data } = self;
        let named = match &message {
            Some(text) => {
                let wanted = "progress".to_owned();
                *text == wanted
            },
            None => false,
        };
        if !named {
            return Classified::Final(WorkerMessage { success, message, data });
        }
        match data {
            None => Classified::Final(WorkerMessage { success, message, data: None }),
            Some(document) => match take_member(document, "progress") {
                Ok(value) => Classified::Progress(value),
                Err(document) => Classified::Final(
                    WorkerMessage { success, message, data: Some(document) },
                ),
            },
        }
    }
}

} // verus!
