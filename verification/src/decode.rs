//! Reading records out of JSON values.
//!
//! Each record has a specification, `decoded`, that says for every JSON
//! value which record it holds or where it first departs from one. Members
//! are read in the order of the record's fields, and the first departure is
//! the one reported. Members that the record does not know are ignored.

use crate::dtypes::{
    optional_text, optional_view, views, ChatCompletionChoice, ChatCompletionChunk, ChatCompletionChunkChoice,
    ChatCompletionMessage, ChatCompletionObject, ChatCompletionUsage, ChoiceModel,
    ChunkChoiceModel, ChunkModel, CompletionModel, FunctionCall, FunctionCallModel,
    FunctionCallType, FunctionCallTypeModel, ListModelsModel, ListModelsResponse, MessageModel,
    ModelObject, ModelObjectModel, StopToken, StopTokenModel, UsageModel,
};
use crate::error::Mismatch;
use crate::json::{json_model, json_models, lookup, member, JsonNumber, JsonValue};
use vstd::prelude::*;

verus! {

/// A record that can be read out of a JSON value.
pub trait FromJson: View + Sized {
    /// The record that a JSON value holds, or where it departs from one.
    spec fn decoded(j: JsonValue) -> Result<Self::V, Mismatch>;

    /// Reads the record out of `v`.
    fn from_json(v: &serde_json::Value) -> (r: Result<Self, Mismatch>)
        ensures
            outcome(r) == Self::decoded(json_model(*v)),
    ;
}

/// The model of what a decoder returned.
pub open spec fn outcome<T: View>(r: Result<T, Mismatch>) -> Result<T::V, Mismatch> {
    match r {
        Ok(record) => Ok(record@),
        Err(mismatch) => Err(mismatch),
    }
}

/// The model of what reading an optional text returned.
pub open spec fn optional_text_outcome(r: Result<Option<String>, Mismatch>) -> Result<
    Option<Seq<char>>,
    Mismatch,
> {
    match r {
        Ok(text) => Ok(optional_text(text)),
        Err(mismatch) => Err(mismatch),
    }
}

/// The model of what reading an optional record returned.
pub open spec fn optional_outcome<T: View>(r: Result<Option<T>, Mismatch>) -> Result<
    Option<T::V>,
    Mismatch,
> {
    match r {
        Ok(record) => Ok(optional_view(record)),
        Err(mismatch) => Err(mismatch),
    }
}

/// The model of what reading a sequence of records returned.
pub open spec fn each_outcome<T: View>(r: Result<Vec<T>, Mismatch>) -> Result<Seq<T::V>, Mismatch> {
    match r {
        Ok(records) => Ok(views(records@)),
        Err(mismatch) => Err(mismatch),
    }
}

/// The text of the required member `key`.
pub open spec fn text_at(j: JsonValue, key: &'static str) -> Result<Seq<char>, Mismatch> {
    match lookup(j, key@) {
        None => Err(Mismatch::Missing(key)),
        Some(JsonValue::String(text)) => Ok(text),
        Some(_) => Err(Mismatch::WrongKind(key)),
    }
}

/// The non-negative integer of the required member `key`.
pub open spec fn count_at(j: JsonValue, key: &'static str) -> Result<u64, Mismatch> {
    match lookup(j, key@) {
        None => Err(Mismatch::Missing(key)),
        Some(JsonValue::Number(JsonNumber::PosInt(n))) => Ok(n),
        Some(_) => Err(Mismatch::WrongKind(key)),
    }
}

/// The text of the optional member `key`: a member that is missing and one
/// that is `null` both count as absent.
pub open spec fn optional_text_at(j: JsonValue, key: &'static str) -> Result<
    Option<Seq<char>>,
    Mismatch,
> {
    match lookup(j, key@) {
        None => Ok(None),
        Some(JsonValue::Null) => Ok(None),
        Some(JsonValue::String(text)) => Ok(Some(text)),
        Some(_) => Err(Mismatch::WrongKind(key)),
    }
}

/// The record under the required member `key`.
pub open spec fn record_at<T: FromJson>(j: JsonValue, key: &'static str) -> Result<T::V, Mismatch> {
    match lookup(j, key@) {
        None => Err(Mismatch::Missing(key)),
        Some(inner) => T::decoded(inner),
    }
}

/// The record under the optional member `key`: a member that is missing and
/// one that is `null` both count as absent.
pub open spec fn optional_record_at<T: FromJson>(j: JsonValue, key: &'static str) -> Result<
    Option<T::V>,
    Mismatch,
> {
    match lookup(j, key@) {
        None => Ok(None),
        Some(JsonValue::Null) => Ok(None),
        Some(inner) => match T::decoded(inner) {
            Ok(record) => Ok(Some(record)),
            Err(mismatch) => Err(mismatch),
        },
    }
}

/// The records that a sequence of JSON values holds, in order, or the
/// departure of the first value that holds none.
pub open spec fn each_decoded<T: FromJson>(items: Seq<JsonValue>) -> Result<Seq<T::V>, Mismatch>
    decreases items.len(),
{
    if items.len() == 0 {
        Ok(Seq::empty())
    } else {
        match each_decoded::<T>(items.drop_last()) {
            Err(mismatch) => Err(mismatch),
            Ok(front) => match T::decoded(items.last()) {
                Err(mismatch) => Err(mismatch),
                Ok(record) => Ok(front.push(record)),
            },
        }
    }
}

/// The records under the required member `key`, which has to be an array.
pub open spec fn records_at<T: FromJson>(j: JsonValue, key: &'static str) -> Result<
    Seq<T::V>,
    Mismatch,
> {
    match lookup(j, key@) {
        None => Err(Mismatch::Missing(key)),
        Some(JsonValue::Array(items)) => each_decoded::<T>(items),
        Some(_) => Err(Mismatch::WrongKind(key)),
    }
}

/// A departure among the first values of a sequence is the departure of the
/// whole sequence.
pub proof fn lemma_first_departure_stands<T: FromJson>(items: Seq<JsonValue>, k: int)
    requires
        0 <= k <= items.len(),
        each_decoded::<T>(items.take(k)) is Err,
    ensures
        each_decoded::<T>(items) == each_decoded::<T>(items.take(k)),
    decreases items.len(),
{
    if k == items.len() {
        assert(items.take(k) =~= items);
    } else {
        assert(items.drop_last().take(k) =~= items.take(k));
        lemma_first_departure_stands::<T>(items.drop_last(), k);
    }
}

/// Reads the text of the required member `key`.
pub fn read_text(v: &serde_json::Value, key: &'static str) -> (r: Result<String, Mismatch>)
    ensures
        outcome(r) == text_at(json_model(*v), key),
{
    match member(v, key) {
        None => Err(Mismatch::Missing(key)),
        Some(found) => match found.as_str() {
            Some(text) => Ok(text.to_owned()),
            None => Err(Mismatch::WrongKind(key)),
        },
    }
}

/// Reads the non-negative integer of the required member `key`.
pub fn read_count(v: &serde_json::Value, key: &'static str) -> (r: Result<u64, Mismatch>)
    ensures
        r == count_at(json_model(*v), key),
{
    match member(v, key) {
        None => Err(Mismatch::Missing(key)),
        Some(found) => match found.as_u64() {
            Some(n) => Ok(n),
            None => Err(Mismatch::WrongKind(key)),
        },
    }
}

/// Reads the text of the optional member `key`.
pub fn read_optional_text(v: &serde_json::Value, key: &'static str) -> (r: Result<
    Option<String>,
    Mismatch,
>)
    ensures
        optional_text_outcome(r) == optional_text_at(json_model(*v), key),
{
    match member(v, key) {
        None => Ok(None),
        Some(found) => if found.is_null() {
            Ok(None)
        } else {
            match found.as_str() {
                Some(text) => Ok(Some(text.to_owned())),
                None => Err(Mismatch::WrongKind(key)),
            }
        },
    }
}

/// Reads the record under the required member `key`.
pub fn read_record<T: FromJson>(v: &serde_json::Value, key: &'static str) -> (r: Result<
    T,
    Mismatch,
>)
    ensures
        outcome(r) == record_at::<T>(json_model(*v), key),
{
    match member(v, key) {
        None => Err(Mismatch::Missing(key)),
        Some(found) => T::from_json(found),
    }
}

/// Reads the record under the optional member `key`.
pub fn read_optional_record<T: FromJson>(v: &serde_json::Value, key: &'static str) -> (r: Result<
    Option<T>,
    Mismatch,
>)
    ensures
        optional_outcome(r) == optional_record_at::<T>(json_model(*v), key),
{
    match member(v, key) {
        None => Ok(None),
        Some(found) => if found.is_null() {
            Ok(None)
        } else {
            match T::from_json(found) {
                Ok(record) => Ok(Some(record)),
                Err(mismatch) => Err(mismatch),
            }
        },
    }
}

/// Reads a record out of each value, in order, and stops at the first value
/// that holds none.
pub fn read_each<T: FromJson>(items: &Vec<serde_json::Value>) -> (r: Result<Vec<T>, Mismatch>)
    ensures
        each_outcome(r) == each_decoded::<T>(json_models(items@)),
{
    let ghost all = json_models(items@);
    let mut records: Vec<T> = Vec::new();
    let mut i: usize = 0;
    assert(all.take(0) =~= Seq::empty());
    assert(views(records@) =~= Seq::empty());
    while i < items.len()
        invariant
            i <= items.len(),
            all == json_models(items@),
            each_decoded::<T>(all.take(i as int)) == Ok::<Seq<T::V>, Mismatch>(views(records@)),
        decreases items.len() - i,
    {
        let ghost before = views(records@);
        proof {
            assert(all.take(i + 1).drop_last() =~= all.take(i as int));
            assert(all.take(i + 1).last() == json_model(items@[i as int]));
        }
        match T::from_json(&items[i]) {
            Err(mismatch) => {
                proof {
                    lemma_first_departure_stands::<T>(all, i + 1);
                }
                return Err(mismatch);
            },
            Ok(record) => {
                records.push(record);
                assert(views(records@) =~= before.push(record@));
            },
        }
        i += 1;
    }
    assert(all.take(i as int) =~= all);
    Ok(records)
}

/// Reads the records under the required member `key`, which has to be an
/// array.
pub fn read_records<T: FromJson>(v: &serde_json::Value, key: &'static str) -> (r: Result<
    Vec<T>,
    Mismatch,
>)
    ensures
        each_outcome(r) == records_at::<T>(json_model(*v), key),
{
    match member(v, key) {
        None => Err(Mismatch::Missing(key)),
        Some(found) => match found.as_array() {
            Some(items) => read_each::<T>(items),
            None => Err(Mismatch::WrongKind(key)),
        },
    }
}

impl FromJson for String {
    open spec fn decoded(j: JsonValue) -> Result<Seq<char>, Mismatch> {
        match j {
            JsonValue::String(text) => Ok(text),
            _ => Err(Mismatch::NotAString),
        }
    }

    fn from_json(v: &serde_json::Value) -> (r: Result<String, Mismatch>) {
        match v.as_str() {
            Some(text) => Ok(text.to_owned()),
            None => Err(Mismatch::NotAString),
        }
    }
}

impl FromJson for FunctionCall {
    open spec fn decoded(j: JsonValue) -> Result<FunctionCallModel, Mismatch> {
        if !(j is Object) {
            Err(Mismatch::NotAnObject)
        } else {
            match text_at(j, "name") {
                Err(mismatch) => Err(mismatch),
                Ok(name) => match text_at(j, "arguments") {
                    Err(mismatch) => Err(mismatch),
                    Ok(arguments) => Ok(FunctionCallModel { name, arguments }),
                },
            }
        }
    }

    fn from_json(v: &serde_json::Value) -> (r: Result<FunctionCall, Mismatch>) {
        if !v.is_object() {
            return Err(Mismatch::NotAnObject);
        }
        let name = read_text(v, "name")?;
        let arguments = read_text(v, "arguments")?;
        Ok(FunctionCall { name, arguments })
    }
}

impl FromJson for ChatCompletionMessage {
    /// Every member of a message may be absent, so that a streamed part
    /// decodes as a message; an absent role reads as the empty text.
    open spec fn decoded(j: JsonValue) -> Result<MessageModel, Mismatch> {
        if !(j is Object) {
            Err(Mismatch::NotAnObject)
        } else {
            match optional_text_at(j, "role") {
                Err(mismatch) => Err(mismatch),
                Ok(role) => match optional_text_at(j, "content") {
                    Err(mismatch) => Err(mismatch),
                    Ok(content) => match optional_record_at::<FunctionCall>(j, "function_call") {
                        Err(mismatch) => Err(mismatch),
                        Ok(function_call) => Ok(
                            MessageModel {
                                role: match role {
                                    Some(role) => role,
                                    None => Seq::empty(),
                                },
                                content,
                                function_call,
                            },
                        ),
                    },
                },
            }
        }
    }

    fn from_json(v: &serde_json::Value) -> (r: Result<ChatCompletionMessage, Mismatch>) {
        if !v.is_object() {
            return Err(Mismatch::NotAnObject);
        }
        let role = match read_optional_text(v, "role")? {
            Some(role) => role,
            None => String::new(),
        };
        let content = read_optional_text(v, "content")?;
        let function_call = read_optional_record::<FunctionCall>(v, "function_call")?;
        Ok(ChatCompletionMessage { role, content, function_call })
    }
}

impl FromJson for ChatCompletionChunkChoice {
    open spec fn decoded(j: JsonValue) -> Result<ChunkChoiceModel, Mismatch> {
        if !(j is Object) {
            Err(Mismatch::NotAnObject)
        } else {
            match count_at(j, "index") {
                Err(mismatch) => Err(mismatch),
                Ok(index) => match record_at::<ChatCompletionMessage>(j, "delta") {
                    Err(mismatch) => Err(mismatch),
                    Ok(delta) => match optional_text_at(j, "finish_reason") {
                        Err(mismatch) => Err(mismatch),
                        Ok(finish_reason) => Ok(ChunkChoiceModel { index, delta, finish_reason }),
                    },
                },
            }
        }
    }

    fn from_json(v: &serde_json::Value) -> (r: Result<ChatCompletionChunkChoice, Mismatch>) {
        if !v.is_object() {
            return Err(Mismatch::NotAnObject);
        }
        let index = read_count(v, "index")?;
        let delta = read_record::<ChatCompletionMessage>(v, "delta")?;
        let finish_reason = read_optional_text(v, "finish_reason")?;
        Ok(ChatCompletionChunkChoice { index, delta, finish_reason })
    }
}

impl FromJson for ChatCompletionChunk {
    open spec fn decoded(j: JsonValue) -> Result<ChunkModel, Mismatch> {
        if !(j is Object) {
            Err(Mismatch::NotAnObject)
        } else {
            match text_at(j, "id") {
                Err(mismatch) => Err(mismatch),
                Ok(id) => match text_at(j, "object") {
                    Err(mismatch) => Err(mismatch),
                    Ok(object) => match count_at(j, "created") {
                        Err(mismatch) => Err(mismatch),
                        Ok(created) => match text_at(j, "model") {
                            Err(mismatch) => Err(mismatch),
                            Ok(model) => match records_at::<ChatCompletionChunkChoice>(
                                j,
                                "choices",
                            ) {
                                Err(mismatch) => Err(mismatch),
                                Ok(choices) => Ok(
                                    ChunkModel { id, object, created, model, choices },
                                ),
                            },
                        },
                    },
                },
            }
        }
    }

    fn from_json(v: &serde_json::Value) -> (r: Result<ChatCompletionChunk, Mismatch>) {
        if !v.is_object() {
            return Err(Mismatch::NotAnObject);
        }
        let id = read_text(v, "id")?;
        let object = read_text(v, "object")?;
        let created = read_count(v, "created")?;
        let model = read_text(v, "model")?;
        let choices = read_records::<ChatCompletionChunkChoice>(v, "choices")?;
        Ok(ChatCompletionChunk { id, object, created, model, choices })
    }
}

impl FromJson for ChatCompletionUsage {
    open spec fn decoded(j: JsonValue) -> Result<UsageModel, Mismatch> {
        if !(j is Object) {
            Err(Mismatch::NotAnObject)
        } else {
            match count_at(j, "prompt_tokens") {
                Err(mismatch) => Err(mismatch),
                Ok(prompt_tokens) => match count_at(j, "completion_tokens") {
                    Err(mismatch) => Err(mismatch),
                    Ok(completion_tokens) => match count_at(j, "total_tokens") {
                        Err(mismatch) => Err(mismatch),
                        Ok(total_tokens) => Ok(
                            UsageModel { prompt_tokens, completion_tokens, total_tokens },
                        ),
                    },
                },
            }
        }
    }

    fn from_json(v: &serde_json::Value) -> (r: Result<ChatCompletionUsage, Mismatch>) {
        if !v.is_object() {
            return Err(Mismatch::NotAnObject);
        }
        let prompt_tokens = read_count(v, "prompt_tokens")?;
        let completion_tokens = read_count(v, "completion_tokens")?;
        let total_tokens = read_count(v, "total_tokens")?;
        Ok(ChatCompletionUsage { prompt_tokens, completion_tokens, total_tokens })
    }
}

impl FromJson for ChatCompletionChoice {
    open spec fn decoded(j: JsonValue) -> Result<ChoiceModel, Mismatch> {
        if !(j is Object) {
            Err(Mismatch::NotAnObject)
        } else {
            match count_at(j, "index") {
                Err(mismatch) => Err(mismatch),
                Ok(index) => match record_at::<ChatCompletionMessage>(j, "message") {
                    Err(mismatch) => Err(mismatch),
                    Ok(message) => match text_at(j, "finish_reason") {
                        Err(mismatch) => Err(mismatch),
                        Ok(finish_reason) => Ok(ChoiceModel { index, message, finish_reason }),
                    },
                },
            }
        }
    }

    fn from_json(v: &serde_json::Value) -> (r: Result<ChatCompletionChoice, Mismatch>) {
        if !v.is_object() {
            return Err(Mismatch::NotAnObject);
        }
        let index = read_count(v, "index")?;
        let message = read_record::<ChatCompletionMessage>(v, "message")?;
        let finish_reason = read_text(v, "finish_reason")?;
        Ok(ChatCompletionChoice { index, message, finish_reason })
    }
}

impl FromJson for ChatCompletionObject {
    open spec fn decoded(j: JsonValue) -> Result<CompletionModel, Mismatch> {
        if !(j is Object) {
            Err(Mismatch::NotAnObject)
        } else {
            match text_at(j, "id") {
                Err(mismatch) => Err(mismatch),
                Ok(id) => match text_at(j, "object") {
                    Err(mismatch) => Err(mismatch),
                    Ok(object) => match count_at(j, "created") {
                        Err(mismatch) => Err(mismatch),
                        Ok(created) => match text_at(j, "model") {
                            Err(mismatch) => Err(mismatch),
                            Ok(model) => match records_at::<ChatCompletionChoice>(j, "choices") {
                                Err(mismatch) => Err(mismatch),
                                Ok(choices) => match record_at::<ChatCompletionUsage>(j, "usage") {
                                    Err(mismatch) => Err(mismatch),
                                    Ok(usage) => Ok(
                                        CompletionModel {
                                            id,
                                            object,
                                            created,
                                            model,
                                            choices,
                                            usage,
                                        },
                                    ),
                                },
                            },
                        },
                    },
                },
            }
        }
    }

    fn from_json(v: &serde_json::Value) -> (r: Result<ChatCompletionObject, Mismatch>) {
        if !v.is_object() {
            return Err(Mismatch::NotAnObject);
        }
        let id = read_text(v, "id")?;
        let object = read_text(v, "object")?;
        let created = read_count(v, "created")?;
        let model = read_text(v, "model")?;
        let choices = read_records::<ChatCompletionChoice>(v, "choices")?;
        let usage = read_record::<ChatCompletionUsage>(v, "usage")?;
        Ok(ChatCompletionObject { id, object, created, model, choices, usage })
    }
}

impl FromJson for ModelObject {
    open spec fn decoded(j: JsonValue) -> Result<ModelObjectModel, Mismatch> {
        if !(j is Object) {
            Err(Mismatch::NotAnObject)
        } else {
            match text_at(j, "id") {
                Err(mismatch) => Err(mismatch),
                Ok(id) => match text_at(j, "object") {
                    Err(mismatch) => Err(mismatch),
                    Ok(object) => match count_at(j, "created") {
                        Err(mismatch) => Err(mismatch),
                        Ok(created) => match text_at(j, "owned_by") {
                            Err(mismatch) => Err(mismatch),
                            Ok(owned_by) => Ok(ModelObjectModel { id, object, created, owned_by }),
                        },
                    },
                },
            }
        }
    }

    fn from_json(v: &serde_json::Value) -> (r: Result<ModelObject, Mismatch>) {
        if !v.is_object() {
            return Err(Mismatch::NotAnObject);
        }
        let id = read_text(v, "id")?;
        let object = read_text(v, "object")?;
        let created = read_count(v, "created")?;
        let owned_by = read_text(v, "owned_by")?;
        Ok(ModelObject { id, object, created, owned_by })
    }
}

impl FromJson for ListModelsResponse {
    open spec fn decoded(j: JsonValue) -> Result<ListModelsModel, Mismatch> {
        if !(j is Object) {
            Err(Mismatch::NotAnObject)
        } else {
            match text_at(j, "object") {
                Err(mismatch) => Err(mismatch),
                Ok(object) => match records_at::<ModelObject>(j, "data") {
                    Err(mismatch) => Err(mismatch),
                    Ok(data) => Ok(ListModelsModel { object, data }),
                },
            }
        }
    }

    fn from_json(v: &serde_json::Value) -> (r: Result<ListModelsResponse, Mismatch>) {
        if !v.is_object() {
            return Err(Mismatch::NotAnObject);
        }
        let object = read_text(v, "object")?;
        let data = read_records::<ModelObject>(v, "data")?;
        Ok(ListModelsResponse { object, data })
    }
}

/// The word that stands for [`FunctionCallType::Never`] on the wire.
pub open spec fn word_none() -> Seq<char> {
    seq!['n', 'o', 'n', 'e']
}

/// The word that stands for [`FunctionCallType::Auto`] on the wire.
pub open spec fn word_auto() -> Seq<char> {
    seq!['a', 'u', 't', 'o']
}

impl FromJson for FunctionCallType {
    /// A string has to be one of the two words; an object has to name the
    /// function under `name`.
    open spec fn decoded(j: JsonValue) -> Result<FunctionCallTypeModel, Mismatch> {
        match j {
            JsonValue::String(word) => if word == word_none() {
                Ok(FunctionCallTypeModel::Never)
            } else if word == word_auto() {
                Ok(FunctionCallTypeModel::Auto)
            } else {
                Err(Mismatch::WrongKind("function_call"))
            },
            JsonValue::Object(_) => match text_at(j, "name") {
                Err(mismatch) => Err(mismatch),
                Ok(name) => Ok(FunctionCallTypeModel::Name(name)),
            },
            _ => Err(Mismatch::WrongKind("function_call")),
        }
    }

    fn from_json(v: &serde_json::Value) -> (r: Result<FunctionCallType, Mismatch>) {
        proof {
            reveal_strlit("none");
            reveal_strlit("auto");
            assert("none"@ =~= word_none());
            assert("auto"@ =~= word_auto());
        }
        match v.as_str() {
            Some(word) => if word.eq("none") {
                Ok(FunctionCallType::Never)
            } else if word.eq("auto") {
                Ok(FunctionCallType::Auto)
            } else {
                Err(Mismatch::WrongKind("function_call"))
            },
            None => if v.is_object() {
                let name = read_text(v, "name")?;
                Ok(FunctionCallType::Name(name))
            } else {
                Err(Mismatch::WrongKind("function_call"))
            },
        }
    }
}

impl FromJson for StopToken {
    /// A string is a single token. Only a value that is no string is read as
    /// an array of tokens.
    open spec fn decoded(j: JsonValue) -> Result<StopTokenModel, Mismatch> {
        match j {
            JsonValue::String(token) => Ok(StopTokenModel::SingleToken(token)),
            JsonValue::Array(items) => match each_decoded::<String>(items) {
                Err(mismatch) => Err(mismatch),
                Ok(tokens) => Ok(StopTokenModel::MultipleTokens(tokens)),
            },
            _ => Err(Mismatch::WrongKind("stop")),
        }
    }

    fn from_json(v: &serde_json::Value) -> (r: Result<StopToken, Mismatch>) {
        match v.as_str() {
            Some(token) => Ok(StopToken::SingleToken(token.to_owned())),
            None => match v.as_array() {
                Some(items) => {
                    let tokens = read_each::<String>(items)?;
                    Ok(StopToken::MultipleTokens(tokens))
                },
                None => Err(Mismatch::WrongKind("stop")),
            },
        }
    }
}

} // verus!
