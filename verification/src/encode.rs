//! Writing records as JSON values.
//!
//! Each record has a specification, `encoded`, that says which JSON value
//! stands for it on the wire. An optional field that is absent is left out
//! of the object; it is never written as `null`.

use crate::decode::{word_auto, word_none};
use crate::dtypes::{
    bias_models, optional_number, optional_text, optional_view, views, ChatCompletionMessage, ChatCompletionRequest, Function, FunctionCall,
    FunctionCallModel, FunctionCallType, FunctionCallTypeModel, FunctionModel, MessageModel,
    RequestModel, StopToken, StopTokenModel,
};
use crate::json::{
    array_value, count_value, flag_value, json_model, json_models, number_value,
    object_model, object_value, optional_model, text_value, JsonNumber, JsonValue,
};
use vstd::prelude::*;

verus! {

/// A record that can be written as a JSON value.
pub trait ToJson: View {
    /// The JSON value that stands for the record.
    spec fn encoded(model: Self::V) -> JsonValue;

    /// Writes the record as a JSON value.
    fn to_json(&self) -> (r: serde_json::Value)
        ensures
            json_model(r) == Self::encoded(self@),
    ;
}

/// The JSON values that stand for the records of a sequence, in order.
pub open spec fn each_encoded<T: ToJson>(models: Seq<T::V>) -> Seq<JsonValue> {
    models.map_values(|model: T::V| T::encoded(model))
}

/// `members` with `value` under `key` where there is a value, and unchanged
/// where there is none.
pub open spec fn with_optional(
    members: Map<Seq<char>, JsonValue>,
    key: Seq<char>,
    value: Option<JsonValue>,
) -> Map<Seq<char>, JsonValue> {
    match value {
        Some(value) => members.insert(key, value),
        None => members,
    }
}

/// The JSON string for an optional text.
pub open spec fn optional_text_json(text: Option<Seq<char>>) -> Option<JsonValue> {
    match text {
        Some(text) => Some(JsonValue::String(text)),
        None => None,
    }
}

/// The JSON number for an optional non-negative integer.
pub open spec fn optional_count_json(n: Option<u64>) -> Option<JsonValue> {
    match n {
        Some(n) => Some(JsonValue::Number(JsonNumber::PosInt(n))),
        None => None,
    }
}

/// The JSON value for an optional number.
pub open spec fn optional_number_json(n: Option<JsonNumber>) -> Option<JsonValue> {
    match n {
        Some(n) => Some(JsonValue::Number(n)),
        None => None,
    }
}

/// The JSON value for an optional flag.
pub open spec fn optional_flag_json(flag: Option<bool>) -> Option<JsonValue> {
    match flag {
        Some(flag) => Some(JsonValue::Bool(flag)),
        None => None,
    }
}

/// The JSON value for an optional record.
pub open spec fn optional_json<T: ToJson>(model: Option<T::V>) -> Option<JsonValue> {
    match model {
        Some(model) => Some(T::encoded(model)),
        None => None,
    }
}

/// The members of the object that stands for a list of biases: each bias
/// under its token, a later bias in place of an earlier one for that token.
pub open spec fn bias_members(biases: Seq<(Seq<char>, JsonNumber)>) -> Map<Seq<char>, JsonValue>
    decreases biases.len(),
{
    if biases.len() == 0 {
        Map::empty()
    } else {
        bias_members(biases.drop_last()).insert(
            biases.last().0,
            JsonValue::Number(biases.last().1),
        )
    }
}

/// The JSON object for an optional list of biases.
pub open spec fn optional_bias_json(biases: Option<Seq<(Seq<char>, JsonNumber)>>) -> Option<
    JsonValue,
> {
    match biases {
        Some(biases) => Some(JsonValue::Object(bias_members(biases))),
        None => None,
    }
}

/// Puts `value` under `key` where there is a value.
pub fn put_optional(
    members: &mut serde_json::Map<String, serde_json::Value>,
    key: &str,
    value: Option<serde_json::Value>,
)
    ensures
        object_model(*final(members)) == with_optional(
            object_model(*old(members)),
            key@,
            optional_model(value),
        ),
{
    match value {
        Some(value) => {
            let _ = members.insert(key.to_owned(), value);
        },
        None => {},
    }
}

/// Writes each record of `items` as a JSON value and returns the array of
/// them, in order.
pub fn write_each<T: ToJson>(items: &Vec<T>) -> (r: serde_json::Value)
    ensures
        json_model(r) == JsonValue::Array(each_encoded::<T>(views(items@))),
{
    let mut values: Vec<serde_json::Value> = Vec::new();
    let mut i: usize = 0;
    while i < items.len()
        invariant
            i <= items.len(),
            values@.len() == i,
            forall|k: int| 0 <= k < i ==> json_model(#[trigger] values@[k]) == T::encoded(items@[k]@),
        decreases items.len() - i,
    {
        values.push(items[i].to_json());
        i += 1;
    }
    assert(json_models(values@) =~= each_encoded::<T>(views(items@)));
    array_value(values)
}

impl ToJson for String {
    open spec fn encoded(model: Seq<char>) -> JsonValue {
        JsonValue::String(model)
    }

    fn to_json(&self) -> (r: serde_json::Value) {
        text_value(self.clone())
    }
}

impl ToJson for FunctionCall {
    open spec fn encoded(model: FunctionCallModel) -> JsonValue {
        JsonValue::Object(
            Map::<Seq<char>, JsonValue>::empty().insert(
                "name"@,
                JsonValue::String(model.name),
            ).insert("arguments"@, JsonValue::String(model.arguments)),
        )
    }

    fn to_json(&self) -> (r: serde_json::Value) {
        let mut members = serde_json::Map::new();
        let _ = members.insert("name".to_owned(), text_value(self.name.clone()));
        let _ = members.insert("arguments".to_owned(), text_value(self.arguments.clone()));
        object_value(members)
    }
}

impl ToJson for ChatCompletionMessage {
    open spec fn encoded(model: MessageModel) -> JsonValue {
        let members = Map::<Seq<char>, JsonValue>::empty().insert(
            "role"@,
            JsonValue::String(model.role),
        );
        let members = with_optional(members, "content"@, optional_text_json(model.content));
        let members = with_optional(
            members,
            "function_call"@,
            optional_json::<FunctionCall>(model.function_call),
        );
        JsonValue::Object(members)
    }

    fn to_json(&self) -> (r: serde_json::Value) {
        let mut members = serde_json::Map::new();
        let _ = members.insert("role".to_owned(), text_value(self.role.clone()));
        put_optional(&mut members, "content", write_optional_text(&self.content));
        put_optional(&mut members, "function_call", write_optional(&self.function_call));
        object_value(members)
    }
}

impl ToJson for Function {
    open spec fn encoded(model: FunctionModel) -> JsonValue {
        let members = Map::<Seq<char>, JsonValue>::empty().insert(
            "name"@,
            JsonValue::String(model.name),
        );
        let members = with_optional(members, "description"@, optional_text_json(model.description));
        JsonValue::Object(members.insert("parameters"@, model.parameters))
    }

    fn to_json(&self) -> (r: serde_json::Value) {
        let mut members = serde_json::Map::new();
        let _ = members.insert("name".to_owned(), text_value(self.name.clone()));
        put_optional(&mut members, "description", write_optional_text(&self.description));
        let _ = members.insert("parameters".to_owned(), self.parameters.clone());
        object_value(members)
    }
}

impl ToJson for FunctionCallType {
    /// The two plain directives are bare words; only the directive that
    /// names a function is an object.
    open spec fn encoded(model: FunctionCallTypeModel) -> JsonValue {
        match model {
            FunctionCallTypeModel::Never => JsonValue::String(word_none()),
            FunctionCallTypeModel::Auto => JsonValue::String(word_auto()),
            FunctionCallTypeModel::Name(name) => JsonValue::Object(
                Map::<Seq<char>, JsonValue>::empty().insert("name"@, JsonValue::String(name)),
            ),
        }
    }

    fn to_json(&self) -> (r: serde_json::Value) {
        proof {
            reveal_strlit("none");
            reveal_strlit("auto");
            assert("none"@ =~= word_none());
            assert("auto"@ =~= word_auto());
        }
        match self {
            FunctionCallType::Never => text_value("none".to_owned()),
            FunctionCallType::Auto => text_value("auto".to_owned()),
            FunctionCallType::Name(name) => {
                let mut members = serde_json::Map::new();
                let _ = members.insert("name".to_owned(), text_value(name.clone()));
                object_value(members)
            },
        }
    }
}

impl ToJson for StopToken {
    /// Each form is written as it is: a single token as a string, several
    /// tokens as an array, also where the array holds one token or none.
    open spec fn encoded(model: StopTokenModel) -> JsonValue {
        match model {
            StopTokenModel::SingleToken(token) => JsonValue::String(token),
            StopTokenModel::MultipleTokens(tokens) => JsonValue::Array(
                each_encoded::<String>(tokens),
            ),
        }
    }

    fn to_json(&self) -> (r: serde_json::Value) {
        match self {
            StopToken::SingleToken(token) => text_value(token.clone()),
            StopToken::MultipleTokens(tokens) => write_each::<String>(tokens),
        }
    }
}

/// Writes an optional text as a JSON string.
pub fn write_optional_text(text: &Option<String>) -> (r: Option<serde_json::Value>)
    ensures
        optional_model(r) == optional_text_json(optional_text(*text)),
{
    match text {
        Some(text) => Some(text_value(text.clone())),
        None => None,
    }
}

/// Writes an optional record as a JSON value.
pub fn write_optional<T: ToJson>(item: &Option<T>) -> (r: Option<serde_json::Value>)
    ensures
        optional_model(r) == optional_json::<T>(optional_view(*item)),
{
    match item {
        Some(item) => Some(item.to_json()),
        None => None,
    }
}

/// Writes an optional non-negative integer as a JSON number.
pub fn write_optional_count(n: Option<u64>) -> (r: Option<serde_json::Value>)
    ensures
        optional_model(r) == optional_count_json(n),
{
    match n {
        Some(n) => Some(count_value(n)),
        None => None,
    }
}

/// Writes an optional flag as a JSON boolean.
pub fn write_optional_flag(flag: Option<bool>) -> (r: Option<serde_json::Value>)
    ensures
        optional_model(r) == optional_flag_json(flag),
{
    match flag {
        Some(flag) => Some(flag_value(flag)),
        None => None,
    }
}

/// Writes an optional number as a JSON value.
pub fn write_optional_number(n: &Option<serde_json::Number>) -> (r: Option<serde_json::Value>)
    ensures
        optional_model(r) == optional_number_json(optional_number(*n)),
{
    match n {
        Some(n) => Some(number_value(n.clone())),
        None => None,
    }
}

/// Writes a list of biases as a JSON object.
pub fn write_biases(biases: &Vec<(String, serde_json::Number)>) -> (r: serde_json::Value)
    ensures
        json_model(r) == JsonValue::Object(bias_members(bias_models(biases@))),
{
    let ghost all = bias_models(biases@);
    let mut members = serde_json::Map::new();
    let mut i: usize = 0;
    assert(all.take(0) =~= Seq::empty());
    while i < biases.len()
        invariant
            i <= biases.len(),
            all == bias_models(biases@),
            object_model(members) == bias_members(all.take(i as int)),
        decreases biases.len() - i,
    {
        proof {
            assert(all.take(i + 1).drop_last() =~= all.take(i as int));
            assert(all.take(i + 1).last() == all[i as int]);
        }
        let _ = members.insert(biases[i].0.clone(), number_value(biases[i].1.clone()));
        i += 1;
    }
    assert(all.take(i as int) =~= all);
    object_value(members)
}

/// Writes an optional list of biases as a JSON object.
pub fn write_optional_biases(biases: &Option<Vec<(String, serde_json::Number)>>) -> (r: Option<
    serde_json::Value,
>)
    ensures
        optional_model(r) == optional_bias_json(
            match *biases {
                Some(biases) => Some(bias_models(biases@)),
                None => None,
            },
        ),
{
    match biases {
        Some(biases) => Some(write_biases(biases)),
        None => None,
    }
}

impl ToJson for ChatCompletionRequest {
    /// The model, the messages and the functions are always written, the
    /// functions also where there are none. Every other member is written
    /// only where the request holds a value for it.
    open spec fn encoded(model: RequestModel) -> JsonValue {
        let members = Map::<Seq<char>, JsonValue>::empty().insert(
            "model"@,
            JsonValue::String(model.model),
        ).insert(
            "messages"@,
            JsonValue::Array(each_encoded::<ChatCompletionMessage>(model.messages)),
        ).insert("functions"@, JsonValue::Array(each_encoded::<Function>(model.functions)));
        let members = with_optional(
            members,
            "function_call"@,
            optional_json::<FunctionCallType>(model.function_call),
        );
        let members = with_optional(
            members,
            "temperature"@,
            optional_number_json(model.temperature),
        );
        let members = with_optional(members, "top_p"@, optional_number_json(model.top_p));
        let members = with_optional(members, "n"@, optional_count_json(model.n));
        let members = with_optional(members, "stream"@, optional_flag_json(model.stream));
        let members = with_optional(members, "stop"@, optional_json::<StopToken>(model.stop));
        let members = with_optional(members, "max_tokens"@, optional_count_json(model.max_tokens));
        let members = with_optional(
            members,
            "presence_penalty"@,
            optional_number_json(model.presence_penalty),
        );
        let members = with_optional(
            members,
            "frequency_penalty"@,
            optional_number_json(model.frequency_penalty),
        );
        let members = with_optional(
            members,
            "logit_bias"@,
            optional_bias_json(model.logit_bias),
        );
        let members = with_optional(members, "user"@, optional_text_json(model.user));
        JsonValue::Object(members)
    }

    fn to_json(&self) -> (r: serde_json::Value) {
        let mut members = serde_json::Map::new();
        let _ = members.insert("model".to_owned(), text_value(self.model.clone()));
        let _ = members.insert(
            "messages".to_owned(),
            write_each::<ChatCompletionMessage>(&self.messages),
        );
        let _ = members.insert("functions".to_owned(), write_each::<Function>(&self.functions));
        put_optional(&mut members, "function_call", write_optional(&self.function_call));
        put_optional(&mut members, "temperature", write_optional_number(&self.temperature));
        put_optional(&mut members, "top_p", write_optional_number(&self.top_p));
        put_optional(&mut members, "n", write_optional_count(self.n));
        put_optional(&mut members, "stream", write_optional_flag(self.stream));
        put_optional(&mut members, "stop", write_optional(&self.stop));
        put_optional(&mut members, "max_tokens", write_optional_count(self.max_tokens));
        put_optional(
            &mut members,
            "presence_penalty",
            write_optional_number(&self.presence_penalty),
        );
        put_optional(
            &mut members,
            "frequency_penalty",
            write_optional_number(&self.frequency_penalty),
        );
        put_optional(&mut members, "logit_bias", write_optional_biases(&self.logit_bias));
        put_optional(&mut members, "user", write_optional_text(&self.user));
        object_value(members)
    }
}

} // verus!
