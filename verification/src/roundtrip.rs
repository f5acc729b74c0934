//! What is written can be read again: for the records that travel in both
//! directions, decoding the JSON value that stands for a record gives the
//! record back.

use crate::decode::{each_decoded, FromJson};
use crate::dtypes::{
    ChatCompletionMessage, ChatCompletionRequest, FunctionCall, FunctionCallModel,
    FunctionCallType, FunctionCallTypeModel, MessageModel, RequestModel, StopToken,
    StopTokenModel,
};
use crate::encode::{each_encoded, ToJson};
use crate::error::Mismatch;
use crate::json::JsonValue;
use vstd::prelude::*;

verus! {

/// A sequence of texts, written as JSON strings, is read back as it was.
pub proof fn lemma_texts_round_trip(texts: Seq<Seq<char>>)
    ensures
        each_decoded::<String>(each_encoded::<String>(texts)) == Ok::<Seq<Seq<char>>, Mismatch>(
            texts,
        ),
    decreases texts.len(),
{
    let written = each_encoded::<String>(texts);
    if texts.len() == 0 {
        assert(texts =~= Seq::empty());
    } else {
        assert(written.drop_last() =~= each_encoded::<String>(texts.drop_last()));
        lemma_texts_round_trip(texts.drop_last());
        assert(texts.drop_last().push(texts.last()) =~= texts);
    }
}

/// A stop specification is read back in the form in which it was written:
/// a single token stays single, several tokens keep their order.
pub proof fn lemma_stop_round_trip(stop: StopTokenModel)
    ensures
        StopToken::decoded(StopToken::encoded(stop)) == Ok::<StopTokenModel, Mismatch>(stop),
{
    match stop {
        StopTokenModel::SingleToken(_) => {},
        StopTokenModel::MultipleTokens(tokens) => {
            lemma_texts_round_trip(tokens);
        },
    }
}

/// A function-call directive is read back as it was written.
pub proof fn lemma_directive_round_trip(directive: FunctionCallTypeModel)
    ensures
        FunctionCallType::decoded(FunctionCallType::encoded(directive)) == Ok::<
            FunctionCallTypeModel,
            Mismatch,
        >(directive),
{
    assert(crate::decode::word_none() != crate::decode::word_auto()) by {
        assert(crate::decode::word_none()[0] != crate::decode::word_auto()[0]);
    }
}

/// A function call is read back as it was written, its arguments character
/// by character.
pub proof fn lemma_call_round_trip(call: FunctionCallModel)
    ensures
        FunctionCall::decoded(FunctionCall::encoded(call)) == Ok::<FunctionCallModel, Mismatch>(
            call,
        ),
{
    lemma_keys_differ();
}

/// A message is read back as it was written: what was absent stays absent.
pub proof fn lemma_message_round_trip(message: MessageModel)
    ensures
        ChatCompletionMessage::decoded(ChatCompletionMessage::encoded(message)) == Ok::<
            MessageModel,
            Mismatch,
        >(message),
{
    lemma_keys_differ();
    if let Some(call) = message.function_call {
        lemma_call_round_trip(call);
    }
}

/// The names of the members of a message and of a function call differ from
/// one another.
proof fn lemma_keys_differ()
    ensures
        "name"@ != "arguments"@,
        "role"@ != "content"@,
        "role"@ != "function_call"@,
        "content"@ != "function_call"@,
{
    reveal_strlit("name");
    reveal_strlit("arguments");
    reveal_strlit("role");
    reveal_strlit("content");
    reveal_strlit("function_call");
    assert("name"@.len() != "arguments"@.len());
    assert("role"@.len() != "content"@.len());
    assert("role"@.len() != "function_call"@.len());
    assert("content"@.len() != "function_call"@.len());
}

/// The object that stands for a request always holds the model, the
/// messages and the functions. It holds each other member exactly where the
/// request holds a value for it, and it holds no member that is `null`.
pub proof fn lemma_absent_members_are_omitted(request: RequestModel)
    ensures
        ChatCompletionRequest::encoded(request) matches JsonValue::Object(members) && {
            &&& members.contains_key("model"@)
            &&& members.contains_key("messages"@)
            &&& members.contains_key("functions"@)
            &&& members.contains_key("function_call"@) <==> request.function_call is Some
            &&& members.contains_key("temperature"@) <==> request.temperature is Some
            &&& members.contains_key("top_p"@) <==> request.top_p is Some
            &&& members.contains_key("n"@) <==> request.n is Some
            &&& members.contains_key("stream"@) <==> request.stream is Some
            &&& members.contains_key("stop"@) <==> request.stop is Some
            &&& members.contains_key("max_tokens"@) <==> request.max_tokens is Some
            &&& members.contains_key("presence_penalty"@) <==> request.presence_penalty is Some
            &&& members.contains_key("frequency_penalty"@) <==> request.frequency_penalty is Some
            &&& members.contains_key("logit_bias"@) <==> request.logit_bias is Some
            &&& members.contains_key("user"@) <==> request.user is Some
            &&& forall|key: Seq<char>| members.contains_key(key) ==> !(members[key] is Null)
        },
{
    lemma_request_keys_differ();
}

/// The names of the members of a request differ from one another.
proof fn lemma_request_keys_differ()
    ensures
        request_keys().no_duplicates(),
{
    reveal_strlit("model");
    reveal_strlit("messages");
    reveal_strlit("functions");
    reveal_strlit("function_call");
    reveal_strlit("temperature");
    reveal_strlit("top_p");
    reveal_strlit("n");
    reveal_strlit("stream");
    reveal_strlit("stop");
    reveal_strlit("max_tokens");
    reveal_strlit("presence_penalty");
    reveal_strlit("frequency_penalty");
    reveal_strlit("logit_bias");
    reveal_strlit("user");
    let keys = request_keys();
    assert(keys[0].len() == 5 && keys[0][0] == 'm');
    assert(keys[1].len() == 8);
    assert(keys[2].len() == 9);
    assert(keys[3].len() == 13);
    assert(keys[4].len() == 11);
    assert(keys[5].len() == 5 && keys[5][0] == 't');
    assert(keys[6].len() == 1);
    assert(keys[7].len() == 6);
    assert(keys[8].len() == 4 && keys[8][0] == 's');
    assert(keys[9].len() == 10 && keys[9][0] == 'm');
    assert(keys[10].len() == 16);
    assert(keys[11].len() == 17);
    assert(keys[12].len() == 10 && keys[12][0] == 'l');
    assert(keys[13].len() == 4 && keys[13][0] == 'u');
}

/// The names of the members of a request, in the order of its fields.
spec fn request_keys() -> Seq<Seq<char>> {
    seq![
        "model"@,
        "messages"@,
        "functions"@,
        "function_call"@,
        "temperature"@,
        "top_p"@,
        "n"@,
        "stream"@,
        "stop"@,
        "max_tokens"@,
        "presence_penalty"@,
        "frequency_penalty"@,
        "logit_bias"@,
        "user"@,
    ]
}

} // verus!
