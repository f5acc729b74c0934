use ohairs::dtypes::{
    ChatCompletionChunk, ChatCompletionChunkChoice, ChatCompletionMessage, FunctionCall,
};
use ohairs::error::{DecodeError, Diagnostic, Mismatch};

#[test]
fn chat_completion_chunk_from_chunk() {
    // Define cases to test...
    enum Res {
        IsErr,
        IsDone,
        IsChunk(ChatCompletionChunk),
    }
    let cases = vec![
        ("", Res::IsErr),
        ("{{", Res::IsErr),
        ("d a t a :", Res::IsErr),
        ("data: [DONE]", Res::IsDone),
        ("data: [DONE]\n\n", Res::IsDone),
        (
            "data: {
                    \"id\": \"\",
                    \"object\": \"\",
                    \"created\": 0,
                    \"model\": \"\",
                    \"choices\": []
                }",
            Res::IsChunk(ChatCompletionChunk {
                ..Default::default()
            }),
        ),
        (
            "data: {
                    \"id\": \"chatcmpl-123\",
                    \"object\": \"chat.completion.chunk\",
                    \"created\": 1677652288,
                    \"model\": \"gpt-3.5-turbo\",
                    \"choices\": []
                }",
            Res::IsChunk(ChatCompletionChunk {
                id: "chatcmpl-123".to_string(),
                object: "chat.completion.chunk".to_string(),
                created: 1677652288,
                model: "gpt-3.5-turbo".to_string(),
                ..Default::default()
            }),
        ),
        (
            "data: {
                    \"id\": \"chatcmpl-123\",
                    \"object\": \"chat.completion.chunk\",
                    \"created\": 1677652288,
                    \"model\": \"gpt-3.5-turbo\",
                    \"choices\": [
                        {
                            \"index\": 0,
                            \"finish_reason\": \"stop\",
                            \"delta\": {
                                \"role\": \"system\",
                                \"content\": \"You are a helpful assistant.\"
                            }
                        }
                    ]
                }",
            Res::IsChunk(ChatCompletionChunk {
                id: "chatcmpl-123".to_string(),
                object: "chat.completion.chunk".to_string(),
                created: 1677652288,
                model: "gpt-3.5-turbo".to_string(),
                choices: vec![ChatCompletionChunkChoice {
                    index: 0,
                    finish_reason: Some("stop".to_string()),
                    delta: ChatCompletionMessage {
                        role: "system".to_string(),
                        content: Some("You are a helpful assistant.".to_string()),
                        ..Default::default()
                    },
                }],
            }),
        ),
        (
            "data: {
                    \"id\": \"chatcmpl-123\",
                    \"object\": \"chat.completion.chunk\",
                    \"created\": 1677652288,
                    \"model\": \"gpt-3.5-turbo\",
                    \"choices\": [
                        {
                            \"index\": 0,
                            \"finish_reason\": \"stop\",
                            \"delta\": {
                                \"role\": \"assistant\",
                                \"content\": \"You are a helpful assistant.\"
                            }
                        },
                        {
                            \"index\": 1,
                            \"finish_reason\": \"length\",
                            \"delta\": {
                                \"role\": \"assistant\",
                                \"content\": \"You are a helpful assistant.\"
                            }
                        },
                        {
                            \"index\": 2,
                            \"finish_reason\": \"function_call\",
                            \"delta\": {
                                \"role\": \"assistant\",
                                \"function_call\": {
                                    \"name\": \"get_weather\",
                                    \"arguments\": \"{\\\"loc\\\": \\\"Los Angeles\\\"}\"
                                }
                            }
                        }
                    ]
                }",
            Res::IsChunk(ChatCompletionChunk {
                id: "chatcmpl-123".to_string(),
                object: "chat.completion.chunk".to_string(),
                created: 1677652288,
                model: "gpt-3.5-turbo".to_string(),
                choices: vec![
                    ChatCompletionChunkChoice {
                        index: 0,
                        finish_reason: Some("stop".to_string()),
                        delta: ChatCompletionMessage {
                            role: "assistant".to_string(),
                            content: Some("You are a helpful assistant.".to_string()),
                            ..Default::default()
                        },
                    },
                    ChatCompletionChunkChoice {
                        index: 1,
                        finish_reason: Some("length".to_string()),
                        delta: ChatCompletionMessage {
                            role: "assistant".to_string(),
                            content: Some("You are a helpful assistant.".to_string()),
                            ..Default::default()
                        },
                    },
                    ChatCompletionChunkChoice {
                        index: 2,
                        finish_reason: Some("function_call".to_string()),
                        delta: ChatCompletionMessage {
                            role: "assistant".to_string(),
                            function_call: Some(FunctionCall {
                                name: "get_weather".to_string(),
                                arguments: "{\"loc\": \"Los Angeles\"}".to_string(),
                            }),
                            ..Default::default()
                        },
                    },
                ],
            }),
        ),
    ];

    // Iterate over cases and test...
    for (i, (chunk, res)) in cases.into_iter().enumerate() {
        let data = ChatCompletionChunk::from_chunk(chunk);
        match res {
            Res::IsErr => assert!(data.is_err(), "expected case {} to be an error", i),
            Res::IsDone => {
                assert!(
                    data.is_ok(),
                    "expected case {} to not be an error. Err: {}",
                    i,
                    data.unwrap_err().message()
                );
                assert!(matches!(data, Ok(None)), "expected case {} to be [DONE]", i)
            }
            Res::IsChunk(chunk) => {
                assert!(
                    data.is_ok(),
                    "expected case {} to not be an error. Err: {}",
                    i,
                    data.unwrap_err().message(),
                );
                let data = data.unwrap();
                assert!(data.is_some(), "expected case {} to not be none", i);
                assert_eq!(data, Some(chunk), "expected case {} to be a chunk", i);
            }
        }
    }
}

#[test]
fn function_call_without_a_name_is_refused() {
    let frame = "data: {
        \"id\": \"chatcmpl-123\",
        \"object\": \"chat.completion.chunk\",
        \"created\": 1677652288,
        \"model\": \"gpt-3.5-turbo\",
        \"choices\": [
            {
                \"index\": 2,
                \"finish_reason\": \"function_call\",
                \"delta\": {
                    \"role\": \"assistant\",
                    \"function_call\": {
                        \"role\": \"get_weather\",
                        \"arguments\": \"{\\\"loc\\\": \\\"Los Angeles\\\"}\"
                    }
                }
            }
        ]
    }";
    assert_eq!(
        ChatCompletionChunk::from_chunk(frame),
        Err(DecodeError::InvalidPayload(Diagnostic::Shape(Mismatch::Missing("name"))))
    );
}

#[test]
fn frames_without_the_marker_are_refused() {
    for frame in ["", "{{", "d a t a :", "   ", "\n\t", "[DONE]", "Data: [DONE]", "dat", "{\"id\":\"\"}"] {
        assert_eq!(
            ChatCompletionChunk::from_chunk(frame),
            Err(DecodeError::MissingPrefix),
            "frame {:?}",
            frame
        );
    }
}

#[test]
fn the_sentinel_ends_the_stream() {
    for frame in [
        "data: [DONE]",
        "data: [DONE]\n\n",
        "data:[DONE]",
        "  \t data:   [DONE]  \r\n",
        "\u{2003}data:\u{a0}[DONE]\u{3000}",
    ] {
        assert_eq!(ChatCompletionChunk::from_chunk(frame), Ok(None), "frame {:?}", frame);
    }
}

#[test]
fn only_the_exact_sentinel_ends_the_stream() {
    for frame in ["data: [done]", "data: [DONE] x", "data: [ DONE ]", "data:", "data: "] {
        let outcome = ChatCompletionChunk::from_chunk(frame);
        assert!(
            matches!(outcome, Err(DecodeError::InvalidPayload(Diagnostic::Syntax(_)))),
            "frame {:?} gave {:?}",
            frame,
            outcome
        );
    }
}

#[test]
fn empty_chunk_decodes_to_the_default() {
    let frame =
        "data: {\"id\":\"\",\"object\":\"\",\"created\":0,\"model\":\"\",\"choices\":[]}";
    let chunk = ChatCompletionChunk::from_chunk(frame).unwrap().unwrap();
    assert_eq!(chunk, ChatCompletionChunk::default());
    assert_eq!(chunk.id, "");
    assert_eq!(chunk.created, 0);
    assert!(chunk.choices.is_empty());
}

#[test]
fn single_choice_is_reproduced() {
    let frame = "data: {\"id\":\"c\",\"object\":\"chat.completion.chunk\",\"created\":7,\
        \"model\":\"m\",\"choices\":[{\"index\":0,\"finish_reason\":\"stop\",\
        \"delta\":{\"role\":\"system\",\"content\":\"You are a helpful assistant.\"}}]}";
    let chunk = ChatCompletionChunk::from_chunk(frame).unwrap().unwrap();
    assert_eq!(chunk.choices.len(), 1);
    let choice = &chunk.choices[0];
    assert_eq!(choice.index, 0);
    assert_eq!(choice.finish_reason.as_deref(), Some("stop"));
    assert_eq!(choice.delta.role, "system");
    assert_eq!(choice.delta.content.as_deref(), Some("You are a helpful assistant."));
    assert_eq!(choice.delta.function_call, None);
}

#[test]
fn three_choices_keep_order_and_arguments() {
    let frame = "data: {\"id\":\"c\",\"object\":\"o\",\"created\":1,\"model\":\"m\",\"choices\":[\
        {\"index\":0,\"finish_reason\":\"stop\",\"delta\":{\"role\":\"assistant\",\"content\":\"a\"}},\
        {\"index\":1,\"finish_reason\":\"length\",\"delta\":{\"role\":\"assistant\",\"content\":\"b\"}},\
        {\"index\":2,\"finish_reason\":\"function_call\",\"delta\":{\"role\":\"assistant\",\
        \"function_call\":{\"name\":\"get_weather\",\"arguments\":\"{\\\"loc\\\": \\\"Los Angeles\\\"}\"}}}]}";
    let chunk = ChatCompletionChunk::from_chunk(frame).unwrap().unwrap();
    let reasons: Vec<Option<&str>> =
        chunk.choices.iter().map(|c| c.finish_reason.as_deref()).collect();
    assert_eq!(reasons, vec![Some("stop"), Some("length"), Some("function_call")]);
    let indices: Vec<u64> = chunk.choices.iter().map(|c| c.index).collect();
    assert_eq!(indices, vec![0, 1, 2]);
    let call = chunk.choices[2].delta.function_call.clone().unwrap();
    assert_eq!(call.name, "get_weather");
    assert_eq!(call.arguments, "{\"loc\": \"Los Angeles\"}");
    assert_eq!(chunk.choices[2].delta.content, None);
}

#[test]
fn decoding_twice_gives_equal_chunks() {
    let frame = "data: {\"id\":\"c\",\"object\":\"o\",\"created\":1,\"model\":\"m\",\"choices\":[\
        {\"index\":5,\"delta\":{\"content\":\"Hel\"}}]}";
    let first = ChatCompletionChunk::from_chunk(frame);
    let second = ChatCompletionChunk::from_chunk(frame);
    assert!(matches!(first, Ok(Some(_))));
    assert_eq!(first, second);
    let refused = "data: {\"id\": 1}";
    assert_eq!(
        ChatCompletionChunk::from_chunk(refused),
        ChatCompletionChunk::from_chunk(refused)
    );
}

#[test]
fn a_delta_may_hold_any_part_of_a_message() {
    let frame = "data: {\"id\":\"c\",\"object\":\"o\",\"created\":1,\"model\":\"m\",\"choices\":[\
        {\"index\":0,\"delta\":{}},\
        {\"index\":1,\"delta\":{\"content\":\"Hi\"},\"finish_reason\":null},\
        {\"index\":2,\"delta\":{\"role\":null,\"content\":null,\"function_call\":null}}]}";
    let chunk = ChatCompletionChunk::from_chunk(frame).unwrap().unwrap();
    assert_eq!(chunk.choices[0].delta, ChatCompletionMessage::default());
    assert_eq!(chunk.choices[0].finish_reason, None);
    assert_eq!(chunk.choices[1].delta.role, "");
    assert_eq!(chunk.choices[1].delta.content.as_deref(), Some("Hi"));
    assert_eq!(chunk.choices[1].finish_reason, None);
    assert_eq!(chunk.choices[2].delta, ChatCompletionMessage::default());
}

#[test]
fn unknown_members_are_ignored() {
    let frame = "data: {\"id\":\"c\",\"extra\":[1,2,{\"x\":null}],\"object\":\"o\",\"created\":1,\
        \"model\":\"m\",\"choices\":[],\"system_fingerprint\":\"fp\"}";
    let chunk = ChatCompletionChunk::from_chunk(frame).unwrap().unwrap();
    assert_eq!(chunk.id, "c");
    assert_eq!(chunk.model, "m");
}

#[test]
fn payload_that_is_not_json_carries_the_parser_message() {
    let expected = serde_json::from_str::<serde_json::Value>("{{").unwrap_err().to_string();
    let outcome = ChatCompletionChunk::from_chunk("data: {{");
    assert_eq!(
        outcome,
        Err(DecodeError::InvalidPayload(Diagnostic::Syntax(expected.clone())))
    );
    assert_eq!(outcome.unwrap_err().message(), expected);
    assert!(expected.contains("line 1 column 2"), "{}", expected);
}

#[test]
fn payload_of_another_shape_names_the_first_departure() {
    let shape = |m: Mismatch| Err(DecodeError::InvalidPayload(Diagnostic::Shape(m)));
    assert_eq!(ChatCompletionChunk::from_chunk("data: 5"), shape(Mismatch::NotAnObject));
    assert_eq!(ChatCompletionChunk::from_chunk("data: []"), shape(Mismatch::NotAnObject));
    assert_eq!(ChatCompletionChunk::from_chunk("data: {}"), shape(Mismatch::Missing("id")));
    assert_eq!(
        ChatCompletionChunk::from_chunk("data: {\"id\": null}"),
        shape(Mismatch::WrongKind("id"))
    );
    assert_eq!(
        ChatCompletionChunk::from_chunk("data: {\"id\":\"\",\"object\":\"\",\"created\":-1}"),
        shape(Mismatch::WrongKind("created"))
    );
    assert_eq!(
        ChatCompletionChunk::from_chunk("data: {\"id\":\"\",\"object\":\"\",\"created\":1.0}"),
        shape(Mismatch::WrongKind("created"))
    );
    assert_eq!(
        ChatCompletionChunk::from_chunk(
            "data: {\"id\":\"\",\"object\":\"\",\"created\":1,\"model\":\"\"}"
        ),
        shape(Mismatch::Missing("choices"))
    );
    assert_eq!(
        ChatCompletionChunk::from_chunk(
            "data: {\"id\":\"\",\"object\":\"\",\"created\":1,\"model\":\"\",\"choices\":{}}"
        ),
        shape(Mismatch::WrongKind("choices"))
    );
    assert_eq!(
        ChatCompletionChunk::from_chunk(
            "data: {\"id\":\"\",\"object\":\"\",\"created\":1,\"model\":\"\",\"choices\":[1]}"
        ),
        shape(Mismatch::NotAnObject)
    );
    assert_eq!(
        ChatCompletionChunk::from_chunk(
            "data: {\"id\":\"\",\"object\":\"\",\"created\":1,\"model\":\"\",\"choices\":[\
             {\"index\":0,\"delta\":{}},{\"index\":1}]}"
        ),
        shape(Mismatch::Missing("delta"))
    );
    assert_eq!(
        ChatCompletionChunk::from_chunk(
            "data: {\"id\":\"\",\"object\":\"\",\"created\":1,\"model\":\"\",\"choices\":[\
             {\"index\":0,\"delta\":\"text\"}]}"
        ),
        shape(Mismatch::NotAnObject)
    );
    assert_eq!(
        ChatCompletionChunk::from_chunk(
            "data: {\"id\":\"\",\"object\":\"\",\"created\":1,\"model\":\"\",\"choices\":[\
             {\"index\":0,\"delta\":{\"role\":3}}]}"
        ),
        shape(Mismatch::WrongKind("role"))
    );
}

#[test]
fn errors_describe_themselves() {
    assert_eq!(DecodeError::MissingPrefix.message(), "expected chunk to start with `data:`");
    assert_eq!(Mismatch::Missing("id").message(), "missing field `id`");
    assert_eq!(Mismatch::WrongKind("created").message(), "invalid type for `created`");
    assert_eq!(Mismatch::NotAnObject.message(), "expected a JSON object");
    assert_eq!(Mismatch::NotAString.message(), "expected a JSON string");
    assert_eq!(
        DecodeError::InvalidPayload(Diagnostic::Shape(Mismatch::Missing("name"))).message(),
        "missing field `name`"
    );
    assert_eq!(Diagnostic::Syntax("as the parser said".to_string()).message(), "as the parser said");
}
