use tachyon::history::HistoryEnvelope;
use tachyon::responses::ContentItem;
use tachyon::responses::FunctionCallOutputBody;
use tachyon::responses::FunctionCallOutputContentItem;
use tachyon::responses::FunctionCallOutputPayload;
use tachyon::responses::ImageDetail;
use tachyon::responses::ResponseItem;
use tachyon::responses::ResponseItemEnvelope;
use tachyon::unsupported_media::strip_audio_when_unsupported;
use tachyon::unsupported_media::strip_images_when_unsupported;
use tachyon::unsupported_media::InputModality;

fn user_message(content: Vec<ContentItem>) -> ResponseItemEnvelope {
    HistoryEnvelope::new(ResponseItem::Message {
        id: None,
        role: "user".to_string(),
        content,
        phase: None,
        internal_chat_message_metadata_passthrough: None,
    })
}

fn mixed_output() -> ResponseItemEnvelope {
    HistoryEnvelope::new(ResponseItem::FunctionCallOutput {
        id: None,
        call_id: Some("call-1".to_string()),
        name: None,
        namespace: None,
        output: FunctionCallOutputPayload::from_content_items(vec![
            FunctionCallOutputContentItem::InputText { text: "before".to_string() },
            FunctionCallOutputContentItem::InputImage { image_url: "https://x/img.png".to_string(), detail: Some(ImageDetail::Low) },
            FunctionCallOutputContentItem::InputAudio { audio_url: "data:audio/wav;base64,AA==".to_string() },
        ]),
        internal_chat_message_metadata_passthrough: None,
    })
}

#[test]
fn images_become_the_placeholder_when_the_model_lacks_image_input() {
    let mut items = vec![
        user_message(vec![
            ContentItem::InputText { text: "look".to_string() },
            ContentItem::InputImage { image_url: "https://x/img.png".to_string(), detail: None },
        ]),
        mixed_output(),
        HistoryEnvelope::new(ResponseItem::ImageGenerationCall {
            id: Some("ig_1".to_string()),
            status: "completed".to_string(),
            revised_prompt: None,
            result: "aGVsbG8=".to_string(),
        }),
    ];
    strip_images_when_unsupported(&vec![InputModality::Text], &mut items, "[image omitted]");
    assert_eq!(
        items[0],
        user_message(vec![
            ContentItem::InputText { text: "look".to_string() },
            ContentItem::InputText { text: "[image omitted]".to_string() },
        ])
    );
    match &items[1].item {
        ResponseItem::FunctionCallOutput { output, .. } => assert_eq!(
            output.body,
            FunctionCallOutputBody::ContentItems(vec![
                FunctionCallOutputContentItem::InputText { text: "before".to_string() },
                FunctionCallOutputContentItem::InputText { text: "[image omitted]".to_string() },
                FunctionCallOutputContentItem::InputAudio { audio_url: "data:audio/wav;base64,AA==".to_string() },
            ])
        ),
        other => panic!("expected a function output, got {other:?}"),
    }
    match &items[2].item {
        ResponseItem::ImageGenerationCall { id, result, .. } => {
            assert_eq!(id.as_deref(), Some("ig_1"));
            assert_eq!(result, "");
        },
        other => panic!("expected an image generation call, got {other:?}"),
    }
}

#[test]
fn nothing_changes_when_the_model_accepts_the_media() {
    let original = vec![
        user_message(vec![ContentItem::InputImage { image_url: "https://x/img.png".to_string(), detail: None }]),
        mixed_output(),
    ];
    let mut items = original.clone();
    strip_images_when_unsupported(&vec![InputModality::Text, InputModality::Image], &mut items, "[image omitted]");
    assert_eq!(items, original);
    strip_audio_when_unsupported(&vec![InputModality::Audio], &mut items, "[audio omitted]");
    assert_eq!(items, original);
}

#[test]
fn audio_becomes_the_placeholder_when_the_model_lacks_audio_input() {
    let mut items = vec![
        user_message(vec![ContentItem::InputAudio { audio_url: "data:audio/wav;base64,AA==".to_string() }]),
        mixed_output(),
    ];
    strip_audio_when_unsupported(&vec![InputModality::Text, InputModality::Image], &mut items, "[audio omitted]");
    assert_eq!(items[0], user_message(vec![ContentItem::InputText { text: "[audio omitted]".to_string() }]));
    match &items[1].item {
        ResponseItem::FunctionCallOutput { output, .. } => assert_eq!(
            output.body,
            FunctionCallOutputBody::ContentItems(vec![
                FunctionCallOutputContentItem::InputText { text: "before".to_string() },
                FunctionCallOutputContentItem::InputImage { image_url: "https://x/img.png".to_string(), detail: Some(ImageDetail::Low) },
                FunctionCallOutputContentItem::InputText { text: "[audio omitted]".to_string() },
            ])
        ),
        other => panic!("expected a function output, got {other:?}"),
    }
}
