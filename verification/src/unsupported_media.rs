//! Replacing image and audio content that the model cannot take with a text placeholder.

use crate::history::HistoryEnvelope;
use crate::responses::ContentItem;
use crate::responses::FunctionCallOutputBody;
use crate::responses::FunctionCallOutputContentItem;
use crate::responses::FunctionCallOutputPayload;
use crate::responses::ResponseItem;
use crate::responses::ResponseItemEnvelope;
use vstd::prelude::*;

verus! {

/// An input modality a model accepts.
#[derive(Debug, Clone, Copy, PartialEq, Eq, Structural)]
pub enum InputModality {
    Text,
    Image,
    Audio,
}

/// Whether `modalities` lists `modality`.
pub open spec fn supports(modalities: Seq<InputModality>, modality: InputModality) -> bool {
    exists|i: int| 0 <= i < modalities.len() && modalities[i] == modality
}

/// Whether a message part is media of the given kind.
pub open spec fn is_media_content(kind: InputModality, c: ContentItem) -> bool {
    ||| kind == InputModality::Image && c is InputImage
    ||| kind == InputModality::Audio && c is InputAudio
}

/// Whether a tool-output part is media of the given kind.
pub open spec fn is_media_part(kind: InputModality, c: FunctionCallOutputContentItem) -> bool {
    ||| kind == InputModality::Image && c is InputImage
    ||| kind == InputModality::Audio && c is InputAudio
}

/// `new` is the message part `old`, with media of `kind` replaced by the text `placeholder`.
pub open spec fn content_stripped(kind: InputModality, placeholder: Seq<char>, old: ContentItem, new: ContentItem) -> bool {
    if is_media_content(kind, old) {
        new matches ContentItem::InputText { text } && text@ == placeholder
    } else {
        new == old
    }
}

/// `new` is the tool-output part `old`, with media of `kind` replaced by the text `placeholder`.
pub open spec fn part_stripped(kind: InputModality, placeholder: Seq<char>, old: FunctionCallOutputContentItem, new: FunctionCallOutputContentItem) -> bool {
    if is_media_part(kind, old) {
        new matches FunctionCallOutputContentItem::InputText { text } && text@ == placeholder
    } else {
        new == old
    }
}

/// `new` is the tool output `old` with every media part of `kind` replaced; a text body is kept.
pub open spec fn payload_stripped(kind: InputModality, placeholder: Seq<char>, old: FunctionCallOutputPayload, new: FunctionCallOutputPayload) -> bool {
    &&& new.success == old.success
    &&& match old.body {
        FunctionCallOutputBody::Text(_) => new.body == old.body,
        FunctionCallOutputBody::ContentItems(parts) => new.body matches FunctionCallOutputBody::ContentItems(out) && {
            &&& out@.len() == parts@.len()
            &&& forall|j: int| 0 <= j < parts@.len() ==> #[trigger] part_stripped(kind, placeholder, parts@[j], out@[j])
        },
    }
}

/// `new` is the history item `old` with its media of `kind` replaced by `placeholder`: in a
/// message's parts, in the parts of a function or custom tool output, and, for images, the
/// result of an image generation call is emptied. Every other item, and the metadata, is kept.
pub open spec fn item_stripped(kind: InputModality, placeholder: Seq<char>, old: ResponseItemEnvelope, new: ResponseItemEnvelope) -> bool {
    &&& new.metadata == old.metadata
    &&& match old.item {
        ResponseItem::Message { id, role, content, phase, internal_chat_message_metadata_passthrough: m } =>
            new.item matches ResponseItem::Message { id: id2, role: role2, content: content2, phase: phase2, internal_chat_message_metadata_passthrough: m2 }
            && id2 == id && role2 == role && phase2 == phase && m2 == m && content2@.len() == content@.len()
            && forall|j: int| 0 <= j < content@.len() ==> #[trigger] content_stripped(kind, placeholder, content@[j], content2@[j]),
        ResponseItem::FunctionCallOutput { id, call_id, name, namespace, output, internal_chat_message_metadata_passthrough: m } =>
            new.item matches ResponseItem::FunctionCallOutput { id: id2, call_id: c2, name: n2, namespace: ns2, output: o2, internal_chat_message_metadata_passthrough: m2 }
            && id2 == id && c2 == call_id && n2 == name && ns2 == namespace && m2 == m && payload_stripped(kind, placeholder, output, o2),
        ResponseItem::CustomToolCallOutput { id, call_id, name, output, internal_chat_message_metadata_passthrough: m } =>
            new.item matches ResponseItem::CustomToolCallOutput { id: id2, call_id: c2, name: n2, output: o2, internal_chat_message_metadata_passthrough: m2 }
            && id2 == id && c2 == call_id && n2 == name && m2 == m && payload_stripped(kind, placeholder, output, o2),
        ResponseItem::ImageGenerationCall { id, status, revised_prompt, result } => if kind == InputModality::Image {
            new.item matches ResponseItem::ImageGenerationCall { id: id2, status: s2, revised_prompt: p2, result: r2 }
            && id2 == id && s2 == status && p2 == revised_prompt && r2@.len() == 0
        } else {
            new.item == old.item
        },
        _ => new.item == old.item,
    }
}

/// `new` is `old` with the media of `kind` replaced in every item, when the model does not accept
/// that kind, and `old` unchanged when it does.
pub open spec fn history_stripped(modalities: Seq<InputModality>, kind: InputModality, placeholder: Seq<char>, old: Seq<ResponseItemEnvelope>, new: Seq<ResponseItemEnvelope>) -> bool {
    if supports(modalities, kind) {
        new == old
    } else {
        &&& new.len() == old.len()
        &&& forall|i: int| 0 <= i < old.len() ==> #[trigger] item_stripped(kind, placeholder, old[i], new[i])
    }
}

fn lists_modality(modalities: &Vec<InputModality>, kind: InputModality) -> (r: bool)
    ensures
        r == supports(modalities@, kind),
{
    let mut i: usize = 0;
    while i < modalities.len()
        invariant
            i <= modalities@.len(),
            forall|j: int| 0 <= j < i ==> modalities@[j] != kind,
        decreases modalities.len() - i,
    {
        if modalities[i] == kind {
            assert(modalities@[i as int] == kind);
            return true;
        }
        i += 1;
    }
    false
}

fn strip_content(kind: InputModality, placeholder: &str, content: Vec<ContentItem>) -> (r: Vec<ContentItem>)
    ensures
        r@.len() == content@.len(),
        forall|j: int| 0 <= j < content@.len() ==> #[trigger] content_stripped(kind, placeholder@, content@[j], r@[j]),
{
    let ghost all = content@;
    let mut out: Vec<ContentItem> = Vec::new();
    for c in it: content
        invariant
            it.seq() == all,
            out@.len() == it.index(),
            forall|j: int| 0 <= j < out@.len() ==> #[trigger] content_stripped(kind, placeholder@, all[j], out@[j]),
    {
        let is_media = match &c {
            ContentItem::InputImage { .. } => kind == InputModality::Image,
            ContentItem::InputAudio { .. } => kind == InputModality::Audio,
            _ => false,
        };
        if is_media {
            out.push(ContentItem::InputText { text: placeholder.to_owned() });
        } else {
            out.push(c);
        }
    }
    out
}

fn strip_parts(kind: InputModality, placeholder: &str, parts: Vec<FunctionCallOutputContentItem>) -> (r: Vec<FunctionCallOutputContentItem>)
    ensures
        r@.len() == parts@.len(),
        forall|j: int| 0 <= j < parts@.len() ==> #[trigger] part_stripped(kind, placeholder@, parts@[j], r@[j]),
{
    let ghost all = parts@;
    let mut out: Vec<FunctionCallOutputContentItem> = Vec::new();
    for c in it: parts
        invariant
            it.seq() == all,
            out@.len() == it.index(),
            forall|j: int| 0 <= j < out@.len() ==> #[trigger] part_stripped(kind, placeholder@, all[j], out@[j]),
    {
        let is_media = match &c {
            FunctionCallOutputContentItem::InputImage { .. } => kind == InputModality::Image,
            FunctionCallOutputContentItem::InputAudio { .. } => kind == InputModality::Audio,
            _ => false,
        };
        if is_media {
            out.push(FunctionCallOutputContentItem::InputText { text: placeholder.to_owned() });
        } else {
            out.push(c);
        }
    }
    out
}

fn strip_payload(kind: InputModality, placeholder: &str, output: FunctionCallOutputPayload) -> (r: FunctionCallOutputPayload)
    ensures
        payload_stripped(kind, placeholder@, output, r),
{
    let FunctionCallOutputPayload { body, success } = output;
    let body = match body {
        FunctionCallOutputBody::Text(text) => FunctionCallOutputBody::Text(text),
        FunctionCallOutputBody::ContentItems(parts) => FunctionCallOutputBody::ContentItems(strip_parts(kind, placeholder, parts)),
    };
    FunctionCallOutputPayload { body, success }
}

fn strip_item(kind: InputModality, placeholder: &str, envelope: ResponseItemEnvelope) -> (r: ResponseItemEnvelope)
    ensures
        item_stripped(kind, placeholder@, envelope, r),
{
    let HistoryEnvelope { item, metadata } = envelope;
    let item = match item {
        ResponseItem::Message { id, role, content, phase, internal_chat_message_metadata_passthrough } => ResponseItem::Message {
            id,
            role,
            content: strip_content(kind, placeholder, content),
            phase,
            internal_chat_message_metadata_passthrough,
        },
        ResponseItem::FunctionCallOutput { id, call_id, name, namespace, output, internal_chat_message_metadata_passthrough } =>
            ResponseItem::FunctionCallOutput {
                id,
                call_id,
                name,
                namespace,
                output: strip_payload(kind, placeholder, output),
                internal_chat_message_metadata_passthrough,
            },
        ResponseItem::CustomToolCallOutput { id, call_id, name, output, internal_chat_message_metadata_passthrough } =>
            ResponseItem::CustomToolCallOutput {
                id,
                call_id,
                name,
                output: strip_payload(kind, placeholder, output),
                internal_chat_message_metadata_passthrough,
            },
        ResponseItem::ImageGenerationCall { id, status, revised_prompt, result } => if kind == InputModality::Image {
            ResponseItem::ImageGenerationCall { id, status, revised_prompt, result: String::new() }
        } else {
            ResponseItem::ImageGenerationCall { id, status, revised_prompt, result }
        },
        other => other,
    };
    HistoryEnvelope { item, metadata }
}

fn strip_media(modalities: &Vec<InputModality>, kind: InputModality, items: &mut Vec<ResponseItemEnvelope>, placeholder: &str)
    ensures
        history_stripped(modalities@, kind, placeholder@, old(items)@, final(items)@),
{
    if lists_modality(modalities, kind) {
        return;
    }
    let ghost all = items@;
    let mut source: Vec<ResponseItemEnvelope> = Vec::new();
    std::mem::swap(&mut source, items);
    let mut out: Vec<ResponseItemEnvelope> = Vec::new();
    for envelope in it: source
        invariant
            it.seq() == all,
            out@.len() == it.index(),
            forall|j: int| 0 <= j < out@.len() ==> #[trigger] item_stripped(kind, placeholder@, all[j], out@[j]),
    {
        out.push(strip_item(kind, placeholder, envelope));
    }
    *items = out;
}

/// Replaces image content with the text `unsupported_image_text` when `input_modalities` does
/// not list images: image parts of messages and of function and custom tool outputs become that
/// text, and image generation results are emptied. When images are supported nothing changes.
pub fn strip_images_when_unsupported(input_modalities: &Vec<InputModality>, items: &mut Vec<ResponseItemEnvelope>, unsupported_image_text: &str)
    ensures
        history_stripped(input_modalities@, InputModality::Image, unsupported_image_text@, old(items)@, final(items)@),
{
    strip_media(input_modalities, InputModality::Image, items, unsupported_image_text);
}

/// Replaces audio content with the text `unsupported_audio_text` when `input_modalities` does
/// not list audio: audio parts of messages and of function and custom tool outputs become that
/// text. When audio is supported nothing changes.
pub fn strip_audio_when_unsupported(input_modalities: &Vec<InputModality>, items: &mut Vec<ResponseItemEnvelope>, unsupported_audio_text: &str)
    ensures
        history_stripped(input_modalities@, InputModality::Audio, unsupported_audio_text@, old(items)@, final(items)@),
{
    strip_media(input_modalities, InputModality::Audio, items, unsupported_audio_text);
}

} // verus!
