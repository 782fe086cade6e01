//! Provider-neutral results produced by tool runtimes, and the model-facing output contract
//! that tool runtimes implement.

use crate::json::json_array_value;
use crate::json::json_compact_text;
use crate::json::json_from_text;
use crate::json::json_from_values;
use crate::json::json_string_value;
use crate::json::json_to_text;
use crate::responses::ContentItem;
use crate::responses::FunctionCallOutputBody;
use crate::responses::FunctionCallOutputContentItem;
use crate::responses::FunctionCallOutputPayload;
use crate::responses::ImageDetail;
use crate::responses::ResponseInputItem;
use crate::responses::DEFAULT_IMAGE_DETAIL;
use crate::text::is_blank;
use crate::text::is_blank_text;
use vstd::prelude::*;

verus! {

/// Provider-neutral semantic result produced by a tool runtime.
#[derive(Clone, Debug, PartialEq)]
pub struct ToolResult {
    pub content: Vec<ToolResultContent>,
    /// Whether the result is known to be an error; `None` preserves an unknown status.
    pub is_error: Option<bool>,
}

/// Content of a tool result.
#[derive(Clone, Debug, PartialEq)]
pub enum ToolResultContent {
    Text(String),
    Json(serde_json::Value),
    /// Semantic tool declarations returned by a client-side discovery operation.
    DiscoveredTools(Vec<DiscoveredToolSpec>),
    Image { uri: String, detail: Option<ToolResultImageDetail> },
    Audio { uri: String },
}

/// A tool declaration exposed by a client-side discovery result.
#[derive(Clone, Debug, PartialEq)]
pub enum DiscoveredToolSpec {
    Function {
        namespace: Option<String>,
        name: String,
        description: String,
        input_schema: serde_json::Value,
        strict: bool,
        availability: DiscoveredToolAvailability,
    },
    Freeform {
        namespace: Option<String>,
        name: String,
        description: String,
        input_format: DiscoveredFreeformInputFormat,
        availability: DiscoveredToolAvailability,
    },
}

/// Whether a discovered tool is immediately visible or deferred until discovery.
#[derive(Clone, Copy, Debug, PartialEq, Eq, Structural)]
pub enum DiscoveredToolAvailability {
    Immediate,
    Deferred,
}

/// Input constraint for a discovered free-form tool.
#[derive(Clone, Debug, PartialEq, Eq)]
pub enum DiscoveredFreeformInputFormat {
    Grammar { syntax: String, definition: String },
}

/// Image fidelity hint that does not assume a provider wire representation.
#[derive(Clone, Copy, Debug, PartialEq, Eq, Structural)]
pub enum ToolResultImageDetail {
    Auto,
    Low,
    High,
    Original,
}

/// The payload a tool was invoked with.
#[derive(Clone, Debug, PartialEq)]
pub enum ToolPayload {
    Function { arguments: String },
    Custom { input: String },
    ToolSearch { arguments: serde_json::Value },
}

/// The one-part text content of a result with the given status.
pub open spec fn is_single_text_result(r: ToolResult, text: Seq<char>, is_error: Option<bool>) -> bool {
    &&& r.content@.len() == 1
    &&& r.content@[0] matches ToolResultContent::Text(t) && t@ == text
    &&& r.is_error == is_error
}

/// The one-part JSON content of a result with the given status.
pub open spec fn is_single_json_result(r: ToolResult, value: serde_json::Value, is_error: Option<bool>) -> bool {
    &&& r.content@ == seq![ToolResultContent::Json(value)]
    &&& r.is_error == is_error
}

pub open spec fn spec_tool_image_detail(detail: Option<ImageDetail>) -> Option<ToolResultImageDetail> {
    match detail {
        Some(ImageDetail::Auto) => Some(ToolResultImageDetail::Auto),
        Some(ImageDetail::Low) => Some(ToolResultImageDetail::Low),
        Some(ImageDetail::High) => Some(ToolResultImageDetail::High),
        Some(ImageDetail::Original) => Some(ToolResultImageDetail::Original),
        None => None,
    }
}

/// The tool-result content of one non-encrypted function-output part.
pub open spec fn spec_tool_result_content(item: FunctionCallOutputContentItem) -> ToolResultContent {
    match item {
        FunctionCallOutputContentItem::InputText { text } => ToolResultContent::Text(text),
        FunctionCallOutputContentItem::InputImage { image_url, detail } => ToolResultContent::Image {
            uri: image_url,
            detail: spec_tool_image_detail(detail),
        },
        FunctionCallOutputContentItem::InputAudio { audio_url } => ToolResultContent::Audio { uri: audio_url },
        FunctionCallOutputContentItem::EncryptedContent { encrypted_content } => ToolResultContent::Text(encrypted_content),
    }
}

/// Whether a function-output payload projects to a neutral tool result: a text body always
/// does; a part list does unless it is a single text part or holds encrypted content.
pub open spec fn function_output_projects(payload: FunctionCallOutputPayload) -> bool {
    match payload.body {
        FunctionCallOutputBody::Text(_) => true,
        FunctionCallOutputBody::ContentItems(items) => {
            &&& !(items@.len() == 1 && items@[0] is InputText)
            &&& forall|i: int| 0 <= i < items@.len() ==> !(#[trigger] items@[i] is EncryptedContent)
        },
    }
}

/// Whether `r` is the neutral tool result of a projectable function-output payload.
pub open spec fn function_output_result_matches(payload: FunctionCallOutputPayload, r: ToolResult) -> bool {
    &&& r.is_error == match payload.success {
        Some(s) => Some(!s),
        None => None,
    }
    &&& match payload.body {
        FunctionCallOutputBody::Text(text) => r.content@ == seq![ToolResultContent::Text(text)],
        FunctionCallOutputBody::ContentItems(items) => {
            &&& r.content@.len() == items@.len()
            &&& forall|i: int| 0 <= i < items@.len() ==> r.content@[i] == spec_tool_result_content(#[trigger] items@[i])
        },
    }
}

fn tool_result_image_detail(detail: &Option<ImageDetail>) -> (r: Option<ToolResultImageDetail>)
    ensures
        r == spec_tool_image_detail(*detail),
{
    match detail {
        Some(ImageDetail::Auto) => Some(ToolResultImageDetail::Auto),
        Some(ImageDetail::Low) => Some(ToolResultImageDetail::Low),
        Some(ImageDetail::High) => Some(ToolResultImageDetail::High),
        Some(ImageDetail::Original) => Some(ToolResultImageDetail::Original),
        None => None,
    }
}

/// The neutral result part for one output part; `None` for encrypted content.
fn tool_result_content(content: &FunctionCallOutputContentItem) -> (r: Option<ToolResultContent>)
    ensures
        match r {
            Some(part) => !(*content is EncryptedContent) && part == spec_tool_result_content(*content),
            None => *content is EncryptedContent,
        },
{
    match content {
        FunctionCallOutputContentItem::InputText { text } => Some(ToolResultContent::Text(text.clone())),
        FunctionCallOutputContentItem::InputImage { image_url, detail } => Some(ToolResultContent::Image {
            uri: image_url.clone(),
            detail: tool_result_image_detail(detail),
        }),
        FunctionCallOutputContentItem::InputAudio { audio_url } => Some(ToolResultContent::Audio { uri: audio_url.clone() }),
        FunctionCallOutputContentItem::EncryptedContent { .. } => None,
    }
}

fn one_text(text: String) -> (r: Vec<ToolResultContent>)
    ensures
        r@ == seq![ToolResultContent::Text(text)],
{
    let mut v: Vec<ToolResultContent> = Vec::new();
    v.push(ToolResultContent::Text(text));
    assert(v@ =~= seq![ToolResultContent::Text(text)]);
    v
}

fn one_json(value: serde_json::Value) -> (r: Vec<ToolResultContent>)
    ensures
        r@ == seq![ToolResultContent::Json(value)],
{
    let mut v: Vec<ToolResultContent> = Vec::new();
    v.push(ToolResultContent::Json(value));
    assert(v@ =~= seq![ToolResultContent::Json(value)]);
    v
}

impl ToolResult {
    /// A known-successful text result.
    pub fn success_text(text: &str) -> (r: Self)
        ensures
            is_single_text_result(r, text@, Some(false)),
    {
        ToolResult { content: one_text(text.to_owned()), is_error: Some(false) }
    }

    /// A known-failed text result.
    pub fn error_text(text: &str) -> (r: Self)
        ensures
            is_single_text_result(r, text@, Some(true)),
    {
        ToolResult { content: one_text(text.to_owned()), is_error: Some(true) }
    }

    /// A text result of unknown status.
    pub fn unknown_text(text: &str) -> (r: Self)
        ensures
            is_single_text_result(r, text@, None),
    {
        ToolResult { content: one_text(text.to_owned()), is_error: None }
    }

    /// A known-successful JSON result.
    pub fn success_json(value: serde_json::Value) -> (r: Self)
        ensures
            is_single_json_result(r, value, Some(false)),
    {
        ToolResult { content: one_json(value), is_error: Some(false) }
    }

    /// A known-failed JSON result.
    pub fn error_json(value: serde_json::Value) -> (r: Self)
        ensures
            is_single_json_result(r, value, Some(true)),
    {
        ToolResult { content: one_json(value), is_error: Some(true) }
    }

    /// A JSON result of unknown status.
    pub fn unknown_json(value: serde_json::Value) -> (r: Self)
        ensures
            is_single_json_result(r, value, None),
    {
        ToolResult { content: one_json(value), is_error: None }
    }

    /// A known-successful discovery result carrying the discovered tool declarations.
    pub fn success_discovered_tools(tools: Vec<DiscoveredToolSpec>) -> (r: Self)
        ensures
            r.content@ == seq![ToolResultContent::DiscoveredTools(tools)],
            r.is_error == Some(false),
    {
        let mut v: Vec<ToolResultContent> = Vec::new();
        v.push(ToolResultContent::DiscoveredTools(tools));
        assert(v@ =~= seq![ToolResultContent::DiscoveredTools(tools)]);
        ToolResult { content: v, is_error: Some(false) }
    }

    /// Projects a function-call output into a neutral result; `None` keeps a single text part
    /// or encrypted content on the legacy path.
    pub fn from_function_call_output(payload: &FunctionCallOutputPayload) -> (r: Option<Self>)
        ensures
            match r {
                Some(result) => function_output_projects(*payload) && function_output_result_matches(*payload, result),
                None => !function_output_projects(*payload),
            },
    {
        let is_error = match payload.success {
            Some(success) => Some(!success),
            None => None,
        };
        let content = match &payload.body {
            FunctionCallOutputBody::Text(text) => one_text(text.clone()),
            FunctionCallOutputBody::ContentItems(items) => {
                if items.len() == 1 {
                    if let FunctionCallOutputContentItem::InputText { .. } = &items[0] {
                        return None;
                    }
                }
                let mut out: Vec<ToolResultContent> = Vec::new();
                let mut i: usize = 0;
                while i < items.len()
                    invariant
                        payload.body == FunctionCallOutputBody::ContentItems(*items),
                        i <= items@.len(),
                        out@.len() == i,
                        forall|j: int| 0 <= j < i ==> !(#[trigger] items@[j] is EncryptedContent),
                        forall|j: int| 0 <= j < i ==> out@[j] == spec_tool_result_content(#[trigger] items@[j]),
                    decreases items.len() - i,
                {
                    match tool_result_content(&items[i]) {
                        Some(part) => out.push(part),
                        None => return None,
                    }
                    i += 1;
                }
                out
            },
        };
        Some(ToolResult { content, is_error })
    }
}

// ---------------------------------------------------------------------------------------------
// Code-mode results
// ---------------------------------------------------------------------------------------------

/// The visible text of one output part for code mode: its text or URL when not blank.
pub open spec fn code_mode_part_text(item: FunctionCallOutputContentItem) -> Option<Seq<char>> {
    match item {
        FunctionCallOutputContentItem::InputText { text } => if is_blank_text(text@) { None } else { Some(text@) },
        FunctionCallOutputContentItem::InputImage { image_url, .. } => if is_blank_text(image_url@) { None } else { Some(image_url@) },
        FunctionCallOutputContentItem::InputAudio { audio_url } => if is_blank_text(audio_url@) { None } else { Some(audio_url@) },
        FunctionCallOutputContentItem::EncryptedContent { .. } => None,
    }
}

/// The visible texts of a list of output parts, in order.
pub open spec fn code_mode_texts(items: Seq<FunctionCallOutputContentItem>) -> Seq<Seq<char>>
    decreases items.len(),
{
    if items.len() == 0 {
        Seq::empty()
    } else {
        let prefix = code_mode_texts(items.drop_last());
        match code_mode_part_text(items.last()) {
            Some(t) => prefix.push(t),
            None => prefix,
        }
    }
}

/// Texts joined with a newline between each two.
pub open spec fn join_lines(parts: Seq<Seq<char>>) -> Seq<char>
    decreases parts.len(),
{
    if parts.len() == 0 {
        Seq::empty()
    } else if parts.len() == 1 {
        parts[0]
    } else {
        join_lines(parts.drop_last()) + "\n"@ + parts.last()
    }
}

/// The visible texts of a list of output parts, joined with newlines.
pub open spec fn code_mode_joined(items: Seq<FunctionCallOutputContentItem>) -> Seq<char> {
    join_lines(code_mode_texts(items))
}

/// Code-mode result of a list of output parts: the visible texts joined with newlines.
pub fn content_items_to_code_mode_result(items: &Vec<FunctionCallOutputContentItem>) -> (r: serde_json::Value)
    ensures
        r == json_string_value(code_mode_joined(items@)),
{
    let mut joined = String::new();
    let mut any = false;
    let mut i: usize = 0;
    while i < items.len()
        invariant
            i <= items@.len(),
            joined@ == join_lines(code_mode_texts(items@.subrange(0, i as int))),
            any == (code_mode_texts(items@.subrange(0, i as int)).len() > 0),
        decreases items.len() - i,
    {
        let ghost prefix = items@.subrange(0, i as int);
        let ghost next = items@.subrange(0, i + 1);
        proof {
            assert(next.drop_last() =~= prefix);
            assert(next.last() == items@[i as int]);
        }
        let visible: Option<&String> = match &items[i] {
            FunctionCallOutputContentItem::InputText { text } => if is_blank(text.as_str()) { None } else { Some(text) },
            FunctionCallOutputContentItem::InputImage { image_url, .. } => if is_blank(image_url.as_str()) { None } else { Some(image_url) },
            FunctionCallOutputContentItem::InputAudio { audio_url } => if is_blank(audio_url.as_str()) { None } else { Some(audio_url) },
            FunctionCallOutputContentItem::EncryptedContent { .. } => None,
        };
        if let Some(t) = visible {
            if any {
                joined.append("\n");
            }
            joined.append(t.as_str());
            any = true;
            proof {
                let texts = code_mode_texts(prefix).push(t@);
                assert(code_mode_texts(next) == texts);
                assert(texts.drop_last() =~= code_mode_texts(prefix));
                if code_mode_texts(prefix).len() == 0 {
                    assert(joined@ =~= t@);
                }
            }
        }
        i += 1;
    }
    assert(items@.subrange(0, items@.len() as int) =~= items@);
    json_from_text(joined)
}

/// The output part a message content part reads as in code mode; images get the default
/// detail when they have none.
pub open spec fn spec_code_mode_part(item: ContentItem) -> FunctionCallOutputContentItem {
    match item {
        ContentItem::InputText { text } => FunctionCallOutputContentItem::InputText { text },
        ContentItem::OutputText { text } => FunctionCallOutputContentItem::InputText { text },
        ContentItem::InputImage { image_url, detail } => FunctionCallOutputContentItem::InputImage {
            image_url,
            detail: match detail {
                Some(d) => Some(d),
                None => Some(DEFAULT_IMAGE_DETAIL),
            },
        },
        ContentItem::InputAudio { audio_url } => FunctionCallOutputContentItem::InputAudio { audio_url },
    }
}

/// The code-mode value of a response item handed back to the model.
pub open spec fn code_mode_result_matches(response: ResponseInputItem, r: serde_json::Value) -> bool {
    match response {
        ResponseInputItem::Message { content, .. } => exists|parts: Seq<FunctionCallOutputContentItem>| {
            &&& parts.len() == content@.len()
            &&& forall|i: int| 0 <= i < parts.len() ==> parts[i] == spec_code_mode_part(#[trigger] content@[i])
            &&& r == json_string_value(code_mode_joined(parts))
        },
        ResponseInputItem::FunctionCallOutput { output, .. } => code_mode_output_matches(output, r),
        ResponseInputItem::CustomToolCallOutput { output, .. } => code_mode_output_matches(output, r),
        ResponseInputItem::ToolSearchOutput { tools, .. } => r == json_array_value(tools@),
    }
}

pub open spec fn code_mode_output_matches(output: FunctionCallOutputPayload, r: serde_json::Value) -> bool {
    match output.body {
        FunctionCallOutputBody::Text(text) => r == json_string_value(text@),
        FunctionCallOutputBody::ContentItems(items) => r == json_string_value(code_mode_joined(items@)),
    }
}

/// Converts a response item handed back to the model into the value code mode sees.
pub fn response_input_to_code_mode_result(response: ResponseInputItem) -> (r: serde_json::Value)
    ensures
        code_mode_result_matches(response, r),
{
    match response {
        ResponseInputItem::Message { content, .. } => {
            let mut parts: Vec<FunctionCallOutputContentItem> = Vec::new();
            let mut i: usize = 0;
            while i < content.len()
                invariant
                    i <= content@.len(),
                    parts@.len() == i,
                    forall|j: int| 0 <= j < i ==> parts@[j] == spec_code_mode_part(#[trigger] content@[j]),
                decreases content.len() - i,
            {
                let part = match &content[i] {
                    ContentItem::InputText { text } => FunctionCallOutputContentItem::InputText { text: text.clone() },
                    ContentItem::OutputText { text } => FunctionCallOutputContentItem::InputText { text: text.clone() },
                    ContentItem::InputImage { image_url, detail } => FunctionCallOutputContentItem::InputImage {
                        image_url: image_url.clone(),
                        detail: match detail {
                            Some(d) => Some(*d),
                            None => Some(DEFAULT_IMAGE_DETAIL),
                        },
                    },
                    ContentItem::InputAudio { audio_url } => FunctionCallOutputContentItem::InputAudio { audio_url: audio_url.clone() },
                };
                parts.push(part);
                i += 1;
            }
            content_items_to_code_mode_result(&parts)
        },
        ResponseInputItem::FunctionCallOutput { output, .. } | ResponseInputItem::CustomToolCallOutput { output, .. } => {
            match output.body {
                FunctionCallOutputBody::Text(text) => json_from_text(text),
                FunctionCallOutputBody::ContentItems(items) => content_items_to_code_mode_result(&items),
            }
        },
        ResponseInputItem::ToolSearchOutput { tools, .. } => json_from_values(tools),
    }
}

// ---------------------------------------------------------------------------------------------
// Tool outputs
// ---------------------------------------------------------------------------------------------

/// Model-facing output contract returned by executable tool runtimes.
pub trait ToolOutput {
    /// A deliberately lossy diagnostic representation, before telemetry size limits.
    fn log_output(&self) -> String;

    fn success_for_logging(&self) -> bool;

    /// Whether this output contains external context that should disable memory generation.
    fn contains_external_context(&self) -> (r: bool)
        default_ensures
            !r,
    {
        false
    }

    fn to_response_item(&self, call_id: &str, payload: &ToolPayload) -> ResponseInputItem;

    /// `None` when canonical projection cannot preserve exact semantics.
    fn to_tool_result(&self) -> (r: Option<ToolResult>)
        default_ensures
            r is None,
    {
        None
    }

    /// The tool call id exposed to post-use hooks for this output.
    fn post_tool_use_id(&self, call_id: &str) -> (r: String)
        default_ensures
            r@ == call_id@,
    {
        call_id.to_owned()
    }

    /// The tool input exposed to post-use hooks for this output.
    fn post_tool_use_input(&self, payload: &ToolPayload) -> (r: Option<serde_json::Value>)
        default_ensures
            r is None,
    {
        None
    }

    /// The stable value exposed to post-use hooks; `None` means no hook payload.
    fn post_tool_use_response(&self, call_id: &str, payload: &ToolPayload) -> (r: Option<serde_json::Value>)
        default_ensures
            r is None,
    {
        None
    }

    /// The code-mode value of the response item this output hands back to the model.
    fn code_mode_result(&self, payload: &ToolPayload) -> (r: serde_json::Value)
        default_ensures
            exists|item: ResponseInputItem| code_mode_result_matches(item, r),
    {
        let item = self.to_response_item("", payload);
        let r = response_input_to_code_mode_result(item);
        assert(code_mode_result_matches(item, r));
        r
    }
}

/// A tool output that is one JSON value with an optional success status.
#[derive(Clone, Debug, PartialEq)]
pub struct JsonToolOutput {
    value: serde_json::Value,
    success: Option<bool>,
    contains_external_context: bool,
}

impl JsonToolOutput {
    pub closed spec fn spec_value(&self) -> serde_json::Value {
        self.value
    }

    pub closed spec fn spec_success(&self) -> Option<bool> {
        self.success
    }

    pub closed spec fn spec_external_context(&self) -> bool {
        self.contains_external_context
    }

    /// A known-successful JSON output.
    pub fn new(value: serde_json::Value) -> (r: Self)
        ensures
            r.spec_value() == value,
            r.spec_success() == Some(true),
            !r.spec_external_context(),
    {
        JsonToolOutput { value, success: Some(true), contains_external_context: false }
    }

    /// A JSON output with the given status.
    pub fn with_success(value: serde_json::Value, success: Option<bool>) -> (r: Self)
        ensures
            r.spec_value() == value,
            r.spec_success() == success,
            !r.spec_external_context(),
    {
        JsonToolOutput { value, success, contains_external_context: false }
    }

    /// Marks the output as carrying external context.
    pub fn with_external_context(self) -> (r: Self)
        ensures
            r.spec_value() == self.spec_value(),
            r.spec_success() == self.spec_success(),
            r.spec_external_context(),
    {
        let mut out = self;
        out.contains_external_context = true;
        out
    }
}

impl ToolOutput for JsonToolOutput {
    fn log_output(&self) -> (r: String)
        ensures
            r@ == json_compact_text(self.spec_value()),
    {
        json_to_text(&self.value)
    }

    fn success_for_logging(&self) -> (r: bool)
        ensures
            r == match self.spec_success() {
                Some(s) => s,
                None => true,
            },
    {
        match self.success {
            Some(s) => s,
            None => true,
        }
    }

    fn contains_external_context(&self) -> (r: bool)
        ensures
            r == self.spec_external_context(),
    {
        self.contains_external_context
    }

    fn to_response_item(&self, call_id: &str, payload: &ToolPayload) -> (r: ResponseInputItem)
        ensures
            match r {
                ResponseInputItem::CustomToolCallOutput { call_id: c, name, output } => payload is Custom && c@ == call_id@
                    && name is None && output.success == self.spec_success()
                    && (output.body matches FunctionCallOutputBody::Text(t) && t@ == json_compact_text(self.spec_value())),
                ResponseInputItem::FunctionCallOutput { call_id: c, output } => !(payload is Custom) && c@ == call_id@
                    && output.success == self.spec_success()
                    && (output.body matches FunctionCallOutputBody::Text(t) && t@ == json_compact_text(self.spec_value())),
                _ => false,
            },
    {
        let output = FunctionCallOutputPayload {
            body: FunctionCallOutputBody::Text(json_to_text(&self.value)),
            success: self.success,
        };
        if let ToolPayload::Custom { .. } = payload {
            return ResponseInputItem::CustomToolCallOutput { call_id: call_id.to_owned(), name: None, output };
        }
        ResponseInputItem::FunctionCallOutput { call_id: call_id.to_owned(), output }
    }

    fn to_tool_result(&self) -> (r: Option<ToolResult>)
        ensures
            r matches Some(result) && is_single_json_result(result, self.spec_value(), match self.spec_success() {
                Some(s) => Some(!s),
                None => None,
            }),
    {
        Some(match self.success {
            Some(true) => ToolResult::success_json(self.value.clone()),
            Some(false) => ToolResult::error_json(self.value.clone()),
            None => ToolResult::unknown_json(self.value.clone()),
        })
    }

    fn post_tool_use_response(&self, call_id: &str, payload: &ToolPayload) -> (r: Option<serde_json::Value>)
        ensures
            r == Some(self.spec_value()),
    {
        Some(self.value.clone())
    }

    fn code_mode_result(&self, payload: &ToolPayload) -> (r: serde_json::Value)
        ensures
            r == self.spec_value(),
    {
        self.value.clone()
    }
}

/// A function output projected into a neutral tool result keeps its status, inverted into an
/// error state, and the detail level of each image part.
pub proof fn lemma_function_output_projection_keeps_status_and_detail(payload: FunctionCallOutputPayload, r: ToolResult)
    requires
        function_output_result_matches(payload, r),
    ensures
        payload.success == Some(true) ==> r.is_error == Some(false),
        payload.success == Some(false) ==> r.is_error == Some(true),
        payload.success is None ==> r.is_error is None,
        payload.body is ContentItems ==> forall|i: int| #![trigger payload.body->ContentItems_0@[i]]
            0 <= i < payload.body->ContentItems_0@.len() && payload.body->ContentItems_0@[i] is InputImage ==> {
                let d = payload.body->ContentItems_0@[i]->InputImage_detail;
                let e = r.content@[i]->Image_detail;
                &&& r.content@[i] is Image
                &&& d == Some(ImageDetail::Auto) ==> e == Some(ToolResultImageDetail::Auto)
                &&& d == Some(ImageDetail::Low) ==> e == Some(ToolResultImageDetail::Low)
                &&& d == Some(ImageDetail::High) ==> e == Some(ToolResultImageDetail::High)
                &&& d == Some(ImageDetail::Original) ==> e == Some(ToolResultImageDetail::Original)
                &&& d is None ==> e is None
            },
{
    if payload.body is ContentItems {
        let items = payload.body->ContentItems_0;
        assert forall|i: int| #![trigger payload.body->ContentItems_0@[i]]
            0 <= i < items@.len() && items@[i] is InputImage implies {
                let d = items@[i]->InputImage_detail;
                let e = r.content@[i]->Image_detail;
                &&& r.content@[i] is Image
                &&& d == Some(ImageDetail::Auto) ==> e == Some(ToolResultImageDetail::Auto)
                &&& d == Some(ImageDetail::Low) ==> e == Some(ToolResultImageDetail::Low)
                &&& d == Some(ImageDetail::High) ==> e == Some(ToolResultImageDetail::High)
                &&& d == Some(ImageDetail::Original) ==> e == Some(ToolResultImageDetail::Original)
                &&& d is None ==> e is None
            } by {
            assert(r.content@[i] == spec_tool_result_content(items@[i]));
        }
    }
}

} // verus!
