//! Tool-result egress: a neutral tool result is projected into canonical model IR, then encoded
//! as the Responses-shaped item handed back to the model when that encoding is lossless.

use crate::ir::ModelFreeformInputFormat;
use crate::ir::ModelImageDetail;
use crate::ir::ModelMediaSource;
use crate::ir::ModelToolAvailability;
use crate::ir::ModelToolCallId;
use crate::ir::ModelToolPurpose;
use crate::ir::ModelToolResult;
use crate::ir::ModelToolResultContent;
use crate::ir::ModelToolSpec;
use crate::json::json_compact_text;
use crate::json::json_to_text;
use crate::responses::FunctionCallOutputBody;
use crate::responses::FunctionCallOutputContentItem;
use crate::responses::FunctionCallOutputPayload;
use crate::responses::ImageDetail;
use crate::responses::ResponseInputItem;
use crate::tools::DiscoveredFreeformInputFormat;
use crate::tools::DiscoveredToolAvailability;
use crate::tools::DiscoveredToolSpec;
use crate::tools::ToolPayload;
use crate::tools::ToolResult;
use crate::tools::ToolResultContent;
use crate::tools::ToolResultImageDetail;
use vstd::prelude::*;

verus! {

// ---------------------------------------------------------------------------------------------
// Neutral result -> canonical IR
// ---------------------------------------------------------------------------------------------

pub open spec fn spec_model_image_detail(detail: ToolResultImageDetail) -> ModelImageDetail {
    match detail {
        ToolResultImageDetail::Auto => ModelImageDetail::Auto,
        ToolResultImageDetail::Low => ModelImageDetail::Low,
        ToolResultImageDetail::High => ModelImageDetail::High,
        ToolResultImageDetail::Original => ModelImageDetail::Original,
    }
}

pub open spec fn spec_model_availability(availability: DiscoveredToolAvailability) -> ModelToolAvailability {
    match availability {
        DiscoveredToolAvailability::Immediate => ModelToolAvailability::Immediate,
        DiscoveredToolAvailability::Deferred => ModelToolAvailability::Deferred,
    }
}

/// The canonical declaration of a discovered tool. A free-form tool outside a namespace has
/// none: client discovery only carries free-form tools inside a loadable namespace.
pub open spec fn spec_model_discovered_tool(tool: DiscoveredToolSpec) -> Option<ModelToolSpec> {
    match tool {
        DiscoveredToolSpec::Function { namespace, name, description, input_schema, strict, availability } =>
            Some(ModelToolSpec::Function {
                namespace,
                name,
                description,
                input_schema,
                strict,
                availability: spec_model_availability(availability),
                purpose: ModelToolPurpose::Invocation,
            }),
        DiscoveredToolSpec::Freeform { namespace, name, description, input_format, availability } =>
            match namespace {
                Some(ns) => Some(ModelToolSpec::Freeform {
                    namespace: Some(ns),
                    name,
                    description,
                    input_format: match input_format {
                        DiscoveredFreeformInputFormat::Grammar { syntax, definition } =>
                            ModelFreeformInputFormat::Grammar { syntax, definition },
                    },
                    availability: spec_model_availability(availability),
                    purpose: ModelToolPurpose::Invocation,
                }),
                None => None,
            },
    }
}

/// Every discovered tool has a canonical declaration.
pub open spec fn discovered_tools_convertible(tools: Seq<DiscoveredToolSpec>) -> bool {
    forall|i: int| 0 <= i < tools.len() ==> (#[trigger] spec_model_discovered_tool(tools[i])) is Some
}

/// `out` holds the canonical declarations of `tools`, in order.
pub open spec fn discovered_tools_converted(tools: Seq<DiscoveredToolSpec>, out: Seq<ModelToolSpec>) -> bool {
    &&& out.len() == tools.len()
    &&& forall|i: int| 0 <= i < tools.len() ==> #[trigger] spec_model_discovered_tool(tools[i]) == Some(out[i])
}

/// A content part has a canonical form.
pub open spec fn result_content_convertible(content: ToolResultContent) -> bool {
    match content {
        ToolResultContent::DiscoveredTools(tools) => discovered_tools_convertible(tools@),
        _ => true,
    }
}

/// `out` is the canonical form of the content part `content`.
pub open spec fn result_content_converted(content: ToolResultContent, out: ModelToolResultContent) -> bool {
    match content {
        ToolResultContent::Text(text) => out == ModelToolResultContent::Text(text),
        ToolResultContent::Json(value) => out == ModelToolResultContent::Json(value),
        ToolResultContent::DiscoveredTools(tools) =>
            out matches ModelToolResultContent::DiscoveredTools(specs) && discovered_tools_converted(tools@, specs@),
        ToolResultContent::Image { uri, detail } => out == ModelToolResultContent::Image {
            source: ModelMediaSource::Uri(uri),
            detail: match detail {
                Some(d) => Some(spec_model_image_detail(d)),
                None => None,
            },
        },
        ToolResultContent::Audio { uri } => out == ModelToolResultContent::Audio { source: ModelMediaSource::Uri(uri) },
    }
}

/// Every content part of a result has a canonical form.
pub open spec fn result_convertible(result: ToolResult) -> bool {
    forall|i: int| 0 <= i < result.content@.len() ==> #[trigger] result_content_convertible(result.content@[i])
}

/// `out` is the canonical form of `result` answering the call `call_id`.
pub open spec fn result_converted(result: ToolResult, call_id: Seq<char>, out: ModelToolResult) -> bool {
    &&& out.call_id.0@ == call_id
    &&& out.is_error == result.is_error
    &&& out.content@.len() == result.content@.len()
    &&& forall|i: int| 0 <= i < result.content@.len()
        ==> #[trigger] result_content_converted(result.content@[i], out.content@[i])
}

fn model_image_detail(detail: ToolResultImageDetail) -> (r: ModelImageDetail)
    ensures
        r == spec_model_image_detail(detail),
{
    match detail {
        ToolResultImageDetail::Auto => ModelImageDetail::Auto,
        ToolResultImageDetail::Low => ModelImageDetail::Low,
        ToolResultImageDetail::High => ModelImageDetail::High,
        ToolResultImageDetail::Original => ModelImageDetail::Original,
    }
}

fn model_tool_availability(availability: DiscoveredToolAvailability) -> (r: ModelToolAvailability)
    ensures
        r == spec_model_availability(availability),
{
    match availability {
        DiscoveredToolAvailability::Immediate => ModelToolAvailability::Immediate,
        DiscoveredToolAvailability::Deferred => ModelToolAvailability::Deferred,
    }
}

fn model_discovered_tool_spec(tool: DiscoveredToolSpec) -> (r: Option<ModelToolSpec>)
    ensures
        r == spec_model_discovered_tool(tool),
{
    match tool {
        DiscoveredToolSpec::Function { namespace, name, description, input_schema, strict, availability } =>
            Some(ModelToolSpec::Function {
                namespace,
                name,
                description,
                input_schema,
                strict,
                availability: model_tool_availability(availability),
                purpose: ModelToolPurpose::Invocation,
            }),
        DiscoveredToolSpec::Freeform { namespace, name, description, input_format, availability } => {
            match namespace {
                Some(ns) => {
                    let input_format = match input_format {
                        DiscoveredFreeformInputFormat::Grammar { syntax, definition } =>
                            ModelFreeformInputFormat::Grammar { syntax, definition },
                    };
                    Some(ModelToolSpec::Freeform {
                        namespace: Some(ns),
                        name,
                        description,
                        input_format,
                        availability: model_tool_availability(availability),
                        purpose: ModelToolPurpose::Invocation,
                    })
                },
                None => None,
            }
        },
    }
}

fn model_discovered_tools(tools: Vec<DiscoveredToolSpec>) -> (r: Option<Vec<ModelToolSpec>>)
    ensures
        r is Some <==> discovered_tools_convertible(tools@),
        r matches Some(out) ==> discovered_tools_converted(tools@, out@),
{
    let ghost src = tools@;
    let mut out: Vec<ModelToolSpec> = Vec::new();
    for tool in it: tools
        invariant
            it.seq() == src,
            out@.len() == it.index(),
            forall|j: int| 0 <= j < it.index() ==> #[trigger] spec_model_discovered_tool(src[j]) == Some(out@[j]),
    {
        let ghost k = it.index();
        match model_discovered_tool_spec(tool) {
            Some(spec) => out.push(spec),
            None => {
                assert(spec_model_discovered_tool(src[k]) is None);
                return None;
            },
        }
    }
    Some(out)
}

fn model_tool_result_content(content: ToolResultContent) -> (r: Option<ModelToolResultContent>)
    ensures
        r is Some <==> result_content_convertible(content),
        r matches Some(out) ==> result_content_converted(content, out),
{
    match content {
        ToolResultContent::Text(text) => Some(ModelToolResultContent::Text(text)),
        ToolResultContent::Json(value) => Some(ModelToolResultContent::Json(value)),
        ToolResultContent::DiscoveredTools(tools) => match model_discovered_tools(tools) {
            Some(specs) => Some(ModelToolResultContent::DiscoveredTools(specs)),
            None => None,
        },
        ToolResultContent::Image { uri, detail } => Some(ModelToolResultContent::Image {
            source: ModelMediaSource::Uri(uri),
            detail: match detail {
                Some(d) => Some(model_image_detail(d)),
                None => None,
            },
        }),
        ToolResultContent::Audio { uri } => Some(ModelToolResultContent::Audio { source: ModelMediaSource::Uri(uri) }),
    }
}

/// Projects a neutral result into canonical model IR before provider wire encoding. `None`
/// exactly when some part has no canonical form (a free-form discovered tool outside a
/// namespace).
pub fn model_tool_result(result: ToolResult, call_id: &str) -> (r: Option<ModelToolResult>)
    ensures
        r is Some <==> result_convertible(result),
        r matches Some(out) ==> result_converted(result, call_id@, out),
{
    let ghost src = result;
    let is_error = result.is_error;
    let mut content: Vec<ModelToolResultContent> = Vec::new();
    for part in it: result.content
        invariant
            it.seq() == src.content@,
            content@.len() == it.index(),
            forall|j: int| 0 <= j < it.index() ==> #[trigger] result_content_convertible(src.content@[j]),
            forall|j: int| 0 <= j < it.index()
                ==> #[trigger] result_content_converted(src.content@[j], content@[j]),
    {
        let ghost k = it.index();
        match model_tool_result_content(part) {
            Some(c) => content.push(c),
            None => {
                assert(!result_content_convertible(src.content@[k]));
                return None;
            },
        }
    }
    Some(ModelToolResult { call_id: ModelToolCallId(call_id.to_owned()), content, is_error })
}

// ---------------------------------------------------------------------------------------------
// Canonical IR -> Responses output
// ---------------------------------------------------------------------------------------------

pub open spec fn spec_response_image_detail(detail: ModelImageDetail) -> ImageDetail {
    match detail {
        ModelImageDetail::Auto => ImageDetail::Auto,
        ModelImageDetail::Low => ImageDetail::Low,
        ModelImageDetail::High => ImageDetail::High,
        ModelImageDetail::Original => ImageDetail::Original,
    }
}

/// Whether a canonical content part has an output-part encoding: discovered tools and inline
/// bytes have none.
pub open spec fn part_encodable(content: ModelToolResultContent) -> bool {
    match content {
        ModelToolResultContent::Text(_) => true,
        ModelToolResultContent::Json(_) => true,
        ModelToolResultContent::Image { source, .. } => source is Uri,
        ModelToolResultContent::Audio { source } => source is Uri,
        ModelToolResultContent::DiscoveredTools(_) => false,
    }
}

/// Whether a canonical content part is encoded as a text part.
pub open spec fn part_is_text(content: ModelToolResultContent) -> bool {
    content is Text || content is Json
}

/// `item` is the output part `content` is encoded as. JSON is stringified here, at the adapter
/// boundary, to its compact text.
pub open spec fn encodes_part(content: ModelToolResultContent, item: FunctionCallOutputContentItem) -> bool {
    match content {
        ModelToolResultContent::Text(text) => item matches FunctionCallOutputContentItem::InputText { text: t } && t@ == text@,
        ModelToolResultContent::Json(value) =>
            item matches FunctionCallOutputContentItem::InputText { text: t } && t@ == json_compact_text(value),
        ModelToolResultContent::Image { source, detail } => {
            &&& source matches ModelMediaSource::Uri(uri)
            &&& item matches FunctionCallOutputContentItem::InputImage { image_url, detail: d }
            &&& image_url@ == uri@
            &&& d == match detail {
                Some(x) => Some(spec_response_image_detail(x)),
                None => None,
            }
        },
        ModelToolResultContent::Audio { source } => {
            &&& source matches ModelMediaSource::Uri(uri)
            &&& item matches FunctionCallOutputContentItem::InputAudio { audio_url }
            &&& audio_url@ == uri@
        },
        ModelToolResultContent::DiscoveredTools(_) => false,
    }
}

/// Every canonical part has an output-part encoding.
pub open spec fn result_encodable(result: ModelToolResult) -> bool {
    forall|i: int| 0 <= i < result.content@.len() ==> #[trigger] part_encodable(result.content@[i])
}

/// `out` is the function-call output payload of `result`: a single text part becomes a plain
/// text body, anything else a list of parts in order; success is the inverse of the error
/// status.
pub open spec fn payload_encodes(result: ModelToolResult, out: FunctionCallOutputPayload) -> bool {
    let parts = result.content@;
    &&& out.success == match result.is_error {
        Some(e) => Some(!e),
        None => None,
    }
    &&& if parts.len() == 1 && part_is_text(parts[0]) {
        out.body matches FunctionCallOutputBody::Text(t)
            && encodes_part(parts[0], FunctionCallOutputContentItem::InputText { text: t })
    } else {
        out.body matches FunctionCallOutputBody::ContentItems(items) && items@.len() == parts.len()
            && forall|i: int| 0 <= i < parts.len() ==> #[trigger] encodes_part(parts[i], items@[i])
    }
}

fn response_image_detail(detail: ModelImageDetail) -> (r: ImageDetail)
    ensures
        r == spec_response_image_detail(detail),
{
    match detail {
        ModelImageDetail::Auto => ImageDetail::Auto,
        ModelImageDetail::Low => ImageDetail::Low,
        ModelImageDetail::High => ImageDetail::High,
        ModelImageDetail::Original => ImageDetail::Original,
    }
}

/// The URI a media source is handed back as; inline bytes have none.
pub fn response_media_uri(source: &ModelMediaSource) -> (r: Option<String>)
    ensures
        match *source {
            ModelMediaSource::Uri(uri) => r matches Some(s) && s@ == uri@,
            ModelMediaSource::Bytes { .. } => r is None,
        },
{
    match source {
        ModelMediaSource::Uri(uri) => Some(uri.clone()),
        ModelMediaSource::Bytes { .. } => None,
    }
}

/// Encodes one canonical content part as an output part; `None` exactly when it has no
/// output-part encoding.
pub fn response_content_item(content: &ModelToolResultContent) -> (r: Option<FunctionCallOutputContentItem>)
    ensures
        r is Some <==> part_encodable(*content),
        r matches Some(item) ==> encodes_part(*content, item),
{
    match content {
        ModelToolResultContent::Text(text) => Some(FunctionCallOutputContentItem::InputText { text: text.clone() }),
        ModelToolResultContent::Json(value) => Some(FunctionCallOutputContentItem::InputText { text: json_to_text(value) }),
        ModelToolResultContent::Image { source, detail } => match response_media_uri(source) {
            Some(uri) => Some(FunctionCallOutputContentItem::InputImage {
                image_url: uri,
                detail: match detail {
                    Some(d) => Some(response_image_detail(*d)),
                    None => None,
                },
            }),
            None => None,
        },
        ModelToolResultContent::Audio { source } => match response_media_uri(source) {
            Some(uri) => Some(FunctionCallOutputContentItem::InputAudio { audio_url: uri }),
            None => None,
        },
        ModelToolResultContent::DiscoveredTools(_) => None,
    }
}

/// Encodes a canonical result as a function-call output payload; `None` exactly when some part
/// has no output-part encoding.
pub fn function_call_output_payload(result: &ModelToolResult) -> (r: Option<FunctionCallOutputPayload>)
    ensures
        r is Some <==> result_encodable(*result),
        r matches Some(out) ==> payload_encodes(*result, out),
{
    let mut content: Vec<FunctionCallOutputContentItem> = Vec::new();
    let mut i: usize = 0;
    while i < result.content.len()
        invariant
            i <= result.content@.len(),
            content@.len() == i,
            forall|j: int| 0 <= j < i ==> #[trigger] part_encodable(result.content@[j]),
            forall|j: int| 0 <= j < i ==> #[trigger] encodes_part(result.content@[j], content@[j]),
        decreases result.content.len() - i,
    {
        match response_content_item(&result.content[i]) {
            Some(item) => content.push(item),
            None => {
                assert(!part_encodable(result.content@[i as int]));
                return None;
            },
        }
        i += 1;
    }
    proof {
        if content@.len() == 1 {
            assert(encodes_part(result.content@[0], content@[0]));
            assert(part_is_text(result.content@[0]) <==> content@[0] is InputText);
        }
    }
    let single_text: Option<String> = if content.len() == 1 {
        match &content[0] {
            FunctionCallOutputContentItem::InputText { text } => Some(text.clone()),
            _ => None,
        }
    } else {
        None
    };
    let body = match single_text {
        Some(text) => {
            assert(encodes_part(result.content@[0], FunctionCallOutputContentItem::InputText { text }));
            FunctionCallOutputBody::Text(text)
        },
        None => FunctionCallOutputBody::ContentItems(content),
    };
    let success = match result.is_error {
        Some(e) => Some(!e),
        None => None,
    };
    Some(FunctionCallOutputPayload { body, success })
}

/// Whether a Responses item is the lossless encoding of `result` for a tool invoked with
/// `payload`. Discovery results have no Responses encoding in this library and stay on the
/// legacy path.
pub open spec fn response_item_encodes(result: ModelToolResult, payload: ToolPayload, r: Option<ResponseInputItem>) -> bool {
    match payload {
        ToolPayload::Function { .. } => if result_encodable(result) {
            r matches Some(ResponseInputItem::FunctionCallOutput { call_id, output })
                && call_id@ == result.call_id.0@ && payload_encodes(result, output)
        } else {
            r is None
        },
        ToolPayload::Custom { .. } => if result_encodable(result) {
            r matches Some(ResponseInputItem::CustomToolCallOutput { call_id, name, output })
                && call_id@ == result.call_id.0@ && name is None && payload_encodes(result, output)
        } else {
            r is None
        },
        ToolPayload::ToolSearch { .. } => r is None,
    }
}

/// Encodes a canonical result as the Responses item for a tool invoked with `payload`.
pub fn response_item_from_model_tool_result(result: &ModelToolResult, payload: &ToolPayload) -> (r: Option<ResponseInputItem>)
    ensures
        response_item_encodes(*result, *payload, r),
{
    match payload {
        ToolPayload::Function { .. } => match function_call_output_payload(result) {
            Some(output) => Some(ResponseInputItem::FunctionCallOutput { call_id: result.call_id.0.clone(), output }),
            None => None,
        },
        ToolPayload::Custom { .. } => match function_call_output_payload(result) {
            Some(output) => Some(ResponseInputItem::CustomToolCallOutput {
                call_id: result.call_id.0.clone(),
                name: None,
                output,
            }),
            None => None,
        },
        ToolPayload::ToolSearch { .. } => None,
    }
}

/// Converts a neutral result when it has a lossless Responses representation.
pub fn to_response_item(result: ToolResult, call_id: &str, payload: &ToolPayload) -> (r: Option<ResponseInputItem>)
    ensures
        !result_convertible(result) ==> r is None,
        result_convertible(result) ==> exists|m: ModelToolResult|
            result_converted(result, call_id@, m) && #[trigger] response_item_encodes(m, *payload, r),
{
    match model_tool_result(result, call_id) {
        Some(m) => {
            let r = response_item_from_model_tool_result(&m, payload);
            assert(response_item_encodes(m, *payload, r));
            r
        },
        None => None,
    }
}

// ---------------------------------------------------------------------------------------------
// Egress round trip
// ---------------------------------------------------------------------------------------------

/// Two output parts are the same, their texts taken by view.
pub open spec fn output_part_same(a: FunctionCallOutputContentItem, b: FunctionCallOutputContentItem) -> bool {
    match (a, b) {
        (FunctionCallOutputContentItem::InputText { text: x }, FunctionCallOutputContentItem::InputText { text: y }) => x@ == y@,
        (FunctionCallOutputContentItem::InputImage { image_url: x, detail: d }, FunctionCallOutputContentItem::InputImage { image_url: y, detail: e }) =>
            x@ == y@ && d == e,
        (FunctionCallOutputContentItem::InputAudio { audio_url: x }, FunctionCallOutputContentItem::InputAudio { audio_url: y }) => x@ == y@,
        _ => false,
    }
}

/// Two function outputs are the same: equal status, and bodies equal up to the views of their
/// texts.
pub open spec fn payload_same_view(a: FunctionCallOutputPayload, b: FunctionCallOutputPayload) -> bool {
    &&& a.success == b.success
    &&& match (a.body, b.body) {
        (FunctionCallOutputBody::Text(x), FunctionCallOutputBody::Text(y)) => x@ == y@,
        (FunctionCallOutputBody::ContentItems(x), FunctionCallOutputBody::ContentItems(y)) => {
            &&& x@.len() == y@.len()
            &&& forall|i: int| 0 <= i < x@.len() ==> #[trigger] output_part_same(x@[i], y@[i])
        },
        _ => false,
    }
}

/// A function output that a tool runtime projected to a neutral result comes back unchanged
/// when that result leaves through the adapter: the neutral result has a canonical form, the
/// canonical form has a Responses encoding, and that encoding is the output it started from, in the
/// same order, with the same image details and the same success status.
pub proof fn lemma_function_output_egress_round_trip(
    payload: FunctionCallOutputPayload,
    result: ToolResult,
    call_id: Seq<char>,
    canonical: ModelToolResult,
    out: FunctionCallOutputPayload,
)
    requires
        crate::tools::function_output_projects(payload),
        crate::tools::function_output_result_matches(payload, result),
    ensures
        result_convertible(result),
        result_converted(result, call_id, canonical) ==> result_encodable(canonical),
        result_converted(result, call_id, canonical) && payload_encodes(canonical, out) ==> payload_same_view(out, payload),
{
    match payload.body {
        FunctionCallOutputBody::Text(text) => {
            assert(result.content@[0] == ToolResultContent::Text(text));
            assert(result_content_convertible(result.content@[0]));
            if result_converted(result, call_id, canonical) {
                assert(result_content_converted(result.content@[0], canonical.content@[0]));
                assert(part_encodable(canonical.content@[0]));
            }
        },
        FunctionCallOutputBody::ContentItems(items) => {
            assert forall|i: int| 0 <= i < result.content@.len() implies #[trigger] result_content_convertible(result.content@[i]) by {
                assert(result.content@[i] == crate::tools::spec_tool_result_content(items@[i]));
                assert(!(items@[i] is EncryptedContent));
            }
            if result_converted(result, call_id, canonical) {
                assert forall|i: int| 0 <= i < canonical.content@.len() implies #[trigger] part_encodable(canonical.content@[i]) by {
                    assert(result.content@[i] == crate::tools::spec_tool_result_content(items@[i]));
                    assert(!(items@[i] is EncryptedContent));
                    assert(result_content_converted(result.content@[i], canonical.content@[i]));
                }
                if payload_encodes(canonical, out) {
                    if items@.len() == 1 {
                        assert(!(items@[0] is InputText));
                        assert(!(items@[0] is EncryptedContent));
                        assert(result.content@[0] == crate::tools::spec_tool_result_content(items@[0]));
                        assert(result_content_converted(result.content@[0], canonical.content@[0]));
                        assert(!part_is_text(canonical.content@[0]));
                    }
                    let parts = out.body->ContentItems_0;
                    assert forall|i: int| 0 <= i < items@.len() implies #[trigger] output_part_same(parts@[i], items@[i]) by {
                        assert(result.content@[i] == crate::tools::spec_tool_result_content(items@[i]));
                        assert(!(items@[i] is EncryptedContent));
                        assert(result_content_converted(result.content@[i], canonical.content@[i]));
                        assert(encodes_part(canonical.content@[i], parts@[i]));
                    }
                }
            }
        },
    }
}

/// A discovered tool's canonical declaration keeps its name, its namespace and its availability:
/// an immediately available tool stays immediate and a deferred one deferred, and it is declared
/// for invocation.
pub proof fn lemma_discovered_tools_keep_availability(tools: Seq<DiscoveredToolSpec>, out: Seq<ModelToolSpec>)
    requires
        discovered_tools_converted(tools, out),
    ensures
        forall|i: int| 0 <= i < tools.len() && (#[trigger] tools[i] matches DiscoveredToolSpec::Function { availability, .. }) ==> {
            &&& out[i] is Function
            &&& out[i]->Function_name == tools[i]->Function_name
            &&& out[i]->Function_namespace == tools[i]->Function_namespace
            &&& out[i]->Function_purpose == ModelToolPurpose::Invocation
            &&& tools[i]->Function_availability == DiscoveredToolAvailability::Immediate
                ==> out[i]->Function_availability == ModelToolAvailability::Immediate
            &&& tools[i]->Function_availability == DiscoveredToolAvailability::Deferred
                ==> out[i]->Function_availability == ModelToolAvailability::Deferred
        },
        forall|i: int| 0 <= i < tools.len() && (#[trigger] tools[i] matches DiscoveredToolSpec::Freeform { availability, .. }) ==> {
            &&& out[i] is Freeform
            &&& out[i]->Freeform_name == tools[i]->Freeform_name
            &&& out[i]->Freeform_namespace == tools[i]->Freeform_namespace
            &&& out[i]->Freeform_purpose == ModelToolPurpose::Invocation
            &&& tools[i]->Freeform_availability == DiscoveredToolAvailability::Immediate
                ==> out[i]->Freeform_availability == ModelToolAvailability::Immediate
            &&& tools[i]->Freeform_availability == DiscoveredToolAvailability::Deferred
                ==> out[i]->Freeform_availability == ModelToolAvailability::Deferred
        },
{
    assert forall|i: int| 0 <= i < tools.len() && (#[trigger] tools[i] matches DiscoveredToolSpec::Function { availability, .. }) implies {
        &&& out[i] is Function
        &&& out[i]->Function_name == tools[i]->Function_name
        &&& out[i]->Function_namespace == tools[i]->Function_namespace
        &&& out[i]->Function_purpose == ModelToolPurpose::Invocation
        &&& tools[i]->Function_availability == DiscoveredToolAvailability::Immediate
            ==> out[i]->Function_availability == ModelToolAvailability::Immediate
        &&& tools[i]->Function_availability == DiscoveredToolAvailability::Deferred
            ==> out[i]->Function_availability == ModelToolAvailability::Deferred
    } by {
        assert(spec_model_discovered_tool(tools[i]) == Some(out[i]));
    }
    assert forall|i: int| 0 <= i < tools.len() && (#[trigger] tools[i] matches DiscoveredToolSpec::Freeform { availability, .. }) implies {
        &&& out[i] is Freeform
        &&& out[i]->Freeform_name == tools[i]->Freeform_name
        &&& out[i]->Freeform_namespace == tools[i]->Freeform_namespace
        &&& out[i]->Freeform_purpose == ModelToolPurpose::Invocation
        &&& tools[i]->Freeform_availability == DiscoveredToolAvailability::Immediate
            ==> out[i]->Freeform_availability == ModelToolAvailability::Immediate
        &&& tools[i]->Freeform_availability == DiscoveredToolAvailability::Deferred
            ==> out[i]->Freeform_availability == ModelToolAvailability::Deferred
    } by {
        assert(spec_model_discovered_tool(tools[i]) == Some(out[i]));
    }
}

/// An image part keeps its detail level on its way into the canonical result and back out to a
/// Responses output part: each level maps to the level of the same name, and no level stays no
/// level.
pub proof fn lemma_image_detail_is_kept(content: ToolResultContent, canonical: ModelToolResultContent, item: FunctionCallOutputContentItem)
    ensures
        result_content_converted(content, canonical) && content is Image ==> {
            let d = content->Image_detail;
            let e = canonical->Image_detail;
            &&& canonical is Image
            &&& d == Some(ToolResultImageDetail::Auto) ==> e == Some(ModelImageDetail::Auto)
            &&& d == Some(ToolResultImageDetail::Low) ==> e == Some(ModelImageDetail::Low)
            &&& d == Some(ToolResultImageDetail::High) ==> e == Some(ModelImageDetail::High)
            &&& d == Some(ToolResultImageDetail::Original) ==> e == Some(ModelImageDetail::Original)
            &&& d is None ==> e is None
        },
        encodes_part(canonical, item) && canonical is Image ==> {
            let d = canonical->Image_detail;
            let e = item->InputImage_detail;
            &&& item is InputImage
            &&& d == Some(ModelImageDetail::Auto) ==> e == Some(ImageDetail::Auto)
            &&& d == Some(ModelImageDetail::Low) ==> e == Some(ImageDetail::Low)
            &&& d == Some(ModelImageDetail::High) ==> e == Some(ImageDetail::High)
            &&& d == Some(ModelImageDetail::Original) ==> e == Some(ImageDetail::Original)
            &&& d is None ==> e is None
        },
{
}

/// A canonical result encoded as a function output carries its error state back as a success
/// status: an error is not a success, a result that is no error is one, and an unknown error
/// state stays unknown.
pub proof fn lemma_encoded_output_keeps_status(result: ModelToolResult, out: FunctionCallOutputPayload)
    requires
        payload_encodes(result, out),
    ensures
        result.is_error == Some(true) ==> out.success == Some(false),
        result.is_error == Some(false) ==> out.success == Some(true),
        result.is_error is None ==> out.success is None,
{
}

} // verus!
