//! The Codex tool declarations that the Responses adapter sends with a request.

use crate::json::json_equal;
use crate::json::json_values_equal;
use crate::text::str_eq;
use vstd::prelude::*;

verus! {

/// A JSON-schema-described function tool.
#[derive(Debug, Clone, PartialEq)]
pub struct ResponsesApiTool {
    pub name: String,
    pub description: String,
    pub strict: bool,
    pub defer_loading: Option<bool>,
    /// The input schema, as the JSON document it is sent as.
    pub parameters: serde_json::Value,
    pub output_schema: Option<serde_json::Value>,
}

/// The grammar that constrains a free-form tool's input.
#[derive(Debug, Clone, PartialEq, Eq)]
pub struct FreeformToolFormat {
    /// The kind of constraint (`"grammar"`).
    pub format_type: String,
    pub syntax: String,
    pub definition: String,
}

/// A free-form (custom) tool.
#[derive(Debug, Clone, PartialEq)]
pub struct FreeformTool {
    pub name: String,
    pub description: String,
    pub defer_loading: Option<bool>,
    pub format: FreeformToolFormat,
}

/// A tool nested in a namespace.
#[derive(Debug, Clone, PartialEq)]
pub enum ResponsesApiNamespaceTool {
    Function(ResponsesApiTool),
    Custom(FreeformTool),
}

/// The description of a tool namespace.
#[derive(Debug, Clone, PartialEq, Eq)]
pub enum NamespaceDescription {
    /// The standard description that Codex derives from the namespace's name.
    Default,
    /// A description of the namespace's own.
    Custom(String),
}

/// A namespace grouping tools under one name.
#[derive(Debug, Clone, PartialEq)]
pub struct ResponsesApiNamespace {
    pub name: String,
    pub description: NamespaceDescription,
    pub tools: Vec<ResponsesApiNamespaceTool>,
}

/// One top-level tool declaration.
#[derive(Debug, Clone, PartialEq)]
pub enum ToolSpec {
    Function(ResponsesApiTool),
    Freeform(FreeformTool),
    Namespace(ResponsesApiNamespace),
    /// The tool-discovery tool, executed where `execution` says.
    ToolSearch { execution: String, description: String, parameters: serde_json::Value },
    /// The provider-hosted web search tool.
    WebSearch,
}

/// Two optional JSON values are equal as `serde_json::Value`'s `==` reports.
pub open spec fn same_json_option(a: Option<serde_json::Value>, b: Option<serde_json::Value>) -> bool {
    match (a, b) {
        (Some(x), Some(y)) => json_values_equal(x, y),
        (None, None) => true,
        _ => false,
    }
}

/// Two function tools are equal field by field.
pub open spec fn same_function_tool(a: ResponsesApiTool, b: ResponsesApiTool) -> bool {
    &&& a.name@ == b.name@
    &&& a.description@ == b.description@
    &&& a.strict == b.strict
    &&& a.defer_loading == b.defer_loading
    &&& json_values_equal(a.parameters, b.parameters)
    &&& same_json_option(a.output_schema, b.output_schema)
}

/// Two free-form tools are equal field by field.
pub open spec fn same_freeform_tool(a: FreeformTool, b: FreeformTool) -> bool {
    &&& a.name@ == b.name@
    &&& a.description@ == b.description@
    &&& a.defer_loading == b.defer_loading
    &&& a.format.format_type@ == b.format.format_type@
    &&& a.format.syntax@ == b.format.syntax@
    &&& a.format.definition@ == b.format.definition@
}

/// Two namespace members are equal.
pub open spec fn same_member_tool(a: ResponsesApiNamespaceTool, b: ResponsesApiNamespaceTool) -> bool {
    match (a, b) {
        (ResponsesApiNamespaceTool::Function(x), ResponsesApiNamespaceTool::Function(y)) => same_function_tool(x, y),
        (ResponsesApiNamespaceTool::Custom(x), ResponsesApiNamespaceTool::Custom(y)) => same_freeform_tool(x, y),
        _ => false,
    }
}

/// Two namespace descriptions are equal.
pub open spec fn same_description(a: NamespaceDescription, b: NamespaceDescription) -> bool {
    match (a, b) {
        (NamespaceDescription::Default, NamespaceDescription::Default) => true,
        (NamespaceDescription::Custom(x), NamespaceDescription::Custom(y)) => x@ == y@,
        _ => false,
    }
}

/// Two tool declarations are equal.
pub open spec fn same_tool(a: ToolSpec, b: ToolSpec) -> bool {
    match (a, b) {
        (ToolSpec::Function(x), ToolSpec::Function(y)) => same_function_tool(x, y),
        (ToolSpec::Freeform(x), ToolSpec::Freeform(y)) => same_freeform_tool(x, y),
        (ToolSpec::Namespace(x), ToolSpec::Namespace(y)) => {
            &&& x.name@ == y.name@
            &&& same_description(x.description, y.description)
            &&& x.tools@.len() == y.tools@.len()
            &&& forall|j: int| 0 <= j < x.tools@.len() ==> #[trigger] same_member_tool(x.tools@[j], y.tools@[j])
        },
        (ToolSpec::ToolSearch { execution: e1, description: d1, parameters: p1 }, ToolSpec::ToolSearch { execution: e2, description: d2, parameters: p2 }) =>
            e1@ == e2@ && d1@ == d2@ && json_values_equal(p1, p2),
        (ToolSpec::WebSearch, ToolSpec::WebSearch) => true,
        _ => false,
    }
}

/// Two lists of tool declarations are equal, item by item.
pub open spec fn same_tools(a: Seq<ToolSpec>, b: Seq<ToolSpec>) -> bool {
    &&& a.len() == b.len()
    &&& forall|i: int| 0 <= i < a.len() ==> #[trigger] same_tool(a[i], b[i])
}

/// Two tool declarations are identical: every text has the same characters and every JSON value
/// is the same value.
pub open spec fn identical_tool(a: ToolSpec, b: ToolSpec) -> bool {
    match (a, b) {
        (ToolSpec::Function(x), ToolSpec::Function(y)) => identical_function_tool(x, y),
        (ToolSpec::Freeform(x), ToolSpec::Freeform(y)) => same_freeform_tool(x, y),
        (ToolSpec::Namespace(x), ToolSpec::Namespace(y)) => {
            &&& x.name@ == y.name@
            &&& same_description(x.description, y.description)
            &&& x.tools@.len() == y.tools@.len()
            &&& forall|j: int| 0 <= j < x.tools@.len() ==> #[trigger] identical_member_tool(x.tools@[j], y.tools@[j])
        },
        (ToolSpec::ToolSearch { execution: e1, description: d1, parameters: p1 }, ToolSpec::ToolSearch { execution: e2, description: d2, parameters: p2 }) =>
            e1@ == e2@ && d1@ == d2@ && p1 == p2,
        (ToolSpec::WebSearch, ToolSpec::WebSearch) => true,
        _ => false,
    }
}

/// Two function tools are identical.
pub open spec fn identical_function_tool(a: ResponsesApiTool, b: ResponsesApiTool) -> bool {
    &&& a.name@ == b.name@
    &&& a.description@ == b.description@
    &&& a.strict == b.strict
    &&& a.defer_loading == b.defer_loading
    &&& a.parameters == b.parameters
    &&& a.output_schema == b.output_schema
}

/// Two namespace members are identical.
pub open spec fn identical_member_tool(a: ResponsesApiNamespaceTool, b: ResponsesApiNamespaceTool) -> bool {
    match (a, b) {
        (ResponsesApiNamespaceTool::Function(x), ResponsesApiNamespaceTool::Function(y)) => identical_function_tool(x, y),
        (ResponsesApiNamespaceTool::Custom(x), ResponsesApiNamespaceTool::Custom(y)) => same_freeform_tool(x, y),
        _ => false,
    }
}

/// Two lists of tool declarations are identical, item by item.
pub open spec fn identical_tools(a: Seq<ToolSpec>, b: Seq<ToolSpec>) -> bool {
    &&& a.len() == b.len()
    &&& forall|i: int| 0 <= i < a.len() ==> #[trigger] identical_tool(a[i], b[i])
}

fn json_option_equal(a: &Option<serde_json::Value>, b: &Option<serde_json::Value>) -> (r: bool)
    ensures
        r == same_json_option(*a, *b),
        *a == *b ==> r,
{
    match (a, b) {
        (Some(x), Some(y)) => json_equal(x, y),
        (None, None) => true,
        _ => false,
    }
}

fn option_bool_equal(a: Option<bool>, b: Option<bool>) -> (r: bool)
    ensures
        r == (a == b),
{
    match (a, b) {
        (Some(x), Some(y)) => x == y,
        (None, None) => true,
        _ => false,
    }
}

fn function_tool_equal(a: &ResponsesApiTool, b: &ResponsesApiTool) -> (r: bool)
    ensures
        r == same_function_tool(*a, *b),
        identical_function_tool(*a, *b) ==> r,
{
    str_eq(a.name.as_str(), b.name.as_str()) && str_eq(a.description.as_str(), b.description.as_str())
        && a.strict == b.strict && option_bool_equal(a.defer_loading, b.defer_loading)
        && json_equal(&a.parameters, &b.parameters) && json_option_equal(&a.output_schema, &b.output_schema)
}

fn freeform_tool_equal(a: &FreeformTool, b: &FreeformTool) -> (r: bool)
    ensures
        r == same_freeform_tool(*a, *b),
{
    str_eq(a.name.as_str(), b.name.as_str()) && str_eq(a.description.as_str(), b.description.as_str())
        && option_bool_equal(a.defer_loading, b.defer_loading)
        && str_eq(a.format.format_type.as_str(), b.format.format_type.as_str())
        && str_eq(a.format.syntax.as_str(), b.format.syntax.as_str())
        && str_eq(a.format.definition.as_str(), b.format.definition.as_str())
}

fn member_tool_equal(a: &ResponsesApiNamespaceTool, b: &ResponsesApiNamespaceTool) -> (r: bool)
    ensures
        r == same_member_tool(*a, *b),
        identical_member_tool(*a, *b) ==> r,
{
    match (a, b) {
        (ResponsesApiNamespaceTool::Function(x), ResponsesApiNamespaceTool::Function(y)) => function_tool_equal(x, y),
        (ResponsesApiNamespaceTool::Custom(x), ResponsesApiNamespaceTool::Custom(y)) => freeform_tool_equal(x, y),
        _ => false,
    }
}

fn tool_equal(a: &ToolSpec, b: &ToolSpec) -> (r: bool)
    ensures
        r == same_tool(*a, *b),
        identical_tool(*a, *b) ==> r,
{
    match (a, b) {
        (ToolSpec::Function(x), ToolSpec::Function(y)) => function_tool_equal(x, y),
        (ToolSpec::Freeform(x), ToolSpec::Freeform(y)) => freeform_tool_equal(x, y),
        (ToolSpec::Namespace(x), ToolSpec::Namespace(y)) => {
            let same_head = str_eq(x.name.as_str(), y.name.as_str()) && match (&x.description, &y.description) {
                (NamespaceDescription::Default, NamespaceDescription::Default) => true,
                (NamespaceDescription::Custom(p), NamespaceDescription::Custom(q)) => str_eq(p.as_str(), q.as_str()),
                _ => false,
            };
            if !same_head || x.tools.len() != y.tools.len() {
                return false;
            }
            let mut j: usize = 0;
            while j < x.tools.len()
                invariant
                    *a == ToolSpec::Namespace(*x),
                    *b == ToolSpec::Namespace(*y),
                    x.name@ == y.name@,
                    same_description(x.description, y.description),
                    identical_tool(*a, *b) ==> forall|k: int| 0 <= k < x.tools@.len() ==> #[trigger] identical_member_tool(x.tools@[k], y.tools@[k]),
                    j <= x.tools@.len(),
                    x.tools@.len() == y.tools@.len(),
                    forall|k: int| 0 <= k < j ==> #[trigger] same_member_tool(x.tools@[k], y.tools@[k]),
                decreases x.tools.len() - j,
            {
                if !member_tool_equal(&x.tools[j], &y.tools[j]) {
                    assert(!same_member_tool(x.tools@[j as int], y.tools@[j as int]));
                    return false;
                }
                j += 1;
            }
            true
        },
        (ToolSpec::ToolSearch { execution: e1, description: d1, parameters: p1 }, ToolSpec::ToolSearch { execution: e2, description: d2, parameters: p2 }) =>
            str_eq(e1.as_str(), e2.as_str()) && str_eq(d1.as_str(), d2.as_str()) && json_equal(p1, p2),
        (ToolSpec::WebSearch, ToolSpec::WebSearch) => true,
        _ => false,
    }
}

/// Whether two lists of tool declarations are equal, item by item.
pub fn tools_equal(a: &Vec<ToolSpec>, b: &Vec<ToolSpec>) -> (r: bool)
    ensures
        r == same_tools(a@, b@),
        identical_tools(a@, b@) ==> r,
{
    if a.len() != b.len() {
        return false;
    }
    let mut i: usize = 0;
    while i < a.len()
        invariant
            i <= a@.len(),
            a@.len() == b@.len(),
            identical_tools(a@, b@) ==> forall|k: int| 0 <= k < a@.len() ==> #[trigger] identical_tool(a@[k], b@[k]),
            forall|k: int| 0 <= k < i ==> #[trigger] same_tool(a@[k], b@[k]),
        decreases a.len() - i,
    {
        if !tool_equal(&a[i], &b[i]) {
            return false;
        }
        i += 1;
    }
    true
}

} // verus!
