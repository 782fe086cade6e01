//! Call/output correlation of Responses-shaped history, and the normalizations that keep tool
//! calls and their outputs paired before a request is sent.

use crate::history::HistoryEnvelope;
use crate::ids::opt_view;
use crate::ids::spec_synthetic_output_id;
use crate::ids::synthetic_output_id;
use crate::responses::FunctionCallOutputBody;
use crate::responses::FunctionCallOutputPayload;
use crate::responses::ResponseItem;
use crate::responses::ResponseItemEnvelope;
use crate::text::str_eq;
use vstd::prelude::*;

verus! {

/// Compatibility-only pairing classes of the Responses-shaped history payload: which call and
/// output variants share a pairing namespace. Not a provider-neutral tool taxonomy.
#[derive(Debug, Clone, Copy, PartialEq, Eq, Hash, Structural)]
pub enum ResponsesToolPairingClass {
    FunctionCallOutput,
    ToolSearchOutput,
    CustomToolCallOutput,
}

/// Which side of a tool call/result pair an item represents.
#[derive(Debug, Clone, Copy, PartialEq, Eq, Structural)]
pub enum HistoryToolSide {
    Call,
    Output,
}

/// Read-only correlation facts projected from one compatibility history item.
#[derive(Debug, Clone, Copy, PartialEq, Eq)]
pub struct HistoryToolCorrelation<'a> {
    /// Migration-only discriminator needed to pair the Responses-shaped variants.
    pub compatibility_pairing_class: ResponsesToolPairingClass,
    pub side: HistoryToolSide,
    pub call_id: &'a str,
    /// Some provider-owned outputs legitimately have no matching call in local history.
    pub local_counterpart_required: bool,
}

/// Correlation facts of an item: pairing class, side, call id, and whether a local counterpart
/// is required.
pub type CorrelationFacts = (ResponsesToolPairingClass, HistoryToolSide, Seq<char>, bool);

/// The correlation facts of a Responses item, for the variants that take part in pairing.
pub open spec fn spec_correlation(item: ResponseItem) -> Option<CorrelationFacts> {
    match item {
        ResponseItem::FunctionCall { call_id, .. } => Some(
            (ResponsesToolPairingClass::FunctionCallOutput, HistoryToolSide::Call, call_id@, true),
        ),
        ResponseItem::LocalShellCall { call_id: Some(call_id), .. } => Some(
            (ResponsesToolPairingClass::FunctionCallOutput, HistoryToolSide::Call, call_id@, true),
        ),
        ResponseItem::FunctionCallOutput { call_id: Some(call_id), .. } => Some(
            (ResponsesToolPairingClass::FunctionCallOutput, HistoryToolSide::Output, call_id@, true),
        ),
        ResponseItem::ToolSearchCall { call_id: Some(call_id), .. } => Some(
            (ResponsesToolPairingClass::ToolSearchOutput, HistoryToolSide::Call, call_id@, true),
        ),
        ResponseItem::ToolSearchOutput { call_id: Some(call_id), execution, .. } => Some(
            (ResponsesToolPairingClass::ToolSearchOutput, HistoryToolSide::Output, call_id@, execution@ != "server"@),
        ),
        ResponseItem::CustomToolCall { call_id, .. } => Some(
            (ResponsesToolPairingClass::CustomToolCallOutput, HistoryToolSide::Call, call_id@, true),
        ),
        ResponseItem::CustomToolCallOutput { call_id, .. } => Some(
            (ResponsesToolPairingClass::CustomToolCallOutput, HistoryToolSide::Output, call_id@, true),
        ),
        _ => None,
    }
}

/// Projects one compatibility item into the correlation facts used by normalization.
pub fn tool_correlation(item: &ResponseItem) -> (r: Option<HistoryToolCorrelation<'_>>)
    ensures
        match r {
            Some(c) => spec_correlation(*item) == Some(
                (c.compatibility_pairing_class, c.side, c.call_id@, c.local_counterpart_required),
            ),
            None => spec_correlation(*item) is None,
        },
{
    match item {
        ResponseItem::FunctionCall { call_id, .. } => Some(HistoryToolCorrelation {
            compatibility_pairing_class: ResponsesToolPairingClass::FunctionCallOutput,
            side: HistoryToolSide::Call,
            call_id: call_id.as_str(),
            local_counterpart_required: true,
        }),
        ResponseItem::LocalShellCall { call_id: Some(call_id), .. } => Some(HistoryToolCorrelation {
            compatibility_pairing_class: ResponsesToolPairingClass::FunctionCallOutput,
            side: HistoryToolSide::Call,
            call_id: call_id.as_str(),
            local_counterpart_required: true,
        }),
        ResponseItem::FunctionCallOutput { call_id: Some(call_id), .. } => Some(HistoryToolCorrelation {
            compatibility_pairing_class: ResponsesToolPairingClass::FunctionCallOutput,
            side: HistoryToolSide::Output,
            call_id: call_id.as_str(),
            local_counterpart_required: true,
        }),
        ResponseItem::ToolSearchCall { call_id: Some(call_id), .. } => Some(HistoryToolCorrelation {
            compatibility_pairing_class: ResponsesToolPairingClass::ToolSearchOutput,
            side: HistoryToolSide::Call,
            call_id: call_id.as_str(),
            local_counterpart_required: true,
        }),
        ResponseItem::ToolSearchOutput { call_id: Some(call_id), execution, .. } => Some(HistoryToolCorrelation {
            compatibility_pairing_class: ResponsesToolPairingClass::ToolSearchOutput,
            side: HistoryToolSide::Output,
            call_id: call_id.as_str(),
            local_counterpart_required: !str_eq(execution.as_str(), "server"),
        }),
        ResponseItem::CustomToolCall { call_id, .. } => Some(HistoryToolCorrelation {
            compatibility_pairing_class: ResponsesToolPairingClass::CustomToolCallOutput,
            side: HistoryToolSide::Call,
            call_id: call_id.as_str(),
            local_counterpart_required: true,
        }),
        ResponseItem::CustomToolCallOutput { call_id, .. } => Some(HistoryToolCorrelation {
            compatibility_pairing_class: ResponsesToolPairingClass::CustomToolCallOutput,
            side: HistoryToolSide::Output,
            call_id: call_id.as_str(),
            local_counterpart_required: true,
        }),
        _ => None,
    }
}

/// Whether an item is on the given side of a pair with the given class and call id.
pub open spec fn correlates(item: ResponseItem, side: HistoryToolSide, class: ResponsesToolPairingClass, call_id: Seq<char>) -> bool {
    spec_correlation(item) matches Some(c) && c.0 == class && c.1 == side && c.2 == call_id
}

/// Whether some item of `items` is on `side` of the pair `(class, call_id)`.
pub open spec fn has_correlated(items: Seq<ResponseItemEnvelope>, side: HistoryToolSide, class: ResponsesToolPairingClass, call_id: Seq<char>) -> bool {
    exists|i: int| 0 <= i < items.len() && correlates(#[trigger] items[i].item, side, class, call_id)
}

/// Whether `item` is a call whose output is absent from `items`.
pub open spec fn missing_output(items: Seq<ResponseItemEnvelope>, item: ResponseItem) -> bool {
    spec_correlation(item) matches Some(c) && c.1 == HistoryToolSide::Call
        && !has_correlated(items, HistoryToolSide::Output, c.0, c.2)
}

/// Whether an output payload is the synthetic "aborted" text of unknown status.
pub open spec fn is_aborted_output(output: FunctionCallOutputPayload) -> bool {
    &&& output.body matches FunctionCallOutputBody::Text(text) && text@ == "aborted"@
    &&& output.success is None
}

/// Whether `out` is the synthetic output normalization inserts after the unanswered `call`.
#[verifier::opaque]
pub open spec fn synthetic_output_matches(call: ResponseItemEnvelope, out: ResponseItemEnvelope) -> bool {
    &&& out.metadata is None
    &&& match call.item {
        ResponseItem::FunctionCall { id, call_id, .. } => match out.item {
            ResponseItem::FunctionCallOutput {
                id: out_id,
                call_id: Some(out_call_id),
                name: None,
                namespace: None,
                output,
                internal_chat_message_metadata_passthrough: None,
            } => opt_view(out_id) == spec_synthetic_output_id("fco"@, opt_view(id)) && out_call_id == call_id
                && is_aborted_output(output),
            _ => false,
        },
        ResponseItem::LocalShellCall { id, call_id: Some(call_id), .. } => match out.item {
            ResponseItem::FunctionCallOutput {
                id: out_id,
                call_id: Some(out_call_id),
                name: None,
                namespace: None,
                output,
                internal_chat_message_metadata_passthrough: None,
            } => opt_view(out_id) == spec_synthetic_output_id("fco"@, opt_view(id)) && out_call_id == call_id
                && is_aborted_output(output),
            _ => false,
        },
        ResponseItem::ToolSearchCall { id, call_id: Some(call_id), .. } => match out.item {
            ResponseItem::ToolSearchOutput {
                id: out_id,
                call_id: Some(out_call_id),
                status,
                execution,
                tools,
                internal_chat_message_metadata_passthrough: None,
            } => opt_view(out_id) == spec_synthetic_output_id("tso"@, opt_view(id)) && out_call_id == call_id
                && status@ == "completed"@ && execution@ == "client"@ && tools@.len() == 0,
            _ => false,
        },
        ResponseItem::CustomToolCall { id, call_id, .. } => match out.item {
            ResponseItem::CustomToolCallOutput {
                id: out_id,
                call_id: out_call_id,
                name: None,
                output,
                internal_chat_message_metadata_passthrough: None,
            } => opt_view(out_id) == spec_synthetic_output_id("ctco"@, opt_view(id)) && out_call_id == call_id
                && is_aborted_output(output),
            _ => false,
        },
        _ => false,
    }
}

/// Whether `new` is `old` with, directly after each call whose output is absent from `all`,
/// the synthetic output for that call.
pub open spec fn outputs_inserted(all: Seq<ResponseItemEnvelope>, old: Seq<ResponseItemEnvelope>, new: Seq<ResponseItemEnvelope>) -> bool
    decreases old.len(),
{
    if old.len() == 0 {
        new.len() == 0
    } else if missing_output(all, old.last().item) {
        &&& new.len() >= 2
        &&& new[new.len() - 2] == old.last()
        &&& synthetic_output_matches(old.last(), new.last())
        &&& outputs_inserted(all, old.drop_last(), new.subrange(0, new.len() - 2))
    } else {
        &&& new.len() >= 1
        &&& new.last() == old.last()
        &&& outputs_inserted(all, old.drop_last(), new.drop_last())
    }
}

/// Whether some output in `items` answers the pair `(class, call_id)`.
fn has_output(items: &Vec<ResponseItemEnvelope>, class: ResponsesToolPairingClass, call_id: &str) -> (r: bool)
    ensures
        r == has_correlated(items@, HistoryToolSide::Output, class, call_id@),
{
    let mut i: usize = 0;
    while i < items.len()
        invariant
            i <= items@.len(),
            forall|j: int| 0 <= j < i ==> !correlates(#[trigger] items@[j].item, HistoryToolSide::Output, class, call_id@),
        decreases items.len() - i,
    {
        match tool_correlation(&items[i].item) {
            Some(c) => {
                if c.side == HistoryToolSide::Output && c.compatibility_pairing_class == class && str_eq(c.call_id, call_id) {
                    assert(correlates(items@[i as int].item, HistoryToolSide::Output, class, call_id@));
                    return true;
                }
            },
            None => {},
        }
        i += 1;
    }
    false
}

/// The synthetic output for an unanswered call.
fn synthetic_output_for(call: &ResponseItemEnvelope) -> (r: ResponseItemEnvelope)
    requires
        spec_correlation(call.item) matches Some(c) && c.1 == HistoryToolSide::Call,
    ensures
        synthetic_output_matches(*call, r),
{
    reveal(synthetic_output_matches);
    let item = match &call.item {
        ResponseItem::FunctionCall { id, call_id, .. } => ResponseItem::FunctionCallOutput {
            id: synthetic_output_id("fco", id.as_ref()),
            call_id: Some(call_id.clone()),
            name: None,
            namespace: None,
            output: FunctionCallOutputPayload::from_text("aborted".to_owned()),
            internal_chat_message_metadata_passthrough: None,
        },
        ResponseItem::ToolSearchCall { id, call_id: Some(call_id), .. } => ResponseItem::ToolSearchOutput {
            id: synthetic_output_id("tso", id.as_ref()),
            call_id: Some(call_id.clone()),
            status: "completed".to_owned(),
            execution: "client".to_owned(),
            tools: Vec::new(),
            internal_chat_message_metadata_passthrough: None,
        },
        ResponseItem::CustomToolCall { id, call_id, .. } => ResponseItem::CustomToolCallOutput {
            id: synthetic_output_id("ctco", id.as_ref()),
            call_id: call_id.clone(),
            name: None,
            output: FunctionCallOutputPayload::from_text("aborted".to_owned()),
            internal_chat_message_metadata_passthrough: None,
        },
        ResponseItem::LocalShellCall { id, call_id: Some(call_id), .. } => ResponseItem::FunctionCallOutput {
            id: synthetic_output_id("fco", id.as_ref()),
            call_id: Some(call_id.clone()),
            name: None,
            namespace: None,
            output: FunctionCallOutputPayload::from_text("aborted".to_owned()),
            internal_chat_message_metadata_passthrough: None,
        },
        _ => {
            assert(false);
            ResponseItem::Other
        },
    };
    HistoryEnvelope::new(item)
}

/// Inserts, directly after every tool call whose output is missing from the history, a
/// synthetic "aborted" output for that call, so that every call is answered.
pub fn ensure_call_outputs_present(items: &mut Vec<ResponseItemEnvelope>)
    ensures
        outputs_inserted(old(items)@, old(items)@, final(items)@),
{
    let ghost all = items@;
    let mut missing: Vec<bool> = Vec::new();
    let mut i: usize = 0;
    while i < items.len()
        invariant
            items@ == all,
            i <= all.len(),
            missing@.len() == i,
            forall|j: int| 0 <= j < i ==> missing@[j] == missing_output(all, #[trigger] all[j].item),
        decreases items.len() - i,
    {
        let flag = match tool_correlation(&items[i].item) {
            Some(c) => c.side == HistoryToolSide::Call && !has_output(items, c.compatibility_pairing_class, c.call_id),
            None => false,
        };
        missing.push(flag);
        i += 1;
    }
    let mut source: Vec<ResponseItemEnvelope> = Vec::new();
    std::mem::swap(&mut source, items);
    let mut out: Vec<ResponseItemEnvelope> = Vec::new();
    let mut k: usize = 0;
    for envelope in it: source
        invariant
            it.seq() == all,
            k == it.index(),
            k <= all.len(),
            missing@.len() == all.len(),
            forall|j: int| 0 <= j < all.len() ==> missing@[j] == missing_output(all, #[trigger] all[j].item),
            outputs_inserted(all, all.subrange(0, k as int), out@),
    {
        let ghost before = out@;
        assert(k < all.len());
        assert(k < missing.len());
        proof {
            assert(all.subrange(0, k + 1).drop_last() =~= all.subrange(0, k as int));
            assert(all.subrange(0, k + 1).last() == all[k as int]);
        }
        if missing[k] {
            let synthetic = synthetic_output_for(&envelope);
            out.push(envelope);
            out.push(synthetic);
            assert(out@.subrange(0, out@.len() - 2) =~= before);
        } else {
            out.push(envelope);
            assert(out@.drop_last() =~= before);
        }
        k += 1;
    }
    assert(all.subrange(0, all.len() as int) =~= all);
    *items = out;
}

/// Whether `item` is an output whose required local call is absent from `items`.
pub open spec fn is_orphan_output(items: Seq<ResponseItemEnvelope>, item: ResponseItem) -> bool {
    spec_correlation(item) matches Some(c) && c.1 == HistoryToolSide::Output && c.3
        && !has_correlated(items, HistoryToolSide::Call, c.0, c.2)
}

/// Whether some call in `items` opens the pair `(class, call_id)`.
fn has_call(items: &Vec<ResponseItemEnvelope>, class: ResponsesToolPairingClass, call_id: &str) -> (r: bool)
    ensures
        r == has_correlated(items@, HistoryToolSide::Call, class, call_id@),
{
    let mut i: usize = 0;
    while i < items.len()
        invariant
            i <= items@.len(),
            forall|j: int| 0 <= j < i ==> !correlates(#[trigger] items@[j].item, HistoryToolSide::Call, class, call_id@),
        decreases items.len() - i,
    {
        match tool_correlation(&items[i].item) {
            Some(c) => {
                if c.side == HistoryToolSide::Call && c.compatibility_pairing_class == class && str_eq(c.call_id, call_id) {
                    assert(correlates(items@[i as int].item, HistoryToolSide::Call, class, call_id@));
                    return true;
                }
            },
            None => {},
        }
        i += 1;
    }
    false
}

/// Removes every output whose required local call is missing from the history; items keep
/// their relative order.
pub fn remove_orphan_outputs(items: &mut Vec<ResponseItemEnvelope>)
    ensures
        final(items)@ == old(items)@.filter(|e: ResponseItemEnvelope| !is_orphan_output(old(items)@, e.item)),
{
    let ghost all = items@;
    let ghost keep = |e: ResponseItemEnvelope| !is_orphan_output(all, e.item);
    let mut orphan: Vec<bool> = Vec::new();
    let mut i: usize = 0;
    while i < items.len()
        invariant
            items@ == all,
            i <= all.len(),
            orphan@.len() == i,
            forall|j: int| 0 <= j < i ==> orphan@[j] == is_orphan_output(all, #[trigger] all[j].item),
        decreases items.len() - i,
    {
        let flag = match tool_correlation(&items[i].item) {
            Some(c) => c.side == HistoryToolSide::Output && c.local_counterpart_required
                && !has_call(items, c.compatibility_pairing_class, c.call_id),
            None => false,
        };
        orphan.push(flag);
        i += 1;
    }
    let mut source: Vec<ResponseItemEnvelope> = Vec::new();
    std::mem::swap(&mut source, items);
    let mut out: Vec<ResponseItemEnvelope> = Vec::new();
    let mut k: usize = 0;
    for envelope in it: source
        invariant
            it.seq() == all,
            k == it.index(),
            k <= all.len(),
            orphan@.len() == all.len(),
            forall|j: int| 0 <= j < all.len() ==> orphan@[j] == is_orphan_output(all, #[trigger] all[j].item),
            keep == (|e: ResponseItemEnvelope| !is_orphan_output(all, e.item)),
            out@ == all.subrange(0, k as int).filter(keep),
    {
        assert(k < all.len());
        assert(k < orphan.len());
        let ghost before = out@;
        let ghost next = all.subrange(0, k + 1);
        proof {
            assert(next.drop_last() =~= all.subrange(0, k as int));
            assert(next.last() == all[k as int]);
            reveal(Seq::filter);
            assert(next.filter(keep) == (if keep(all[k as int]) { before.push(all[k as int]) } else { before }));
            assert(orphan@[k as int] == is_orphan_output(all, all[k as int].item));
            assert(keep(all[k as int]) == !orphan@[k as int]);
        }
        if !orphan[k] {
            out.push(envelope);
        }
        assert(out@ == next.filter(keep));
        k += 1;
    }
    assert(all.subrange(0, all.len() as int) =~= all);
    *items = out;
}

/// Whether `new` is `old` without its first item satisfying `pred`, or `old` itself when no
/// item satisfies it.
pub open spec fn removed_first(old: Seq<ResponseItemEnvelope>, new: Seq<ResponseItemEnvelope>, pred: spec_fn(ResponseItemEnvelope) -> bool) -> bool {
    if exists|i: int| 0 <= i < old.len() && pred(#[trigger] old[i]) {
        exists|i: int| {
            &&& 0 <= i < old.len()
            &&& pred(#[trigger] old[i])
            &&& forall|j: int| 0 <= j < i ==> !pred(#[trigger] old[j])
            &&& new == old.remove(i)
        }
    } else {
        new == old
    }
}

/// Whether an item is a function call with the given call id.
pub open spec fn is_function_call_with(e: ResponseItemEnvelope, call_id: Seq<char>) -> bool {
    e.item matches ResponseItem::FunctionCall { call_id: existing, .. } && existing@ == call_id
}

/// Whether an item is a local shell call with the given call id.
pub open spec fn is_local_shell_call_with(e: ResponseItemEnvelope, call_id: Seq<char>) -> bool {
    e.item matches ResponseItem::LocalShellCall { call_id: Some(existing), .. } && existing@ == call_id
}

/// The other side of a pair.
pub open spec fn counterpart(side: HistoryToolSide) -> HistoryToolSide {
    match side {
        HistoryToolSide::Call => HistoryToolSide::Output,
        HistoryToolSide::Output => HistoryToolSide::Call,
    }
}

/// What removing the counterpart of `item` does to a history.
pub open spec fn corresponding_removed(old: Seq<ResponseItemEnvelope>, new: Seq<ResponseItemEnvelope>, item: ResponseItem) -> bool {
    match spec_correlation(item) {
        None => new == old,
        Some(c) => match item {
            ResponseItem::FunctionCallOutput { call_id: Some(call_id), .. } => {
                if exists|i: int| 0 <= i < old.len() && is_function_call_with(#[trigger] old[i], call_id@) {
                    removed_first(old, new, |e: ResponseItemEnvelope| is_function_call_with(e, call_id@))
                } else {
                    removed_first(old, new, |e: ResponseItemEnvelope| is_local_shell_call_with(e, call_id@))
                }
            },
            _ => removed_first(old, new, |e: ResponseItemEnvelope| correlates(e.item, counterpart(c.1), c.0, c.2)),
        },
    }
}

/// Position of the first item satisfying `pred`, or `None`.
fn first_position_function_call(items: &Vec<ResponseItemEnvelope>, call_id: &str) -> (r: Option<usize>)
    ensures
        match r {
            Some(i) => i < items@.len() && is_function_call_with(items@[i as int], call_id@)
                && forall|j: int| 0 <= j < i ==> !is_function_call_with(#[trigger] items@[j], call_id@),
            None => forall|j: int| 0 <= j < items@.len() ==> !is_function_call_with(#[trigger] items@[j], call_id@),
        },
{
    let mut i: usize = 0;
    while i < items.len()
        invariant
            i <= items@.len(),
            forall|j: int| 0 <= j < i ==> !is_function_call_with(#[trigger] items@[j], call_id@),
        decreases items.len() - i,
    {
        if let ResponseItem::FunctionCall { call_id: existing, .. } = &items[i].item {
            if str_eq(existing.as_str(), call_id) {
                return Some(i);
            }
        }
        i += 1;
    }
    None
}

fn first_position_local_shell_call(items: &Vec<ResponseItemEnvelope>, call_id: &str) -> (r: Option<usize>)
    ensures
        match r {
            Some(i) => i < items@.len() && is_local_shell_call_with(items@[i as int], call_id@)
                && forall|j: int| 0 <= j < i ==> !is_local_shell_call_with(#[trigger] items@[j], call_id@),
            None => forall|j: int| 0 <= j < items@.len() ==> !is_local_shell_call_with(#[trigger] items@[j], call_id@),
        },
{
    let mut i: usize = 0;
    while i < items.len()
        invariant
            i <= items@.len(),
            forall|j: int| 0 <= j < i ==> !is_local_shell_call_with(#[trigger] items@[j], call_id@),
        decreases items.len() - i,
    {
        if let ResponseItem::LocalShellCall { call_id: Some(existing), .. } = &items[i].item {
            if str_eq(existing.as_str(), call_id) {
                return Some(i);
            }
        }
        i += 1;
    }
    None
}

fn first_position_correlated(
    items: &Vec<ResponseItemEnvelope>,
    side: HistoryToolSide,
    class: ResponsesToolPairingClass,
    call_id: &str,
) -> (r: Option<usize>)
    ensures
        match r {
            Some(i) => i < items@.len() && correlates(items@[i as int].item, side, class, call_id@)
                && forall|j: int| 0 <= j < i ==> !correlates(#[trigger] items@[j].item, side, class, call_id@),
            None => forall|j: int| 0 <= j < items@.len() ==> !correlates(#[trigger] items@[j].item, side, class, call_id@),
        },
{
    let mut i: usize = 0;
    while i < items.len()
        invariant
            i <= items@.len(),
            forall|j: int| 0 <= j < i ==> !correlates(#[trigger] items@[j].item, side, class, call_id@),
        decreases items.len() - i,
    {
        match tool_correlation(&items[i].item) {
            Some(c) => {
                if c.side == side && c.compatibility_pairing_class == class && str_eq(c.call_id, call_id) {
                    return Some(i);
                }
            },
            None => {},
        }
        i += 1;
    }
    None
}

/// Removes the counterpart of `item` from the history: the first output of a call, or the
/// first call of an output. A function output prefers a function call over a local shell call
/// with the same call id.
pub fn remove_corresponding_for(items: &mut Vec<ResponseItemEnvelope>, item: &ResponseItem)
    ensures
        corresponding_removed(old(items)@, final(items)@, *item),
{
    let correlation = match tool_correlation(item) {
        Some(c) => c,
        None => return,
    };
    let counterpart_side = match correlation.side {
        HistoryToolSide::Call => HistoryToolSide::Output,
        HistoryToolSide::Output => HistoryToolSide::Call,
    };
    if let ResponseItem::FunctionCallOutput { call_id: Some(call_id), .. } = item {
        match first_position_function_call(items, call_id.as_str()) {
            Some(pos) => {
                items.remove(pos);
                return;
            },
            None => {},
        }
        match first_position_local_shell_call(items, call_id.as_str()) {
            Some(pos) => {
                items.remove(pos);
            },
            None => {},
        }
        return;
    }
    match first_position_correlated(items, counterpart_side, correlation.compatibility_pairing_class, correlation.call_id) {
        Some(pos) => {
            items.remove(pos);
        },
        None => {},
    }
}

/// After `remove_orphan_outputs`, every output that requires a local call has one in the
/// history.
pub proof fn lemma_no_orphan_outputs_remain(old: Seq<ResponseItemEnvelope>, new: Seq<ResponseItemEnvelope>)
    requires
        new == old.filter(|e: ResponseItemEnvelope| !is_orphan_output(old, e.item)),
    ensures
        forall|j: int| #![trigger new[j]]
            0 <= j < new.len() && (spec_correlation(new[j].item) matches Some(c) && c.1 == HistoryToolSide::Output && c.3)
                ==> has_correlated(new, HistoryToolSide::Call, spec_correlation(new[j].item).unwrap().0, spec_correlation(new[j].item).unwrap().2),
{
    let keep = |e: ResponseItemEnvelope| !is_orphan_output(old, e.item);
    broadcast use vstd::seq_lib::group_filter_ensures;
    assert forall|j: int| #![trigger new[j]]
        0 <= j < new.len() && (spec_correlation(new[j].item) matches Some(c) && c.1 == HistoryToolSide::Output && c.3)
            implies has_correlated(new, HistoryToolSide::Call, spec_correlation(new[j].item).unwrap().0, spec_correlation(new[j].item).unwrap().2) by {
        let c = spec_correlation(new[j].item).unwrap();
        assert(keep(new[j]));
        let i = choose|i: int| 0 <= i < old.len() && correlates(#[trigger] old[i].item, HistoryToolSide::Call, c.0, c.2);
        assert(keep(old[i]));
        assert(new.contains(old[i]));
        let k = choose|k: int| 0 <= k < new.len() && new[k] == old[i];
        assert(correlates(new[k].item, HistoryToolSide::Call, c.0, c.2));
    }
}

/// A synthetic output answers the call it was made for.
proof fn lemma_synthetic_answers(call: ResponseItemEnvelope, out: ResponseItemEnvelope)
    requires
        synthetic_output_matches(call, out),
    ensures
        spec_correlation(call.item) matches Some(c) && correlates(out.item, HistoryToolSide::Output, c.0, c.2)
            && c.1 == HistoryToolSide::Call,
        !(spec_correlation(out.item) matches Some(c) && c.1 == HistoryToolSide::Call),
{
    reveal(synthetic_output_matches);
    reveal_strlit("client");
    reveal_strlit("server");
}

/// Whether an item is the call side of a tool pair.
pub open spec fn is_call_item(item: ResponseItem) -> bool {
    spec_correlation(item) matches Some(c) && c.1 == HistoryToolSide::Call
}

/// Normalization keeps every item it was given.
proof fn lemma_outputs_inserted_keeps(all: Seq<ResponseItemEnvelope>, old: Seq<ResponseItemEnvelope>, new: Seq<ResponseItemEnvelope>)
    requires
        outputs_inserted(all, old, new),
    ensures
        forall|i: int| 0 <= i < old.len() ==> new.contains(#[trigger] old[i]),
    decreases old.len(),
{
    if old.len() > 0 {
        let prev_old = old.drop_last();
        let prev_new = if missing_output(all, old.last().item) {
            new.subrange(0, new.len() - 2)
        } else {
            new.drop_last()
        };
        lemma_outputs_inserted_keeps(all, prev_old, prev_new);
        assert forall|i: int| 0 <= i < old.len() implies new.contains(#[trigger] old[i]) by {
            if i == old.len() - 1 {
                if missing_output(all, old.last().item) {
                    assert(new[new.len() - 2] == old[i]);
                } else {
                    assert(new[new.len() - 1] == old[i]);
                }
            } else {
                assert(prev_old[i] == old[i]);
                assert(prev_new.contains(prev_old[i]));
                let j = choose|j: int| 0 <= j < prev_new.len() && prev_new[j] == prev_old[i];
                assert(new[j] == prev_new[j]);
            }
        }
    }
}

/// In a normalized sequence every call is either answered within the sequence, or is a
/// given item whose output already existed in `all`.
proof fn lemma_outputs_inserted_calls(all: Seq<ResponseItemEnvelope>, old: Seq<ResponseItemEnvelope>, new: Seq<ResponseItemEnvelope>)
    requires
        outputs_inserted(all, old, new),
    ensures
        forall|j: int| #![trigger new[j]] 0 <= j < new.len() && is_call_item(new[j].item) ==> {
            ||| !missing_output(all, new[j].item)
            ||| has_correlated(new, HistoryToolSide::Output, spec_correlation(new[j].item).unwrap().0, spec_correlation(new[j].item).unwrap().2)
        },
    decreases old.len(),
{
    if old.len() > 0 {
        let prev_old = old.drop_last();
        if missing_output(all, old.last().item) {
            let prev_new = new.subrange(0, new.len() - 2);
            lemma_outputs_inserted_calls(all, prev_old, prev_new);
            lemma_synthetic_answers(new[new.len() - 2], new[new.len() - 1]);
            assert forall|j: int| #![trigger new[j]] 0 <= j < new.len() && is_call_item(new[j].item) implies {
                ||| !missing_output(all, new[j].item)
                ||| has_correlated(new, HistoryToolSide::Output, spec_correlation(new[j].item).unwrap().0, spec_correlation(new[j].item).unwrap().2)
            } by {
                let c = spec_correlation(new[j].item).unwrap();
                if j == new.len() - 2 {
                    assert(correlates(new[new.len() - 1].item, HistoryToolSide::Output, c.0, c.2));
                } else if j < new.len() - 2 {
                    assert(prev_new[j] == new[j]);
                    if has_correlated(prev_new, HistoryToolSide::Output, c.0, c.2) {
                        let k = choose|k: int| 0 <= k < prev_new.len() && correlates(#[trigger] prev_new[k].item, HistoryToolSide::Output, c.0, c.2);
                        assert(new[k] == prev_new[k]);
                    }
                }
            }
        } else {
            let prev_new = new.drop_last();
            lemma_outputs_inserted_calls(all, prev_old, prev_new);
            assert forall|j: int| #![trigger new[j]] 0 <= j < new.len() && is_call_item(new[j].item) implies {
                ||| !missing_output(all, new[j].item)
                ||| has_correlated(new, HistoryToolSide::Output, spec_correlation(new[j].item).unwrap().0, spec_correlation(new[j].item).unwrap().2)
            } by {
                let c = spec_correlation(new[j].item).unwrap();
                if j < new.len() - 1 {
                    assert(prev_new[j] == new[j]);
                    if has_correlated(prev_new, HistoryToolSide::Output, c.0, c.2) {
                        let k = choose|k: int| 0 <= k < prev_new.len() && correlates(#[trigger] prev_new[k].item, HistoryToolSide::Output, c.0, c.2);
                        assert(new[k] == prev_new[k]);
                    }
                }
            }
        }
    }
}

/// After `ensure_call_outputs_present`, every tool call in the history is answered by an
/// output with the same pairing class and call id, and every given item is still present.
pub proof fn lemma_normalized_calls_are_answered(old: Seq<ResponseItemEnvelope>, new: Seq<ResponseItemEnvelope>)
    requires
        outputs_inserted(old, old, new),
    ensures
        forall|j: int| #![trigger new[j]] 0 <= j < new.len() && is_call_item(new[j].item)
            ==> has_correlated(new, HistoryToolSide::Output, spec_correlation(new[j].item).unwrap().0, spec_correlation(new[j].item).unwrap().2),
        forall|i: int| 0 <= i < old.len() ==> new.contains(#[trigger] old[i]),
{
    lemma_outputs_inserted_keeps(old, old, new);
    lemma_outputs_inserted_calls(old, old, new);
    assert forall|j: int| #![trigger new[j]] 0 <= j < new.len() && is_call_item(new[j].item)
        implies has_correlated(new, HistoryToolSide::Output, spec_correlation(new[j].item).unwrap().0, spec_correlation(new[j].item).unwrap().2) by {
        let c = spec_correlation(new[j].item).unwrap();
        if !missing_output(old, new[j].item) {
            let i2 = choose|i: int| 0 <= i < old.len() && correlates(#[trigger] old[i].item, HistoryToolSide::Output, c.0, c.2);
            assert(new.contains(old[i2]));
            let j2 = choose|j2: int| 0 <= j2 < new.len() && new[j2] == old[i2];
            assert(correlates(new[j2].item, HistoryToolSide::Output, c.0, c.2));
        }
    }
}

/// When no item of `old` is a call with a missing output, nothing is inserted.
proof fn lemma_outputs_inserted_nothing_missing(all: Seq<ResponseItemEnvelope>, old: Seq<ResponseItemEnvelope>, new: Seq<ResponseItemEnvelope>)
    requires
        outputs_inserted(all, old, new),
        forall|i: int| 0 <= i < old.len() ==> !missing_output(all, #[trigger] old[i].item),
    ensures
        new == old,
    decreases old.len(),
{
    if old.len() > 0 {
        assert(!missing_output(all, old[old.len() - 1].item));
        let prev_old = old.drop_last();
        assert forall|i: int| 0 <= i < prev_old.len() implies !missing_output(all, #[trigger] prev_old[i].item) by {
            assert(prev_old[i] == old[i]);
        }
        lemma_outputs_inserted_nothing_missing(all, prev_old, new.drop_last());
        assert(new =~= new.drop_last().push(new.last()));
        assert(old =~= prev_old.push(old.last()));
    } else {
        assert(new =~= old);
    }
}

/// Ensuring call outputs is idempotent: running `ensure_call_outputs_present` on a history
/// it has already normalized changes nothing.
pub proof fn lemma_ensure_call_outputs_idempotent(old: Seq<ResponseItemEnvelope>, once: Seq<ResponseItemEnvelope>, twice: Seq<ResponseItemEnvelope>)
    requires
        outputs_inserted(old, old, once),
        outputs_inserted(once, once, twice),
    ensures
        twice == once,
{
    lemma_normalized_calls_are_answered(old, once);
    assert forall|i: int| 0 <= i < once.len() implies !missing_output(once, #[trigger] once[i].item) by {
        if is_call_item(once[i].item) {
            assert(has_correlated(once, HistoryToolSide::Output, spec_correlation(once[i].item).unwrap().0, spec_correlation(once[i].item).unwrap().2));
        }
    }
    lemma_outputs_inserted_nothing_missing(once, once, twice);
}

/// Whether `items` holds a custom tool call with call id `call_id`.
pub open spec fn has_custom_call(items: Seq<ResponseItemEnvelope>, call_id: Seq<char>) -> bool {
    exists|k: int| 0 <= k < items.len() && (#[trigger] items[k].item matches ResponseItem::CustomToolCall { call_id: c, .. } && c@ == call_id)
}

/// Whether `items` holds a function call or a local shell call with call id `call_id`.
pub open spec fn has_function_or_shell_call(items: Seq<ResponseItemEnvelope>, call_id: Seq<char>) -> bool {
    exists|k: int| 0 <= k < items.len() && {
        ||| (#[trigger] items[k].item matches ResponseItem::FunctionCall { call_id: c, .. } && c@ == call_id)
        ||| (items[k].item matches ResponseItem::LocalShellCall { call_id: Some(c), .. } && c@ == call_id)
    }
}

/// Whether `items` holds a tool-search call with call id `call_id`.
pub open spec fn has_tool_search_call(items: Seq<ResponseItemEnvelope>, call_id: Seq<char>) -> bool {
    exists|k: int| 0 <= k < items.len() && (#[trigger] items[k].item matches ResponseItem::ToolSearchCall { call_id: Some(c), .. } && c@ == call_id)
}

/// After orphan outputs are removed, every remaining tool output has its call: a custom tool
/// output has a custom tool call with its call id, a function output with a call id has a
/// function or local shell call with that id, and a client-side tool-search output has its
/// tool-search call. Tool calls are never removed.
pub proof fn lemma_remaining_outputs_have_their_calls(old: Seq<ResponseItemEnvelope>, new: Seq<ResponseItemEnvelope>)
    requires
        new == old.filter(|e: ResponseItemEnvelope| !is_orphan_output(old, e.item)),
    ensures
        forall|j: int| 0 <= j < new.len() && new[j].item is CustomToolCallOutput
            ==> #[trigger] has_custom_call(new, new[j].item->CustomToolCallOutput_call_id@),
        forall|j: int| 0 <= j < new.len() && (new[j].item matches ResponseItem::FunctionCallOutput { call_id: Some(_), .. })
            ==> #[trigger] has_function_or_shell_call(new, new[j].item->FunctionCallOutput_call_id->Some_0@),
        forall|j: int| 0 <= j < new.len() && (new[j].item matches ResponseItem::ToolSearchOutput { call_id: Some(_), execution, .. } && execution@ != "server"@)
            ==> #[trigger] has_tool_search_call(new, new[j].item->ToolSearchOutput_call_id->Some_0@),
        forall|i: int| 0 <= i < old.len() && (old[i].item is FunctionCall || old[i].item is CustomToolCall
            || old[i].item is LocalShellCall || old[i].item is ToolSearchCall) ==> new.contains(#[trigger] old[i]),
{
    lemma_no_orphan_outputs_remain(old, new);
    broadcast use vstd::seq_lib::group_filter_ensures;
    let keep = |e: ResponseItemEnvelope| !is_orphan_output(old, e.item);
    assert forall|j: int| 0 <= j < new.len() && new[j].item is CustomToolCallOutput
        implies #[trigger] has_custom_call(new, new[j].item->CustomToolCallOutput_call_id@) by {
        let c = spec_correlation(new[j].item).unwrap();
        assert(has_correlated(new, HistoryToolSide::Call, c.0, c.2));
        let k = choose|k: int| 0 <= k < new.len() && correlates(#[trigger] new[k].item, HistoryToolSide::Call, c.0, c.2);
        assert(new[k].item matches ResponseItem::CustomToolCall { call_id: x, .. } && x@ == c.2);
    }
    assert forall|j: int| 0 <= j < new.len() && (new[j].item matches ResponseItem::FunctionCallOutput { call_id: Some(_), .. })
        implies #[trigger] has_function_or_shell_call(new, new[j].item->FunctionCallOutput_call_id->Some_0@) by {
        let c = spec_correlation(new[j].item).unwrap();
        assert(has_correlated(new, HistoryToolSide::Call, c.0, c.2));
        let k = choose|k: int| 0 <= k < new.len() && correlates(#[trigger] new[k].item, HistoryToolSide::Call, c.0, c.2);
        assert(new[k].item is FunctionCall || new[k].item is LocalShellCall);
    }
    assert forall|j: int| 0 <= j < new.len() && (new[j].item matches ResponseItem::ToolSearchOutput { call_id: Some(_), execution, .. } && execution@ != "server"@)
        implies #[trigger] has_tool_search_call(new, new[j].item->ToolSearchOutput_call_id->Some_0@) by {
        let c = spec_correlation(new[j].item).unwrap();
        assert(has_correlated(new, HistoryToolSide::Call, c.0, c.2));
        let k = choose|k: int| 0 <= k < new.len() && correlates(#[trigger] new[k].item, HistoryToolSide::Call, c.0, c.2);
        assert(new[k].item is ToolSearchCall);
    }
    assert forall|i: int| 0 <= i < old.len() && (old[i].item is FunctionCall || old[i].item is CustomToolCall
        || old[i].item is LocalShellCall || old[i].item is ToolSearchCall) implies new.contains(#[trigger] old[i]) by {
        assert(keep(old[i]));
    }
}

/// Whether `items` holds a custom tool output with call id `call_id`.
pub open spec fn has_custom_output(items: Seq<ResponseItemEnvelope>, call_id: Seq<char>) -> bool {
    exists|k: int| 0 <= k < items.len() && (#[trigger] items[k].item matches ResponseItem::CustomToolCallOutput { call_id: c, .. } && c@ == call_id)
}

/// Whether `items` holds a function output with call id `call_id`.
pub open spec fn has_function_output(items: Seq<ResponseItemEnvelope>, call_id: Seq<char>) -> bool {
    exists|k: int| 0 <= k < items.len() && (#[trigger] items[k].item matches ResponseItem::FunctionCallOutput { call_id: Some(c), .. } && c@ == call_id)
}

/// Whether `items` holds a tool-search output with call id `call_id`.
pub open spec fn has_tool_search_output(items: Seq<ResponseItemEnvelope>, call_id: Seq<char>) -> bool {
    exists|k: int| 0 <= k < items.len() && (#[trigger] items[k].item matches ResponseItem::ToolSearchOutput { call_id: Some(c), .. } && c@ == call_id)
}

/// After call outputs are ensured, every tool call is answered by the output of its own kind: a
/// function call by a function output with its call id, a custom tool call by a custom tool
/// output, and a tool-search call by a tool-search output.
pub proof fn lemma_calls_answered_by_their_own_kind(old: Seq<ResponseItemEnvelope>, new: Seq<ResponseItemEnvelope>)
    requires
        outputs_inserted(old, old, new),
    ensures
        forall|j: int| 0 <= j < new.len() && new[j].item is CustomToolCall
            ==> #[trigger] has_custom_output(new, new[j].item->CustomToolCall_call_id@),
        forall|j: int| 0 <= j < new.len() && new[j].item is FunctionCall
            ==> #[trigger] has_function_output(new, new[j].item->FunctionCall_call_id@),
        forall|j: int| 0 <= j < new.len() && (new[j].item matches ResponseItem::ToolSearchCall { call_id: Some(_), .. })
            ==> #[trigger] has_tool_search_output(new, new[j].item->ToolSearchCall_call_id->Some_0@),
{
    lemma_normalized_calls_are_answered(old, new);
    assert forall|j: int| 0 <= j < new.len() && new[j].item is CustomToolCall
        implies #[trigger] has_custom_output(new, new[j].item->CustomToolCall_call_id@) by {
        assert(is_call_item(new[j].item));
        let c = spec_correlation(new[j].item).unwrap();
        let k = choose|k: int| 0 <= k < new.len() && correlates(#[trigger] new[k].item, HistoryToolSide::Output, c.0, c.2);
        assert(new[k].item matches ResponseItem::CustomToolCallOutput { call_id: x, .. } && x@ == c.2);
    }
    assert forall|j: int| 0 <= j < new.len() && new[j].item is FunctionCall
        implies #[trigger] has_function_output(new, new[j].item->FunctionCall_call_id@) by {
        assert(is_call_item(new[j].item));
        let c = spec_correlation(new[j].item).unwrap();
        let k = choose|k: int| 0 <= k < new.len() && correlates(#[trigger] new[k].item, HistoryToolSide::Output, c.0, c.2);
        assert(new[k].item matches ResponseItem::FunctionCallOutput { call_id: Some(x), .. } && x@ == c.2);
    }
    assert forall|j: int| 0 <= j < new.len() && (new[j].item matches ResponseItem::ToolSearchCall { call_id: Some(_), .. })
        implies #[trigger] has_tool_search_output(new, new[j].item->ToolSearchCall_call_id->Some_0@) by {
        assert(is_call_item(new[j].item));
        let c = spec_correlation(new[j].item).unwrap();
        let k = choose|k: int| 0 <= k < new.len() && correlates(#[trigger] new[k].item, HistoryToolSide::Output, c.0, c.2);
        assert(new[k].item matches ResponseItem::ToolSearchOutput { call_id: Some(x), .. } && x@ == c.2);
    }
}

} // verus!
