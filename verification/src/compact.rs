//! Compacting a request's history: the plan, the summarizer's input, the
//! summary node and the new history. What lies between these steps, the
//! summarizer's call and the rendering of the node, is done by the caller.

use vstd::prelude::*;
use vstd::string::*;
use crate::abridge::{
    abridged_entries, build_abridged_history_text, dropped_entries, find_request, first_with_id,
    head_until, lemma_first_with_id, transcript,
};
use crate::cache::{
    fresh_state, fresh_summary, HistorySummaryCache, RollingSummaryState, RollingSummaryStateView,
};
use crate::config::{Config, HistorySummaryConfig};
use crate::nodes::{
    build_summary_text_node, contains_summary, exchange_request_nodes, exchange_response_nodes,
    history_contains_summary, request_side, response_side, slice_of, summary_text_node,
};
use crate::protocol::{
    AugmentChatHistory, AugmentChatHistoryView, AugmentRequest, AugmentRequestView, NodeIn,
    NodeInView,
};
use crate::size::{clip, estimate_history_size_chars, history_size};
use crate::split::{
    adjust_tail_to_avoid_tool_result_orphans, adjusted_start, clone_range, find_split_point,
    split_point,
};
use crate::summarizer::{found_provider, get_byok_provider_by_id, ProviderError, SummaryProviderRef};
use crate::text::{
    byte_len, decimal, decimal_string, is_blank, lemma_trimmed_empty, str_is_blank, text_eq, trim,
    trimmed, utf8_len,
};
use crate::trigger::{context_window, evaluate_trigger, trigger_decision, TriggerDecision};

verus! {

/// Where a history is cut, and what stands for the part that is cut off.
#[derive(Debug)]
pub struct CompactionPlan {
    /// The conversation, by its trimmed identifier.
    pub conversation_id: String,
    /// The trigger's decision that led to the plan.
    pub trigger: TriggerDecision,
    /// The index of the first exchange that is kept.
    pub tail_start: usize,
    /// The identifier of the first exchange that is kept.
    pub boundary_request_id: String,
    /// The abridged transcript of what comes before the boundary.
    pub abridged_history_text: String,
    /// The entries that the transcript leaves out at its beginning.
    pub num_dropped_in_beginning: usize,
}

/// The value of a [`CompactionPlan`].
pub struct CompactionPlanView {
    pub conversation_id: Seq<char>,
    pub trigger: TriggerDecision,
    pub tail_start: usize,
    pub boundary_request_id: Seq<char>,
    pub abridged_history_text: Seq<char>,
    pub num_dropped_in_beginning: usize,
}

impl DeepView for CompactionPlan {
    type V = CompactionPlanView;

    open spec fn deep_view(&self) -> CompactionPlanView {
        CompactionPlanView {
            conversation_id: self.conversation_id@,
            trigger: self.trigger,
            tail_start: self.tail_start,
            boundary_request_id: self.boundary_request_id@,
            abridged_history_text: self.abridged_history_text@,
            num_dropped_in_beginning: self.num_dropped_in_beginning,
        }
    }
}

impl View for CompactionPlan {
    type V = CompactionPlanView;

    open spec fn view(&self) -> CompactionPlanView {
        self.deep_view()
    }
}

/// The conversation that a request belongs to: its identifier, trimmed;
/// the empty text where it has none.
pub open spec fn conversation_of(request: AugmentRequestView) -> Seq<char> {
    match request.conversation_id {
        Some(id) => trimmed(id),
        None => Seq::empty(),
    }
}

/// Whether compaction applies to a request at all: summaries are enabled,
/// the request names its conversation, and its history is not empty and
/// holds no summary yet.
pub open spec fn is_applicable(hs: HistorySummaryConfig, request: AugmentRequestView) -> bool {
    &&& hs.enabled
    &&& conversation_of(request).len() > 0
    &&& request.chat_history.len() > 0
    &&& !contains_summary(request.chat_history)
}

/// The bytes that the trigger weighs: the history and the current message.
pub open spec fn total_with_extra(request: AugmentRequestView) -> usize {
    clip(history_size(request.chat_history) + utf8_len(request.message))
}

/// The trigger's decision for a request.
pub open spec fn decision_for(
    hs: HistorySummaryConfig,
    model: Seq<char>,
    request: AugmentRequestView,
) -> TriggerDecision {
    trigger_decision(
        hs,
        context_window(
            hs.context_window_tokens_overrides.deep_view(),
            hs.context_window_tokens_default,
            model,
        ),
        total_with_extra(request),
    )
}

/// The threshold and the tail budget that a decision hands to the splitter;
/// none where the trigger did not fire.
pub open spec fn split_budget(hs: HistorySummaryConfig, decision: TriggerDecision) -> Option<
    (usize, usize),
> {
    match decision {
        TriggerDecision::NotTriggered => None,
        TriggerDecision::TriggerChars { threshold_chars } => Some(
            (threshold_chars, hs.history_tail_size_chars_to_exclude),
        ),
        TriggerDecision::TriggerRatio { threshold_chars, target_tail_budget_chars, .. } => Some(
            (threshold_chars, target_tail_budget_chars),
        ),
    }
}

/// The index of the first exchange that is kept. The history is split; the
/// first exchange of the tail is found again by its identifier; and the
/// start is moved off tool results. There is none where head or tail come
/// out empty, or the boundary's identifier is blank.
pub open spec fn planned_tail_start(
    history: Seq<AugmentChatHistoryView>,
    threshold: usize,
    tail_budget: usize,
    min_tail: usize,
) -> Option<int> {
    let cut = split_point(history, tail_budget, threshold, min_tail);
    if cut <= 0 || cut >= history.len() {
        None
    } else if is_blank(history[cut].request_id) {
        None
    } else {
        let start = adjusted_start(history, first_with_id(history, history[cut].request_id));
        if start <= 0 || is_blank(history[start].request_id) {
            None
        } else {
            Some(start)
        }
    }
}

/// The plan for a history that is cut before exchange `start`, after the
/// trigger decided `trigger`.
pub open spec fn plan_at(
    hs: HistorySummaryConfig,
    request: AugmentRequestView,
    trigger: TriggerDecision,
    start: int,
) -> CompactionPlanView {
    let boundary = request.chat_history[start].request_id;
    let entries = abridged_entries(head_until(request.chat_history, Some(boundary)));
    CompactionPlanView {
        conversation_id: conversation_of(request),
        trigger,
        tail_start: start as usize,
        boundary_request_id: boundary,
        abridged_history_text: transcript(entries, hs.abridged_history_params),
        num_dropped_in_beginning: dropped_entries(entries, hs.abridged_history_params) as usize,
    }
}

/// The plan for a request; none where its history stays as it is.
pub open spec fn planned(
    hs: HistorySummaryConfig,
    model: Seq<char>,
    request: AugmentRequestView,
) -> Option<CompactionPlanView> {
    if !is_applicable(hs, request) {
        None
    } else {
        match split_budget(hs, decision_for(hs, model, request)) {
            None => None,
            Some((threshold, tail_budget)) => match planned_tail_start(
                request.chat_history,
                threshold,
                tail_budget,
                hs.min_tail_exchanges,
            ) {
                None => None,
                Some(start) => Some(plan_at(hs, request, decision_for(hs, model, request), start)),
            },
        }
    }
}

/// Plans the compaction of a request's history. There is no plan where
/// summaries are disabled, the request names no conversation, its history
/// is empty or holds a summary already, the trigger does not fire, or the
/// cut leaves head or tail empty. The request is not changed.
pub fn plan_compaction(
    hs: &HistorySummaryConfig,
    requested_model: &str,
    request: &AugmentRequest,
) -> (plan: Option<CompactionPlan>)
    ensures
        plan.deep_view() == planned(*hs, requested_model@, request@),
        !hs.enabled ==> plan is None,
        contains_summary(request@.chat_history) ==> plan is None,
        plan matches Some(p) ==> 0 < p.tail_start < request.chat_history.len(),
{
    if !hs.enabled {
        return None;
    }
    let conversation = match &request.conversation_id {
        Some(id) => trim(id.as_str()),
        None => {
            return None;
        },
    };
    if conversation.is_empty() {
        return None;
    }
    if request.chat_history.len() == 0 {
        return None;
    }
    let history = slice_of(&request.chat_history);
    let ghost all = request@.chat_history;
    if history_contains_summary(history) {
        return None;
    }
    let total = estimate_history_size_chars(history);
    let total_with_message = total.saturating_add(byte_len(request.message.as_str()));
    let decision = evaluate_trigger(hs, requested_model, total_with_message);
    let (threshold, tail_budget) = match decision {
        TriggerDecision::NotTriggered => {
            return None;
        },
        TriggerDecision::TriggerChars { threshold_chars } => (
            threshold_chars,
            hs.history_tail_size_chars_to_exclude,
        ),
        TriggerDecision::TriggerRatio { threshold_chars, target_tail_budget_chars, .. } => (
            threshold_chars,
            target_tail_budget_chars,
        ),
    };
    let cut = find_split_point(history, tail_budget, threshold, hs.min_tail_exchanges);
    if cut == 0 || cut >= history.len() {
        return None;
    }
    let split_boundary = history[cut].request_id.as_str();
    assert(split_boundary@ == all[cut as int].request_id);
    if str_is_blank(split_boundary) {
        return None;
    }
    proof {
        lemma_first_with_id(all, split_boundary@);
    }
    let found = match find_request(history, split_boundary) {
        Some(at) => at,
        None => cut,
    };
    let start = adjust_tail_to_avoid_tool_result_orphans(history, found);
    if start == 0 {
        return None;
    }
    let boundary = history[start].request_id.clone();
    assert(boundary@ == all[start as int].request_id);
    if str_is_blank(boundary.as_str()) {
        return None;
    }
    let (text, dropped) = build_abridged_history_text(
        history,
        &hs.abridged_history_params,
        Some(boundary.as_str()),
    );
    Some(
        CompactionPlan {
            conversation_id: conversation.to_owned(),
            trigger: decision,
            tail_start: start,
            boundary_request_id: boundary,
            abridged_history_text: text,
            num_dropped_in_beginning: dropped,
        },
    )
}

/// The exchange that hands an earlier summary to the summarizer.
pub open spec fn previous_summary_exchange(summary: Seq<char>) -> AugmentChatHistoryView {
    AugmentChatHistoryView {
        response_text: Seq::empty(),
        request_message: "[PREVIOUS_SUMMARY]\n"@ + trimmed(summary) + "\n[/PREVIOUS_SUMMARY]"@,
        request_id: "proxy_history_summary_prev"@,
        request_nodes: Seq::empty(),
        structured_request_nodes: Seq::empty(),
        nodes: Seq::empty(),
        response_nodes: Seq::empty(),
        structured_output_nodes: Seq::empty(),
    }
}

/// The prompt that asks for an earlier summary to be updated.
pub open spec fn rolling_prompt(prompt: Seq<char>) -> Seq<char> {
    trimmed(prompt)
        + "\n\nYou will be given an existing summary and additional new conversation turns. Update the summary to include the new information. Output only the updated summary."@
}

/// Where the exchanges start that an earlier summary does not cover. A
/// summary is updated where rolling summaries are enabled and the earlier
/// summary ends at another exchange than the boundary, one that stands
/// before the start of the tail.
pub open spec fn rolling_start(
    hs: HistorySummaryConfig,
    history: Seq<AugmentChatHistoryView>,
    tail_start: int,
    boundary: Seq<char>,
    previous: Option<RollingSummaryStateView>,
) -> Option<int> {
    match previous {
        Some(prev) => if hs.rolling_summary && prev.summarized_until_request_id != boundary
            && first_with_id(history, prev.summarized_until_request_id) < tail_start {
            Some(first_with_id(history, prev.summarized_until_request_id))
        } else {
            None
        },
        None => None,
    }
}

/// `input` without exchanges at its front, as many as it takes to bring
/// its size down to `cap` bytes.
pub open spec fn shrunk_from_front(input: Seq<AugmentChatHistoryView>, cap: usize) -> Seq<
    AugmentChatHistoryView,
>
    decreases input.len(),
{
    if input.len() > 0 && clip(history_size(input)) > cap {
        shrunk_from_front(input.drop_first(), cap)
    } else {
        input
    }
}

/// `input` without exchanges behind its first, as many as it takes to
/// bring its size down to `cap` bytes. The first exchange stays.
pub open spec fn shrunk_behind_first(input: Seq<AugmentChatHistoryView>, cap: usize) -> Seq<
    AugmentChatHistoryView,
>
    decreases input.len(),
{
    if input.len() > 1 && clip(history_size(input)) > cap {
        shrunk_behind_first(input.remove(1), cap)
    } else {
        input
    }
}

/// What the summarizer is given.
#[derive(Debug)]
pub struct SummarizerInput {
    /// The prompt.
    pub prompt: String,
    /// The exchanges to summarize.
    pub history: Vec<AugmentChatHistory>,
    /// Whether an earlier summary is updated.
    pub used_rolling: bool,
}

/// The exchanges that the summarizer is given, before they are shrunk: the
/// earlier summary and the exchanges since, or the whole head.
pub open spec fn unshrunk_input(
    hs: HistorySummaryConfig,
    history: Seq<AugmentChatHistoryView>,
    tail_start: int,
    boundary: Seq<char>,
    previous: Option<RollingSummaryStateView>,
) -> Seq<AugmentChatHistoryView> {
    match rolling_start(hs, history, tail_start, boundary, previous) {
        Some(from) => seq![previous_summary_exchange(previous.unwrap().summary_text)]
            + history.subrange(from, tail_start),
        None => history.take(tail_start),
    }
}

/// The exchanges that the summarizer is given. Under a cap on the input's
/// size the oldest exchanges are left out, but never the earlier summary.
pub open spec fn input_history(
    hs: HistorySummaryConfig,
    history: Seq<AugmentChatHistoryView>,
    tail_start: int,
    boundary: Seq<char>,
    previous: Option<RollingSummaryStateView>,
) -> Seq<AugmentChatHistoryView> {
    let input = unshrunk_input(hs, history, tail_start, boundary, previous);
    if hs.max_summarization_input_chars == 0 {
        input
    } else if rolling_start(hs, history, tail_start, boundary, previous) is Some {
        shrunk_behind_first(input, hs.max_summarization_input_chars)
    } else {
        shrunk_from_front(input, hs.max_summarization_input_chars)
    }
}

/// The prompt that the summarizer is given.
pub open spec fn input_prompt(
    hs: HistorySummaryConfig,
    history: Seq<AugmentChatHistoryView>,
    tail_start: int,
    boundary: Seq<char>,
    previous: Option<RollingSummaryStateView>,
) -> Seq<char> {
    if rolling_start(hs, history, tail_start, boundary, previous) is Some {
        rolling_prompt(hs.prompt@)
    } else {
        hs.prompt@
    }
}

fn shrink_from_front(input: &mut Vec<AugmentChatHistory>, cap: usize)
    ensures
        final(input).deep_view() == shrunk_from_front(old(input).deep_view(), cap),
{
    while input.len() > 0 && estimate_history_size_chars(slice_of(input)) > cap
        invariant
            shrunk_from_front(input.deep_view(), cap) == shrunk_from_front(
                old(input).deep_view(),
                cap,
            ),
        decreases input.len(),
    {
        let ghost before = input.deep_view();
        input.remove(0);
        assert(input.deep_view() =~= before.drop_first());
    }
}

fn shrink_behind_first(input: &mut Vec<AugmentChatHistory>, cap: usize)
    ensures
        final(input).deep_view() == shrunk_behind_first(old(input).deep_view(), cap),
{
    while input.len() > 1 && estimate_history_size_chars(slice_of(input)) > cap
        invariant
            shrunk_behind_first(input.deep_view(), cap) == shrunk_behind_first(
                old(input).deep_view(),
                cap,
            ),
        decreases input.len(),
    {
        let ghost before = input.deep_view();
        input.remove(1);
        assert(input.deep_view() =~= before.remove(1));
    }
}

/// Builds what the summarizer is given for a history that is cut before
/// `tail_start`: the head; or, where `previous` is an earlier summary that
/// can be updated, that summary and the exchanges since, under a prompt that
/// asks for an update. `previous` is the fresh state of the conversation,
/// where the store holds one. There is no input where the cap leaves no
/// exchange.
pub fn build_summarizer_input(
    hs: &HistorySummaryConfig,
    history: &[AugmentChatHistory],
    tail_start: usize,
    boundary_request_id: &str,
    previous: Option<&RollingSummaryState>,
) -> (input: Option<SummarizerInput>)
    requires
        tail_start <= history.len(),
    ensures
        input is Some <==> input_history(
            *hs,
            history.deep_view(),
            tail_start as int,
            boundary_request_id@,
            previous.deep_view(),
        ).len() > 0,
        input matches Some(i) ==> {
            &&& i.history.deep_view() == input_history(
                *hs,
                history.deep_view(),
                tail_start as int,
                boundary_request_id@,
                previous.deep_view(),
            )
            &&& i.prompt@ == input_prompt(
                *hs,
                history.deep_view(),
                tail_start as int,
                boundary_request_id@,
                previous.deep_view(),
            )
            &&& i.used_rolling == (rolling_start(
                *hs,
                history.deep_view(),
                tail_start as int,
                boundary_request_id@,
                previous.deep_view(),
            ) is Some)
        },
{
    let ghost all = history.deep_view();
    let mut from: Option<usize> = None;
    if hs.rolling_summary {
        if let Some(prev) = previous {
            if !text_eq(prev.summarized_until_request_id.as_str(), boundary_request_id) {
                proof {
                    lemma_first_with_id(all, prev.summarized_until_request_id@);
                }
                if let Some(at) = find_request(
                    history,
                    prev.summarized_until_request_id.as_str(),
                ) {
                    if at < tail_start {
                        from = Some(at);
                    }
                }
            }
        }
    }
    let mut input: Vec<AugmentChatHistory>;
    let prompt: String;
    let used_rolling: bool;
    match (from, previous) {
        (Some(at), Some(prev)) => {
            let mut message = "[PREVIOUS_SUMMARY]\n".to_owned();
            message.append(trim(prev.summary_text.as_str()));
            message.append("\n[/PREVIOUS_SUMMARY]");
            let first = AugmentChatHistory {
                response_text: String::new(),
                request_message: message,
                request_id: "proxy_history_summary_prev".to_owned(),
                request_nodes: Vec::new(),
                structured_request_nodes: Vec::new(),
                nodes: Vec::new(),
                response_nodes: Vec::new(),
                structured_output_nodes: Vec::new(),
            };
            proof {
                assert(first@.request_nodes =~= Seq::empty());
                assert(first@.structured_request_nodes =~= Seq::empty());
                assert(first@.nodes =~= Seq::empty());
                assert(first@.response_nodes =~= Seq::empty());
                assert(first@.structured_output_nodes =~= Seq::empty());
                assert(first@.request_message =~= previous_summary_exchange(
                    prev@.summary_text,
                ).request_message);
            }
            let mut delta = clone_range(history, at, tail_start);
            let ghost rest = delta.deep_view();
            input = Vec::new();
            input.push(first);
            input.append(&mut delta);
            assert(input.deep_view() =~= seq![previous_summary_exchange(prev@.summary_text)]
                + rest);
            let mut p = trim(hs.prompt.as_str()).to_owned();
            p.append(
                "\n\nYou will be given an existing summary and additional new conversation turns. Update the summary to include the new information. Output only the updated summary.",
            );
            prompt = p;
            used_rolling = true;
        },
        _ => {
            input = clone_range(history, 0, tail_start);
            prompt = hs.prompt.clone();
            used_rolling = false;
        },
    }
    if hs.max_summarization_input_chars > 0 {
        if used_rolling {
            shrink_behind_first(&mut input, hs.max_summarization_input_chars);
        } else {
            shrink_from_front(&mut input, hs.max_summarization_input_chars);
        }
    }
    if input.len() == 0 {
        None
    } else {
        Some(SummarizerInput { prompt, history: input, used_rolling })
    }
}

/// What is to be done first for a request.
#[derive(Debug)]
pub enum CompactionStep<'a> {
    /// Nothing: the request stays as it is.
    Skip,
    /// Nothing can be done: no provider can summarize.
    Fail(ProviderError),
    /// The store holds a fresh summary up to the plan's boundary: it is to
    /// be rendered.
    Reuse { plan: CompactionPlan, summary_text: String, summarization_request_id: String },
    /// A summary is to be made by `provider` from `input`.
    Summarize { plan: CompactionPlan, provider: SummaryProviderRef<'a>, input: SummarizerInput },
}

/// Decides what is to be done first for a request, at the time `now_ms`
/// and with the summaries that `cache` holds. Without a plan the request is
/// skipped. With a plan, a fresh summary up to the plan's boundary is used
/// again. Without one, the configured provider is looked up, and the input
/// for the summarizer is built from the head, or from the conversation's
/// fresh earlier summary and the exchanges since. The request is not
/// changed.
pub fn begin_compaction<'a>(
    cfg: &'a Config,
    requested_model: &str,
    request: &AugmentRequest,
    cache: &HistorySummaryCache,
    now_ms: u64,
) -> (step: CompactionStep<'a>)
    ensures
        !cfg.history_summary.enabled ==> step is Skip,
        contains_summary(request@.chat_history) ==> step is Skip,
        match planned(cfg.history_summary, requested_model@, request@) {
            None => step is Skip,
            Some(p) => match fresh_summary(
                cache@,
                p.conversation_id,
                p.boundary_request_id,
                now_ms,
                cfg.history_summary.cache_ttl_ms,
            ) {
                Some((text, id)) => {
                    &&& step matches CompactionStep::Reuse {
                        plan,
                        summary_text,
                        summarization_request_id,
                    }
                    &&& plan@ == p
                    &&& summary_text@ == text
                    &&& summarization_request_id@ == id
                },
                None => match found_provider(
                    cfg.byok.providers@,
                    cfg.history_summary.provider_id@,
                ) {
                    Err(e) => step == CompactionStep::Fail(e),
                    Ok(found) => {
                        let previous = fresh_state(
                            cache@,
                            p.conversation_id,
                            now_ms,
                            cfg.history_summary.cache_ttl_ms,
                        );
                        let history = input_history(
                            cfg.history_summary,
                            request@.chat_history,
                            p.tail_start as int,
                            p.boundary_request_id,
                            previous,
                        );
                        if history.len() == 0 {
                            step is Skip
                        } else {
                            &&& step matches CompactionStep::Summarize { plan, provider, input }
                            &&& plan@ == p
                            &&& provider == found
                            &&& input.history.deep_view() == history
                            &&& input.prompt@ == input_prompt(
                                cfg.history_summary,
                                request@.chat_history,
                                p.tail_start as int,
                                p.boundary_request_id,
                                previous,
                            )
                            &&& input.used_rolling == (rolling_start(
                                cfg.history_summary,
                                request@.chat_history,
                                p.tail_start as int,
                                p.boundary_request_id,
                                previous,
                            ) is Some)
                        }
                    },
                },
            },
        },
{
    let hs = &cfg.history_summary;
    let plan = match plan_compaction(hs, requested_model, request) {
        Some(plan) => plan,
        None => {
            return CompactionStep::Skip;
        },
    };
    match cache.get_fresh(
        plan.conversation_id.as_str(),
        plan.boundary_request_id.as_str(),
        now_ms,
        hs.cache_ttl_ms,
    ) {
        Some((summary_text, summarization_request_id)) => {
            return CompactionStep::Reuse { plan, summary_text, summarization_request_id };
        },
        None => {},
    }
    let provider = match get_byok_provider_by_id(cfg, hs.provider_id.as_str()) {
        Ok(provider) => provider,
        Err(e) => {
            return CompactionStep::Fail(e);
        },
    };
    let previous = cache.get_fresh_state(plan.conversation_id.as_str(), now_ms, hs.cache_ttl_ms);
    let input = build_summarizer_input(
        hs,
        slice_of(&request.chat_history),
        plan.tail_start,
        plan.boundary_request_id.as_str(),
        previous.as_ref(),
    );
    match input {
        Some(input) => CompactionStep::Summarize { plan, provider, input },
        None => CompactionStep::Skip,
    }
}

/// A summary as it is stored and rendered.
#[derive(Debug)]
pub struct AcceptedSummary {
    /// The summary, trimmed.
    pub summary_text: String,
    /// The identifier of the summarizer's call.
    pub summarization_request_id: String,
}

/// The identifier of a summarizer's call: the provider's, or one made of
/// the time where the provider gave none.
pub open spec fn summarization_id(provider_response_id: Seq<char>, now_ms: u64) -> Seq<char> {
    if is_blank(provider_response_id) {
        "proxy_history_summary_"@ + decimal(now_ms as nat)
    } else {
        provider_response_id
    }
}

/// Takes what the summarizer returned. A summary that is blank is not
/// accepted. An accepted one is trimmed, and gets an identifier made of the
/// time where the provider gave none.
pub fn accept_summary(provider_response_id: String, text: &str, now_ms: u64) -> (r: Option<
    AcceptedSummary,
>)
    ensures
        r is Some <==> !is_blank(text@),
        r matches Some(a) ==> {
            &&& a.summary_text@ == trimmed(text@)
            &&& a.summarization_request_id@ == summarization_id(provider_response_id@, now_ms)
        },
{
    proof {
        lemma_trimmed_empty(text@);
    }
    let summary = trim(text);
    if summary.is_empty() {
        return None;
    }
    let id = if str_is_blank(provider_response_id.as_str()) {
        let mut id = "proxy_history_summary_".to_owned();
        id.append(decimal_string(now_ms).as_str());
        id
    } else {
        provider_response_id
    };
    Some(AcceptedSummary { summary_text: summary.to_owned(), summarization_request_id: id })
}

/// One exchange of the tail, as the summary node carries it: each side's
/// nodes as one list.
#[derive(Debug)]
pub struct HistoryEndEntry {
    pub request_id: String,
    pub request_message: String,
    pub response_text: String,
    pub request_nodes: Vec<NodeIn>,
    pub response_nodes: Vec<NodeIn>,
}

/// The value of a [`HistoryEndEntry`].
pub struct HistoryEndEntryView {
    pub request_id: Seq<char>,
    pub request_message: Seq<char>,
    pub response_text: Seq<char>,
    pub request_nodes: Seq<NodeInView>,
    pub response_nodes: Seq<NodeInView>,
}

impl DeepView for HistoryEndEntry {
    type V = HistoryEndEntryView;

    open spec fn deep_view(&self) -> HistoryEndEntryView {
        HistoryEndEntryView {
            request_id: self.request_id@,
            request_message: self.request_message@,
            response_text: self.response_text@,
            request_nodes: self.request_nodes.deep_view(),
            response_nodes: self.response_nodes.deep_view(),
        }
    }
}

impl View for HistoryEndEntry {
    type V = HistoryEndEntryView;

    open spec fn view(&self) -> HistoryEndEntryView {
        self.deep_view()
    }
}

/// What the summary node is rendered from.
#[derive(Debug)]
pub struct SummaryNodeValue {
    pub summary_text: String,
    pub summarization_request_id: String,
    pub history_beginning_dropped_num_exchanges: usize,
    pub history_middle_abridged_text: String,
    pub history_end: Vec<HistoryEndEntry>,
    pub message_template: String,
}

/// The value of a [`SummaryNodeValue`].
pub struct SummaryNodeValueView {
    pub summary_text: Seq<char>,
    pub summarization_request_id: Seq<char>,
    pub history_beginning_dropped_num_exchanges: usize,
    pub history_middle_abridged_text: Seq<char>,
    pub history_end: Seq<HistoryEndEntryView>,
    pub message_template: Seq<char>,
}

impl DeepView for SummaryNodeValue {
    type V = SummaryNodeValueView;

    open spec fn deep_view(&self) -> SummaryNodeValueView {
        SummaryNodeValueView {
            summary_text: self.summary_text@,
            summarization_request_id: self.summarization_request_id@,
            history_beginning_dropped_num_exchanges: self.history_beginning_dropped_num_exchanges,
            history_middle_abridged_text: self.history_middle_abridged_text@,
            history_end: self.history_end.deep_view(),
            message_template: self.message_template@,
        }
    }
}

impl View for SummaryNodeValue {
    type V = SummaryNodeValueView;

    open spec fn view(&self) -> SummaryNodeValueView {
        self.deep_view()
    }
}

/// An exchange as the summary node carries it.
pub open spec fn history_end_entry(h: AugmentChatHistoryView) -> HistoryEndEntryView {
    HistoryEndEntryView {
        request_id: h.request_id,
        request_message: h.request_message,
        response_text: h.response_text,
        request_nodes: request_side(h),
        response_nodes: response_side(h),
    }
}

/// The exchanges of `tail` as the summary node carries them.
pub open spec fn history_end(tail: Seq<AugmentChatHistoryView>) -> Seq<HistoryEndEntryView>
    decreases tail.len(),
{
    if tail.len() == 0 {
        Seq::empty()
    } else {
        history_end(tail.drop_last()).push(history_end_entry(tail.last()))
    }
}

/// What the summary node of a plan is rendered from: the summary, the
/// abridged transcript and the template. Where the node carries the tail
/// itself, it holds the exchanges from the start of the tail on, under the
/// template for that form.
pub open spec fn summary_node_value(
    hs: HistorySummaryConfig,
    history: Seq<AugmentChatHistoryView>,
    plan: CompactionPlanView,
    summary_text: Seq<char>,
    summarization_request_id: Seq<char>,
) -> SummaryNodeValueView {
    SummaryNodeValueView {
        summary_text,
        summarization_request_id,
        history_beginning_dropped_num_exchanges: plan.num_dropped_in_beginning,
        history_middle_abridged_text: plan.abridged_history_text,
        history_end: if hs.use_history_summary_new {
            history_end(history.skip(plan.tail_start as int))
        } else {
            Seq::empty()
        },
        message_template: if hs.use_history_summary_new {
            hs.summary_node_request_message_template_new@
        } else {
            hs.summary_node_request_message_template@
        },
    }
}

fn clone_nodes(nodes: &Vec<&NodeIn>) -> (r: Vec<NodeIn>)
    ensures
        r.deep_view() == nodes.deep_view(),
{
    let mut r: Vec<NodeIn> = Vec::new();
    let mut i: usize = 0;
    assert(r.deep_view() =~= nodes.deep_view().take(0));
    while i < nodes.len()
        invariant
            i <= nodes.len(),
            r.deep_view() == nodes.deep_view().take(i as int),
        decreases nodes.len() - i,
    {
        let ghost before = r.deep_view();
        r.push(nodes[i].clone());
        assert(r.deep_view() =~= before.push(nodes[i as int]@));
        assert(nodes.deep_view().take(i as int + 1) =~= nodes.deep_view().take(i as int).push(
            nodes[i as int]@,
        ));
        i = i + 1;
    }
    assert(nodes.deep_view().take(nodes.len() as int) =~= nodes.deep_view());
    r
}

/// Builds what the summary node of a plan is rendered from.
pub fn build_summary_node_value(
    hs: &HistorySummaryConfig,
    history: &[AugmentChatHistory],
    plan: &CompactionPlan,
    summary_text: String,
    summarization_request_id: String,
) -> (value: SummaryNodeValue)
    requires
        plan.tail_start <= history.len(),
    ensures
        value@ == summary_node_value(
            *hs,
            history.deep_view(),
            plan@,
            summary_text@,
            summarization_request_id@,
        ),
{
    let ghost all = history.deep_view();
    let mut end: Vec<HistoryEndEntry> = Vec::new();
    let message_template: String;
    if hs.use_history_summary_new {
        message_template = hs.summary_node_request_message_template_new.clone();
        let from = plan.tail_start;
        let mut i: usize = from;
        assert(end.deep_view() =~= history_end(all.subrange(from as int, from as int)));
        while i < history.len()
            invariant
                from <= i <= history.len(),
                all == history.deep_view(),
                end.deep_view() == history_end(all.subrange(from as int, i as int)),
            decreases history.len() - i,
        {
            let h = &history[i];
            let ghost before = end.deep_view();
            proof {
                assert(all.subrange(from as int, i as int + 1).drop_last() =~= all.subrange(
                    from as int,
                    i as int,
                ));
                assert(all.subrange(from as int, i as int + 1).last() == h@);
            }
            let entry = HistoryEndEntry {
                request_id: h.request_id.clone(),
                request_message: h.request_message.clone(),
                response_text: h.response_text.clone(),
                request_nodes: clone_nodes(&exchange_request_nodes(h)),
                response_nodes: clone_nodes(&exchange_response_nodes(h)),
            };
            let ghost view = entry@;
            end.push(entry);
            assert(end.deep_view() =~= before.push(view));
            i = i + 1;
        }
        proof {
            assert(all.subrange(from as int, history.len() as int) =~= all.skip(
                plan.tail_start as int,
            ));
        }
    } else {
        message_template = hs.summary_node_request_message_template.clone();
        assert(end.deep_view() =~= Seq::<HistoryEndEntryView>::empty());
    }
    SummaryNodeValue {
        summary_text,
        summarization_request_id,
        history_beginning_dropped_num_exchanges: plan.num_dropped_in_beginning,
        history_middle_abridged_text: plan.abridged_history_text.clone(),
        history_end: end,
        message_template,
    }
}

/// The exchange that carries a rendered summary.
pub open spec fn summary_exchange(rendered: Seq<char>) -> AugmentChatHistoryView {
    AugmentChatHistoryView {
        response_text: Seq::empty(),
        request_message: Seq::empty(),
        request_id: "proxy_history_summary"@,
        request_nodes: seq![summary_text_node(rendered)],
        structured_request_nodes: Seq::empty(),
        nodes: Seq::empty(),
        response_nodes: Seq::empty(),
        structured_output_nodes: Seq::empty(),
    }
}

/// The index from which the exchanges of a history are kept behind the
/// summary: the start of the tail; or the end of the history, where the
/// summary node carries the tail itself and no exchange is kept.
pub open spec fn kept_from(len: int, tail_start: int, use_history_summary_new: bool) -> int {
    if use_history_summary_new {
        len
    } else {
        tail_start
    }
}

/// The history after compaction: the exchange that carries the summary,
/// and behind it the exchanges that are kept.
pub open spec fn compacted(
    history: Seq<AugmentChatHistoryView>,
    tail_start: int,
    rendered: Seq<char>,
    use_history_summary_new: bool,
) -> Seq<AugmentChatHistoryView> {
    seq![summary_exchange(rendered)] + history.skip(
        kept_from(history.len() as int, tail_start, use_history_summary_new),
    )
}

fn build_summary_exchange(rendered: String) -> (first: AugmentChatHistory)
    ensures
        first@ == summary_exchange(rendered@),
{
    let ghost text = rendered@;
    let mut nodes: Vec<NodeIn> = Vec::new();
    nodes.push(build_summary_text_node(rendered));
    assert(nodes.deep_view() =~= seq![summary_text_node(text)]);
    let first = AugmentChatHistory {
        response_text: String::new(),
        request_message: String::new(),
        request_id: "proxy_history_summary".to_owned(),
        request_nodes: nodes,
        structured_request_nodes: Vec::new(),
        nodes: Vec::new(),
        response_nodes: Vec::new(),
        structured_output_nodes: Vec::new(),
    };
    proof {
        assert(first@.structured_request_nodes =~= Seq::empty());
        assert(first@.nodes =~= Seq::empty());
        assert(first@.response_nodes =~= Seq::empty());
        assert(first@.structured_output_nodes =~= Seq::empty());
    }
    first
}

/// What becomes of a history that is compacted: the exchange that carries
/// the summary takes the place of the exchanges before `kept_from`.
#[derive(Debug)]
pub struct CompactionOutcome {
    /// The exchange that carries the rendered summary.
    pub summary: AugmentChatHistory,
    /// The index of the first exchange that is kept behind it; the length
    /// of the history where none is kept.
    pub kept_from: usize,
}

/// Decides what becomes of a history of `history_len` exchanges at the end
/// of a compaction. There is an outcome where a summary node was rendered
/// and the plan's start lies within the history; the new history is then
/// what `compacted` says: the summary, and the exchanges from `kept_from` on.
pub fn compaction_outcome(
    history_len: usize,
    plan: &CompactionPlan,
    rendered: Option<String>,
    use_history_summary_new: bool,
) -> (outcome: Option<CompactionOutcome>)
    ensures
        outcome is Some <==> (rendered is Some && plan.tail_start <= history_len),
        outcome matches Some(o) ==> {
            &&& o.summary@ == summary_exchange(rendered.unwrap()@)
            &&& o.kept_from == kept_from(
                history_len as int,
                plan.tail_start as int,
                use_history_summary_new,
            )
            &&& o.kept_from <= history_len
        },
{
    let text = match rendered {
        Some(text) => text,
        None => {
            return None;
        },
    };
    if plan.tail_start > history_len {
        return None;
    }
    let kept_from = if use_history_summary_new {
        history_len
    } else {
        plan.tail_start
    };
    Some(CompactionOutcome { summary: build_summary_exchange(text), kept_from })
}

/// Builds the history after compaction. The exchanges that are kept are
/// copied as they are.
pub fn compacted_history(
    history: &[AugmentChatHistory],
    tail_start: usize,
    rendered: String,
    use_history_summary_new: bool,
) -> (r: Vec<AugmentChatHistory>)
    requires
        tail_start <= history.len(),
    ensures
        r.deep_view() == compacted(
            history.deep_view(),
            tail_start as int,
            rendered@,
            use_history_summary_new,
        ),
{
    let ghost text = rendered@;
    let from = if use_history_summary_new {
        history.len()
    } else {
        tail_start
    };
    let mut r: Vec<AugmentChatHistory> = Vec::new();
    r.push(build_summary_exchange(rendered));
    assert(r.deep_view() =~= seq![summary_exchange(text)]);
    let mut kept = clone_range(history, from, history.len());
    let ghost rest = kept.deep_view();
    r.append(&mut kept);
    assert(r.deep_view() =~= seq![summary_exchange(text)] + rest);
    assert(history.deep_view().subrange(from as int, history.len() as int)
        =~= history.deep_view().skip(from as int));
    r
}

/// Ends the compaction of a request. Where a summary node was rendered and
/// the plan fits the request, the head of the request's history gives way
/// to the node and the result is true: the history becomes what `compacted`
/// says, and nothing else of the request changes. Otherwise the request
/// stays as it is and the result is false.
pub fn finish_compaction(
    request: &mut AugmentRequest,
    plan: &CompactionPlan,
    rendered: Option<String>,
    use_history_summary_new: bool,
) -> (done: bool)
    ensures
        done == (rendered is Some && plan.tail_start <= old(request).chat_history.len()),
        !done ==> final(request)@ == old(request)@,
        done ==> final(request)@ == (AugmentRequestView {
            chat_history: compacted(
                old(request)@.chat_history,
                plan.tail_start as int,
                rendered.unwrap()@,
                use_history_summary_new,
            ),
            ..old(request)@
        }),
{
    let ghost before = request.chat_history.deep_view();
    let outcome = match compaction_outcome(
        request.chat_history.len(),
        plan,
        rendered,
        use_history_summary_new,
    ) {
        Some(outcome) => outcome,
        None => {
            return false;
        },
    };
    let mut kept = request.chat_history.split_off(outcome.kept_from);
    let ghost rest = kept.deep_view();
    assert(rest =~= before.skip(outcome.kept_from as int));
    let ghost first = outcome.summary@;
    let mut history: Vec<AugmentChatHistory> = Vec::new();
    history.push(outcome.summary);
    assert(history.deep_view() =~= seq![first]);
    history.append(&mut kept);
    assert(history.deep_view() =~= seq![first] + rest);
    request.chat_history = history;
    true
}

/// Takes what the summarizer returned for a plan and stores it. A summary
/// that is blank is not accepted, and the store stays as it is. An accepted
/// one is stored for the plan's conversation, up to the plan's boundary and
/// at the time `now_ms`, in place of the summary that the store held for the
/// conversation.
pub fn store_summary(
    cache: &mut HistorySummaryCache,
    plan: &CompactionPlan,
    provider_response_id: String,
    text: &str,
    now_ms: u64,
) -> (r: Option<AcceptedSummary>)
    ensures
        r is Some <==> !is_blank(text@),
        r is None ==> final(cache)@ == old(cache)@,
        r matches Some(a) ==> {
            &&& a.summary_text@ == trimmed(text@)
            &&& a.summarization_request_id@ == summarization_id(provider_response_id@, now_ms)
            &&& final(cache)@ == old(cache)@.insert(
                plan.conversation_id@,
                RollingSummaryStateView {
                    summary_text: trimmed(text@),
                    summarized_until_request_id: plan.boundary_request_id@,
                    summarization_request_id: summarization_id(provider_response_id@, now_ms),
                    updated_at_ms: now_ms,
                },
            )
        },
{
    match accept_summary(provider_response_id, text, now_ms) {
        Some(accepted) => {
            cache.put(
                plan.conversation_id.as_str(),
                plan.boundary_request_id.as_str(),
                accepted.summary_text.clone(),
                accepted.summarization_request_id.clone(),
                now_ms,
            );
            Some(accepted)
        },
        None => None,
    }
}

} // verus!
