//! The store of rolling summaries: for each conversation the summary that
//! was made last, and the exchange up to which it summarizes.

use vstd::prelude::*;
use vstd::hash_map::StringHashMap;
use crate::text::text_eq;

verus! {

/// The summary of a conversation's head.
#[derive(Debug)]
pub struct RollingSummaryState {
    /// The summary.
    pub summary_text: String,
    /// The identifier of the first exchange that the summary leaves out.
    pub summarized_until_request_id: String,
    /// The identifier that the summarizer gave to its call.
    pub summarization_request_id: String,
    /// When the summary was stored, in milliseconds since the Unix epoch.
    pub updated_at_ms: u64,
}

/// The value of a [`RollingSummaryState`].
pub struct RollingSummaryStateView {
    pub summary_text: Seq<char>,
    pub summarized_until_request_id: Seq<char>,
    pub summarization_request_id: Seq<char>,
    pub updated_at_ms: u64,
}

impl DeepView for RollingSummaryState {
    type V = RollingSummaryStateView;

    open spec fn deep_view(&self) -> RollingSummaryStateView {
        RollingSummaryStateView {
            summary_text: self.summary_text@,
            summarized_until_request_id: self.summarized_until_request_id@,
            summarization_request_id: self.summarization_request_id@,
            updated_at_ms: self.updated_at_ms,
        }
    }
}

impl View for RollingSummaryState {
    type V = RollingSummaryStateView;

    open spec fn view(&self) -> RollingSummaryStateView {
        self.deep_view()
    }
}

impl Clone for RollingSummaryState {
    fn clone(&self) -> (r: Self)
        ensures
            r@ == self@,
    {
        RollingSummaryState {
            summary_text: self.summary_text.clone(),
            summarized_until_request_id: self.summarized_until_request_id.clone(),
            summarization_request_id: self.summarization_request_id.clone(),
            updated_at_ms: self.updated_at_ms,
        }
    }
}

/// Whether a state stored at `updated_at_ms` is fresh at `now_ms`: no more
/// than `ttl_ms` milliseconds have passed, or `ttl_ms` is zero.
pub open spec fn is_fresh(updated_at_ms: u64, now_ms: u64, ttl_ms: u64) -> bool {
    ttl_ms == 0 || now_ms - updated_at_ms <= ttl_ms
}

/// The state of `conversation`, where the store has one and it is fresh.
pub open spec fn fresh_state(
    store: Map<Seq<char>, RollingSummaryStateView>,
    conversation: Seq<char>,
    now_ms: u64,
    ttl_ms: u64,
) -> Option<RollingSummaryStateView> {
    if store.contains_key(conversation) && is_fresh(
        store[conversation].updated_at_ms,
        now_ms,
        ttl_ms,
    ) {
        Some(store[conversation])
    } else {
        None
    }
}

/// The summary of `conversation` and the identifier of the summarizer's
/// call, where the store has a fresh state that summarizes up to `boundary`.
pub open spec fn fresh_summary(
    store: Map<Seq<char>, RollingSummaryStateView>,
    conversation: Seq<char>,
    boundary: Seq<char>,
    now_ms: u64,
    ttl_ms: u64,
) -> Option<(Seq<char>, Seq<char>)> {
    match fresh_state(store, conversation, now_ms, ttl_ms) {
        Some(state) => if state.summarized_until_request_id == boundary {
            Some((state.summary_text, state.summarization_request_id))
        } else {
            None
        },
        None => None,
    }
}

/// The latest summary of each conversation, by the conversation's
/// identifier.
pub struct HistorySummaryCache {
    entries: StringHashMap<RollingSummaryState>,
}

impl View for HistorySummaryCache {
    type V = Map<Seq<char>, RollingSummaryStateView>;

    closed spec fn view(&self) -> Map<Seq<char>, RollingSummaryStateView> {
        self.entries@.map_values(|s: RollingSummaryState| s@)
    }
}

impl Default for HistorySummaryCache {
    fn default() -> (cache: Self)
        ensures
            cache@ == Map::<Seq<char>, RollingSummaryStateView>::empty(),
    {
        HistorySummaryCache::new()
    }
}

impl HistorySummaryCache {
    /// The empty store.
    pub fn new() -> (cache: Self)
        ensures
            cache@ == Map::<Seq<char>, RollingSummaryStateView>::empty(),
    {
        let cache = HistorySummaryCache { entries: StringHashMap::new() };
        assert(cache@ =~= Map::<Seq<char>, RollingSummaryStateView>::empty());
        cache
    }

    /// The summary of a conversation and the identifier of the summarizer's
    /// call. It is returned only where the store holds a state for the
    /// conversation, the state is fresh, and it summarizes up to
    /// `boundary_request_id`.
    pub fn get_fresh(
        &self,
        conversation_id: &str,
        boundary_request_id: &str,
        now_ms: u64,
        ttl_ms: u64,
    ) -> (r: Option<(String, String)>)
        ensures
            r.deep_view() == fresh_summary(
                self@,
                conversation_id@,
                boundary_request_id@,
                now_ms,
                ttl_ms,
            ),
            r is Some ==> {
                &&& self@.contains_key(conversation_id@)
                &&& self@[conversation_id@].summarized_until_request_id == boundary_request_id@
                &&& is_fresh(self@[conversation_id@].updated_at_ms, now_ms, ttl_ms)
            },
    {
        match self.get_fresh_state(conversation_id, now_ms, ttl_ms) {
            Some(state) => {
                if text_eq(state.summarized_until_request_id.as_str(), boundary_request_id) {
                    Some((state.summary_text, state.summarization_request_id))
                } else {
                    None
                }
            },
            None => None,
        }
    }

    /// The state of a conversation, where the store holds one and it is
    /// fresh.
    pub fn get_fresh_state(&self, conversation_id: &str, now_ms: u64, ttl_ms: u64) -> (r: Option<
        RollingSummaryState,
    >)
        ensures
            r.deep_view() == fresh_state(self@, conversation_id@, now_ms, ttl_ms),
    {
        match self.entries.get(conversation_id) {
            Some(entry) => {
                if ttl_ms > 0 && now_ms.saturating_sub(entry.updated_at_ms) > ttl_ms {
                    None
                } else {
                    Some(entry.clone())
                }
            },
            None => None,
        }
    }

    /// Stores a summary for a conversation, in place of the one that the
    /// store held for it.
    pub fn put(
        &mut self,
        conversation_id: &str,
        boundary_request_id: &str,
        summary_text: String,
        summarization_request_id: String,
        now_ms: u64,
    )
        ensures
            final(self)@ == old(self)@.insert(
                conversation_id@,
                RollingSummaryStateView {
                    summary_text: summary_text@,
                    summarized_until_request_id: boundary_request_id@,
                    summarization_request_id: summarization_request_id@,
                    updated_at_ms: now_ms,
                },
            ),
    {
        self.put_state(
            conversation_id,
            RollingSummaryState {
                summary_text,
                summarized_until_request_id: boundary_request_id.to_owned(),
                summarization_request_id,
                updated_at_ms: now_ms,
            },
        );
    }

    /// Stores a state for a conversation, in place of the one that the
    /// store held for it.
    pub fn put_state(&mut self, conversation_id: &str, state: RollingSummaryState)
        ensures
            final(self)@ == old(self)@.insert(conversation_id@, state@),
    {
        let ghost view = state@;
        self.entries.insert(conversation_id.to_owned(), state);
        assert(self@ =~= old(self)@.insert(conversation_id@, view));
    }
}

/// `std::time::SystemTime`, a reading of the system clock: nothing is
/// known of what it holds.
#[verifier::external_type_specification]
#[verifier::external_body]
pub struct ExSystemTime(std::time::SystemTime);

/// Reads the system clock with `SystemTime::now`. The result depends on
/// when it is called: nothing is claimed of it.
#[verifier::external_body]
fn system_time_now() -> std::time::SystemTime {
    std::time::SystemTime::now()
}

/// The time from the Unix epoch to `t`, by `SystemTime::duration_since`;
/// none where `t` lies before the epoch. Nothing is claimed of the result.
#[verifier::external_body]
fn since_unix_epoch(t: &std::time::SystemTime) -> Option<std::time::Duration> {
    t.duration_since(std::time::UNIX_EPOCH).ok()
}

/// The whole milliseconds of `d`, by `Duration::as_millis`. Nothing is
/// claimed of the result.
#[verifier::external_body]
fn duration_millis(d: &std::time::Duration) -> u128 {
    d.as_millis()
}

/// The time in milliseconds since the Unix epoch, as the system clock gives
/// it; zero where the clock stands before the epoch. The clock decides the
/// result: nothing is claimed of it here. What is made of the clock's
/// reading is stated by [`millis_since_epoch`].
pub fn now_ms() -> u64 {
    let t = system_time_now();
    let elapsed = match since_unix_epoch(&t) {
        Some(d) => Some(duration_millis(&d)),
        None => None,
    };
    millis_since_epoch(elapsed)
}

/// The milliseconds that a time stamp holds for a reading of the clock:
/// zero where the clock stood before the epoch, and else the milliseconds
/// since the epoch, cut to their lowest 64 bits.
pub open spec fn epoch_millis(elapsed_millis: Option<u128>) -> u64 {
    match elapsed_millis {
        Some(m) => (m % 0x1_0000_0000_0000_0000) as u64,
        None => 0,
    }
}

/// Makes a time stamp of a reading of the clock: `elapsed_millis` is the
/// time since the Unix epoch in milliseconds, or none where the clock stood
/// before the epoch.
pub fn millis_since_epoch(elapsed_millis: Option<u128>) -> (ms: u64)
    ensures
        ms == epoch_millis(elapsed_millis),
{
    match elapsed_millis {
        Some(m) => {
            let low: u128 = m % 0x1_0000_0000_0000_0000;
            low as u64
        },
        None => 0,
    }
}

} // verus!
