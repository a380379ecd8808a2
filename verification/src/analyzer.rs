//! The analyzer: which journal entries and conversation events go into the
//! language-model requests, how prompts and replies are put together, and the
//! statements that read entries and store an analysis.
use vstd::prelude::*;

use crate::db::{DbRow, FromDbValue, SqlParam, SqlParamView, Statement, params_view};
use crate::model::{
    APIError, APIErrorType, APIErrorView, JournalEntry, JournalEntryId, SpikeEventAssertion,
    optional_view, reported, severity_name,
};
use crate::sql::{MAX_PARAMS, numbered_params, push_numbered_params};
use crate::text::{
    decimal_text, is_blank, is_blank_text, joined, join_texts, parse_unsigned, parsed_unsigned,
    texts_view, trim, trimmed, truncate_message, truncated, u64_text, replaced, replace_all,
};

verus! {

/// Entries sent to the model when `JOURNAI_LLM_ENTRIES_LIMIT` is not a valid number.
pub const LLM_ENTRIES_LIMIT: u16 = 500;

/// Events kept between analyses when `JOURNAI_LLM_CONTEXT_WINDOW_LIMIT` is not a valid number.
pub const LLM_CONTEXT_WINDOW_LIMIT: usize = 20;

/// The name the analyzer's own messages carry.
pub const AGENT_NAME: &'static str = "JournAI";

/// Characters of a message kept in the sample of the short prompt.
pub const SAMPLE_MESSAGE_LIMIT: usize = 200;

/// Distinct messages in the sample of the short prompt.
pub const SAMPLE_SIZE: usize = 5;

pub const SPIKE_SUMMARY_SYSTEM_PROMPT: &'static str = r#"You are an expert Senior Site Reliability Engineer (SRE).
        Your task is to analyze systemd journal entries to identify the root cause of service failures or error spikes.
        Provide a professional, technical, and concise analysis for on-call engineers.
        Focus on identifying patterns, specific error codes, and sequence of events.
        Convert to human readable timestamps the raw seconds from epoch that you find.
        Always conclude with a 'Next Steps' checklist of concrete, actionable troubleshooting steps."#;

pub const SPIKE_STRUCTURED_SYSTEM_PROMPT: &'static str = r#"You are an expert Senior Site Reliability Engineer (SRE).
        Your task is to analyze systemd journal entries to identify the root cause of service failures or error spikes.
        Provide a structured response in compact (no spaces, new lines and so on) JSON format.
        Do not include any additional text, formatting or explanations.
        This is VERY IMPORTANT as I need to parse this response and I need a strict JSON."#;

pub const SPIKE_STRUCTURED_USER_PROMPT: &'static str = "How critical is this error spike?";

/// The instructions between the request header and the journal entries.
pub const SPIKE_SUMMARY_INSTRUCTIONS: &'static str = "\n\n            Please analyze the following journal entries and provide:\n            1. **Summary**: A high-level overview of the incident (what happened and impact).\n            2. **Technical Deep-Dive**: Identify specific error patterns, failed assertions, or timeout signals. Mention specific PIDs or file paths if relevant.\n            3. **Probable Root Cause**: Your best hypothesis for why this happened (e.g., resource exhaustion, configuration error, upstream dependency failure).\n            4. **Checklist of Actions**: 3-5 concrete commands or checks for the on-call engineer to run immediately.\n\n            Journal Entries (JSON format):\n            ";

// ---------------------------------------------------------------------------
// Settings
// ---------------------------------------------------------------------------

/// The number of entries to send: the setting when it is a valid `u16`,
/// `LLM_ENTRIES_LIMIT` otherwise.
pub open spec fn entries_limit_of(setting: Option<Seq<char>>) -> u16 {
    match setting {
        Some(s) => match parsed_unsigned(s, u16::MAX as nat) {
            Some(v) => v as u16,
            None => LLM_ENTRIES_LIMIT,
        },
        None => LLM_ENTRIES_LIMIT,
    }
}

/// Reads `JOURNAI_LLM_ENTRIES_LIMIT`.
pub fn entries_limit(setting: &Option<String>) -> (r: u16)
    ensures
        r == entries_limit_of(crate::model::optional_view(*setting)),
{
    match setting {
        Some(s) => match parse_unsigned(s.as_str(), u16::MAX as u64) {
            Some(v) => v as u16,
            None => LLM_ENTRIES_LIMIT,
        },
        None => LLM_ENTRIES_LIMIT,
    }
}

/// The number of events to keep: the setting when it is a valid `usize`,
/// `LLM_CONTEXT_WINDOW_LIMIT` otherwise.
pub open spec fn context_window_of(setting: Option<Seq<char>>) -> usize {
    match setting {
        Some(s) => match parsed_unsigned(s, usize::MAX as nat) {
            Some(v) => v as usize,
            None => LLM_CONTEXT_WINDOW_LIMIT,
        },
        None => LLM_CONTEXT_WINDOW_LIMIT,
    }
}

/// Reads `JOURNAI_LLM_CONTEXT_WINDOW_LIMIT`.
pub fn context_window_limit(setting: &Option<String>) -> (r: usize)
    ensures
        r == context_window_of(crate::model::optional_view(*setting)),
{
    match setting {
        Some(s) => match parse_unsigned(s.as_str(), usize::MAX as u64) {
            Some(v) => v as usize,
            None => LLM_CONTEXT_WINDOW_LIMIT,
        },
        None => LLM_CONTEXT_WINDOW_LIMIT,
    }
}

// ---------------------------------------------------------------------------
// Conversation events
// ---------------------------------------------------------------------------

/// Who a message is from.
#[derive(Debug, Clone, Copy, PartialEq, Eq, Structural)]
pub enum Role {
    User,
    Assistant,
    System,
    Tool,
}

/// What a conversation event is, as far as choosing events goes.
#[derive(Debug, Clone, Copy, PartialEq, Eq, Structural)]
pub enum EventKind {
    Message(Role),
    Response,
    ToolResults,
}

/// Events carried into a new summary request: all but system messages.
pub open spec fn is_context(k: EventKind) -> bool {
    k != EventKind::Message(Role::System)
}

/// Events a structured request looks back on: responses and user messages.
pub open spec fn is_conversation(k: EventKind) -> bool {
    k == EventKind::Response || k == EventKind::Message(Role::User)
}

/// The positions of the events of `kinds` that `keep` selects, in order.
pub open spec fn positions_where(kinds: Seq<EventKind>, keep: spec_fn(EventKind) -> bool) -> Seq<
    usize,
>
    decreases kinds.len(),
{
    if kinds.len() == 0 {
        Seq::empty()
    } else if keep(kinds.last()) {
        positions_where(kinds.drop_last(), keep).push((kinds.len() - 1) as usize)
    } else {
        positions_where(kinds.drop_last(), keep)
    }
}

fn select_positions(kinds: &Vec<EventKind>, conversation: bool) -> (r: Vec<usize>)
    ensures
        conversation ==> r@ == positions_where(kinds@, |k: EventKind| is_conversation(k)),
        !conversation ==> r@ == positions_where(kinds@, |k: EventKind| is_context(k)),
{
    let ghost keep = if conversation {
        |k: EventKind| is_conversation(k)
    } else {
        |k: EventKind| is_context(k)
    };
    let mut out: Vec<usize> = Vec::new();
    let mut i: usize = 0;
    while i < kinds.len()
        invariant
            i <= kinds@.len(),
            keep == (if conversation {
                |k: EventKind| is_conversation(k)
            } else {
                |k: EventKind| is_context(k)
            }),
            out@ == positions_where(kinds@.take(i as int), keep),
        decreases kinds@.len() - i,
    {
        let k = kinds[i];
        let selected = if conversation {
            k == EventKind::Response || k == EventKind::Message(Role::User)
        } else {
            k != EventKind::Message(Role::System)
        };
        proof {
            let next = kinds@.take(i + 1);
            assert(next.drop_last() =~= kinds@.take(i as int));
            assert(next.last() == k);
            assert(selected == keep(k));
        }
        if selected {
            out.push(i);
        }
        i = i + 1;
    }
    assert(kinds@.take(kinds@.len() as int) =~= kinds@);
    out
}

/// The positions of the events carried into a summary request.
pub fn previous_context(kinds: &Vec<EventKind>) -> (r: Vec<usize>)
    ensures
        r@ == positions_where(kinds@, |k: EventKind| is_context(k)),
{
    select_positions(kinds, false)
}

/// The positions of the events a structured request looks back on.
pub fn conversation_history(kinds: &Vec<EventKind>) -> (r: Vec<usize>)
    ensures
        r@ == positions_where(kinds@, |k: EventKind| is_conversation(k)),
{
    select_positions(kinds, true)
}

/// The last `limit` events, or all of them when there are no more.
pub open spec fn compacted<T>(events: Seq<T>, limit: nat) -> Seq<T> {
    if events.len() > limit {
        events.subrange(events.len() - limit, events.len() as int)
    } else {
        events
    }
}

/// Keeps the latest `limit` events.
pub fn compact_events<T>(events: Vec<T>, limit: usize) -> (r: Vec<T>)
    ensures
        r@ == compacted(events@, limit as nat),
{
    let mut all_events = events;
    if all_events.len() > limit {
        let start = all_events.len() - limit;
        all_events.split_off(start)
    } else {
        all_events
    }
}

/// An event of a request or of the conversation to keep.
#[derive(Debug, Clone)]
pub enum PlannedEvent {
    /// The event at this position of the conversation so far.
    Kept(usize),
    /// A system message with this text.
    System(String),
    /// A user message with this text, named after the analyzer.
    User(String),
    /// The response just received.
    LatestResponse,
}

pub enum PlannedEventView {
    Kept(usize),
    System(Seq<char>),
    User(Seq<char>),
    LatestResponse,
}

pub open spec fn planned_view(e: PlannedEvent) -> PlannedEventView {
    match e {
        PlannedEvent::Kept(i) => PlannedEventView::Kept(i),
        PlannedEvent::System(s) => PlannedEventView::System(s@),
        PlannedEvent::User(s) => PlannedEventView::User(s@),
        PlannedEvent::LatestResponse => PlannedEventView::LatestResponse,
    }
}

pub open spec fn plan_view(plan: Seq<PlannedEvent>) -> Seq<PlannedEventView> {
    plan.map_values(|e: PlannedEvent| planned_view(e))
}

pub open spec fn kept_events(positions: Seq<usize>) -> Seq<PlannedEventView> {
    positions.map_values(|i: usize| PlannedEventView::Kept(i))
}

fn push_kept(plan: &mut Vec<PlannedEvent>, positions: &Vec<usize>)
    ensures
        plan_view(final(plan)@) == plan_view(old(plan)@) + kept_events(positions@),
{
    let ghost start = plan@;
    let mut i: usize = 0;
    while i < positions.len()
        invariant
            i <= positions@.len(),
            plan_view(plan@) == plan_view(start) + kept_events(positions@.take(i as int)),
        decreases positions@.len() - i,
    {
        let ghost before = plan@;
        plan.push(PlannedEvent::Kept(positions[i]));
        proof {
            assert(plan@ == before.push(PlannedEvent::Kept(positions@[i as int])));
            assert(plan_view(plan@) =~= plan_view(before).push(PlannedEventView::Kept(positions@[i as int])));
            assert(kept_events(positions@.take(i + 1)) =~= kept_events(positions@.take(i as int)).push(
                PlannedEventView::Kept(positions@[i as int]),
            ));
        }
        assert(plan_view(plan@) =~= plan_view(start) + kept_events(positions@.take(i + 1)));
        i = i + 1;
    }
    assert(positions@.take(positions@.len() as int) =~= positions@);
}

/// The summary request: the summary instructions, the earlier conversation,
/// then the prompt.
pub fn summary_request(previous: &Vec<usize>, user_prompt: String) -> (r: Vec<PlannedEvent>)
    ensures
        plan_view(r@) == seq![PlannedEventView::System(SPIKE_SUMMARY_SYSTEM_PROMPT@)] + kept_events(
            previous@,
        ) + seq![PlannedEventView::User(user_prompt@)],
{
    let ghost prompt = user_prompt@;
    let mut plan: Vec<PlannedEvent> = Vec::new();
    let system = String::from_str(SPIKE_SUMMARY_SYSTEM_PROMPT);
    plan.push(PlannedEvent::System(system));
    assert(plan_view(plan@) =~= seq![PlannedEventView::System(SPIKE_SUMMARY_SYSTEM_PROMPT@)]);
    push_kept(&mut plan, previous);
    let ghost middle = plan@;
    plan.push(PlannedEvent::User(user_prompt));
    assert(plan_view(plan@) =~= plan_view(middle).push(PlannedEventView::User(prompt)));
    assert(plan_view(plan@) =~= seq![PlannedEventView::System(SPIKE_SUMMARY_SYSTEM_PROMPT@)]
        + kept_events(previous@) + seq![PlannedEventView::User(prompt)]);
    plan
}

/// The conversation kept after a summary: the earlier conversation, the
/// short prompt in place of the full one, then the response.
pub fn history_after_summary(previous: &Vec<usize>, lite_prompt: String) -> (r: Vec<PlannedEvent>)
    ensures
        plan_view(r@) == kept_events(previous@) + seq![
            PlannedEventView::User(lite_prompt@),
            PlannedEventView::LatestResponse,
        ],
{
    let ghost prompt = lite_prompt@;
    let mut plan: Vec<PlannedEvent> = Vec::new();
    assert(plan_view(plan@) =~= Seq::empty());
    push_kept(&mut plan, previous);
    let ghost middle = plan@;
    plan.push(PlannedEvent::User(lite_prompt));
    plan.push(PlannedEvent::LatestResponse);
    assert(plan_view(plan@) =~= plan_view(middle).push(PlannedEventView::User(prompt)).push(
        PlannedEventView::LatestResponse,
    ));
    assert(plan_view(plan@) =~= kept_events(previous@) + seq![
        PlannedEventView::User(prompt),
        PlannedEventView::LatestResponse,
    ]);
    plan
}

/// The structured request: the structured instructions followed by the
/// response format, the conversation to look back on, then the question.
pub fn structured_request(conversation: &Vec<usize>, response_format: &str) -> (r: Vec<PlannedEvent>)
    ensures
        plan_view(r@) == seq![
            PlannedEventView::System(SPIKE_STRUCTURED_SYSTEM_PROMPT@ + "\n"@ + response_format@),
        ] + kept_events(conversation@) + seq![
            PlannedEventView::User(SPIKE_STRUCTURED_USER_PROMPT@),
        ],
{
    let mut instructions = String::from_str(SPIKE_STRUCTURED_SYSTEM_PROMPT);
    instructions.append("\n");
    instructions.append(response_format);
    let ghost instructions_view = instructions@;
    let mut plan: Vec<PlannedEvent> = Vec::new();
    plan.push(PlannedEvent::System(instructions));
    assert(plan_view(plan@) =~= seq![PlannedEventView::System(instructions_view)]);
    push_kept(&mut plan, conversation);
    let ghost middle = plan@;
    let question = String::from_str(SPIKE_STRUCTURED_USER_PROMPT);
    plan.push(PlannedEvent::User(question));
    assert(plan_view(plan@) =~= plan_view(middle).push(
        PlannedEventView::User(SPIKE_STRUCTURED_USER_PROMPT@),
    ));
    assert(plan_view(plan@) =~= seq![
        PlannedEventView::System(SPIKE_STRUCTURED_SYSTEM_PROMPT@ + "\n"@ + response_format@),
    ] + kept_events(conversation@) + seq![PlannedEventView::User(SPIKE_STRUCTURED_USER_PROMPT@)]);
    plan
}

// ---------------------------------------------------------------------------
// Replies
// ---------------------------------------------------------------------------

/// The trimmed texts of a reply's content parts that are text and not blank;
/// `None` stands for a part that is not text.
pub open spec fn reply_texts(parts: Seq<Option<String>>) -> Seq<Seq<char>>
    decreases parts.len(),
{
    if parts.len() == 0 {
        Seq::empty()
    } else {
        let rest = reply_texts(parts.drop_last());
        match parts.last() {
            Some(t) => if trimmed(t@).len() > 0 {
                rest.push(trimmed(t@))
            } else {
                rest
            },
            None => rest,
        }
    }
}

/// The text of a reply: its non-blank text parts, trimmed, joined by `separator`.
pub fn response_text(parts: &Vec<Option<String>>, separator: &str) -> (r: String)
    ensures
        r@ == joined(reply_texts(parts@), separator@),
{
    let mut texts: Vec<String> = Vec::new();
    let mut i: usize = 0;
    while i < parts.len()
        invariant
            i <= parts@.len(),
            texts_view(texts@) == reply_texts(parts@.take(i as int)),
        decreases parts@.len() - i,
    {
        proof {
            let next = parts@.take(i + 1);
            assert(next.drop_last() =~= parts@.take(i as int));
            assert(next.last() == parts@[i as int]);
        }
        match &parts[i] {
            Some(t) => {
                let t2 = trim(t.as_str());
                if t2.as_str().unicode_len() > 0 {
                    texts.push(t2);
                    assert(texts_view(texts@) =~= reply_texts(parts@.take(i + 1)));
                }
            },
            None => {},
        }
        i = i + 1;
    }
    assert(parts@.take(parts@.len() as int) =~= parts@);
    join_texts(&texts, separator)
}

/// The summary from a reply: its text parts joined by new lines; an
/// `LLMError` when there is no text.
pub fn summary_text(parts: &Vec<Option<String>>) -> (r: Result<String, APIError>)
    ensures
        joined(reply_texts(parts@), "\n"@).len() > 0 ==> (r matches Ok(s) && s@ == joined(
            reply_texts(parts@),
            "\n"@,
        )),
        joined(reply_texts(parts@), "\n"@).len() == 0 ==> (r matches Err(e) && e@
            == APIErrorView::LLMError("LLM returned empty response"@)),
{
    let text = response_text(parts, "\n");
    if text.as_str().unicode_len() == 0 {
        Err(APIError::LLMError(String::from_str("LLM returned empty response")))
    } else {
        Ok(text)
    }
}

/// The outcome of an analysis: the summary, unless it is blank.
pub fn checked_summary(summary: String) -> (r: Result<String, APIError>)
    ensures
        !is_blank(summary@) ==> (r matches Ok(s) && s@ == summary@),
        is_blank(summary@) ==> (r matches Err(e) && e@ == reported(
            APIErrorType::LLM,
            "Analysis response was empty"@,
        )),
{
    if is_blank_text(summary.as_str()) {
        Err(APIErrorType::LLM.of_string(String::from_str("Analysis response was empty")))
    } else {
        Ok(summary)
    }
}


/// The texts to try to read as JSON, in order: the reply as it is, then the
/// reply without Markdown code fences and surrounding whitespace.
pub open spec fn json_candidates_of(text: Seq<char>) -> (Seq<char>, Seq<char>) {
    (text, trimmed(replaced(replaced(text, "```json"@, ""@), "```"@, ""@)))
}

/// The texts to try to read the structured verdict from.
pub fn json_candidates(text: &str) -> (r: (String, String))
    ensures
        (r.0@, r.1@) == json_candidates_of(text@),
{
    let without_tagged = replace_all(text, "```json", "");
    let without_fences = replace_all(without_tagged.as_str(), "```", "");
    (String::from_str(text), trim(without_fences.as_str()))
}

/// What `serde_json::from_str::<serde_json::Value>` reports on `text`: none
/// when the text is one JSON value, otherwise the text of its error.
pub uninterp spec fn json_parse_error(text: Seq<char>) -> Option<Seq<char>>;

/// Calls `serde_json::from_str::<serde_json::Value>` and keeps only its
/// verdict; claims that the outcome is `json_parse_error` of the text, the
/// error given by its `Display`.
#[verifier::external_body]
fn serde_json_parse_error(text: &str) -> (r: Option<String>)
    ensures
        match r {
            Some(e) => json_parse_error(text@) == Some(e@),
            None => json_parse_error(text@) is None,
        },
{
    match serde_json::from_str::<serde_json::Value>(text) {
        Ok(_) => None,
        Err(e) => Some(e.to_string()),
    }
}

/// The text to read the verdict from: the reply as it is when it parses as
/// JSON, else the reply without code fences when that parses; otherwise the
/// error of the second attempt.
pub open spec fn verdict_json_of(
    raw: Seq<char>,
    cleaned: Seq<char>,
    raw_error: Option<Seq<char>>,
    cleaned_error: Option<Seq<char>>,
) -> Result<Seq<char>, APIErrorView> {
    match raw_error {
        None => Ok(raw),
        Some(_) => match cleaned_error {
            None => Ok(cleaned),
            Some(e) => Err(APIErrorView::Other("Error parsing LLM response: "@ + e)),
        },
    }
}

/// Chooses the text to read the verdict from, given what the JSON parser
/// reported on each candidate.
pub fn choose_verdict_json(
    raw: String,
    cleaned: String,
    raw_error: Option<String>,
    cleaned_error: Option<String>,
) -> (r: Result<String, APIError>)
    ensures
        match verdict_json_of(raw@, cleaned@, optional_view(raw_error), optional_view(cleaned_error)) {
            Ok(t) => r matches Ok(s) && s@ == t,
            Err(e) => r matches Err(x) && x@ == e,
        },
{
    match raw_error {
        None => Ok(raw),
        Some(_) => match cleaned_error {
            None => Ok(cleaned),
            Some(e) => {
                let mut message = String::from_str("Error parsing LLM response: ");
                message.append(e.as_str());
                Err(APIError::Other(message))
            },
        },
    }
}

/// The JSON text of the structured verdict in a reply: the reply itself, or
/// the reply without code fences, whichever parses first.
pub fn verdict_json(reply: &str) -> (r: Result<String, APIError>)
    ensures
        ({
            let (raw, cleaned) = json_candidates_of(reply@);
            match verdict_json_of(raw, cleaned, json_parse_error(raw), json_parse_error(cleaned)) {
                Ok(t) => r matches Ok(s) && s@ == t,
                Err(e) => r matches Err(x) && x@ == e,
            }
        }),
{
    let (raw, cleaned) = json_candidates(reply);
    let raw_error = serde_json_parse_error(raw.as_str());
    let cleaned_error = if raw_error.is_some() {
        serde_json_parse_error(cleaned.as_str())
    } else {
        None
    };
    choose_verdict_json(raw, cleaned, raw_error, cleaned_error)
}

/// The error for a verdict that is JSON but not of the expected shape.
pub fn schema_error(detail: &str) -> (r: APIError)
    ensures
        r@ == APIErrorView::Other("Invalid schema in LLM response: "@ + detail@),
{
    let mut message = String::from_str("Invalid schema in LLM response: ");
    message.append(detail);
    APIError::Other(message)
}

// ---------------------------------------------------------------------------
// Prompts
// ---------------------------------------------------------------------------

/// The analysis of the spikes of one service on one host.
#[derive(Debug, Clone)]
pub struct SpikeAnalyzer {
    pub hostname: String,
    pub service: String,
}

/// The header of every analysis request. `start` and `end` are the times of
/// the first and last error as the double's `Display` writes them.
pub open spec fn request_header(
    host: Seq<char>,
    service: Seq<char>,
    start: Seq<char>,
    end: Seq<char>,
    errors_count: u64,
) -> Seq<char> {
    "Analysis Request for host: \""@ + host + "\", service: \""@ + service
        + "\"\n            Time Range: "@ + start + " to "@ + end
        + " (Unix timestamps)\n            Incident Profile: Detected a spike of "@ + decimal_text(
        errors_count as int,
    ) + " errors in this window."@
}

/// The distinct messages among `msgs`, in order of first appearance, at most
/// `SAMPLE_SIZE` of them.
pub open spec fn sample_of(msgs: Seq<Seq<char>>) -> Seq<Seq<char>>
    decreases msgs.len(),
{
    if msgs.len() == 0 {
        Seq::empty()
    } else {
        let prev = sample_of(msgs.drop_last());
        if prev.len() >= SAMPLE_SIZE || prev.contains(msgs.last()) {
            prev
        } else {
            prev.push(msgs.last())
        }
    }
}

/// The messages of the entries, each cut to `SAMPLE_MESSAGE_LIMIT` characters.
pub open spec fn cut_messages(entries: Seq<JournalEntry>) -> Seq<Seq<char>> {
    entries.map_values(|e: JournalEntry| truncated(e.message@, SAMPLE_MESSAGE_LIMIT as nat))
}

fn contains_text_item(items: &Vec<String>, item: &String) -> (r: bool)
    ensures
        r == texts_view(items@).contains(item@),
{
    let mut i: usize = 0;
    while i < items.len()
        invariant
            i <= items@.len(),
            forall|k: int| 0 <= k < i ==> items@[k]@ != item@,
        decreases items@.len() - i,
    {
        if items[i] == *item {
            assert(texts_view(items@)[i as int] == item@);
            return true;
        }
        i = i + 1;
    }
    proof {
        if texts_view(items@).contains(item@) {
            let k = choose|k: int| 0 <= k < texts_view(items@).len() && texts_view(items@)[k] == item@;
            assert(items@[k]@ == item@);
        }
    }
    false
}

/// The sample of error messages the short prompt shows.
pub fn sample_messages(entries: &Vec<JournalEntry>) -> (r: Vec<String>)
    ensures
        texts_view(r@) == sample_of(cut_messages(entries@)),
{
    let mut sample: Vec<String> = Vec::new();
    let mut i: usize = 0;
    while i < entries.len()
        invariant
            i <= entries@.len(),
            texts_view(sample@) == sample_of(cut_messages(entries@.take(i as int))),
        decreases entries@.len() - i,
    {
        proof {
            let next = cut_messages(entries@.take(i + 1));
            assert(next.drop_last() =~= cut_messages(entries@.take(i as int)));
            assert(next.last() == truncated(entries@[i as int].message@, SAMPLE_MESSAGE_LIMIT as nat));
        }
        if sample.len() < SAMPLE_SIZE {
            let msg = truncate_message(entries[i].message.as_str(), SAMPLE_MESSAGE_LIMIT);
            if !contains_text_item(&sample, &msg) {
                sample.push(msg);
                assert(texts_view(sample@) =~= sample_of(cut_messages(entries@.take(i + 1))));
            }
        }
        i = i + 1;
    }
    assert(entries@.take(entries@.len() as int) =~= entries@);
    sample
}

/// What separates the header from the sample in the short prompt; the `\n`
/// in it is a backslash and an `n`, not a line break.
pub const SAMPLE_HEADING: &'static str = "\n            Error Sample (first unique messages):\\n";

impl SpikeAnalyzer {
    pub fn new(hostname: String, service: String) -> (r: SpikeAnalyzer)
        ensures
            r.hostname == hostname,
            r.service == service,
    {
        SpikeAnalyzer { hostname, service }
    }

    /// The header naming host, service, time range and error count.
    pub fn compose_analysis_request_header(&self, start: &str, end: &str, errors_count: u64) -> (r:
        String)
        ensures
            r@ == request_header(self.hostname@, self.service@, start@, end@, errors_count),
    {
        let mut out = String::from_str("Analysis Request for host: \"");
        out.append(self.hostname.as_str());
        out.append("\", service: \"");
        out.append(self.service.as_str());
        out.append("\"\n            Time Range: ");
        out.append(start);
        out.append(" to ");
        out.append(end);
        out.append(" (Unix timestamps)\n            Incident Profile: Detected a spike of ");
        let count = u64_text(errors_count);
        out.append(count.as_str());
        out.append(" errors in this window.");
        out
    }

    /// The full prompt: the header, the instructions, then the entries, each
    /// already written as JSON, separated by blank lines.
    pub fn compose_spike_summary_user_prompt(
        &self,
        start: &str,
        end: &str,
        errors_count: u64,
        entries_json: &Vec<String>,
    ) -> (r: String)
        ensures
            r@ == request_header(self.hostname@, self.service@, start@, end@, errors_count)
                + SPIKE_SUMMARY_INSTRUCTIONS@ + joined(texts_view(entries_json@), "\n\n"@),
    {
        let mut out = self.compose_analysis_request_header(start, end, errors_count);
        out.append(SPIKE_SUMMARY_INSTRUCTIONS);
        let entries = join_texts(entries_json, "\n\n");
        out.append(entries.as_str());
        out
    }

    /// The short prompt kept in the conversation: the header and a sample of
    /// at most five distinct error messages, each cut to 200 characters.
    pub fn compose_spike_summary_user_prompt_lite(
        &self,
        start: &str,
        end: &str,
        errors_count: u64,
        entries: &Vec<JournalEntry>,
    ) -> (r: String)
        ensures
            r@ == request_header(self.hostname@, self.service@, start@, end@, errors_count)
                + SAMPLE_HEADING@ + joined(sample_of(cut_messages(entries@)), "\n"@),
    {
        let mut out = self.compose_analysis_request_header(start, end, errors_count);
        out.append(SAMPLE_HEADING);
        let sample = sample_messages(entries);
        let error_sample = join_texts(&sample, "\n");
        out.append(error_sample.as_str());
        out
    }
}

// ---------------------------------------------------------------------------
// Reading the entries of a spike
// ---------------------------------------------------------------------------

pub const ENTRIES_FETCH_QUERY: &'static str = r#"SELECT boot_id, hostname, machine_id, priority, message, date, runtime_scope,
    pid, uid, gid, transport, syslog_facility, syslog_identifier,
    comm, exe, cmdline, unit, systemd_unit, systemd_slice, systemd_cgroup,
    code_line, code_file, job_id, job_result, job_type, invocation_id,
    source_monotonic_timestamp, source_boottime_timestamp FROM entries"#;

/// The query for the entries with `count` given ids, at most `remaining` of them.
pub open spec fn ids_sql(count: nat, remaining: nat) -> Seq<char> {
    ENTRIES_FETCH_QUERY@ + " WHERE id IN ("@ + numbered_params(1, count) + ") LIMIT "@
        + crate::text::decimal_digits(remaining)
}

/// The ids as query parameters.
pub open spec fn id_params(ids: Seq<u64>) -> Seq<SqlParamView> {
    ids.map_values(|id: u64| SqlParamView::Int8(id as i64))
}

/// Where the chunk that starts at `start` ends.
pub open spec fn chunk_end(len: nat, start: nat) -> nat {
    if start + MAX_PARAMS < len {
        start + MAX_PARAMS as nat
    } else {
        len
    }
}

/// The next query for the entries of a spike, given where the next chunk of
/// ids starts and how many entries were read so far, with the position the
/// chunk after it starts at; `None` when all ids were asked for, or when
/// `limit` entries were read (the first chunk is always asked for).
pub fn entries_by_ids_step(ids: &Vec<JournalEntryId>, start: usize, fetched: usize, limit: u16) -> (r:
    Option<(Statement, usize)>)
    ensures
        (start >= ids@.len() || (start > 0 && fetched >= limit)) ==> r is None,
        !(start >= ids@.len() || (start > 0 && fetched >= limit)) ==> (r matches Some((statement, next))
            && {
            let end = chunk_end(ids@.len(), start as nat);
            let remaining = if fetched <= limit {
                limit - fetched
            } else {
                0
            };
            &&& next == end
            &&& statement.sql@ == ids_sql((end - start) as nat, remaining as nat)
            &&& params_view(statement.params@) == id_params(ids@.subrange(start as int, end as int))
        }),
{
    let n = ids.len();
    if start >= n || (start > 0 && fetched >= limit as usize) {
        return None;
    }
    let end = if n - start > MAX_PARAMS {
        start + MAX_PARAMS
    } else {
        n
    };
    let remaining: usize = if fetched <= limit as usize {
        limit as usize - fetched
    } else {
        0
    };
    let mut params: Vec<SqlParam> = Vec::new();
    let mut i = start;
    while i < end
        invariant
            start <= i <= end <= ids@.len(),
            params_view(params@) == id_params(ids@.subrange(start as int, i as int)),
        decreases end - i,
    {
        let ghost before = params@;
        let id = ids[i];
        params.push(SqlParam::Int8(id as i64));
        proof {
            let next = ids@.subrange(start as int, i + 1);
            assert(next =~= ids@.subrange(start as int, i as int).push(id));
            assert(id_params(next) =~= id_params(ids@.subrange(start as int, i as int)).push(
                SqlParamView::Int8(id as i64),
            ));
            assert(params_view(params@) =~= params_view(before).push(SqlParamView::Int8(id as i64)));
        }
        i = i + 1;
    }
    let mut sql = String::from_str(ENTRIES_FETCH_QUERY);
    sql.append(" WHERE id IN (");
    push_numbered_params(&mut sql, 1, (end - start) as u64);
    sql.append(") LIMIT ");
    let limit_text = u64_text(remaining as u64);
    sql.append(limit_text.as_str());
    Some((Statement { sql, params }, end))
}

// ---------------------------------------------------------------------------
// Storing an analysis
// ---------------------------------------------------------------------------

pub const INSERT_ANALYSIS_QUERY: &'static str = r#"INSERT INTO analyses (hostname, analysis_type, model, summary, severity, needs_user_action) VALUES ($1, $2, $3, $4, $5, $6) RETURNING id"#;

pub const LINK_FIELD_COUNT: usize = 2;

/// Links written per statement, so that a statement stays within `MAX_PARAMS`.
pub const LINK_CHUNK_SIZE: usize = MAX_PARAMS / LINK_FIELD_COUNT;

pub const INSERT_LINKS_QUERY: &'static str = "INSERT INTO analyzed_entries (entry_id, analysis_id) VALUES ";

/// The statement that stores an analysis of the entries `entry_ids`, with
/// the verdict of the structured call, and returns its id; none when there
/// are no entries, for then nothing is stored.
pub fn analysis_insert_statement(
    hostname: String,
    analysis_type: String,
    model: String,
    summary: String,
    assertion: SpikeEventAssertion,
    entry_ids: &Vec<JournalEntryId>,
) -> (r: Option<Statement>)
    ensures
        entry_ids@.len() == 0 ==> r is None,
        entry_ids@.len() > 0 ==> (r matches Some(statement) && statement.sql@ == INSERT_ANALYSIS_QUERY@
            && params_view(statement.params@) == seq![
            SqlParamView::Text(hostname@),
            SqlParamView::Text(analysis_type@),
            SqlParamView::Text(model@),
            SqlParamView::Text(summary@),
            SqlParamView::Text(severity_name(assertion.severity)),
            SqlParamView::Boolean(assertion.needs_user_action),
        ]),
{
    if entry_ids.len() == 0 {
        return None;
    }
    let ghost views = seq![
        SqlParamView::Text(hostname@),
        SqlParamView::Text(analysis_type@),
        SqlParamView::Text(model@),
        SqlParamView::Text(summary@),
        SqlParamView::Text(severity_name(assertion.severity)),
        SqlParamView::Boolean(assertion.needs_user_action),
    ];
    let mut params: Vec<SqlParam> = Vec::new();
    params.push(SqlParam::Text(hostname));
    params.push(SqlParam::Text(analysis_type));
    params.push(SqlParam::Text(model));
    params.push(SqlParam::Text(summary));
    params.push(SqlParam::Text(assertion.severity.to_string()));
    params.push(SqlParam::Boolean(assertion.needs_user_action));
    assert(params_view(params@) =~= views);
    Some(Statement { sql: String::from_str(INSERT_ANALYSIS_QUERY), params })
}

/// The id of a stored analysis: the first column of the first row returned.
pub fn analysis_id_from_rows(rows: &Vec<DbRow>) -> (r: Result<u64, APIError>)
    ensures
        (rows@.len() > 0 && rows@[0].values@.len() > 0) ==> r == Ok::<u64, APIError>(
            crate::db::u64_of(rows@[0].values@[0]),
        ),
        !(rows@.len() > 0 && rows@[0].values@.len() > 0) ==> (r matches Err(e) && e@
            == APIErrorView::InsertError("Failed to retrieve analysis ID"@)),
{
    if rows.len() > 0 && rows[0].values.len() > 0 {
        Ok(u64::from_db_value(&rows[0].values[0]))
    } else {
        Err(APIErrorType::Insert.of_string(String::from_str("Failed to retrieve analysis ID")))
    }
}

/// The link parameters of the entries: entry id and analysis id, per entry.
pub open spec fn link_params(ids: Seq<u64>, analysis_id: u64) -> Seq<SqlParamView>
    decreases ids.len(),
{
    if ids.len() == 0 {
        Seq::empty()
    } else {
        link_params(ids.drop_last(), analysis_id) + seq![
            SqlParamView::Int8(ids.last() as i64),
            SqlParamView::Int8(analysis_id as i64),
        ]
    }
}

/// The `k`-th chunk of ids: at most `LINK_CHUNK_SIZE` of them.
pub open spec fn link_chunk(ids: Seq<u64>, k: int) -> Seq<u64> {
    let start = k * LINK_CHUNK_SIZE;
    let end = if start + LINK_CHUNK_SIZE < ids.len() {
        start + LINK_CHUNK_SIZE
    } else {
        ids.len() as int
    };
    ids.subrange(start, end)
}

fn link_statement(ids: &Vec<JournalEntryId>, start: usize, end: usize, analysis_id: u64) -> (r: Statement)
    requires
        start < end <= ids@.len(),
        end - start <= LINK_CHUNK_SIZE,
    ensures
        r.sql@ == INSERT_LINKS_QUERY@ + crate::sql::param_groups((end - start) as nat, 2),
        params_view(r.params@) == link_params(ids@.subrange(start as int, end as int), analysis_id),
{
    let mut params: Vec<SqlParam> = Vec::new();
    let mut i = start;
    while i < end
        invariant
            start <= i <= end <= ids@.len(),
            params_view(params@) == link_params(ids@.subrange(start as int, i as int), analysis_id),
        decreases end - i,
    {
        params.push(SqlParam::Int8(ids[i] as i64));
        params.push(SqlParam::Int8(analysis_id as i64));
        proof {
            let next = ids@.subrange(start as int, i + 1);
            assert(next.drop_last() =~= ids@.subrange(start as int, i as int));
            assert(next.last() == ids@[i as int]);
            assert(params_view(params@) =~= link_params(next, analysis_id));
        }
        i = i + 1;
    }
    let mut sql = String::from_str(INSERT_LINKS_QUERY);
    let groups = crate::sql::param_groups_text((end - start) as u64, 2);
    sql.append(groups.as_str());
    Statement { sql, params }
}

/// The statements that link the entries to the stored analysis: one per
/// chunk of at most `LINK_CHUNK_SIZE` ids, in order; none for no ids.
pub fn analysis_link_statements(entry_ids: &Vec<JournalEntryId>, analysis_id: u64) -> (r: Vec<
    Statement,
>)
    ensures
        r@.len() == crate::collector::chunk_count(entry_ids@.len(), LINK_CHUNK_SIZE as nat),
        forall|k: int|
            0 <= k < r@.len() ==> {
                &&& (#[trigger] r@[k]).sql@ == INSERT_LINKS_QUERY@ + crate::sql::param_groups(
                    link_chunk(entry_ids@, k).len(),
                    2,
                )
                &&& params_view(r@[k].params@) == link_params(link_chunk(entry_ids@, k), analysis_id)
            },
{
    let n = entry_ids.len();
    let mut out: Vec<Statement> = Vec::new();
    let mut start: usize = 0;
    while start < n
        invariant
            n == entry_ids@.len(),
            start <= n,
            start < n ==> start == out@.len() * LINK_CHUNK_SIZE,
            out@.len() == crate::collector::chunk_count(start as nat, LINK_CHUNK_SIZE as nat),
            forall|k: int|
                0 <= k < out@.len() ==> {
                    &&& (#[trigger] out@[k]).sql@ == INSERT_LINKS_QUERY@ + crate::sql::param_groups(
                        link_chunk(entry_ids@, k).len(),
                        2,
                    )
                    &&& params_view(out@[k].params@) == link_params(
                        link_chunk(entry_ids@, k),
                        analysis_id,
                    )
                },
        decreases n - start,
    {
        let end = if n - start > LINK_CHUNK_SIZE {
            start + LINK_CHUNK_SIZE
        } else {
            n
        };
        let statement = link_statement(entry_ids, start, end, analysis_id);
        proof {
            let k = out@.len() as int;
            assert(link_chunk(entry_ids@, k) =~= entry_ids@.subrange(start as int, end as int));
        }
        out.push(statement);
        proof {
            assert(crate::collector::chunk_count(end as nat, LINK_CHUNK_SIZE as nat) == out@.len()) by {
                if end < n {
                    assert(end == out@.len() * LINK_CHUNK_SIZE);
                } else {
                    assert((start + LINK_CHUNK_SIZE - 1) / (LINK_CHUNK_SIZE as int) == (out@.len() - 1)
                        + 0) by (nonlinear_arith)
                        requires
                            start == (out@.len() - 1) * LINK_CHUNK_SIZE,
                            LINK_CHUNK_SIZE == 32767,
                    ;
                }
            }
        }
        start = end;
    }
    out
}

} // verus!
