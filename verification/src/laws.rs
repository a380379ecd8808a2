//! Properties that hold across the library's functions: what every call keeps,
//! what one function reads back of another's output.
use vstd::multiset::Multiset;
use vstd::prelude::*;

use crate::analyzer::{
    compacted, cut_messages, link_chunk, sample_of, LINK_CHUNK_SIZE, LINK_FIELD_COUNT,
    SAMPLE_MESSAGE_LIMIT, SAMPLE_SIZE,
};
use crate::collector::{
    optional_param_view, BASE_FETCH_QUERY, BASE_INSERT_QUERY,
    accepted, accepted_of, chunk_count, entries_params_of, entry_conditions, entry_params,
    insert_chunk, rejected_of, stored_priority, INSERT_CHUNK_SIZE, INSERT_FIELD_COUNT,
};
use crate::connection::{needs_trigram, runnable, schema_queries, CREATE_ENTRIES_MESSAGE_INDEX};
use crate::db::{FromDbValue, seconds_of, DbRow, DbValue, Seconds, SqlParamView};
use crate::ieee::f64_is_nan;
use crate::model::{entry_from_row, optional_view, severity_name, JournalEntry, SpikeEventSeverity};
use crate::sql::{param_ref, MAX_PARAMS};
use crate::text::{
    all_ascii_digits, decimal_digits, decimal_text, digit_char, digits_value, is_ascii_digit,
    occurs_at, parsed_i32, parsed_unsigned, truncated, unsigned_body,
};
use crate::text::contains_seq;
use crate::db::{bool_of, i32_of, text_of, u64_of, u8_of};
use crate::text::{joined, replaced};
use crate::visualizer::{
    alert_html_of, is_analysis_of, is_record_of, queue_item_of, AnalysisInfo, ALERT_CLASS_END,
    ALERT_COUNT_END, ALERT_END, ALERT_HOST_END, ALERT_SERVICE_END, ALERT_SEVERITY_END,
    ALERT_STARTED_END, ALERT_START, ANALYSIS_HISTORY_QUERY, ANALYSIS_RECORDS_QUERY,
    ANALYSIS_RECORD_QUERY, QUEUE_ITEM_END, QUEUE_ITEM_HOST_END, QUEUE_ITEM_SERVICE_END,
    QUEUE_ITEM_SEVERITY_END, QUEUE_ITEM_START, QUEUE_ITEM_TYPE_END, RECENT_ANALYSES_QUERY,
    alert_class_of, details_page, history_row_of, is_alert_of, overview_page, yes_no, AlertInfo,
    AnalysisRecord, ACTIVE_ALERTS_QUERY, DETAILS_ACTION_END, DETAILS_ANALYSED_AT_END,
    DETAILS_BACK_LINKS, DETAILS_ENTRIES_END, DETAILS_FIRST_ERROR_END, DETAILS_HOST_END,
    DETAILS_ID_END, DETAILS_LAST_ERROR_END, DETAILS_MODEL_END, DETAILS_SERVICE_END,
    DETAILS_SEVERITY_END, DETAILS_SUMMARY_END, DETAILS_TOP, DETAILS_TYPE_END, HISTORY_CELL_BREAK,
    HISTORY_DETAILS_LINK, HISTORY_ROW_END, HISTORY_ROW_START, DashboardOverview, ACTIVE_HOSTS_END, COLLECTION_RATE_END,
    CRITICAL_ALERTS_END, ENTRIES_TODAY_END, ERROR_SPIKES_END, HTML_FOOTER, HTML_HEADER,
    MANAGED_HOSTS_END, OVERVIEW_LINKS, OVERVIEW_TOP, PAGE_END,
};

verus! {

/// Partitioning loses and invents nothing: the accepted and the rejected
/// entries together are exactly the entries sent, every accepted entry
/// passes the filters and every rejected one fails them.
pub proof fn partition_is_complete(hostname: Seq<char>, entries: Seq<JournalEntry>)
    ensures
        accepted_of(hostname, entries).len() + rejected_of(hostname, entries).len()
            == entries.len(),
        accepted_of(hostname, entries).to_multiset().add(rejected_of(hostname, entries).to_multiset())
            == entries.to_multiset(),
        forall|i: int|
            0 <= i < accepted_of(hostname, entries).len() ==> accepted(
                hostname,
                #[trigger] accepted_of(hostname, entries)[i],
            ),
        forall|i: int|
            0 <= i < rejected_of(hostname, entries).len() ==> !accepted(
                hostname,
                #[trigger] rejected_of(hostname, entries)[i],
            ),
    decreases entries.len(),
{
    broadcast use vstd::seq_lib::to_multiset_build;

    if entries.len() == 0 {
        broadcast use vstd::seq_lib::to_multiset_len, vstd::multiset::lemma_multiset_empty_len;

        assert(accepted_of(hostname, entries).to_multiset().len() == 0);
        assert(rejected_of(hostname, entries).to_multiset().len() == 0);
        assert(entries.to_multiset().len() == 0);
        assert(accepted_of(hostname, entries).to_multiset().add(
            rejected_of(hostname, entries).to_multiset(),
        ) =~= entries.to_multiset());
    } else {
        let init = entries.drop_last();
        let last = entries.last();
        partition_is_complete(hostname, init);
        assert(entries =~= init.push(last));
        if accepted(hostname, last) {
            assert(accepted_of(hostname, entries) == accepted_of(hostname, init).push(last));
            assert(accepted_of(hostname, entries).to_multiset() =~= accepted_of(hostname, init).to_multiset().insert(last));
        } else {
            assert(rejected_of(hostname, entries) == rejected_of(hostname, init).push(last));
            assert(rejected_of(hostname, entries).to_multiset() =~= rejected_of(hostname, init).to_multiset().insert(last));
        }
        assert(entries.to_multiset() =~= init.to_multiset().insert(last));
        assert(accepted_of(hostname, entries).to_multiset().add(rejected_of(hostname, entries).to_multiset())
            =~= entries.to_multiset());
    }
}

/// The `k`-th piece of at most `size` items of `s`.
pub open spec fn piece<T>(s: Seq<T>, k: int, size: nat) -> Seq<T> {
    let start = k * size;
    let end = if start + size < s.len() {
        start + size
    } else {
        s.len() as int
    };
    s.subrange(start, end)
}

/// The first `count` pieces of `s`, one after the other.
pub open spec fn pieces_joined<T>(s: Seq<T>, count: nat, size: nat) -> Seq<T>
    decreases count,
{
    if count == 0 {
        Seq::empty()
    } else {
        pieces_joined(s, (count - 1) as nat, size) + piece(s, count - 1, size)
    }
}

proof fn lemma_pieces_prefix<T>(s: Seq<T>, count: nat, size: nat)
    requires
        size > 0,
        count <= chunk_count(s.len(), size),
    ensures
        pieces_joined(s, count, size) == s.subrange(
            0,
            if count * size < s.len() {
                (count * size) as int
            } else {
                s.len() as int
            },
        ),
    decreases count,
{
    if count == 0 {
        assert(count * size == 0) by (nonlinear_arith)
            requires
                count == 0,
        ;
        assert(pieces_joined(s, count, size) =~= s.subrange(0, 0));
    } else {
        let k = (count - 1) as nat;
        lemma_pieces_prefix(s, k, size);
        assert(k * size < s.len()) by (nonlinear_arith)
            requires
                k + 1 <= ((s.len() + size - 1) as nat) / size,
                size > 0,
        ;
        assert(count * size == k * size + size) by (nonlinear_arith)
            requires
                count == k + 1,
        ;
        let end = if count * size < s.len() {
            (count * size) as int
        } else {
            s.len() as int
        };
        assert(pieces_joined(s, count, size) =~= s.subrange(0, end));
    }
}

/// Cutting `s` into pieces of `size` loses and repeats nothing: the
/// `chunk_count` pieces, one after the other, are `s`, and none is empty or
/// larger than `size`.
pub proof fn pieces_cover<T>(s: Seq<T>, size: nat)
    requires
        size > 0,
    ensures
        pieces_joined(s, chunk_count(s.len(), size), size) == s,
        forall|k: int|
            0 <= k < chunk_count(s.len(), size) ==> 0 < (#[trigger] piece(s, k, size)).len() <= size,
{
    let count = chunk_count(s.len(), size);
    lemma_pieces_prefix(s, count, size);
    assert(count * size >= s.len()) by (nonlinear_arith)
        requires
            count == ((s.len() + size - 1) as nat) / size,
            size > 0,
    ;
    assert(s.subrange(0, s.len() as int) =~= s);
    assert forall|k: int| 0 <= k < count implies 0 < (#[trigger] piece(s, k, size)).len() <= size by {
        assert(k * size < s.len()) by (nonlinear_arith)
            requires
                0 <= k,
                k + 1 <= ((s.len() + size - 1) as nat) / size,
                size > 0,
        ;
    }
}

/// Storing entries stores each of them once: the chunks of the insert
/// statements, one after the other, are the entries, and no statement has
/// more parameters than PostgreSQL accepts.
pub proof fn insert_chunks_cover_entries(entries: Seq<JournalEntry>)
    ensures
        pieces_joined(
            entries,
            chunk_count(entries.len(), INSERT_CHUNK_SIZE as nat),
            INSERT_CHUNK_SIZE as nat,
        ) == entries,
        forall|k: int|
            0 <= k < chunk_count(entries.len(), INSERT_CHUNK_SIZE as nat) ==> {
                &&& #[trigger] insert_chunk(entries, k) == piece(entries, k, INSERT_CHUNK_SIZE as nat)
                &&& 0 < insert_chunk(entries, k).len()
                &&& insert_chunk(entries, k).len() * INSERT_FIELD_COUNT <= MAX_PARAMS
            },
{
    pieces_cover(entries, INSERT_CHUNK_SIZE as nat);
    assert forall|k: int| 0 <= k < chunk_count(entries.len(), INSERT_CHUNK_SIZE as nat) implies {
        &&& #[trigger] insert_chunk(entries, k) == piece(entries, k, INSERT_CHUNK_SIZE as nat)
        &&& 0 < insert_chunk(entries, k).len()
        &&& insert_chunk(entries, k).len() * INSERT_FIELD_COUNT <= MAX_PARAMS
    } by {
        assert(0 < piece(entries, k, INSERT_CHUNK_SIZE as nat).len());
    }
}

/// Linking an analysis to its entries links each entry once: the chunks of
/// the link statements, one after the other, are the entry ids, and no
/// statement has more parameters than PostgreSQL accepts.
pub proof fn link_chunks_cover_entries(ids: Seq<u64>)
    ensures
        pieces_joined(ids, chunk_count(ids.len(), LINK_CHUNK_SIZE as nat), LINK_CHUNK_SIZE as nat)
            == ids,
        forall|k: int|
            0 <= k < chunk_count(ids.len(), LINK_CHUNK_SIZE as nat) ==> {
                &&& #[trigger] link_chunk(ids, k) == piece(ids, k, LINK_CHUNK_SIZE as nat)
                &&& 0 < link_chunk(ids, k).len()
                &&& link_chunk(ids, k).len() * LINK_FIELD_COUNT <= MAX_PARAMS
            },
{
    pieces_cover(ids, LINK_CHUNK_SIZE as nat);
    assert forall|k: int| 0 <= k < chunk_count(ids.len(), LINK_CHUNK_SIZE as nat) implies {
        &&& #[trigger] link_chunk(ids, k) == piece(ids, k, LINK_CHUNK_SIZE as nat)
        &&& 0 < link_chunk(ids, k).len()
        &&& link_chunk(ids, k).len() * LINK_FIELD_COUNT <= MAX_PARAMS
    } by {
        assert(0 < piece(ids, k, LINK_CHUNK_SIZE as nat).len());
    }
}

/// A cut message keeps its first `limit` characters and gains at most the
/// three characters of "..."; a message of at most `limit` characters is
/// kept whole.
pub proof fn truncation_keeps_prefix(message: Seq<char>, limit: nat)
    ensures
        truncated(message, limit).len() <= limit + 3,
        message.len() <= limit ==> truncated(message, limit) == message,
        message.len() > limit ==> truncated(message, limit).take(limit as int) == message.take(
            limit as int,
        ),
{
    reveal_strlit("...");
    if message.len() > limit {
        assert(truncated(message, limit).take(limit as int) =~= message.take(limit as int));
    }
}

/// Compaction keeps the latest events, in order: the last `limit` of them,
/// or all when there are no more.
pub proof fn compaction_keeps_latest<T>(events: Seq<T>, limit: nat)
    ensures
        compacted(events, limit).len() == if events.len() > limit {
            limit
        } else {
            events.len()
        },
        forall|i: int|
            0 <= i < compacted(events, limit).len() ==> #[trigger] compacted(events, limit)[i]
                == events[events.len() - compacted(events, limit).len() + i],
{
}

/// The sample of the short prompt holds at most `SAMPLE_SIZE` messages, no
/// message twice, and only messages that occur.
pub proof fn sample_is_small_and_distinct(msgs: Seq<Seq<char>>)
    ensures
        sample_of(msgs).len() <= SAMPLE_SIZE,
        sample_of(msgs).no_duplicates(),
        forall|i: int| 0 <= i < sample_of(msgs).len() ==> msgs.contains(#[trigger] sample_of(msgs)[i]),
    decreases msgs.len(),
{
    if msgs.len() > 0 {
        let init = msgs.drop_last();
        sample_is_small_and_distinct(init);
        assert forall|i: int| 0 <= i < sample_of(msgs).len() implies msgs.contains(
            #[trigger] sample_of(msgs)[i],
        ) by {
            if i < sample_of(init).len() {
                let x = sample_of(init)[i];
                assert(init.contains(x));
                let j = choose|j: int| 0 <= j < init.len() && init[j] == x;
                assert(msgs[j] == x);
            } else {
                assert(msgs[msgs.len() - 1] == msgs.last());
            }
        }
    }
}

/// The messages the short prompt samples are cut to `SAMPLE_MESSAGE_LIMIT`
/// characters, with at most three more for the mark of the cut.
pub proof fn sampled_messages_are_cut(entries: Seq<JournalEntry>)
    ensures
        forall|i: int|
            0 <= i < sample_of(cut_messages(entries)).len() ==> (#[trigger] sample_of(
                cut_messages(entries),
            )[i]).len() <= SAMPLE_MESSAGE_LIMIT + 3,
{
    sample_is_small_and_distinct(cut_messages(entries));
    assert forall|i: int| 0 <= i < sample_of(cut_messages(entries)).len() implies (
    #[trigger] sample_of(cut_messages(entries))[i]).len() <= SAMPLE_MESSAGE_LIMIT + 3 by {
        let x = sample_of(cut_messages(entries))[i];
        let j = choose|j: int| 0 <= j < cut_messages(entries).len() && cut_messages(entries)[j] == x;
        truncation_keeps_prefix(entries[j].message@, SAMPLE_MESSAGE_LIMIT as nat);
    }
}

/// Entry equality is symmetric.
pub proof fn entry_equality_is_symmetric(a: JournalEntry, b: JournalEntry)
    ensures
        a.same_event(&b) == b.same_event(&a),
{
}

/// Entry equality is transitive.
pub proof fn entry_equality_is_transitive(a: JournalEntry, b: JournalEntry, c: JournalEntry)
    requires
        a.same_event(&b),
        b.same_event(&c),
    ensures
        a.same_event(&c),
{
}

/// An entry equals itself, unless its date is not a number.
pub proof fn entry_equals_itself(a: JournalEntry)
    requires
        !f64_is_nan(a.date),
    ensures
        a.same_event(&a),
{
}

/// Equality compares the identity of an entry only: entries that agree on
/// boot, host, machine, message, process, user and group ids and date are
/// equal whatever their priority, scope and other metadata.
pub proof fn entry_equality_ignores_metadata(a: JournalEntry, b: JournalEntry)
    requires
        a.boot_id@ == b.boot_id@,
        a.hostname@ == b.hostname@,
        a.machine_id@ == b.machine_id@,
        a.message@ == b.message@,
        optional_view(a.pid) == optional_view(b.pid),
        optional_view(a.uid) == optional_view(b.uid),
        optional_view(a.gid) == optional_view(b.gid),
        a.date == b.date,
        !f64_is_nan(a.date),
    ensures
        a.same_event(&b),
{
}

proof fn lemma_decimal_digits_read_back(n: nat)
    ensures
        decimal_digits(n).len() > 0,
        all_ascii_digits(decimal_digits(n)),
        digits_value(decimal_digits(n)) == n,
        is_ascii_digit(decimal_digits(n)[0]),
    decreases n,
{
    if n < 10 {
        assert(digit_char(n) as int == n + '0' as int);
        assert(decimal_digits(n).drop_last() =~= Seq::<char>::empty());
        assert(digits_value(decimal_digits(n).drop_last()) == 0);
        assert(decimal_digits(n).last() == digit_char(n));
    } else {
        lemma_decimal_digits_read_back(n / 10);
        let d = decimal_digits(n);
        assert(d.drop_last() == decimal_digits(n / 10));
        assert(digit_char(n % 10) as int == n % 10 + '0' as int);
        assert(d[0] == decimal_digits(n / 10)[0]);
        assert(d.last() == digit_char(n % 10));
        assert(digits_value(d) == digits_value(decimal_digits(n / 10)) * 10 + (n % 10));
        assert((n / 10) * 10 + n % 10 == n);
    }
}

/// Writing a number and reading it back gives the number: a port written
/// into the connection URL reads back as the same port.
pub proof fn unsigned_text_reads_back(n: nat, max: nat)
    requires
        n <= max,
    ensures
        parsed_unsigned(decimal_text(n as int), max) == Some(n),
{
    lemma_decimal_digits_read_back(n);
    assert(unsigned_body(decimal_digits(n)) == decimal_digits(n));
}

/// Writing an `i32` and reading it back gives the same number: the id in an
/// analysis details link reads back as the analysis's id.
pub proof fn i32_text_reads_back(v: i32)
    ensures
        parsed_i32(decimal_text(v as int)) == Some(v as int),
{
    if v < 0 {
        let digits = decimal_digits((-v) as nat);
        lemma_decimal_digits_read_back((-v) as nat);
        assert((seq!['-'] + digits).drop_first() =~= digits);
        assert((seq!['-'] + digits)[0] == '-');
    } else {
        lemma_decimal_digits_read_back(v as nat);
    }
}

/// The severities have distinct names, so a stored severity reads back as
/// itself.
pub proof fn severity_names_differ(a: SpikeEventSeverity, b: SpikeEventSeverity)
    requires
        a != b,
    ensures
        severity_name(a) != severity_name(b),
{
    reveal_strlit("Low");
    reveal_strlit("Medium");
    reveal_strlit("High");
    reveal_strlit("Critical");
    assert("Low"@.len() == 3);
    assert("High"@.len() == 4);
    assert("Medium"@.len() == 6);
    assert("Critical"@.len() == 8);
}

/// An alert of an analysis stored with a severity has that severity's
/// style: critical, high and medium each their own, low the low one.
pub proof fn stored_severity_style(s: SpikeEventSeverity)
    ensures
        alert_class_of(severity_name(s)) == match s {
            SpikeEventSeverity::Critical => "alert-critical"@,
            SpikeEventSeverity::High => "alert-high"@,
            SpikeEventSeverity::Medium => "alert-medium"@,
            SpikeEventSeverity::Low => "alert-low"@,
        },
{
    severity_names_differ(SpikeEventSeverity::Low, SpikeEventSeverity::Critical);
    severity_names_differ(SpikeEventSeverity::Low, SpikeEventSeverity::High);
    severity_names_differ(SpikeEventSeverity::Low, SpikeEventSeverity::Medium);
    severity_names_differ(SpikeEventSeverity::Medium, SpikeEventSeverity::Critical);
    severity_names_differ(SpikeEventSeverity::Medium, SpikeEventSeverity::High);
    severity_names_differ(SpikeEventSeverity::High, SpikeEventSeverity::Critical);
}

proof fn lemma_runnable(s: Seq<Seq<char>>)
    ensures
        runnable(s, true) == s,
        forall|i: int|
            0 <= i < runnable(s, false).len() ==> !needs_trigram(#[trigger] runnable(s, false)[i]),
        forall|i: int|
            0 <= i < s.len() && !needs_trigram(#[trigger] s[i]) ==> runnable(s, false).contains(s[i]),
    decreases s.len(),
{
    if s.len() > 0 {
        lemma_runnable(s.drop_last());
        assert(s.drop_last().push(s.last()) =~= s);
        assert forall|i: int| 0 <= i < s.len() && !needs_trigram(#[trigger] s[i]) implies runnable(
            s,
            false,
        ).contains(s[i]) by {
            if i < s.len() - 1 {
                assert(s.drop_last()[i] == s[i]);
                let r = runnable(s.drop_last(), false);
                let j = choose|j: int| 0 <= j < r.len() && r[j] == s[i];
                assert(runnable(s, false)[j] == s[i]);
            } else {
                assert(runnable(s, false).last() == s[i]);
            }
        }
    }
}

/// With the trigram extension every schema statement runs. Without it the
/// statements that run never need it, every other one still runs, and the
/// message index (which needs it) is left out.
pub proof fn schema_without_trigram_skips_only_trigram_index()
    ensures
        runnable(schema_queries(), true) == schema_queries(),
        forall|i: int|
            0 <= i < runnable(schema_queries(), false).len() ==> !needs_trigram(
                #[trigger] runnable(schema_queries(), false)[i],
            ),
        forall|i: int|
            0 <= i < schema_queries().len() && !needs_trigram(#[trigger] schema_queries()[i])
                ==> runnable(schema_queries(), false).contains(schema_queries()[i]),
        needs_trigram(CREATE_ENTRIES_MESSAGE_INDEX@),
        !runnable(schema_queries(), false).contains(CREATE_ENTRIES_MESSAGE_INDEX@),
{
    lemma_runnable(schema_queries());
    reveal_strlit("CREATE INDEX IF NOT EXISTS idx_entries_message ON entries USING GIN(message gin_trgm_ops);");
    reveal_strlit("gin_trgm_ops");
    assert(CREATE_ENTRIES_MESSAGE_INDEX@.subrange(76, 88) =~= "gin_trgm_ops"@);
    assert(occurs_at(CREATE_ENTRIES_MESSAGE_INDEX@, "gin_trgm_ops"@, 76));
}

/// `r` is how `s` ends.
pub open spec fn ends_with(s: Seq<char>, r: Seq<char>) -> bool {
    r.len() <= s.len() && s.subrange(s.len() - r.len(), s.len() as int) == r
}

proof fn lemma_ends_with(p: Seq<char>, r: Seq<char>)
    ensures
        ends_with(p + r, r),
{
    assert((p + r).subrange((p + r).len() - r.len(), (p + r).len() as int) =~= r);
}

/// The entries query numbers its filters as it passes their values: there is
/// one parameter more than there are filters (the host comes first), and the
/// `i`-th filter refers to parameter `$(i + 2)`.
pub proof fn entry_filters_match_parameters(
    hostname: Seq<char>,
    since: Option<u64>,
    priority: Option<u8>,
    contains: Option<Seq<char>>,
)
    ensures
        ({
            let conditions = entry_conditions(since is Some, priority is Some, contains is Some);
            &&& entries_params_of(hostname, since, priority, contains).len() == conditions.len() + 1
            &&& forall|i: int|
                0 <= i < conditions.len() ==> ends_with(
                    #[trigger] conditions[i],
                    param_ref((i + 2) as nat),
                )
        }),
{
    let conditions = entry_conditions(since is Some, priority is Some, contains is Some);
    assert forall|i: int| 0 <= i < conditions.len() implies ends_with(
        #[trigger] conditions[i],
        param_ref((i + 2) as nat),
    ) by {
        lemma_ends_with("date >= "@, param_ref((i + 2) as nat));
        lemma_ends_with("priority <= "@, param_ref((i + 2) as nat));
        lemma_ends_with("message ILIKE "@, param_ref((i + 2) as nat));
    }
}

/// The column value PostgreSQL gives back for a stored parameter: text as
/// text, a small integer as a small integer, a double as the same double,
/// NULL as NULL.
pub open spec fn returns_param(v: DbValue, p: SqlParamView) -> bool {
    match (v, p) {
        (DbValue::Text(s), SqlParamView::Text(t)) => s@ == t,
        (DbValue::Int2(a), SqlParamView::Int2(b)) => a == b,
        (DbValue::Float8 { bits, .. }, SqlParamView::Float8(b)) => bits == b,
        (DbValue::Null, SqlParamView::Null) => true,
        _ => false,
    }
}

/// An entry read back from the row that storing it wrote gives back every
/// field as it was sent, but the priority, which reads back as the number
/// stored for it; and it equals the entry sent, unless the date is not a
/// number.
pub proof fn stored_entry_reads_back(e: JournalEntry, row: DbRow, date: u64, read: JournalEntry)
    requires
        row.values@.len() == INSERT_FIELD_COUNT,
        forall|i: int|
            0 <= i < INSERT_FIELD_COUNT ==> returns_param(
                #[trigger] row.values@[i],
                entry_params(e)[i],
            ),
        seconds_of(row.values@[5]) == Seconds::Double(date),
        entry_from_row(row, date, read),
    ensures
        read.boot_id@ == e.boot_id@,
        read.hostname@ == e.hostname@,
        read.machine_id@ == e.machine_id@,
        read.message@ == e.message@,
        read.date == e.date,
        read.runtime_scope@ == e.runtime_scope@,
        optional_view(read.pid) == optional_view(e.pid),
        optional_view(read.uid) == optional_view(e.uid),
        optional_view(read.gid) == optional_view(e.gid),
        optional_view(read.transport) == optional_view(e.transport),
        optional_view(read.syslog_facility) == optional_view(e.syslog_facility),
        optional_view(read.syslog_identifier) == optional_view(e.syslog_identifier),
        optional_view(read.comm) == optional_view(e.comm),
        optional_view(read.exe) == optional_view(e.exe),
        optional_view(read.cmdline) == optional_view(e.cmdline),
        optional_view(read.unit) == optional_view(e.unit),
        optional_view(read.systemd_unit) == optional_view(e.systemd_unit),
        optional_view(read.systemd_slice) == optional_view(e.systemd_slice),
        optional_view(read.systemd_cgroup) == optional_view(e.systemd_cgroup),
        optional_view(read.code_line) == optional_view(e.code_line),
        optional_view(read.code_file) == optional_view(e.code_file),
        optional_view(read.job_id) == optional_view(e.job_id),
        optional_view(read.job_result) == optional_view(e.job_result),
        optional_view(read.job_type) == optional_view(e.job_type),
        optional_view(read.invocation_id) == optional_view(e.invocation_id),
        optional_view(read.source_monotonic_timestamp) == optional_view(e.source_monotonic_timestamp),
        optional_view(read.source_boottime_timestamp) == optional_view(e.source_boottime_timestamp),
        read.priority@ == decimal_text(stored_priority(e.priority@) as int),
        !f64_is_nan(e.date) ==> read.same_event(&e),
{
    assert(returns_param(row.values@[0], entry_params(e)[0]));
    assert(returns_param(row.values@[1], entry_params(e)[1]));
    assert(returns_param(row.values@[2], entry_params(e)[2]));
    assert(returns_param(row.values@[3], entry_params(e)[3]));
    assert(returns_param(row.values@[4], entry_params(e)[4]));
    assert(returns_param(row.values@[5], entry_params(e)[5]));
    assert(returns_param(row.values@[6], entry_params(e)[6]));
    assert(returns_param(row.values@[7], entry_params(e)[7]));
    assert(returns_param(row.values@[8], entry_params(e)[8]));
    assert(returns_param(row.values@[9], entry_params(e)[9]));
    assert(returns_param(row.values@[10], entry_params(e)[10]));
    assert(returns_param(row.values@[11], entry_params(e)[11]));
    assert(returns_param(row.values@[12], entry_params(e)[12]));
    assert(returns_param(row.values@[13], entry_params(e)[13]));
    assert(returns_param(row.values@[14], entry_params(e)[14]));
    assert(returns_param(row.values@[15], entry_params(e)[15]));
    assert(returns_param(row.values@[16], entry_params(e)[16]));
    assert(returns_param(row.values@[17], entry_params(e)[17]));
    assert(returns_param(row.values@[18], entry_params(e)[18]));
    assert(returns_param(row.values@[19], entry_params(e)[19]));
    assert(returns_param(row.values@[20], entry_params(e)[20]));
    assert(returns_param(row.values@[21], entry_params(e)[21]));
    assert(returns_param(row.values@[22], entry_params(e)[22]));
    assert(returns_param(row.values@[23], entry_params(e)[23]));
    assert(returns_param(row.values@[24], entry_params(e)[24]));
    assert(returns_param(row.values@[25], entry_params(e)[25]));
    assert(returns_param(row.values@[26], entry_params(e)[26]));
    assert(returns_param(row.values@[27], entry_params(e)[27]));
}

/// An entry's priority is stored as the number its text reads as (`str::parse`
/// as a `u8`), and as 0 when the text is not such a number.
pub proof fn stored_priority_is_its_number(e: JournalEntry)
    ensures
        parsed_unsigned(e.priority@, 255) matches Some(v) ==> entry_params(e)[3]
            == SqlParamView::Int2(v as i16),
        parsed_unsigned(e.priority@, 255) is None ==> entry_params(e)[3] == SqlParamView::Int2(0),
        accepted(e.hostname@, e) ==> (entry_params(e)[3] matches SqlParamView::Int2(p) && 0 <= p
            <= 7 && parsed_unsigned(e.priority@, 255) == Some(p as nat)),
{
}

/// Each counter of the overview page stands right before its own label: the
/// page opens with the active hosts count followed by the "Active Hosts"
/// label, and each further count follows the label before it and precedes its
/// own; the host list and the time stand in their cards.
pub proof fn overview_counters_sit_by_their_labels(
    o: DashboardOverview,
    hosts: Seq<char>,
    updated_at: Seq<char>,
)
    ensures
        ({
            let page = overview_page(o, hosts, updated_at);
            let top = HTML_HEADER@ + OVERVIEW_TOP@;
            &&& page.subrange(0, top.len() as int) == top
            &&& occurs_at(page, decimal_text(o.active_hosts as int) + ACTIVE_HOSTS_END@, top.len() as int)
            &&& contains_seq(page, ACTIVE_HOSTS_END@ + decimal_text(o.total_entries_today as int) + ENTRIES_TODAY_END@)
            &&& contains_seq(page, ENTRIES_TODAY_END@ + decimal_text(o.error_spikes_active as int) + ERROR_SPIKES_END@)
            &&& contains_seq(page, ERROR_SPIKES_END@ + decimal_text(o.critical_alerts as int) + CRITICAL_ALERTS_END@)
            &&& contains_seq(page, CRITICAL_ALERTS_END@ + decimal_text(o.collection_rate_per_hour as int) + COLLECTION_RATE_END@)
            &&& contains_seq(page, COLLECTION_RATE_END@ + hosts + MANAGED_HOSTS_END@)
            &&& contains_seq(page, MANAGED_HOSTS_END@ + updated_at + OVERVIEW_LINKS@)
        }),
{
    let page = overview_page(o, hosts, updated_at);
    let top = HTML_HEADER@ + OVERVIEW_TOP@;
    let a = decimal_text(o.active_hosts as int);
    let t = decimal_text(o.total_entries_today as int);
    let sp = decimal_text(o.error_spikes_active as int);
    let c = decimal_text(o.critical_alerts as int);
    let r = decimal_text(o.collection_rate_per_hour as int);
    let p1 = top + a + ACTIVE_HOSTS_END@;
    let p2 = p1 + t + ENTRIES_TODAY_END@;
    let p3 = p2 + sp + ERROR_SPIKES_END@;
    let p4 = p3 + c + CRITICAL_ALERTS_END@;
    let p5 = p4 + r + COLLECTION_RATE_END@;
    let p6 = p5 + hosts + MANAGED_HOSTS_END@;
    let p7 = p6 + updated_at + OVERVIEW_LINKS@;
    assert(page == p7 + HTML_FOOTER@ + PAGE_END@);
    assert(page.subrange(0, top.len() as int) =~= top);
    assert(page.subrange(top.len() as int, (top.len() + (a + ACTIVE_HOSTS_END@).len()) as int) =~= a + ACTIVE_HOSTS_END@);
    let w2 = ACTIVE_HOSTS_END@ + t + ENTRIES_TODAY_END@;
    let k2 = (top + a).len() as int;
    assert(page.subrange(k2, k2 + w2.len()) =~= w2);
    assert(occurs_at(page, w2, k2));
    let w3 = ENTRIES_TODAY_END@ + sp + ERROR_SPIKES_END@;
    let k3 = (p1 + t).len() as int;
    assert(page.subrange(k3, k3 + w3.len()) =~= w3);
    assert(occurs_at(page, w3, k3));
    let w4 = ERROR_SPIKES_END@ + c + CRITICAL_ALERTS_END@;
    let k4 = (p2 + sp).len() as int;
    assert(page.subrange(k4, k4 + w4.len()) =~= w4);
    assert(occurs_at(page, w4, k4));
    let w5 = CRITICAL_ALERTS_END@ + r + COLLECTION_RATE_END@;
    let k5 = (p3 + c).len() as int;
    assert(page.subrange(k5, k5 + w5.len()) =~= w5);
    assert(occurs_at(page, w5, k5));
    let w6 = COLLECTION_RATE_END@ + hosts + MANAGED_HOSTS_END@;
    let k6 = (p4 + r).len() as int;
    assert(page.subrange(k6, k6 + w6.len()) =~= w6);
    assert(occurs_at(page, w6, k6));
    let w7 = MANAGED_HOSTS_END@ + updated_at + OVERVIEW_LINKS@;
    let k7 = (p5 + hosts).len() as int;
    assert(page.subrange(k7, k7 + w7.len()) =~= w7);
    assert(occurs_at(page, w7, k7));
}

/// Each labelled field of the details page shows the field of that label:
/// every value stands between the label it belongs to and the next label
/// (hostname after "Hostname:", service after "Service:", and so on, the
/// host again in the link back to its history).
#[verifier::rlimit(50)]
pub proof fn details_fields_sit_by_their_labels(a: AnalysisRecord)
    ensures
            contains_seq(details_page(a), DETAILS_TOP@ + decimal_text(a.id as int) + DETAILS_ID_END@),
            contains_seq(details_page(a), DETAILS_ID_END@ + a.hostname@ + DETAILS_HOST_END@),
            contains_seq(details_page(a), DETAILS_HOST_END@ + a.service_name@ + DETAILS_SERVICE_END@),
            contains_seq(details_page(a), DETAILS_SERVICE_END@ + a.analysis_type@ + DETAILS_TYPE_END@),
            contains_seq(details_page(a), DETAILS_TYPE_END@ + a.analysed_at@ + DETAILS_ANALYSED_AT_END@),
            contains_seq(details_page(a), DETAILS_ANALYSED_AT_END@ + a.severity@ + DETAILS_SEVERITY_END@),
            contains_seq(details_page(a), DETAILS_SEVERITY_END@ + a.model@ + DETAILS_MODEL_END@),
            contains_seq(details_page(a), DETAILS_MODEL_END@ + yes_no(a.needs_user_action) + DETAILS_ACTION_END@),
            contains_seq(details_page(a), DETAILS_ACTION_END@ + replaced(a.summary@, "\n"@, "<br>"@) + DETAILS_SUMMARY_END@),
            contains_seq(details_page(a), DETAILS_SUMMARY_END@ + decimal_text(a.entries_count as int) + DETAILS_ENTRIES_END@),
            contains_seq(details_page(a), DETAILS_ENTRIES_END@ + a.first_error@ + DETAILS_FIRST_ERROR_END@),
            contains_seq(details_page(a), DETAILS_FIRST_ERROR_END@ + a.last_error@ + DETAILS_LAST_ERROR_END@),
            contains_seq(details_page(a), DETAILS_LAST_ERROR_END@ + a.hostname@ + DETAILS_BACK_LINKS@),
{
    let page = details_page(a);
    let pre0 = HTML_HEADER@;
    let pre1 = pre0 + DETAILS_TOP@;
    let pre2 = pre1 + decimal_text(a.id as int);
    let pre3 = pre2 + DETAILS_ID_END@;
    let pre4 = pre3 + a.hostname@;
    let pre5 = pre4 + DETAILS_HOST_END@;
    let pre6 = pre5 + a.service_name@;
    let pre7 = pre6 + DETAILS_SERVICE_END@;
    let pre8 = pre7 + a.analysis_type@;
    let pre9 = pre8 + DETAILS_TYPE_END@;
    let pre10 = pre9 + a.analysed_at@;
    let pre11 = pre10 + DETAILS_ANALYSED_AT_END@;
    let pre12 = pre11 + a.severity@;
    let pre13 = pre12 + DETAILS_SEVERITY_END@;
    let pre14 = pre13 + a.model@;
    let pre15 = pre14 + DETAILS_MODEL_END@;
    let pre16 = pre15 + yes_no(a.needs_user_action);
    let pre17 = pre16 + DETAILS_ACTION_END@;
    let pre18 = pre17 + replaced(a.summary@, "\n"@, "<br>"@);
    let pre19 = pre18 + DETAILS_SUMMARY_END@;
    let pre20 = pre19 + decimal_text(a.entries_count as int);
    let pre21 = pre20 + DETAILS_ENTRIES_END@;
    let pre22 = pre21 + a.first_error@;
    let pre23 = pre22 + DETAILS_FIRST_ERROR_END@;
    let pre24 = pre23 + a.last_error@;
    let pre25 = pre24 + DETAILS_LAST_ERROR_END@;
    let pre26 = pre25 + a.hostname@;
    let pre27 = pre26 + DETAILS_BACK_LINKS@;
    let pre28 = pre27 + HTML_FOOTER@;
    let pre29 = pre28 + PAGE_END@;
    assert(page == pre29);
    let w2 = DETAILS_TOP@ + decimal_text(a.id as int) + DETAILS_ID_END@;
    let k2 = pre0.len() as int;
    assert(occurs_at(page, w2, k2)) by {
        assert(page.subrange(k2, k2 + w2.len()) =~= w2);
    }
    let w4 = DETAILS_ID_END@ + a.hostname@ + DETAILS_HOST_END@;
    let k4 = pre2.len() as int;
    assert(occurs_at(page, w4, k4)) by {
        assert(page.subrange(k4, k4 + w4.len()) =~= w4);
    }
    let w6 = DETAILS_HOST_END@ + a.service_name@ + DETAILS_SERVICE_END@;
    let k6 = pre4.len() as int;
    assert(occurs_at(page, w6, k6)) by {
        assert(page.subrange(k6, k6 + w6.len()) =~= w6);
    }
    let w8 = DETAILS_SERVICE_END@ + a.analysis_type@ + DETAILS_TYPE_END@;
    let k8 = pre6.len() as int;
    assert(occurs_at(page, w8, k8)) by {
        assert(page.subrange(k8, k8 + w8.len()) =~= w8);
    }
    let w10 = DETAILS_TYPE_END@ + a.analysed_at@ + DETAILS_ANALYSED_AT_END@;
    let k10 = pre8.len() as int;
    assert(occurs_at(page, w10, k10)) by {
        assert(page.subrange(k10, k10 + w10.len()) =~= w10);
    }
    let w12 = DETAILS_ANALYSED_AT_END@ + a.severity@ + DETAILS_SEVERITY_END@;
    let k12 = pre10.len() as int;
    assert(occurs_at(page, w12, k12)) by {
        assert(page.subrange(k12, k12 + w12.len()) =~= w12);
    }
    let w14 = DETAILS_SEVERITY_END@ + a.model@ + DETAILS_MODEL_END@;
    let k14 = pre12.len() as int;
    assert(occurs_at(page, w14, k14)) by {
        assert(page.subrange(k14, k14 + w14.len()) =~= w14);
    }
    let w16 = DETAILS_MODEL_END@ + yes_no(a.needs_user_action) + DETAILS_ACTION_END@;
    let k16 = pre14.len() as int;
    assert(occurs_at(page, w16, k16)) by {
        assert(page.subrange(k16, k16 + w16.len()) =~= w16);
    }
    let w18 = DETAILS_ACTION_END@ + replaced(a.summary@, "\n"@, "<br>"@) + DETAILS_SUMMARY_END@;
    let k18 = pre16.len() as int;
    assert(occurs_at(page, w18, k18)) by {
        assert(page.subrange(k18, k18 + w18.len()) =~= w18);
    }
    let w20 = DETAILS_SUMMARY_END@ + decimal_text(a.entries_count as int) + DETAILS_ENTRIES_END@;
    let k20 = pre18.len() as int;
    assert(occurs_at(page, w20, k20)) by {
        assert(page.subrange(k20, k20 + w20.len()) =~= w20);
    }
    let w22 = DETAILS_ENTRIES_END@ + a.first_error@ + DETAILS_FIRST_ERROR_END@;
    let k22 = pre20.len() as int;
    assert(occurs_at(page, w22, k22)) by {
        assert(page.subrange(k22, k22 + w22.len()) =~= w22);
    }
    let w24 = DETAILS_FIRST_ERROR_END@ + a.last_error@ + DETAILS_LAST_ERROR_END@;
    let k24 = pre22.len() as int;
    assert(occurs_at(page, w24, k24)) by {
        assert(page.subrange(k24, k24 + w24.len()) =~= w24);
    }
    let w26 = DETAILS_LAST_ERROR_END@ + a.hostname@ + DETAILS_BACK_LINKS@;
    let k26 = pre24.len() as int;
    assert(occurs_at(page, w26, k26)) by {
        assert(page.subrange(k26, k26 + w26.len()) =~= w26);
    }
}

/// The cells of a history row, in the order of the table's column headers:
/// Date, Service, Type, Severity, Entries, Model, First Error, Last Error.
pub open spec fn history_cells(a: AnalysisRecord) -> Seq<Seq<char>> {
    seq![
        a.analysed_at@,
        a.service_name@,
        a.analysis_type@,
        a.severity@,
        decimal_text(a.entries_count as int),
        a.model@,
        a.first_error@,
        a.last_error@,
    ]
}

/// A history row is its cells in header order, separated by cell breaks,
/// then the link to the analysis's details.
#[verifier::rlimit(30)]
pub proof fn history_row_follows_headers(a: AnalysisRecord)
    ensures
        history_row_of(a) == HISTORY_ROW_START@ + joined(history_cells(a), HISTORY_CELL_BREAK@)
            + HISTORY_DETAILS_LINK@ + decimal_text(a.id as int) + HISTORY_ROW_END@,
        history_cells(a)[6] == a.first_error@,
        history_cells(a)[7] == a.last_error@,
{
    let c = history_cells(a);
    let b = HISTORY_CELL_BREAK@;
    assert(c.take(1).drop_last() =~= c.take(0));
    assert(joined(c.take(1), b) == c[0]);
    assert(joined(c.take(2), b) == joined(c.take(1), b) + b + c[1]) by {
        assert(c.take(2).drop_last() =~= c.take(1));
    }
    assert(joined(c.take(3), b) == joined(c.take(2), b) + b + c[2]) by {
        assert(c.take(3).drop_last() =~= c.take(2));
    }
    assert(joined(c.take(4), b) == joined(c.take(3), b) + b + c[3]) by {
        assert(c.take(4).drop_last() =~= c.take(3));
    }
    assert(joined(c.take(5), b) == joined(c.take(4), b) + b + c[4]) by {
        assert(c.take(5).drop_last() =~= c.take(4));
    }
    assert(joined(c.take(6), b) == joined(c.take(5), b) + b + c[5]) by {
        assert(c.take(6).drop_last() =~= c.take(5));
    }
    assert(joined(c.take(7), b) == joined(c.take(6), b) + b + c[6]) by {
        assert(c.take(7).drop_last() =~= c.take(6));
    }
    assert(joined(c.take(8), b) == joined(c.take(7), b) + b + c[7]) by {
        assert(c.take(8).drop_last() =~= c.take(7));
    }
    assert(c.take(8) =~= c);
    assert(history_row_of(a) =~= HISTORY_ROW_START@ + joined(c, b) + HISTORY_DETAILS_LINK@ + decimal_text(a.id as int) + HISTORY_ROW_END@);
}

/// The columns of `ACTIVE_ALERTS_QUERY`, in order, as its select list names them.
pub const ACTIVE_ALERTS_COLUMNS: &'static str = r#"SELECT analyses.hostname,
       COALESCE(unit, syslog_identifier, comm, 'unknown') AS service_name,
       analyses.severity,
       COUNT(entry_id) as error_count,
       COALESCE(EXTRACT(EPOCH FROM MIN(TO_TIMESTAMP(date))), 0) as started_at,
       needs_user_action
FROM"#;

/// An alert takes each field from the column of that name: the query selects
/// host name, service name, severity, error count, start time and action flag
/// in that order, and the alert read from a row has its host name from
/// column 0, service name from column 1, severity from column 2, error count
/// from column 3, start time from column 4 and action flag from column 5.
pub proof fn alert_fields_come_from_their_columns(v: Seq<DbValue>, a: AlertInfo)
    requires
        is_alert_of(v, a),
    ensures
        ACTIVE_ALERTS_QUERY@.subrange(0, ACTIVE_ALERTS_COLUMNS@.len() as int) == ACTIVE_ALERTS_COLUMNS@,
        a.hostname@ == text_of(v[0]),
        a.service_name@ == text_of(v[1]),
        a.severity@ == text_of(v[2]),
        a.error_count == u64_of(v[3]),
        a.started_at@ == text_of(v[4]),
        a.needs_action == (u8_of(v[5]) != 0),
{
    reveal_strlit(r#"SELECT analyses.hostname,
       COALESCE(unit, syslog_identifier, comm, 'unknown') AS service_name,
       analyses.severity,
       COUNT(entry_id) as error_count,
       COALESCE(EXTRACT(EPOCH FROM MIN(TO_TIMESTAMP(date))), 0) as started_at,
       needs_user_action
FROM analyses
    JOIN analyzed_entries ON analyses.id = analyzed_entries.analysis_id
    JOIN entries ON analyzed_entries.entry_id = entries.id
WHERE analyses.severity IN ('High', 'Critical') AND analyses.analysed_at > NOW() - INTERVAL '1 hour'
GROUP BY analyses.id, analyses.hostname, analyses.severity, needs_user_action, service_name
ORDER BY analyses.analysed_at DESC
LIMIT 20"#);
    reveal_strlit(r#"SELECT analyses.hostname,
       COALESCE(unit, syslog_identifier, comm, 'unknown') AS service_name,
       analyses.severity,
       COUNT(entry_id) as error_count,
       COALESCE(EXTRACT(EPOCH FROM MIN(TO_TIMESTAMP(date))), 0) as started_at,
       needs_user_action
FROM"#);
    assert(ACTIVE_ALERTS_QUERY@.subrange(0, ACTIVE_ALERTS_COLUMNS@.len() as int) =~= ACTIVE_ALERTS_COLUMNS@);
}

/// Each part of an alert stands in its place: the style class of its
/// severity in the class attribute, then "host/service", the error count
/// before "errors", the start time after "Started:", the severity after
/// "Severity:" and the action flag after "Action Required:".
#[verifier::rlimit(30)]
pub proof fn alert_fields_sit_by_their_labels(a: AlertInfo)
    ensures
        contains_seq(alert_html_of(a), ALERT_START@ + alert_class_of(a.severity@) + ALERT_CLASS_END@),
        contains_seq(alert_html_of(a), ALERT_CLASS_END@ + a.hostname@ + ALERT_HOST_END@),
        contains_seq(alert_html_of(a), ALERT_HOST_END@ + a.service_name@ + ALERT_SERVICE_END@),
        contains_seq(alert_html_of(a), ALERT_SERVICE_END@ + decimal_text(a.error_count as int) + ALERT_COUNT_END@),
        contains_seq(alert_html_of(a), ALERT_COUNT_END@ + a.started_at@ + ALERT_STARTED_END@),
        contains_seq(alert_html_of(a), ALERT_STARTED_END@ + a.severity@ + ALERT_SEVERITY_END@),
        contains_seq(alert_html_of(a), ALERT_SEVERITY_END@ + yes_no(a.needs_action) + ALERT_END@),
{
    let page = alert_html_of(a);
    let pre0 = ALERT_START@;
    let pre1 = pre0 + alert_class_of(a.severity@);
    let pre2 = pre1 + ALERT_CLASS_END@;
    let pre3 = pre2 + a.hostname@;
    let pre4 = pre3 + ALERT_HOST_END@;
    let pre5 = pre4 + a.service_name@;
    let pre6 = pre5 + ALERT_SERVICE_END@;
    let pre7 = pre6 + decimal_text(a.error_count as int);
    let pre8 = pre7 + ALERT_COUNT_END@;
    let pre9 = pre8 + a.started_at@;
    let pre10 = pre9 + ALERT_STARTED_END@;
    let pre11 = pre10 + a.severity@;
    let pre12 = pre11 + ALERT_SEVERITY_END@;
    let pre13 = pre12 + yes_no(a.needs_action);
    let pre14 = pre13 + ALERT_END@;
    assert(page == pre14);
    let w1 = ALERT_START@ + alert_class_of(a.severity@) + ALERT_CLASS_END@;
    let k1 = 0;
    assert(occurs_at(page, w1, k1)) by {
        assert(page.subrange(k1, k1 + w1.len()) =~= w1);
    }
    let w3 = ALERT_CLASS_END@ + a.hostname@ + ALERT_HOST_END@;
    let k3 = pre1.len() as int;
    assert(occurs_at(page, w3, k3)) by {
        assert(page.subrange(k3, k3 + w3.len()) =~= w3);
    }
    let w5 = ALERT_HOST_END@ + a.service_name@ + ALERT_SERVICE_END@;
    let k5 = pre3.len() as int;
    assert(occurs_at(page, w5, k5)) by {
        assert(page.subrange(k5, k5 + w5.len()) =~= w5);
    }
    let w7 = ALERT_SERVICE_END@ + decimal_text(a.error_count as int) + ALERT_COUNT_END@;
    let k7 = pre5.len() as int;
    assert(occurs_at(page, w7, k7)) by {
        assert(page.subrange(k7, k7 + w7.len()) =~= w7);
    }
    let w9 = ALERT_COUNT_END@ + a.started_at@ + ALERT_STARTED_END@;
    let k9 = pre7.len() as int;
    assert(occurs_at(page, w9, k9)) by {
        assert(page.subrange(k9, k9 + w9.len()) =~= w9);
    }
    let w11 = ALERT_STARTED_END@ + a.severity@ + ALERT_SEVERITY_END@;
    let k11 = pre9.len() as int;
    assert(occurs_at(page, w11, k11)) by {
        assert(page.subrange(k11, k11 + w11.len()) =~= w11);
    }
    let w13 = ALERT_SEVERITY_END@ + yes_no(a.needs_action) + ALERT_END@;
    let k13 = pre11.len() as int;
    assert(occurs_at(page, w13, k13)) by {
        assert(page.subrange(k13, k13 + w13.len()) =~= w13);
    }
}

/// Each part of a recent analysis stands in its place: "service/type" in
/// bold, then the severity, the host in brackets, and the time below.
#[verifier::rlimit(30)]
pub proof fn queue_item_fields_sit_in_place(a: AnalysisInfo)
    ensures
        contains_seq(queue_item_of(a), QUEUE_ITEM_START@ + a.service_name@ + QUEUE_ITEM_SERVICE_END@),
        contains_seq(queue_item_of(a), QUEUE_ITEM_SERVICE_END@ + a.analysis_type@ + QUEUE_ITEM_TYPE_END@),
        contains_seq(queue_item_of(a), QUEUE_ITEM_TYPE_END@ + a.severity@ + QUEUE_ITEM_SEVERITY_END@),
        contains_seq(queue_item_of(a), QUEUE_ITEM_SEVERITY_END@ + a.hostname@ + QUEUE_ITEM_HOST_END@),
        contains_seq(queue_item_of(a), QUEUE_ITEM_HOST_END@ + a.analysed_at@ + QUEUE_ITEM_END@),
{
    let page = queue_item_of(a);
    let pre0 = QUEUE_ITEM_START@;
    let pre1 = pre0 + a.service_name@;
    let pre2 = pre1 + QUEUE_ITEM_SERVICE_END@;
    let pre3 = pre2 + a.analysis_type@;
    let pre4 = pre3 + QUEUE_ITEM_TYPE_END@;
    let pre5 = pre4 + a.severity@;
    let pre6 = pre5 + QUEUE_ITEM_SEVERITY_END@;
    let pre7 = pre6 + a.hostname@;
    let pre8 = pre7 + QUEUE_ITEM_HOST_END@;
    let pre9 = pre8 + a.analysed_at@;
    let pre10 = pre9 + QUEUE_ITEM_END@;
    assert(page == pre10);
    let w1 = QUEUE_ITEM_START@ + a.service_name@ + QUEUE_ITEM_SERVICE_END@;
    let k1 = 0;
    assert(occurs_at(page, w1, k1)) by {
        assert(page.subrange(k1, k1 + w1.len()) =~= w1);
    }
    let w3 = QUEUE_ITEM_SERVICE_END@ + a.analysis_type@ + QUEUE_ITEM_TYPE_END@;
    let k3 = pre1.len() as int;
    assert(occurs_at(page, w3, k3)) by {
        assert(page.subrange(k3, k3 + w3.len()) =~= w3);
    }
    let w5 = QUEUE_ITEM_TYPE_END@ + a.severity@ + QUEUE_ITEM_SEVERITY_END@;
    let k5 = pre3.len() as int;
    assert(occurs_at(page, w5, k5)) by {
        assert(page.subrange(k5, k5 + w5.len()) =~= w5);
    }
    let w7 = QUEUE_ITEM_SEVERITY_END@ + a.hostname@ + QUEUE_ITEM_HOST_END@;
    let k7 = pre5.len() as int;
    assert(occurs_at(page, w7, k7)) by {
        assert(page.subrange(k7, k7 + w7.len()) =~= w7);
    }
    let w9 = QUEUE_ITEM_HOST_END@ + a.analysed_at@ + QUEUE_ITEM_END@;
    let k9 = pre7.len() as int;
    assert(occurs_at(page, w9, k9)) by {
        assert(page.subrange(k9, k9 + w9.len()) =~= w9);
    }
}

/// The columns of `RECENT_ANALYSES_QUERY` and `ANALYSIS_HISTORY_QUERY`, in
/// order, as their select lists name them.
pub const ANALYSES_COLUMNS: &'static str = r#"SELECT analyses.hostname,
       COALESCE(unit, syslog_identifier, comm, 'unknown') AS service_name,
       analyses.analysis_type,
       analyses.analysed_at,
       analyses.severity
FROM"#;

/// An analysis takes each field from the column of that name: both queries
/// select host name, service name, analysis type, time and severity in that
/// order, and the analysis read from a row has its host name from column 0,
/// service name from column 1, type from column 2, time from column 3 and
/// severity from column 4.
#[verifier::rlimit(30)]
pub proof fn analysis_fields_come_from_their_columns(v: Seq<DbValue>, a: AnalysisInfo)
    requires
        is_analysis_of(v, a),
    ensures
        RECENT_ANALYSES_QUERY@.subrange(0, ANALYSES_COLUMNS@.len() as int) == ANALYSES_COLUMNS@,
        ANALYSIS_HISTORY_QUERY@.subrange(0, ANALYSES_COLUMNS@.len() as int) == ANALYSES_COLUMNS@,
        a.hostname@ == text_of(v[0]),
        a.service_name@ == text_of(v[1]),
        a.analysis_type@ == text_of(v[2]),
        a.analysed_at@ == text_of(v[3]),
        a.severity@ == text_of(v[4]),
{
    reveal_strlit(r#"SELECT analyses.hostname,
       COALESCE(unit, syslog_identifier, comm, 'unknown') AS service_name,
       analyses.analysis_type,
       analyses.analysed_at,
       analyses.severity
FROM"#);
    reveal_strlit(r#"SELECT analyses.hostname,
       COALESCE(unit, syslog_identifier, comm, 'unknown') AS service_name,
       analyses.analysis_type,
       analyses.analysed_at,
       analyses.severity
FROM analyses
    JOIN analyzed_entries ON analyses.id = analyzed_entries.analysis_id
    JOIN entries ON analyzed_entries.entry_id = entries.id
WHERE analyses.analysed_at > NOW() - INTERVAL '1 hour'
GROUP BY analyses.id, analyses.hostname, analyses.analysis_type, analyses.analysed_at, analyses.severity, service_name
ORDER BY analyses.analysed_at DESC
LIMIT 10"#);
    reveal_strlit(r#"SELECT analyses.hostname,
       COALESCE(unit, syslog_identifier, comm, 'unknown') AS service_name,
       analyses.analysis_type,
       analyses.analysed_at,
       analyses.severity
FROM analyses
    JOIN analyzed_entries ON analyses.id = analyzed_entries.analysis_id
    JOIN entries ON analyzed_entries.entry_id = entries.id
WHERE analyses.hostname = $1
GROUP BY analyses.id, analyses.hostname, analyses.analysis_type, analyses.analysed_at, analyses.severity, service_name
ORDER BY analyses.analysed_at DESC
LIMIT 50"#);
    assert(RECENT_ANALYSES_QUERY@.subrange(0, ANALYSES_COLUMNS@.len() as int) =~= ANALYSES_COLUMNS@);
    assert(ANALYSIS_HISTORY_QUERY@.subrange(0, ANALYSES_COLUMNS@.len() as int) =~= ANALYSES_COLUMNS@);
}

/// The columns of `ANALYSIS_RECORDS_QUERY` and `ANALYSIS_RECORD_QUERY`, in
/// order, as their select lists name them.
pub const ANALYSIS_RECORD_COLUMNS: &'static str = r#"SELECT analyses.id,
       analyses.hostname,
       COALESCE(unit, syslog_identifier, comm, 'unknown') AS service_name,
       analyses.analysis_type,
       analyses.analysed_at,
       analyses.severity,
       analyses.model,
       analyses.summary,
       analyses.needs_user_action,
       COUNT(entry_id) AS entries_count,
       MIN(date) AS first_error,
       MAX(date) AS last_error
FROM"#;

/// A record takes each field from the column of that name: both queries
/// select id, host name, service name, type, time, severity, model, summary,
/// action flag, entry count, first and last error in that order, and the
/// record read from a row takes them from columns 0 to 11 in that order.
#[verifier::rlimit(30)]
pub proof fn record_fields_come_from_their_columns(v: Seq<DbValue>, a: AnalysisRecord)
    requires
        is_record_of(v, a),
    ensures
        ANALYSIS_RECORDS_QUERY@.subrange(0, ANALYSIS_RECORD_COLUMNS@.len() as int)
            == ANALYSIS_RECORD_COLUMNS@,
        ANALYSIS_RECORD_QUERY@.subrange(0, ANALYSIS_RECORD_COLUMNS@.len() as int)
            == ANALYSIS_RECORD_COLUMNS@,
        a.id == i32_of(v[0]),
        a.hostname@ == text_of(v[1]),
        a.service_name@ == text_of(v[2]),
        a.analysis_type@ == text_of(v[3]),
        a.analysed_at@ == text_of(v[4]),
        a.severity@ == text_of(v[5]),
        a.model@ == text_of(v[6]),
        a.summary@ == text_of(v[7]),
        a.needs_user_action == bool_of(v[8]),
        a.entries_count == u64_of(v[9]),
        a.first_error@ == text_of(v[10]),
        a.last_error@ == text_of(v[11]),
{
    reveal_strlit(r#"SELECT analyses.id,
       analyses.hostname,
       COALESCE(unit, syslog_identifier, comm, 'unknown') AS service_name,
       analyses.analysis_type,
       analyses.analysed_at,
       analyses.severity,
       analyses.model,
       analyses.summary,
       analyses.needs_user_action,
       COUNT(entry_id) AS entries_count,
       MIN(date) AS first_error,
       MAX(date) AS last_error
FROM"#);
    reveal_strlit(r#"SELECT analyses.id,
       analyses.hostname,
       COALESCE(unit, syslog_identifier, comm, 'unknown') AS service_name,
       analyses.analysis_type,
       analyses.analysed_at,
       analyses.severity,
       analyses.model,
       analyses.summary,
       analyses.needs_user_action,
       COUNT(entry_id) AS entries_count,
       MIN(date) AS first_error,
       MAX(date) AS last_error
FROM analyses
    JOIN analyzed_entries ON analyses.id = analyzed_entries.analysis_id
    JOIN entries ON analyzed_entries.entry_id = entries.id
WHERE analyses.hostname = $1
GROUP BY analyses.id, service_name
ORDER BY analyses.analysed_at DESC
LIMIT 50"#);
    reveal_strlit(r#"SELECT analyses.id,
       analyses.hostname,
       COALESCE(unit, syslog_identifier, comm, 'unknown') AS service_name,
       analyses.analysis_type,
       analyses.analysed_at,
       analyses.severity,
       analyses.model,
       analyses.summary,
       analyses.needs_user_action,
       COUNT(entry_id) AS entries_count,
       MIN(date) AS first_error,
       MAX(date) AS last_error
FROM analyses
    JOIN analyzed_entries ON analyses.id = analyzed_entries.analysis_id
    JOIN entries ON analyzed_entries.entry_id = entries.id
WHERE analyses.id = $1
GROUP BY analyses.id, service_name
LIMIT 1"#);
    assert(ANALYSIS_RECORDS_QUERY@.subrange(0, ANALYSIS_RECORD_COLUMNS@.len() as int)
        =~= ANALYSIS_RECORD_COLUMNS@);
    assert(ANALYSIS_RECORD_QUERY@.subrange(0, ANALYSIS_RECORD_COLUMNS@.len() as int)
        =~= ANALYSIS_RECORD_COLUMNS@);
}

/// Storing an entry puts each field in the column of that name: the insert
/// names the columns boot_id, hostname, machine_id, priority, message, date,
/// runtime_scope, pid, uid, gid, transport, syslog_facility,
/// syslog_identifier, comm, exe, cmdline, unit, systemd_unit, systemd_slice,
/// systemd_cgroup, code_line, code_file, job_id, job_result, job_type,
/// invocation_id, source_monotonic_timestamp, source_boottime_timestamp in
/// this order, and the k-th parameter of an entry is its field of the k-th name.
pub proof fn entry_fields_go_to_their_columns(e: JournalEntry)
    ensures
        BASE_INSERT_QUERY@ == r#"INSERT INTO entries (
            boot_id, hostname, machine_id, priority, message, date, runtime_scope,
            pid, uid, gid, transport, syslog_facility, syslog_identifier,
            comm, exe, cmdline, unit, systemd_unit, systemd_slice, systemd_cgroup,
            code_line, code_file, job_id, job_result, job_type, invocation_id,
            source_monotonic_timestamp, source_boottime_timestamp
        )"#@,
        entry_params(e).len() == INSERT_FIELD_COUNT,
        entry_params(e)[0] == SqlParamView::Text(e.boot_id@),
        entry_params(e)[1] == SqlParamView::Text(e.hostname@),
        entry_params(e)[2] == SqlParamView::Text(e.machine_id@),
        entry_params(e)[3] == SqlParamView::Int2(stored_priority(e.priority@)),
        entry_params(e)[4] == SqlParamView::Text(e.message@),
        entry_params(e)[5] == SqlParamView::Float8(e.date),
        entry_params(e)[6] == SqlParamView::Text(e.runtime_scope@),
        entry_params(e)[7] == optional_param_view(e.pid),
        entry_params(e)[8] == optional_param_view(e.uid),
        entry_params(e)[9] == optional_param_view(e.gid),
        entry_params(e)[10] == optional_param_view(e.transport),
        entry_params(e)[11] == optional_param_view(e.syslog_facility),
        entry_params(e)[12] == optional_param_view(e.syslog_identifier),
        entry_params(e)[13] == optional_param_view(e.comm),
        entry_params(e)[14] == optional_param_view(e.exe),
        entry_params(e)[15] == optional_param_view(e.cmdline),
        entry_params(e)[16] == optional_param_view(e.unit),
        entry_params(e)[17] == optional_param_view(e.systemd_unit),
        entry_params(e)[18] == optional_param_view(e.systemd_slice),
        entry_params(e)[19] == optional_param_view(e.systemd_cgroup),
        entry_params(e)[20] == optional_param_view(e.code_line),
        entry_params(e)[21] == optional_param_view(e.code_file),
        entry_params(e)[22] == optional_param_view(e.job_id),
        entry_params(e)[23] == optional_param_view(e.job_result),
        entry_params(e)[24] == optional_param_view(e.job_type),
        entry_params(e)[25] == optional_param_view(e.invocation_id),
        entry_params(e)[26] == optional_param_view(e.source_monotonic_timestamp),
        entry_params(e)[27] == optional_param_view(e.source_boottime_timestamp),
{
}

/// Reading an entry takes each field from the column of that name: the
/// entries query selects the same 28 columns in the same order, and the
/// k-th field of the entry read is converted from the k-th column (the date
/// from the double that column 5 holds).
pub proof fn entry_fields_come_from_their_columns(row: DbRow, date: u64, read: JournalEntry)
    requires
        entry_from_row(row, date, read),
    ensures
        BASE_FETCH_QUERY@ == r#"SELECT boot_id, hostname, machine_id, priority, message, date, runtime_scope,
    pid, uid, gid, transport, syslog_facility, syslog_identifier,
    comm, exe, cmdline, unit, systemd_unit, systemd_slice, systemd_cgroup,
    code_line, code_file, job_id, job_result, job_type, invocation_id,
    source_monotonic_timestamp, source_boottime_timestamp FROM entries WHERE hostname = $1"#@,
        String::converts_to(row.values@[0], read.boot_id),
        String::converts_to(row.values@[1], read.hostname),
        String::converts_to(row.values@[2], read.machine_id),
        String::converts_to(row.values@[3], read.priority),
        String::converts_to(row.values@[4], read.message),
        read.date == date,
        String::converts_to(row.values@[6], read.runtime_scope),
        Option::<String>::converts_to(row.values@[7], read.pid),
        Option::<String>::converts_to(row.values@[8], read.uid),
        Option::<String>::converts_to(row.values@[9], read.gid),
        Option::<String>::converts_to(row.values@[10], read.transport),
        Option::<String>::converts_to(row.values@[11], read.syslog_facility),
        Option::<String>::converts_to(row.values@[12], read.syslog_identifier),
        Option::<String>::converts_to(row.values@[13], read.comm),
        Option::<String>::converts_to(row.values@[14], read.exe),
        Option::<String>::converts_to(row.values@[15], read.cmdline),
        Option::<String>::converts_to(row.values@[16], read.unit),
        Option::<String>::converts_to(row.values@[17], read.systemd_unit),
        Option::<String>::converts_to(row.values@[18], read.systemd_slice),
        Option::<String>::converts_to(row.values@[19], read.systemd_cgroup),
        Option::<String>::converts_to(row.values@[20], read.code_line),
        Option::<String>::converts_to(row.values@[21], read.code_file),
        Option::<String>::converts_to(row.values@[22], read.job_id),
        Option::<String>::converts_to(row.values@[23], read.job_result),
        Option::<String>::converts_to(row.values@[24], read.job_type),
        Option::<String>::converts_to(row.values@[25], read.invocation_id),
        Option::<String>::converts_to(row.values@[26], read.source_monotonic_timestamp),
        Option::<String>::converts_to(row.values@[27], read.source_boottime_timestamp),
{
}

} // verus!
