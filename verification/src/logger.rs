//! Log records, their levels, and the batching of records for the log pane.

use std::cmp::Ordering;

use vstd::prelude::*;
use vstd::string::StringSliceAdditionalSpecFns;
use vstd::std_specs::cmp::{PartialEqSpec, PartialOrdSpec};

use crate::config::logs::{filter_rank, LevelFilter};

verus! {

/// The level of a log record, from the most to the least severe.
#[derive(Debug, Clone, Copy, PartialEq, Eq, Structural, PartialOrd, Ord, Hash)]
pub enum Level {
    Error,
    Warn,
    Info,
    Debug,
    Trace,
}

/// The position of a level in the order of verbosity: `Error` is 1 and
/// `Trace` is 5, so that a level compares with a filter by rank.
pub open spec fn level_rank(l: Level) -> int {
    match l {
        Level::Error => 1,
        Level::Warn => 2,
        Level::Info => 3,
        Level::Debug => 4,
        Level::Trace => 5,
    }
}

/// The order of two ranks.
pub open spec fn rank_order(a: int, b: int) -> Ordering {
    if a < b {
        Ordering::Less
    } else if a == b {
        Ordering::Equal
    } else {
        Ordering::Greater
    }
}

impl PartialEq<LevelFilter> for Level {
    fn eq(&self, other: &LevelFilter) -> (r: bool) {
        match self {
            Level::Error => matches!(other, LevelFilter::Error),
            Level::Warn => matches!(other, LevelFilter::Warn),
            Level::Info => matches!(other, LevelFilter::Info),
            Level::Debug => matches!(other, LevelFilter::Debug),
            Level::Trace => matches!(other, LevelFilter::Trace),
        }
    }
}

impl vstd::std_specs::cmp::PartialEqSpecImpl<LevelFilter> for Level {
    open spec fn obeys_eq_spec() -> bool {
        true
    }

    open spec fn eq_spec(&self, other: &LevelFilter) -> bool {
        level_rank(*self) == filter_rank(*other)
    }
}

impl PartialOrd<LevelFilter> for Level {
    fn partial_cmp(&self, other: &LevelFilter) -> (r: Option<Ordering>) {
        Some(
            match self {
                Level::Error => match other {
                    LevelFilter::Off => Ordering::Greater,
                    LevelFilter::Error => Ordering::Equal,
                    LevelFilter::Warn | LevelFilter::Info | LevelFilter::Debug
                    | LevelFilter::Trace => Ordering::Less,
                },
                Level::Warn => match other {
                    LevelFilter::Off | LevelFilter::Error => Ordering::Greater,
                    LevelFilter::Warn => Ordering::Equal,
                    LevelFilter::Info | LevelFilter::Debug | LevelFilter::Trace => Ordering::Less,
                },
                Level::Info => match other {
                    LevelFilter::Off | LevelFilter::Error | LevelFilter::Warn => Ordering::Greater,
                    LevelFilter::Info => Ordering::Equal,
                    LevelFilter::Debug | LevelFilter::Trace => Ordering::Less,
                },
                Level::Debug => match other {
                    LevelFilter::Off | LevelFilter::Error | LevelFilter::Warn
                    | LevelFilter::Info => Ordering::Greater,
                    LevelFilter::Debug => Ordering::Equal,
                    LevelFilter::Trace => Ordering::Less,
                },
                Level::Trace => match other {
                    LevelFilter::Off | LevelFilter::Error | LevelFilter::Warn | LevelFilter::Info
                    | LevelFilter::Debug => Ordering::Greater,
                    LevelFilter::Trace => Ordering::Equal,
                },
            },
        )
    }
}

impl vstd::std_specs::cmp::PartialOrdSpecImpl<LevelFilter> for Level {
    open spec fn obeys_partial_cmp_spec() -> bool {
        true
    }

    open spec fn partial_cmp_spec(&self, other: &LevelFilter) -> Option<Ordering> {
        Some(rank_order(level_rank(*self), filter_rank(*other)))
    }
}

/// Why a text is no log level.
#[derive(Debug, Clone, Copy, PartialEq, Eq, Structural)]
pub struct ParseLevelError {}

/// An ASCII upper-case letter lowered; any other byte as it is.
pub open spec fn ascii_lower(b: u8) -> u8 {
    if 65 <= b <= 90 {
        (b + 32) as u8
    } else {
        b
    }
}

/// Whether two byte strings are equal once ASCII letters are lowered.
pub open spec fn eq_ignore_ascii_case(a: Seq<u8>, b: Seq<u8>) -> bool {
    a.len() == b.len() && forall|i: int| 0 <= i < a.len() ==> ascii_lower(#[trigger] a[i]) == ascii_lower(b[i])
}

/// The name of a level, as bytes of upper-case ASCII.
pub open spec fn level_name(l: Level) -> Seq<u8> {
    match l {
        Level::Error => seq![69u8, 82, 82, 79, 82],
        Level::Warn => seq![87u8, 65, 82, 78],
        Level::Info => seq![73u8, 78, 70, 79],
        Level::Debug => seq![68u8, 69, 66, 85, 71],
        Level::Trace => seq![84u8, 82, 65, 67, 69],
    }
}

/// The level a text names, in any case of ASCII letters; `OFF` and any
/// other text name none.
pub open spec fn parse_level_spec(text: Seq<u8>) -> Option<Level> {
    if eq_ignore_ascii_case(text, level_name(Level::Error)) {
        Some(Level::Error)
    } else if eq_ignore_ascii_case(text, level_name(Level::Warn)) {
        Some(Level::Warn)
    } else if eq_ignore_ascii_case(text, level_name(Level::Info)) {
        Some(Level::Info)
    } else if eq_ignore_ascii_case(text, level_name(Level::Debug)) {
        Some(Level::Debug)
    } else if eq_ignore_ascii_case(text, level_name(Level::Trace)) {
        Some(Level::Trace)
    } else {
        None
    }
}

fn lower(b: u8) -> (r: u8)
    ensures
        r == ascii_lower(b),
{
    if 65 <= b && b <= 90 {
        b + 32
    } else {
        b
    }
}

fn eq_ignore_case(a: &[u8], b: &Vec<u8>) -> (r: bool)
    ensures
        r == eq_ignore_ascii_case(a@, b@),
{
    if a.len() != b.len() {
        return false;
    }
    let mut i: usize = 0;
    while i < a.len()
        invariant
            a@.len() == b@.len(),
            i <= a@.len(),
            forall|j: int| 0 <= j < i ==> ascii_lower(#[trigger] a@[j]) == ascii_lower(b@[j]),
        decreases a.len() - i,
    {
        if lower(a[i]) != lower(b[i]) {
            return false;
        }
        i = i + 1;
    }
    true
}

/// Parses a level the way the `log` crate does: the name of a level in any
/// case of ASCII letters.
pub fn parse_level(text: &str) -> (r: Result<Level, ParseLevelError>)
    ensures
        match parse_level_spec(text.spec_bytes()) {
            Some(l) => r == Ok::<Level, ParseLevelError>(l),
            None => r == Err::<Level, ParseLevelError>(ParseLevelError {}),
        },
{
    let bytes = text.as_bytes();
    let error = vec![69u8, 82, 82, 79, 82];
    let warn = vec![87u8, 65, 82, 78];
    let info = vec![73u8, 78, 70, 79];
    let debug = vec![68u8, 69, 66, 85, 71];
    let trace = vec![84u8, 82, 65, 67, 69];
    assert(error@ == level_name(Level::Error));
    assert(warn@ == level_name(Level::Warn));
    assert(info@ == level_name(Level::Info));
    assert(debug@ == level_name(Level::Debug));
    assert(trace@ == level_name(Level::Trace));
    if eq_ignore_case(bytes, &error) {
        Ok(Level::Error)
    } else if eq_ignore_case(bytes, &warn) {
        Ok(Level::Warn)
    } else if eq_ignore_case(bytes, &info) {
        Ok(Level::Info)
    } else if eq_ignore_case(bytes, &debug) {
        Ok(Level::Debug)
    } else if eq_ignore_case(bytes, &trace) {
        Ok(Level::Trace)
    } else {
        Err(ParseLevelError {})
    }
}

/// Every level's name parses back as that level, and `OFF` names none.
pub proof fn lemma_level_name_parses(l: Level)
    ensures
        parse_level_spec(level_name(l)) == Some(l),
        parse_level_spec(seq![79u8, 70, 70]) is None,
{
    let n = level_name(l);
    assert(eq_ignore_ascii_case(n, n));
    if l != Level::Error {
        assert(ascii_lower(n[0]) != ascii_lower(level_name(Level::Error)[0]) || n.len() != 5);
    }
    if l != Level::Warn {
        assert(ascii_lower(n[0]) != ascii_lower(level_name(Level::Warn)[0]) || n.len() != 4);
    }
    if l != Level::Info {
        assert(ascii_lower(n[0]) != ascii_lower(level_name(Level::Info)[0]) || n.len() != 4);
    }
    if l != Level::Debug {
        assert(ascii_lower(n[0]) != ascii_lower(level_name(Level::Debug)[0]) || n.len() != 5);
    }
}

/// A text names a level exactly when it is that level's name up to the
/// case of ASCII letters: every case variant of `ERROR` parses as
/// `Level::Error`, and so on; any other text parses as no level.
pub proof fn lemma_parse_level_ignores_case(text: Seq<u8>, l: Level)
    ensures
        parse_level_spec(text) == Some(l) <==> (text.len() == level_name(l).len() && forall|i: int|
            0 <= i < text.len() ==> ascii_lower(#[trigger] text[i]) == ascii_lower(level_name(l)[i])),
{
    let n = level_name(l);
    let first = |m: Level| ascii_lower(level_name(m)[0]);
    assert(first(Level::Error) == 101u8);
    assert(first(Level::Warn) == 119u8);
    assert(first(Level::Info) == 105u8);
    assert(first(Level::Debug) == 100u8);
    assert(first(Level::Trace) == 116u8);
    if text.len() == n.len() && forall|i: int|
        0 <= i < text.len() ==> ascii_lower(#[trigger] text[i]) == ascii_lower(n[i]) {
        assert(eq_ignore_ascii_case(text, n));
        assert forall|m: Level| eq_ignore_ascii_case(text, #[trigger] level_name(m)) implies m == l by {
            assert(ascii_lower(text[0]) == first(m));
            assert(ascii_lower(text[0]) == first(l));
        }
    }
}

/// The level named by the `RUST_LOG` text, if it is set: no text names no
/// level, and a text that is no level name is an error.
pub fn env_level(rust_log: Option<&str>) -> (r: Result<Option<Level>, ParseLevelError>)
    ensures
        rust_log is None ==> r == Ok::<Option<Level>, ParseLevelError>(None),
        rust_log matches Some(text) ==> match parse_level_spec(text.spec_bytes()) {
            Some(l) => r == Ok::<Option<Level>, ParseLevelError>(Some(l)),
            None => r == Err::<Option<Level>, ParseLevelError>(ParseLevelError {}),
        },
{
    match rust_log {
        None => Ok(None),
        Some(text) => match parse_level(text) {
            Ok(l) => Ok(Some(l)),
            Err(e) => Err(e),
        },
    }
}

/// A log record: when, how severe, and what.
#[derive(Debug, Clone, PartialEq, Eq, Hash)]
pub struct Record {
    /// Seconds since the Unix epoch, UTC.
    pub timestamp_secs: i64,
    /// Nanoseconds within that second.
    pub timestamp_nanos: u32,
    pub level: Level,
    pub message: String,
}

/// The name of a level as the log shows it.
pub open spec fn level_label(l: Level) -> Seq<char> {
    match l {
        Level::Error => "ERROR"@,
        Level::Warn => "WARN"@,
        Level::Info => "INFO"@,
        Level::Debug => "DEBUG"@,
        Level::Trace => "TRACE"@,
    }
}

/// The filter of the same rank as a level.
pub open spec fn level_filter_of(l: Level) -> LevelFilter {
    match l {
        Level::Error => LevelFilter::Error,
        Level::Warn => LevelFilter::Warn,
        Level::Info => LevelFilter::Info,
        Level::Debug => LevelFilter::Debug,
        Level::Trace => LevelFilter::Trace,
    }
}

impl Level {
    /// The name of the level as the log shows it.
    pub fn to_string(&self) -> (s: String)
        ensures
            s@ == level_label(*self),
    {
        match self {
            Level::Error => String::from_str("ERROR"),
            Level::Warn => String::from_str("WARN"),
            Level::Info => String::from_str("INFO"),
            Level::Debug => String::from_str("DEBUG"),
            Level::Trace => String::from_str("TRACE"),
        }
    }

    /// The filter that lets this level and the more severe ones through.
    pub fn to_level_filter(&self) -> (f: LevelFilter)
        ensures
            f == level_filter_of(*self),
            filter_rank(f) == level_rank(*self),
    {
        match self {
            Level::Error => LevelFilter::Error,
            Level::Warn => LevelFilter::Warn,
            Level::Info => LevelFilter::Info,
            Level::Debug => LevelFilter::Debug,
            Level::Trace => LevelFilter::Trace,
        }
    }
}

/// The filter of the log file: the level named in the environment when
/// there is one, else the level of the configuration.
pub fn file_level_filter(env_level: Option<Level>, configured: LevelFilter) -> (f: LevelFilter)
    ensures
        f == match env_level {
            Some(l) => level_filter_of(l),
            None => configured,
        },
{
    match env_level {
        Some(l) => l.to_level_filter(),
        None => configured,
    }
}

/// The filter of the log pane: the level named in the environment when
/// there is one, else everything.
pub fn panel_level_filter(env_level: Option<Level>) -> (f: LevelFilter)
    ensures
        f == match env_level {
            Some(l) => level_filter_of(l),
            None => LevelFilter::Trace,
        },
{
    match env_level {
        Some(l) => l.to_level_filter(),
        None => LevelFilter::Trace,
    }
}

/// A level equals a filter exactly when it compares equal to it, and it
/// compares with filters by rank: above `Off`, never above `Trace`, and
/// equal to its own filter.
pub proof fn lemma_level_filter_order(l: Level, f: LevelFilter)
    ensures
        l.eq_spec(&f) <==> l.partial_cmp_spec(&f) == Some(Ordering::Equal),
        l.partial_cmp_spec(&LevelFilter::Off) == Some(Ordering::Greater),
        l.partial_cmp_spec(&LevelFilter::Trace) != Some(Ordering::Greater),
        l.partial_cmp_spec(&level_filter_of(l)) == Some(Ordering::Equal),
{
}

/// The batch size at which records are handed to the log pane at once.
pub const BATCH_SIZE: usize = 25;

/// The age in milliseconds at which a non-empty batch is handed over.
pub const BATCH_TIMEOUT_MILLIS: u128 = 250;

/// Whether records pending for `elapsed_millis` since the last hand-over
/// are handed over: a full batch always, any other non-empty batch once
/// the timeout is reached.
pub open spec fn batch_due<T>(pending: Seq<T>, elapsed_millis: u128) -> bool {
    pending.len() >= BATCH_SIZE || (pending.len() > 0 && elapsed_millis >= BATCH_TIMEOUT_MILLIS)
}

/// The records received over turns of the receive loop, in order; a turn
/// receives one record or none, and then looks at the time elapsed.
pub open spec fn received<T>(turns: Seq<(Option<T>, u128)>) -> Seq<T>
    decreases turns.len(),
{
    if turns.len() == 0 {
        Seq::empty()
    } else {
        match turns[0].0 {
            Some(r) => seq![r] + received(turns.drop_first()),
            None => received(turns.drop_first()),
        }
    }
}

/// The batches handed over by turns of the receive loop, each turn pushing
/// what it received and then taking what is due, and the records still
/// pending at the end.
pub open spec fn run_batches<T>(pending: Seq<T>, turns: Seq<(Option<T>, u128)>) -> (Seq<Seq<T>>, Seq<T>)
    decreases turns.len(),
{
    if turns.len() == 0 {
        (Seq::empty(), pending)
    } else {
        let p = match turns[0].0 {
            Some(r) => pending.push(r),
            None => pending,
        };
        if batch_due(p, turns[0].1) {
            let (batches, rest) = run_batches(Seq::<T>::empty(), turns.drop_first());
            (seq![p] + batches, rest)
        } else {
            run_batches(p, turns.drop_first())
        }
    }
}

/// The log pane's batching loses, reorders and duplicates nothing: the
/// batches handed over, followed by the records still pending, are the
/// records received in order; each batch holds between 1 and
/// [`BATCH_SIZE`] records, and fewer than [`BATCH_SIZE`] stay pending. No
/// record waits past the timeout: when the last turn finds the timeout
/// reached, nothing stays pending.
pub proof fn lemma_batches_in_order<T>(pending: Seq<T>, turns: Seq<(Option<T>, u128)>)
    requires
        pending.len() < BATCH_SIZE,
    ensures
        ({
            let (batches, rest) = run_batches(pending, turns);
            &&& batches.flatten() + rest == pending + received(turns)
            &&& forall|i: int| 0 <= i < batches.len() ==> 1 <= #[trigger] batches[i].len() <= BATCH_SIZE
            &&& rest.len() < BATCH_SIZE
            &&& turns.len() > 0 && turns.last().1 >= BATCH_TIMEOUT_MILLIS ==> rest.len() == 0
        }),
    decreases turns.len(),
{
    if turns.len() > 0 {
        let tail = turns.drop_first();
        let p = match turns[0].0 {
            Some(r) => pending.push(r),
            None => pending,
        };
        assert(pending + received(turns) == p + received(tail)) by {
            match turns[0].0 {
                Some(r) => {
                    assert(received(turns) == seq![r] + received(tail));
                    assert(pending + (seq![r] + received(tail)) =~= pending.push(r) + received(tail));
                },
                None => {},
            }
        }
        if tail.len() > 0 {
            assert(tail.last() == turns.last());
        }
        if batch_due(p, turns[0].1) {
            lemma_batches_in_order(Seq::<T>::empty(), tail);
            let (batches, rest) = run_batches(Seq::<T>::empty(), tail);
            let all = seq![p] + batches;
            assert(all.first() == p);
            assert(all.drop_first() =~= batches);
            assert(all.flatten() == p + batches.flatten());
            assert(batches.flatten() + rest =~= Seq::<T>::empty() + received(tail));
            assert(all.flatten() + rest =~= p + received(tail));
            assert forall|i: int| 0 <= i < all.len() implies 1 <= #[trigger] all[i].len() <= BATCH_SIZE by {
                if i > 0 {
                    assert(all[i] == batches[i - 1]);
                }
            }
        } else {
            lemma_batches_in_order(p, tail);
        }
    }
}

/// Collects log records into batches for the log pane, in arrival order.
pub struct Batcher<T> {
    batch: Vec<T>,
}

impl<T> Batcher<T> {
    /// The records collected and not yet handed over, oldest first.
    pub closed spec fn pending(&self) -> Seq<T> {
        self.batch@
    }

    /// An empty batcher.
    pub fn new() -> (b: Self)
        ensures
            b.pending() == Seq::<T>::empty(),
    {
        Batcher { batch: Vec::new() }
    }

    /// Collects one record.
    pub fn push(&mut self, record: T)
        ensures
            final(self).pending() == old(self).pending().push(record),
    {
        self.batch.push(record);
    }

    /// Hands over the batch when it is full, or when it is not empty and
    /// `elapsed_millis` since the last hand-over reach the timeout. Nothing
    /// is lost: the records handed over followed by those kept are the
    /// records held before.
    pub fn take_due(&mut self, elapsed_millis: u128) -> (r: Option<Vec<T>>)
        ensures
            ({
                let due = batch_due(old(self).pending(), elapsed_millis);
                &&& due ==> (r matches Some(batch) && batch@ == old(self).pending())
                    && final(self).pending() == Seq::<T>::empty()
                &&& !due ==> r is None && final(self).pending() == old(self).pending()
            }),
    {
        if self.batch.len() >= BATCH_SIZE || (!self.batch.is_empty() && elapsed_millis
            >= BATCH_TIMEOUT_MILLIS) {
            let mut batch = Vec::new();
            std::mem::swap(&mut batch, &mut self.batch);
            Some(batch)
        } else {
            None
        }
    }
}

} // verus!
