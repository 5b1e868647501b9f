//! # Time, easy to use timestamps, spans of time, etc
//!
//! Timestamps are UNIX seconds. Spans of time are used to obtain data such as candles.

use vstd::prelude::*;

use crate::product::CANDLE_MAXIMUM;
use crate::errors::{bad_query, CbErrorView, CbResult};
use crate::traits::Query;
use crate::utils::{
    lemma_render_contains, occurs_in, pair_text, render_query, QueryBuilder, QueryPair, QueryValue,
};

verus! {

/// One minute of time in seconds.
pub const ONE_MINUTE: u32 = 60;

/// One hour of time in seconds.
pub const ONE_HOUR: u32 = 3600;

/// One day of time in seconds.
pub const ONE_DAY: u32 = 86400;

/// Span of time in seconds.
#[derive(Debug, Clone, Copy, PartialEq, Eq, Structural)]
pub enum Granularity {
    Unknown,
    OneMinute,
    FiveMinute,
    FifteenMinute,
    ThirtyMinute,
    OneHour,
    TwoHour,
    SixHour,
    OneDay,
}

/// The number of seconds of a granularity; zero for an unknown one.
pub open spec fn granularity_seconds(g: Granularity) -> u32 {
    match g {
        Granularity::OneMinute => 60,
        Granularity::FiveMinute => 300,
        Granularity::FifteenMinute => 900,
        Granularity::ThirtyMinute => 1800,
        Granularity::OneHour => 3600,
        Granularity::TwoHour => 7200,
        Granularity::SixHour => 21600,
        Granularity::OneDay => 86400,
        Granularity::Unknown => 0,
    }
}

/// The granularity of a number of seconds; unknown when no granularity has that length.
pub open spec fn granularity_of_seconds(s: u32) -> Granularity {
    if s == 60 {
        Granularity::OneMinute
    } else if s == 300 {
        Granularity::FiveMinute
    } else if s == 900 {
        Granularity::FifteenMinute
    } else if s == 1800 {
        Granularity::ThirtyMinute
    } else if s == 3600 {
        Granularity::OneHour
    } else if s == 7200 {
        Granularity::TwoHour
    } else if s == 21600 {
        Granularity::SixHour
    } else if s == 86400 {
        Granularity::OneDay
    } else {
        Granularity::Unknown
    }
}

/// The name by which the API knows a granularity tells its length: ONE_MINUTE is 60 seconds,
/// FIVE_MINUTE 300, FIFTEEN_MINUTE 900, THIRTY_MINUTE 1800, ONE_HOUR 3600, TWO_HOUR 7200,
/// SIX_HOUR 21600, ONE_DAY 86400 and UNKNOWN_GRANULARITY none; so distinct granularities have
/// distinct names, and the granularity of a number of seconds is named after it.
pub proof fn lemma_granularity_name_tells_seconds(g: Granularity, h: Granularity)
    ensures
        g.api_name() == h.api_name() ==> g == h,
        g.api_name() == "ONE_MINUTE"@ <==> granularity_seconds(g) == 60,
        g.api_name() == "FIVE_MINUTE"@ <==> granularity_seconds(g) == 300,
        g.api_name() == "FIFTEEN_MINUTE"@ <==> granularity_seconds(g) == 900,
        g.api_name() == "THIRTY_MINUTE"@ <==> granularity_seconds(g) == 1800,
        g.api_name() == "ONE_HOUR"@ <==> granularity_seconds(g) == 3600,
        g.api_name() == "TWO_HOUR"@ <==> granularity_seconds(g) == 7200,
        g.api_name() == "SIX_HOUR"@ <==> granularity_seconds(g) == 21600,
        g.api_name() == "ONE_DAY"@ <==> granularity_seconds(g) == 86400,
        g.api_name() == "UNKNOWN_GRANULARITY"@ <==> granularity_seconds(g) == 0,
        granularity_of_seconds(60).api_name() == "ONE_MINUTE"@,
        granularity_of_seconds(300).api_name() == "FIVE_MINUTE"@,
        granularity_of_seconds(900).api_name() == "FIFTEEN_MINUTE"@,
        granularity_of_seconds(1800).api_name() == "THIRTY_MINUTE"@,
        granularity_of_seconds(3600).api_name() == "ONE_HOUR"@,
        granularity_of_seconds(7200).api_name() == "TWO_HOUR"@,
        granularity_of_seconds(21600).api_name() == "SIX_HOUR"@,
        granularity_of_seconds(86400).api_name() == "ONE_DAY"@,
        granularity_of_seconds(0).api_name() == "UNKNOWN_GRANULARITY"@,
{
    reveal_strlit("ONE_MINUTE");
    reveal_strlit("FIVE_MINUTE");
    reveal_strlit("FIFTEEN_MINUTE");
    reveal_strlit("THIRTY_MINUTE");
    reveal_strlit("ONE_HOUR");
    reveal_strlit("TWO_HOUR");
    reveal_strlit("SIX_HOUR");
    reveal_strlit("ONE_DAY");
    reveal_strlit("UNKNOWN_GRANULARITY");
    assert("ONE_MINUTE"@.len() == 10 && "ONE_MINUTE"@[0] == 'O');
    assert("FIVE_MINUTE"@.len() == 11 && "FIVE_MINUTE"@[0] == 'F');
    assert("FIFTEEN_MINUTE"@.len() == 14 && "FIFTEEN_MINUTE"@[0] == 'F');
    assert("THIRTY_MINUTE"@.len() == 13 && "THIRTY_MINUTE"@[0] == 'T');
    assert("ONE_HOUR"@.len() == 8 && "ONE_HOUR"@[0] == 'O');
    assert("TWO_HOUR"@.len() == 8 && "TWO_HOUR"@[0] == 'T');
    assert("SIX_HOUR"@.len() == 8 && "SIX_HOUR"@[0] == 'S');
    assert("ONE_DAY"@.len() == 7 && "ONE_DAY"@[0] == 'O');
    assert("UNKNOWN_GRANULARITY"@.len() == 19 && "UNKNOWN_GRANULARITY"@[0] == 'U');
}

impl Granularity {
    /// The name by which the API knows the value.
    pub open spec fn api_name(self) -> Seq<char> {
        match self {
            Granularity::OneMinute => "ONE_MINUTE"@,
            Granularity::FiveMinute => "FIVE_MINUTE"@,
            Granularity::FifteenMinute => "FIFTEEN_MINUTE"@,
            Granularity::ThirtyMinute => "THIRTY_MINUTE"@,
            Granularity::OneHour => "ONE_HOUR"@,
            Granularity::TwoHour => "TWO_HOUR"@,
            Granularity::SixHour => "SIX_HOUR"@,
            Granularity::OneDay => "ONE_DAY"@,
            Granularity::Unknown => "UNKNOWN_GRANULARITY"@,
        }
    }

    /// The name by which the API knows the value.
    pub fn as_ref(&self) -> (s: &'static str)
        ensures
            s@ == self.api_name(),
    {
        match self {
            Granularity::OneMinute => "ONE_MINUTE",
            Granularity::FiveMinute => "FIVE_MINUTE",
            Granularity::FifteenMinute => "FIFTEEN_MINUTE",
            Granularity::ThirtyMinute => "THIRTY_MINUTE",
            Granularity::OneHour => "ONE_HOUR",
            Granularity::TwoHour => "TWO_HOUR",
            Granularity::SixHour => "SIX_HOUR",
            Granularity::OneDay => "ONE_DAY",
            Granularity::Unknown => "UNKNOWN_GRANULARITY",
        }
    }

    /// The text that the value is displayed as: its API name.
    pub fn to_string(&self) -> (s: String)
        ensures
            s@ == self.api_name(),
    {
        String::from_str(self.as_ref())
    }

    /// Converts a Granularity into seconds.
    pub fn to_secs(granularity: &Granularity) -> (s: u32)
        ensures
            s == granularity_seconds(*granularity),
    {
        match granularity {
            Granularity::OneMinute => ONE_MINUTE,
            Granularity::FiveMinute => ONE_MINUTE * 5,
            Granularity::FifteenMinute => ONE_MINUTE * 15,
            Granularity::ThirtyMinute => ONE_MINUTE * 30,
            Granularity::OneHour => ONE_HOUR,
            Granularity::TwoHour => ONE_HOUR * 2,
            Granularity::SixHour => ONE_HOUR * 6,
            Granularity::OneDay => ONE_DAY,
            Granularity::Unknown => 0,
        }
    }

    /// Converts from seconds to Granularity.
    pub fn from_secs(granularity: u32) -> (g: Granularity)
        ensures
            g == granularity_of_seconds(granularity),
    {
        if granularity == ONE_MINUTE {
            Granularity::OneMinute
        } else if granularity == ONE_MINUTE * 5 {
            Granularity::FiveMinute
        } else if granularity == ONE_MINUTE * 15 {
            Granularity::FifteenMinute
        } else if granularity == ONE_MINUTE * 30 {
            Granularity::ThirtyMinute
        } else if granularity == ONE_HOUR {
            Granularity::OneHour
        } else if granularity == ONE_HOUR * 2 {
            Granularity::TwoHour
        } else if granularity == ONE_HOUR * 6 {
            Granularity::SixHour
        } else if granularity == ONE_DAY {
            Granularity::OneDay
        } else {
            Granularity::Unknown
        }
    }
}

impl QueryValue for Granularity {
    open spec fn query_text(&self) -> Seq<char> {
        self.api_name()
    }

    fn to_query_text(&self) -> (s: String) {
        self.to_string()
    }
}

/// Every granularity comes back from its number of seconds.
pub proof fn lemma_granularity_round_trip(g: Granularity)
    ensures
        granularity_of_seconds(granularity_seconds(g)) == g,
{
}

/// A number of seconds comes back from its granularity exactly when some granularity has that
/// length; every other number maps to the unknown granularity, whose length is zero.
pub proof fn lemma_seconds_round_trip(s: u32)
    ensures
        granularity_seconds(granularity_of_seconds(s)) == s || (granularity_of_seconds(s)
            == Granularity::Unknown && granularity_seconds(granularity_of_seconds(s)) == 0),
        granularity_of_seconds(s) != Granularity::Unknown ==> granularity_seconds(
            granularity_of_seconds(s),
        ) == s,
{
}

/// Span of time, where `start` and `end` are in seconds.
#[derive(Debug, Clone, Copy)]
pub struct Span {
    pub start: u64,
    pub end: u64,
    pub granularity: u32,
}

/// A timestamp moved back to the start of its interval.
pub open spec fn interval_floor(t: u64, g: u32) -> int
    recommends
        g > 0,
{
    (t as int) - ((t as int) % (g as int))
}

/// The number of whole intervals of `granularity` seconds between the starts of the intervals
/// of `start` and `end`.
pub open spec fn span_count(s: Span) -> int
    recommends
        s.granularity > 0,
{
    (interval_floor(s.end, s.granularity) - interval_floor(s.start, s.granularity))
        / s.granularity as int
}

impl Span {
    /// Creates a new instance of Span that holds a start and end time along with how long the
    /// blocks of time should be.
    ///
    /// * NOTE: `start` should be oldest of the two timestamps. `end` should be most recent.
    pub fn new(start: u64, end: u64, granularity: &Granularity) -> (s: Self)
        ensures
            s.start == start,
            s.end == end,
            s.granularity == granularity_seconds(*granularity),
    {
        let granularity_sec = Granularity::to_secs(granularity);
        Span { start, end, granularity: granularity_sec }
    }

    /// Total amount of intervals within the span.
    pub fn count(&self) -> (c: usize)
        requires
            self.granularity > 0,
            interval_floor(self.start, self.granularity) <= interval_floor(
                self.end,
                self.granularity,
            ),
            span_count(*self) <= usize::MAX,
        ensures
            c == span_count(*self),
    {
        let g = self.granularity as u64;
        proof {
            vstd::arithmetic::div_mod::lemma_mod_decreases(self.end as nat, g as nat);
            vstd::arithmetic::div_mod::lemma_mod_decreases(self.start as nat, g as nat);
        }
        let end = self.end - (self.end % g);
        let start = self.start - (self.start % g);
        ((end - start) / g) as usize
    }
}

impl Query for Span {
    open spec fn query_pairs(&self) -> Seq<QueryPair> {
        seq![
            ("start"@, self.start.query_text()),
            ("end"@, self.end.query_text()),
            ("granularity"@, granularity_of_seconds(self.granularity).api_name()),
        ]
    }

    open spec fn query_failure(&self) -> Option<CbErrorView> {
        if self.start >= self.end {
            Some(CbErrorView::BadQuery("start must be before end"@))
        } else if self.granularity == 0 {
            Some(CbErrorView::BadQuery("granularity must be greater than 0"@))
        } else {
            None
        }
    }

    fn check(&self) -> (r: CbResult<()>) {
        if self.start >= self.end {
            return Err(bad_query("start must be before end"));
        } else if self.granularity == 0 {
            return Err(bad_query("granularity must be greater than 0"));
        }
        Ok(())
    }

    fn to_query(&self) -> (s: String) {
        let granularity = Granularity::from_secs(self.granularity);
        let b = QueryBuilder::new().push("start", &self.start).push("end", &self.end).push(
            "granularity",
            &granularity,
        );
        proof {
            assert(b@ =~= self.query_pairs());
        }
        b.build()
    }
}

/// A reading of the system clock.
#[verifier::external_type_specification]
#[verifier::external_body]
pub struct ExSystemTime(std::time::SystemTime);

/// The error of a clock reading that lies before the time it is measured from.
#[verifier::external_type_specification]
#[verifier::external_body]
pub struct ExSystemTimeError(std::time::SystemTimeError);

/// Reads the system clock with `std::time::SystemTime::now`. The value depends on the clock:
/// nothing is claimed of it.
#[verifier::external_body]
fn system_now() -> std::time::SystemTime {
    std::time::SystemTime::now()
}

/// The time elapsed from the UNIX epoch to a clock reading, with
/// `std::time::SystemTime::duration_since`; an error when the reading lies before the epoch.
/// Nothing is claimed of which it is.
#[verifier::external_body]
fn since_epoch(t: &std::time::SystemTime) -> Result<std::time::Duration, std::time::SystemTimeError> {
    t.duration_since(std::time::UNIX_EPOCH)
}

/// The whole seconds of a span of time, with `std::time::Duration::as_secs`. Nothing is
/// claimed of the value.
#[verifier::external_body]
fn whole_seconds(d: &std::time::Duration) -> u64 {
    d.as_secs()
}

/// The whole seconds elapsed since the UNIX epoch, read from the system clock; `None` when the
/// clock reads a time before the epoch.
pub fn now() -> Option<u64> {
    let t = system_now();
    match since_epoch(&t) {
        Ok(d) => Some(whole_seconds(&d)),
        Err(_) => None,
    }
}

/// Offset a timestamp by a number of seconds into the future.
pub fn after(timestamp: u64, seconds: u64) -> (t: u64)
    requires
        timestamp + seconds <= u64::MAX,
    ensures
        t == timestamp + seconds,
{
    timestamp + seconds
}

/// Offset a timestamp by a number of seconds into the past.
pub fn before(timestamp: u64, seconds: u64) -> (t: u64)
    requires
        seconds <= timestamp,
    ensures
        t == timestamp - seconds,
{
    timestamp - seconds
}

/// Whether a number of seconds is the length of a known granularity.
pub open spec fn is_granularity_seconds(g: u32) -> bool {
    granularity_seconds(granularity_of_seconds(g)) == g && g > 0
}

/// Moving a timestamp back to the start of its interval keeps it at most where it was, and
/// less than one interval back.
pub proof fn lemma_floor_bounds(t: u64, g: u32)
    requires
        g > 0,
    ensures
        interval_floor(t, g) <= t,
        t - interval_floor(t, g) < g,
{
    vstd::arithmetic::div_mod::lemma_mod_bound(t as int, g as int);
}

/// The start of the interval of a later timestamp is not earlier.
pub proof fn lemma_floor_monotonic(a: u64, b: u64, g: u32)
    requires
        g > 0,
        a <= b,
    ensures
        interval_floor(a, g) <= interval_floor(b, g),
{
    let ai = a as int;
    let bi = b as int;
    let gi = g as int;
    vstd::arithmetic::div_mod::lemma_fundamental_div_mod(ai, gi);
    vstd::arithmetic::div_mod::lemma_fundamental_div_mod(bi, gi);
    vstd::arithmetic::div_mod::lemma_div_is_ordered(ai, bi, gi);
    let qa = ai / gi;
    let qb = bi / gi;
    assert(gi * qa <= gi * qb) by (nonlinear_arith)
        requires
            qa <= qb,
            gi > 0,
    ;
}

/// Moving a timestamp by whole intervals moves the start of its interval by as much.
pub proof fn lemma_floor_shift(a: u64, k: int, g: u32)
    requires
        g > 0,
        k >= 0,
        a + g * k <= u64::MAX,
    ensures
        interval_floor((a + g * k) as u64, g) == interval_floor(a, g) + g * k,
{
    vstd::arithmetic::div_mod::lemma_mod_multiples_vanish(k, a as int, g as int);
    assert((g as int * k + a as int) % (g as int) == (a as int) % (g as int));
}

/// The end of the window of candles that starts at `start`: as many intervals as one request
/// returns, but not past `end`.
pub open spec fn window_end(start: u64, end: u64, g: u32) -> u64 {
    if start + g * CANDLE_MAXIMUM < end {
        (start + g * CANDLE_MAXIMUM) as u64
    } else {
        end
    }
}

/// The windows of candles requested, in order, to obtain the candles from `start` to `end`:
/// each starts where the previous one ended and spans as many intervals as one request
/// returns, the last one ending at `end`; requesting stops at the first window that holds no
/// whole interval.
pub open spec fn candle_windows_from(start: u64, end: u64, g: u32) -> Seq<Span>
    decreases end - start,
{
    let w = Span { start, end: window_end(start, end, g), granularity: g };
    if g == 0 || start >= end || span_count(w) <= 0 {
        Seq::empty()
    } else {
        proof {
            if w.end <= start {
                lemma_floor_monotonic(w.end, start, g);
            }
        }
        seq![w] + candle_windows_from(w.end, end, g)
    }
}

/// Each window requested holds between one and as many intervals as one request returns, ends
/// by `end`, and starts where the previous one ended; the first starts at `start`.
pub proof fn lemma_candle_windows(start: u64, end: u64, g: u32)
    requires
        g > 0,
        end + g * CANDLE_MAXIMUM <= u64::MAX,
    ensures
        ({
            let ws = candle_windows_from(start, end, g);
            &&& ws.len() > 0 ==> ws[0].start == start
            &&& forall|i: int|
                0 <= i < ws.len() ==> 1 <= span_count(#[trigger] ws[i]) <= CANDLE_MAXIMUM && ws[i].end
                    <= end && ws[i].granularity == g
            &&& forall|i: int| 0 < i < ws.len() ==> #[trigger] ws[i].start == ws[i - 1].end
        }),
    decreases end - start,
{
    let ws = candle_windows_from(start, end, g);
    let w = Span { start, end: window_end(start, end, g), granularity: g };
    if start < end && span_count(w) > 0 {
        if w.end <= start {
            lemma_floor_monotonic(w.end, start, g);
        }
        lemma_candle_windows(w.end, end, g);
        let rest = candle_windows_from(w.end, end, g);
        assert(ws == seq![w] + rest);
        lemma_floor_shift(start, CANDLE_MAXIMUM as int, g);
        lemma_floor_monotonic(w.end, (start + g * CANDLE_MAXIMUM) as u64, g);
        vstd::arithmetic::div_mod::lemma_div_is_ordered(
            interval_floor(w.end, g) - interval_floor(start, g),
            g * CANDLE_MAXIMUM,
            g as int,
        );
        vstd::arithmetic::div_mod::lemma_div_by_multiple(CANDLE_MAXIMUM as int, g as int);
        assert((g * CANDLE_MAXIMUM) as int == (CANDLE_MAXIMUM as int) * (g as int)) by (nonlinear_arith);
        assert forall|i: int| 0 <= i < ws.len() implies 1 <= span_count(#[trigger] ws[i])
            <= CANDLE_MAXIMUM && ws[i].end <= end && ws[i].granularity == g by {
            if i > 0 {
                assert(ws[i] == rest[i - 1]);
            }
        }
        assert forall|i: int| 0 < i < ws.len() implies #[trigger] ws[i].start == ws[i - 1].end by {
            assert(ws[i] == rest[i - 1]);
            if i > 1 {
                assert(ws[i - 1] == rest[i - 2]);
                assert(rest[i - 1].start == rest[i - 2].end);
            }
        }
    }
}

/// The windows of candles to request, in order, to obtain the candles of the span.
pub fn candle_windows(query: &Span) -> (r: Vec<Span>)
    requires
        is_granularity_seconds(query.granularity),
        query.start <= query.end || interval_floor(query.end, query.granularity) == interval_floor(
            query.start,
            query.granularity,
        ),
        query.start + query.granularity * CANDLE_MAXIMUM <= u64::MAX,
        query.end + query.granularity * CANDLE_MAXIMUM <= u64::MAX,
    ensures
        r@ == candle_windows_from(query.start, query.end, query.granularity),
{
    let end = query.end;
    let interval = query.granularity as u64;
    let maximum = CANDLE_MAXIMUM as u64;
    let ghost g = query.granularity;
    let granularity = Granularity::from_secs(query.granularity);
    let mut span = Span::new(query.start, end, &granularity);
    assert(interval * maximum == g * CANDLE_MAXIMUM) by (nonlinear_arith)
        requires
            interval == g,
            maximum == CANDLE_MAXIMUM,
    ;
    span.end = after(query.start, interval * maximum);
    if span.end > end {
        span.end = end;
    }
    let mut windows: Vec<Span> = Vec::new();
    if span.end < span.start {
        // The span ends within the interval where it starts: it holds no whole interval.
        assert(span_count(span) == 0);
        return windows;
    }
    proof {
        lemma_floor_monotonic(span.start, span.end, g);
        lemma_floor_shift(span.start, CANDLE_MAXIMUM as int, g);
        lemma_floor_monotonic(span.end, (span.start + g * CANDLE_MAXIMUM) as u64, g);
        vstd::arithmetic::div_mod::lemma_div_is_ordered(
            interval_floor(span.end, g) - interval_floor(span.start, g),
            g * CANDLE_MAXIMUM,
            g as int,
        );
        vstd::arithmetic::div_mod::lemma_div_by_multiple(CANDLE_MAXIMUM as int, g as int);
        assert((g * CANDLE_MAXIMUM) as int == (CANDLE_MAXIMUM as int) * (g as int)) by (nonlinear_arith);
    }
    while span.count() > 0
        invariant
            g == query.granularity,
            g > 0,
            interval == g,
            maximum == CANDLE_MAXIMUM,
            end == query.end,
            end + g * CANDLE_MAXIMUM <= u64::MAX,
            span.granularity == g,
            span.start <= span.end <= end,
            span.end == window_end(span.start, end, g),
            interval_floor(span.start, g) <= interval_floor(span.end, g),
            span_count(span) <= CANDLE_MAXIMUM,
            windows@ + candle_windows_from(span.start, end, g) == candle_windows_from(
                query.start,
                end,
                g,
            ),
        decreases end - span.start,
    {
        let ghost before = windows@;
        let ghost old_span = span;
        proof {
            if span.end <= span.start {
                lemma_floor_monotonic(span.end, span.start, g);
            }
            assert(candle_windows_from(span.start, end, g) == seq![span] + candle_windows_from(
                span.end,
                end,
                g,
            ));
        }
        windows.push(span);
        span.start = span.end;
        span.end = after(span.start, interval * maximum);
        if span.end > end {
            span.end = end;
        }
        if span.start > span.end {
            span.start = span.end;
        }
        proof {
            assert(windows@ == before.push(old_span));
            assert(windows@ + candle_windows_from(span.start, end, g) =~= before + (seq![old_span]
                + candle_windows_from(span.start, end, g)));
            lemma_floor_monotonic(span.start, span.end, g);
            lemma_floor_shift(span.start, CANDLE_MAXIMUM as int, g);
            lemma_floor_monotonic(span.end, (span.start + g * CANDLE_MAXIMUM) as u64, g);
            vstd::arithmetic::div_mod::lemma_div_is_ordered(
                interval_floor(span.end, g) - interval_floor(span.start, g),
                g * CANDLE_MAXIMUM,
                g as int,
            );
            vstd::arithmetic::div_mod::lemma_div_by_multiple(CANDLE_MAXIMUM as int, g as int);
            assert((g * CANDLE_MAXIMUM) as int == (CANDLE_MAXIMUM as int) * (g as int))
                by (nonlinear_arith);
        }
    }
    proof {
        assert(candle_windows_from(span.start, end, g) =~= Seq::<Span>::empty());
        assert(windows@ + Seq::<Span>::empty() =~= windows@);
    }
    windows
}

/// A span sends exactly its window: `start` and `end` with their timestamps and `granularity` with
/// the API name of the granularity of its length in seconds, in that order; each is written into
/// the query string as `key=value`.
pub proof fn lemma_span_sends_window(q: Span)
    ensures
        q.query_pairs().len() == 3,
        q.query_pairs()[0] == ("start"@, q.start.query_text()),
        q.query_pairs()[1] == ("end"@, q.end.query_text()),
        q.query_pairs()[2] == ("granularity"@, granularity_of_seconds(q.granularity).api_name()),
        forall|i: int|
            0 <= i < q.query_pairs().len() ==> occurs_in(
                pair_text(#[trigger] q.query_pairs()[i]),
                render_query(q.query_pairs()),
            ),
{
    assert forall|i: int| 0 <= i < q.query_pairs().len() implies occurs_in(
        pair_text(#[trigger] q.query_pairs()[i]),
        render_query(q.query_pairs()),
    ) by {
        lemma_render_contains(q.query_pairs(), i);
    }
}

/// A span is accepted exactly when its start comes before its end and its granularity is a
/// positive number of seconds.
pub proof fn lemma_span_accepted(q: Span)
    ensures
        q.query_failure() is None <==> (q.start < q.end && q.granularity > 0),
{
}

} // verus!
