//! The decisions of the pipeline's long-running tasks: how records are cut
//! into batches, how a producer paces itself, which scheduled request is due,
//! and how captured packets become one request.
use vstd::prelude::*;
use crate::config::Config;
use crate::pipeline::stage::bronze::{concat_requests, concat_spec, request_entries};
use crate::text::{chars_of, join, join_exec, push_piece, string_from_chars, strings, views};

verus! {

// ---------------------------------------------------------------------------
// Batches
// ---------------------------------------------------------------------------

/// The items cut into consecutive batches of `n`, the last one holding what
/// is left (`slice::chunks`).
pub open spec fn chunked<T>(s: Seq<T>, n: nat) -> Seq<Seq<T>>
    decreases s.len(),
{
    if s.len() == 0 || n == 0 {
        Seq::empty()
    } else if s.len() <= n {
        seq![s]
    } else {
        seq![s.take(n as int)] + chunked(s.skip(n as int), n)
    }
}

/// The items cut into consecutive batches of `batch_size`, the last one
/// holding what is left.
pub fn into_batches<T>(items: Vec<T>, batch_size: usize) -> (r: Vec<Vec<T>>)
    requires
        batch_size > 0,
    ensures
        r@.map_values(|b: Vec<T>| b@) == chunked(items@, batch_size as nat),
{
    let ghost all = items@;
    let mut rest = items;
    let mut out: Vec<Vec<T>> = Vec::new();
    while rest.len() > batch_size
        invariant
            batch_size > 0,
            out@.map_values(|b: Vec<T>| b@) + chunked(rest@, batch_size as nat) == chunked(
                all,
                batch_size as nat,
            ),
        decreases rest@.len(),
    {
        let ghost before = out@.map_values(|b: Vec<T>| b@);
        let ghost r0 = rest@;
        let tail = rest.split_off(batch_size);
        proof {
            assert(rest@ =~= r0.take(batch_size as int));
            assert(tail@ =~= r0.skip(batch_size as int));
        }
        out.push(rest);
        proof {
            assert(out@.map_values(|b: Vec<T>| b@) =~= before.push(r0.take(batch_size as int)));
            assert(chunked(r0, batch_size as nat) == seq![r0.take(batch_size as int)] + chunked(
                r0.skip(batch_size as int),
                batch_size as nat,
            ));
            assert(before + chunked(r0, batch_size as nat) =~= before.push(
                r0.take(batch_size as int),
            ) + chunked(tail@, batch_size as nat));
        }
        rest = tail;
    }
    if rest.len() > 0 {
        let ghost before = out@.map_values(|b: Vec<T>| b@);
        let ghost r0 = rest@;
        out.push(rest);
        proof {
            assert(out@.map_values(|b: Vec<T>| b@) =~= before.push(r0));
            assert(before + chunked(r0, batch_size as nat) =~= before.push(r0));
        }
    } else {
        proof {
            assert(out@.map_values(|b: Vec<T>| b@) + chunked(rest@, batch_size as nat)
                =~= out@.map_values(|b: Vec<T>| b@));
        }
    }
    out
}

/// Batching loses, adds and reorders nothing: the batches, put end to end,
/// give back the items; each batch holds between one and `n` items.
pub proof fn batches_partition_items<T>(s: Seq<T>, n: nat)
    requires
        n > 0,
    ensures
        chunked(s, n).flatten() == s,
        forall|i: int| 0 <= i < chunked(s, n).len() ==> 0 < #[trigger] chunked(s, n)[i].len() <= n,
        forall|i: int| 0 <= i < chunked(s, n).len() - 1 ==> #[trigger] chunked(s, n)[i].len() == n,
        chunked(s, n).len() == (s.len() + n - 1) / (n as int),
    decreases s.len(),
{
    if s.len() == 0 {
        assert(chunked(s, n).flatten() =~= s);
    } else if s.len() <= n {
        seq![s].lemma_flatten_one_element();
    } else {
        let rest = s.skip(n as int);
        batches_partition_items(rest, n);
        let c = chunked(s, n);
        assert(c == seq![s.take(n as int)] + chunked(rest, n));
        assert(c.drop_first() =~= chunked(rest, n));
        assert(c.flatten() == c[0] + c.drop_first().flatten());
        assert(s.take(n as int) + rest =~= s);
        assert forall|i: int| 0 <= i < c.len() implies 0 < #[trigger] c[i].len() <= n by {
            if i > 0 {
                assert(c[i] == chunked(rest, n)[i - 1]);
            }
        }
        assert forall|i: int| 0 <= i < c.len() - 1 implies #[trigger] c[i].len() == n by {
            if i > 0 {
                assert(c[i] == chunked(rest, n)[i - 1]);
            }
        }
        assert((s.len() + n - 1) / (n as int) == (rest.len() + n - 1) / (n as int) + 1) by {
            assert(s.len() + n - 1 == (rest.len() + n - 1) + n);
            vstd::arithmetic::div_mod::lemma_div_plus_one((rest.len() + n - 1) as int, n as int);
        }
    }
    if s.len() > 0 && s.len() <= n {
        assert((s.len() + n - 1) / (n as int) == 1) by {
            vstd::arithmetic::div_mod::lemma_basic_div((s.len() - 1) as int, n as int);
            assert(s.len() + n - 1 == (s.len() - 1) + n);
            vstd::arithmetic::div_mod::lemma_div_plus_one((s.len() - 1) as int, n as int);
        }
    }
    if s.len() == 0 {
        assert((n - 1) / (n as int) == 0) by {
            vstd::arithmetic::div_mod::lemma_basic_div((n - 1) as int, n as int);
        }
    }
}

// ---------------------------------------------------------------------------
// Pacing of producers
// ---------------------------------------------------------------------------

/// What a producer does once a round is over.
#[derive(Debug, Clone, Copy, PartialEq, Eq)]
pub enum Pace {
    /// The round took longer than the period: warn and go on at once.
    Late,
    /// Wait this many milliseconds before the next round.
    Sleep(u64),
}

/// The period of a producer in milliseconds, as the signed number that the
/// elapsed time is compared with.
pub open spec fn period_ms(frequency: u64) -> i64 {
    (frequency * 1000) as i64
}

/// What a producer whose period is `frequency` seconds does after a round
/// that took `elapsed_ms` milliseconds: it is late when the round took
/// longer than the period, else it sleeps for what is left of the period.
pub fn pace(frequency: u64, elapsed_ms: i64) -> (r: Pace)
    requires
        frequency * 1000 <= u64::MAX,
        elapsed_ms < 0 ==> elapsed_ms > period_ms(frequency),
    ensures
        elapsed_ms > period_ms(frequency) ==> r == Pace::Late,
        elapsed_ms <= period_ms(frequency) ==> r == Pace::Sleep((frequency * 1000 - elapsed_ms) as u64),
        frequency as int * 1000 <= i64::MAX ==> (r == Pace::Late <==> elapsed_ms as int > frequency as int
            * 1000),
        r matches Pace::Sleep(ms) ==> ms as int + elapsed_ms as int == frequency as int * 1000,
{
    let period: u64 = frequency * 1000;
    let limit: i64 = period as i64;
    if elapsed_ms > limit {
        Pace::Late
    } else {
        let spent: u64 = elapsed_ms as u64;
        Pace::Sleep(period - spent)
    }
}

// ---------------------------------------------------------------------------
// Scheduled requests
// ---------------------------------------------------------------------------

/// A request that runs again and again: its name, its text, its period in
/// seconds, and when (in seconds) it last ran.
#[derive(Debug, Clone)]
pub struct ScheduledRequest {
    pub name: String,
    pub request: String,
    pub period: u64,
    pub executed_at: i64,
}

/// A scheduled request is due once more than its period has passed since it
/// last ran.
pub open spec fn due(now: i64, executed_at: i64, period: u64) -> bool {
    now > executed_at + (period as i64)
}

impl ScheduledRequest {
    /// Whether the request is due at `now`.
    pub fn is_due(&self, now: i64) -> (r: bool)
        requires
            i64::MIN <= self.executed_at + (self.period as i64) <= i64::MAX,
        ensures
            r == due(now, self.executed_at, self.period),
            self.period <= i64::MAX ==> (r <==> now as int > self.executed_at as int + self.period as int),
    {
        let period: i64 = self.period as i64;
        now > self.executed_at + period
    }
}

/// A request whose period fits in an `i64` is due exactly once more than its
/// period has passed since it last ran: not at the end of the period, and at
/// every later time.
pub proof fn due_once_the_period_has_passed(now: i64, later: i64, executed_at: i64, period: u64)
    requires
        period <= i64::MAX,
    ensures
        due(now, executed_at, period) <==> now as int > executed_at as int + period as int,
        now as int <= executed_at as int + period as int ==> !due(now, executed_at, period),
        due(now, executed_at, period) && later >= now ==> due(later, executed_at, period),
{
}

/// The scheduled requests at start: silver and vacuum count as having run
/// now, gold a second later, and the file reload as never having run.
pub fn initial_schedule(
    config: &Config,
    now: i64,
    silver: String,
    gold: String,
    vacuum: String,
    file: String,
) -> (r: Vec<ScheduledRequest>)
    requires
        now < i64::MAX,
    ensures
        r@.len() == 4,
        r@[0].name@ == "silver"@ && r@[0].request == silver && r@[0].period == config.schedule.silver
            && r@[0].executed_at == now,
        r@[1].name@ == "gold"@ && r@[1].request == gold && r@[1].period == config.schedule.gold
            && r@[1].executed_at == now + 1,
        r@[2].name@ == "vacuum"@ && r@[2].request == vacuum && r@[2].period == config.schedule.vacuum
            && r@[2].executed_at == now,
        r@[3].name@ == "file"@ && r@[3].request == file && r@[3].period == config.schedule.file
            && r@[3].executed_at == 0,
{
    let mut r: Vec<ScheduledRequest> = Vec::new();
    r.push(ScheduledRequest {
        name: string_from_chars(&chars_of("silver")),
        request: silver,
        period: config.schedule.silver,
        executed_at: now,
    });
    r.push(ScheduledRequest {
        name: string_from_chars(&chars_of("gold")),
        request: gold,
        period: config.schedule.gold,
        executed_at: now + 1,
    });
    r.push(ScheduledRequest {
        name: string_from_chars(&chars_of("vacuum")),
        request: vacuum,
        period: config.schedule.vacuum,
        executed_at: now,
    });
    r.push(ScheduledRequest {
        name: string_from_chars(&chars_of("file")),
        request: file,
        period: config.schedule.file,
        executed_at: 0,
    });
    r
}

// ---------------------------------------------------------------------------
// Captured packets
// ---------------------------------------------------------------------------

/// The request that stores a batch of captured packets: their insert
/// requests merged by target, `batch_size` values at most per request, the
/// merged requests separated by semicolons.
pub fn capture_batch_request(values: Vec<String>, batch_size: usize) -> (r: String)
    requires
        batch_size > 0 || request_entries(strings(values@)).len() == 0,
    ensures
        r@ == join(concat_spec(strings(values@), batch_size as nat), ";"@),
{
    let merged = concat_requests(values, batch_size);
    let mut parts: Vec<Vec<char>> = Vec::new();
    let mut i: usize = 0;
    while i < merged.len()
        invariant
            i <= merged@.len(),
            views(parts@) == strings(merged@).take(i as int),
        decreases merged@.len() - i,
    {
        push_piece(&mut parts, chars_of(merged[i].as_str()));
        proof {
            assert(strings(merged@).take(i + 1) =~= strings(merged@).take(i as int).push(
                merged@[i as int]@,
            ));
        }
        i = i + 1;
    }
    proof {
        assert(strings(merged@).take(merged@.len() as int) =~= strings(merged@));
    }
    string_from_chars(&join_exec(&parts, &chars_of(";")))
}

} // verus!
