//! Per-device alert de-duplication: a sliding window that lets at most
//! `MAX_ALERTS_PER_WINDOW` alerts of one `type:level` key through within
//! `ALERT_DEDUP_WINDOW_SECS` seconds.
use std::collections::VecDeque;
use std::time::Instant;
use vstd::prelude::*;
use vstd::string::*;

verus! {

broadcast use vstd::std_specs::vecdeque::group_vec_dequeue_axioms;

pub const ALERT_DEDUP_WINDOW_SECS: u64 = 5;

pub const MAX_ALERTS_PER_WINDOW: usize = 3;

/// The de-duplication window in nanoseconds.
pub const WINDOW_NANOS: u128 = 5_000_000_000;

/// A remembered alert: its `type:level` key and when it was let through,
/// in nanoseconds on the limiter's monotonic clock.
pub type SentEntry = (Seq<char>, u128);

/// The key under which an alert is counted: `type`, a colon, `level`.
pub open spec fn alert_key(alert_type: Seq<char>, level: Seq<char>) -> Seq<char> {
    alert_type + seq![':'] + level
}

/// An entry recorded at `at` has left the window at time `now`: more than
/// the window has passed since (a clock reading before `at` counts as no
/// time passed).
pub open spec fn is_expired(now: u128, at: u128) -> bool {
    now > at && now - at > WINDOW_NANOS
}

/// Drops expired entries from the front, stopping at the first one that is
/// still inside the window.
pub open spec fn prune(q: Seq<SentEntry>, now: u128) -> Seq<SentEntry>
    decreases q.len(),
{
    if q.len() > 0 && is_expired(now, q[0].1) {
        prune(q.drop_first(), now)
    } else {
        q
    }
}

/// How many entries of `q` satisfy `p`.
pub open spec fn count_where(q: Seq<SentEntry>, p: spec_fn(SentEntry) -> bool) -> nat
    decreases q.len(),
{
    if q.len() == 0 {
        0
    } else {
        count_where(q.drop_last(), p) + if p(q.last()) {
            1nat
        } else {
            0nat
        }
    }
}

pub open spec fn has_key(key: Seq<char>) -> spec_fn(SentEntry) -> bool {
    |e: SentEntry| e.0 == key
}

/// How many remembered entries carry `key`.
pub open spec fn key_count(q: Seq<SentEntry>, key: Seq<char>) -> nat {
    count_where(q, has_key(key))
}

/// Whether a request for `key` at `now` is let through.
pub open spec fn admits(q: Seq<SentEntry>, key: Seq<char>, now: u128) -> bool {
    key_count(prune(q, now), key) < MAX_ALERTS_PER_WINDOW
}

/// The remembered entries after a request for `key` at `now`.
pub open spec fn after_request(q: Seq<SentEntry>, key: Seq<char>, now: u128) -> Seq<SentEntry> {
    if admits(q, key, now) {
        prune(q, now).push((key, now))
    } else {
        prune(q, now)
    }
}

/// `std::time::Instant`, a reading of the monotonic clock; opaque here.
#[verifier::external_type_specification]
#[verifier::external_body]
pub struct ExInstant(Instant);

/// `Instant::now` (std): a reading of the monotonic clock. Nothing is
/// claimed of the value.
#[verifier::external_body]
fn clock_now() -> Instant {
    Instant::now()
}

/// `Instant::elapsed` (std), read in whole nanoseconds: the time that has
/// passed since `origin`. Nothing is claimed of the value, which depends on
/// the clock.
#[verifier::external_body]
fn nanos_since(origin: &Instant) -> u128 {
    origin.elapsed().as_nanos()
}

pub struct RateLimiter {
    recent_alerts: VecDeque<(String, u128)>,
    clock_origin: Instant,
    latest: u128,
    sent_log: Ghost<Seq<SentEntry>>,
}

impl View for RateLimiter {
    type V = Seq<SentEntry>;

    closed spec fn view(&self) -> Seq<SentEntry> {
        self.recent_alerts@.map_values(|e: (String, u128)| (e.0@, e.1))
    }
}

impl RateLimiter {
    /// The instant the limiter's clock counts from.
    pub closed spec fn origin(&self) -> Instant {
        self.clock_origin
    }

    /// The latest clock reading a request was decided at (zero at first).
    pub closed spec fn latest_reading(&self) -> u128 {
        self.latest
    }

    /// Every alert let through so far, with its key and clock reading, in
    /// order.
    pub closed spec fn sent_log(&self) -> Seq<SentEntry> {
        self.sent_log@
    }

    /// The memory is what was let through, less entries that had expired
    /// by the latest reading, in clock order: so it holds while requests
    /// come at readings that never go back.
    pub closed spec fn consistent(&self) -> bool {
        memory_matches_log(self@, self.sent_log@, self.latest)
    }

    pub fn new() -> (r: Self)
        ensures
            r@ == Seq::<SentEntry>::empty(),
            r.sent_log() == Seq::<SentEntry>::empty(),
            r.latest_reading() == 0,
            r.consistent(),
    {
        let r = RateLimiter {
            recent_alerts: VecDeque::new(),
            clock_origin: clock_now(),
            latest: 0,
            sent_log: Ghost(Seq::empty()),
        };
        assert(r@ =~= Seq::<SentEntry>::empty());
        assert(r@ =~= r.sent_log@.subrange(0, 0));
        r
    }

    /// Decides, at clock reading `now`, whether an alert of `alert_type` and
    /// `level` goes out: expired entries are dropped from the front, and the
    /// alert goes out (and is remembered) unless its key already has
    /// `MAX_ALERTS_PER_WINDOW` entries.
    ///
    /// When requests come at readings that never go back, the alert goes
    /// out exactly when fewer than `MAX_ALERTS_PER_WINDOW` alerts with its
    /// key went out within the window before `now`.
    pub fn should_send_at(&mut self, alert_type: &str, level: &str, now: u128) -> (sent: bool)
        ensures
            sent == admits(old(self)@, alert_key(alert_type@, level@), now),
            final(self)@ == after_request(old(self)@, alert_key(alert_type@, level@), now),
            final(self).origin() == old(self).origin(),
            final(self).latest_reading() == (if now > old(self).latest_reading() {
                now
            } else {
                old(self).latest_reading()
            }),
            final(self).sent_log() == (if sent {
                old(self).sent_log().push((alert_key(alert_type@, level@), now))
            } else {
                old(self).sent_log()
            }),
            old(self).consistent() && old(self).latest_reading() <= now ==> final(self).consistent()
                && sent == (count_where(
                old(self).sent_log(),
                recent_with_key(alert_key(alert_type@, level@), now),
            ) < MAX_ALERTS_PER_WINDOW),
    {
        let ghost start = self@;
        let ghost log0 = self.sent_log@;
        let ghost latest0 = self.latest;
        let ghost origin0 = self.clock_origin;
        proof {
            if memory_matches_log(start, log0, latest0) && latest0 <= now {
                lemma_step_matches_log(start, log0, latest0, alert_key(alert_type@, level@), now);
            }
        }
        proof {
            reveal_strlit(":");
        }
        let key = alert_type.to_owned().concat(":").concat(level);
        assert(key@ =~= alert_key(alert_type@, level@));

        loop
            invariant
                prune(self@, now) == prune(start, now),
                self.clock_origin == origin0,
                self.latest == latest0,
                self.sent_log@ == log0,
            ensures
                self@ == prune(start, now),
            decreases self@.len(),
        {
            if self.recent_alerts.len() == 0 {
                break;
            }
            let at = self.recent_alerts[0].1;
            if now > at && now - at > WINDOW_NANOS {
                let ghost before = self@;
                self.recent_alerts.pop_front();
                assert(self@ =~= before.drop_first());
            } else {
                break;
            }
        }
        assert(self@ == prune(start, now));

        let ghost pruned = self@;
        let n = self.recent_alerts.len();
        let mut count: usize = 0;
        let mut i: usize = 0;
        while i < n
            invariant
                n == pruned.len(),
                self@ == pruned,
                self.clock_origin == origin0,
                self.latest == latest0,
                self.sent_log@ == log0,
                i <= n,
                count <= i,
                count == key_count(pruned.take(i as int), key@),
            decreases n - i,
        {
            assert(pruned.take(i as int + 1).drop_last() =~= pruned.take(i as int));
            if self.recent_alerts[i].0 == key {
                count = count + 1;
            }
            i = i + 1;
        }
        assert(pruned.take(n as int) =~= pruned);

        let sent = count < MAX_ALERTS_PER_WINDOW;
        if sent {
            let ghost before = self@;
            self.sent_log = Ghost(self.sent_log@.push((key@, now)));
            self.recent_alerts.push_back((key, now));
            assert(self@ =~= before.push((alert_key(alert_type@, level@), now)));
        }
        if now > self.latest {
            self.latest = now;
        }
        sent
    }

    /// The limiter's clock: nanoseconds since the limiter was made. Nothing
    /// is claimed of the value.
    pub fn clock_reading(&self) -> u128 {
        nanos_since(&self.clock_origin)
    }

    /// Decides now whether an alert of `alert_type` and `level` goes out,
    /// as `should_send_at` does at the current clock reading.
    ///
    /// With a clock that never goes back, the alert goes out exactly when
    /// fewer than `MAX_ALERTS_PER_WINDOW` alerts with its key went out
    /// within the window before the reading.
    pub fn should_send(&mut self, alert_type: &str, level: &str) -> (sent: bool)
        ensures
            exists|now: u128|
                {
                    &&& sent == admits(old(self)@, alert_key(alert_type@, level@), now)
                    &&& final(self)@ == after_request(
                        old(self)@,
                        alert_key(alert_type@, level@),
                        now,
                    )
                    &&& final(self).origin() == old(self).origin()
                    &&& final(self).latest_reading() == (if now > old(self).latest_reading() {
                        now
                    } else {
                        old(self).latest_reading()
                    })
                    &&& final(self).sent_log() == (if sent {
                        old(self).sent_log().push((alert_key(alert_type@, level@), now))
                    } else {
                        old(self).sent_log()
                    })
                    &&& (old(self).consistent() && old(self).latest_reading() <= now
                        ==> final(self).consistent() && sent == (count_where(
                        old(self).sent_log(),
                        recent_with_key(alert_key(alert_type@, level@), now),
                    ) < MAX_ALERTS_PER_WINDOW))
                },
    {
        let now = self.clock_reading();
        self.should_send_at(alert_type, level, now)
    }
}

/// The requests that went out when `requests` (key, clock reading) are
/// made in order against a limiter remembering `q`, with the memory left
/// at the end.
pub open spec fn replay(q: Seq<SentEntry>, requests: Seq<SentEntry>) -> (Seq<SentEntry>, Seq<SentEntry>)
    decreases requests.len(),
{
    if requests.len() == 0 {
        (q, Seq::empty())
    } else {
        let (memory, sent) = replay(q, requests.drop_last());
        let r = requests.last();
        if admits(memory, r.0, r.1) {
            (after_request(memory, r.0, r.1), sent.push(r))
        } else {
            (after_request(memory, r.0, r.1), sent)
        }
    }
}

pub open spec fn in_window(key: Seq<char>, lo: u128) -> spec_fn(SentEntry) -> bool {
    |e: SentEntry| e.0 == key && lo <= e.1 && e.1 <= lo + WINDOW_NANOS
}

proof fn lemma_count_push(q: Seq<SentEntry>, e: SentEntry, p: spec_fn(SentEntry) -> bool)
    ensures
        count_where(q.push(e), p) == count_where(q, p) + if p(e) {
            1nat
        } else {
            0nat
        },
{
    assert(q.push(e).drop_last() =~= q);
}

proof fn lemma_count_concat(a: Seq<SentEntry>, b: Seq<SentEntry>, p: spec_fn(SentEntry) -> bool)
    ensures
        count_where(a + b, p) == count_where(a, p) + count_where(b, p),
    decreases b.len(),
{
    if b.len() == 0 {
        assert(a + b =~= a);
    } else {
        lemma_count_concat(a, b.drop_last(), p);
        assert((a + b).drop_last() =~= a + b.drop_last());
        assert((a + b).last() == b.last());
    }
}

proof fn lemma_count_none(q: Seq<SentEntry>, p: spec_fn(SentEntry) -> bool)
    requires
        forall|i: int| 0 <= i < q.len() ==> !p(#[trigger] q[i]),
    ensures
        count_where(q, p) == 0,
    decreases q.len(),
{
    if q.len() > 0 {
        assert(q.last() == q[q.len() - 1]);
        lemma_count_none(q.drop_last(), p);
    }
}

proof fn lemma_count_weaker(q: Seq<SentEntry>, p: spec_fn(SentEntry) -> bool, p2: spec_fn(SentEntry) -> bool)
    requires
        forall|e: SentEntry| #[trigger] p(e) ==> p2(e),
    ensures
        count_where(q, p) <= count_where(q, p2),
    decreases q.len(),
{
    if q.len() > 0 {
        lemma_count_weaker(q.drop_last(), p, p2);
    }
}

/// Pruning removes a prefix, and every entry of that prefix is expired.
proof fn lemma_prune_split(q: Seq<SentEntry>, now: u128)
    ensures
        prune(q, now).len() <= q.len(),
        prune(q, now) =~= q.subrange(q.len() - prune(q, now).len(), q.len() as int),
        forall|i: int| 0 <= i < q.len() - prune(q, now).len() ==> is_expired(now, #[trigger] q[i].1),
    decreases q.len(),
{
    if q.len() > 0 && is_expired(now, q[0].1) {
        let rest = q.drop_first();
        lemma_prune_split(rest, now);
        assert forall|i: int| 0 <= i < q.len() - prune(q, now).len() implies is_expired(
            now,
            #[trigger] q[i].1,
        ) by {
            if i > 0 {
                assert(q[i] == rest[i - 1]);
            }
        }
    }
}

proof fn lemma_prune_count(q: Seq<SentEntry>, now: u128, p: spec_fn(SentEntry) -> bool)
    ensures
        count_where(prune(q, now), p) <= count_where(q, p),
        (forall|e: SentEntry| #[trigger] p(e) ==> !is_expired(now, e.1)) ==> count_where(
            prune(q, now),
            p,
        ) == count_where(q, p),
{
    lemma_prune_split(q, now);
    let d = q.len() - prune(q, now).len();
    let head = q.subrange(0, d);
    assert(q =~= head + prune(q, now));
    lemma_count_concat(head, prune(q, now), p);
    if forall|e: SentEntry| #[trigger] p(e) ==> !is_expired(now, e.1) {
        assert forall|i: int| 0 <= i < head.len() implies !p(#[trigger] head[i]) by {
            assert(head[i] == q[i]);
        }
        lemma_count_none(head, p);
    }
}

/// Rate-limiting cap: a request that goes out leaves at most
/// `MAX_ALERTS_PER_WINDOW` remembered entries for its key, and if no key
/// had more than that many entries before a request, none has after it.
pub proof fn lemma_request_keeps_cap(q: Seq<SentEntry>, key: Seq<char>, now: u128)
    ensures
        admits(q, key, now) ==> key_count(after_request(q, key, now), key)
            <= MAX_ALERTS_PER_WINDOW,
        (forall|k: Seq<char>| #[trigger] key_count(q, k) <= MAX_ALERTS_PER_WINDOW) ==> forall|
            k: Seq<char>,
        | #[trigger] key_count(after_request(q, key, now), k) <= MAX_ALERTS_PER_WINDOW,
{
    lemma_count_push(prune(q, now), (key, now), has_key(key));
    assert forall|k: Seq<char>|
        (forall|k2: Seq<char>| #[trigger] key_count(q, k2) <= MAX_ALERTS_PER_WINDOW) implies #[trigger] key_count(
        after_request(q, key, now),
        k,
    ) <= MAX_ALERTS_PER_WINDOW by {
        assert(key_count(q, k) <= MAX_ALERTS_PER_WINDOW);
        lemma_prune_count(q, now, has_key(k));
        lemma_count_push(prune(q, now), (key, now), has_key(k));
    }
}

/// Suppression: a request is held back exactly when its key already has
/// `MAX_ALERTS_PER_WINDOW` entries still inside the window, and then
/// nothing new is remembered.
pub proof fn lemma_suppressed_request(q: Seq<SentEntry>, key: Seq<char>, now: u128)
    ensures
        !admits(q, key, now) <==> key_count(prune(q, now), key) >= MAX_ALERTS_PER_WINDOW,
        !admits(q, key, now) ==> after_request(q, key, now) == prune(q, now),
        admits(q, key, now) ==> after_request(q, key, now).last() == (key, now),
{
}

/// An entry that is still inside the window at the time of a request is
/// not forgotten by it.
pub proof fn lemma_live_entry_kept(q: Seq<SentEntry>, key: Seq<char>, now: u128, i: int)
    requires
        0 <= i < q.len(),
        !is_expired(now, q[i].1),
    ensures
        after_request(q, key, now).contains(q[i]),
{
    lemma_prune_split(q, now);
    let d = q.len() - prune(q, now).len();
    let p = prune(q, now);
    assert(i >= d);
    assert(p[i - d] == q[i]);
    assert(after_request(q, key, now)[i - d] == q[i]);
}

/// Sliding-window guarantee: whatever the limiter remembered before, of
/// requests whose clock readings all lie within one window
/// `[lo, lo + WINDOW_NANOS]`, at most `MAX_ALERTS_PER_WINDOW` with the same
/// key go out.
pub proof fn lemma_window_cap(q: Seq<SentEntry>, requests: Seq<SentEntry>, key: Seq<char>, lo: u128)
    requires
        forall|i: int|
            0 <= i < requests.len() ==> lo <= (#[trigger] requests[i]).1 && requests[i].1 <= lo
                + WINDOW_NANOS,
    ensures
        key_count(replay(q, requests).1, key) <= MAX_ALERTS_PER_WINDOW,
{
    lemma_window_cap_inner(q, requests, key, lo);
}

proof fn lemma_window_cap_inner(q: Seq<SentEntry>, requests: Seq<SentEntry>, key: Seq<char>, lo: u128)
    requires
        forall|i: int|
            0 <= i < requests.len() ==> lo <= (#[trigger] requests[i]).1 && requests[i].1 <= lo
                + WINDOW_NANOS,
    ensures
        key_count(replay(q, requests).1, key) <= count_where(replay(q, requests).0, in_window(key, lo)),
        key_count(replay(q, requests).1, key) <= MAX_ALERTS_PER_WINDOW,
    decreases requests.len(),
{
    if requests.len() > 0 {
        let prior = requests.drop_last();
        assert forall|i: int| 0 <= i < prior.len() implies lo <= (#[trigger] prior[i]).1
            && prior[i].1 <= lo + WINDOW_NANOS by {
            assert(prior[i] == requests[i]);
        }
        lemma_window_cap_inner(q, prior, key, lo);
        let (memory, sent) = replay(q, prior);
        let r = requests.last();
        assert(r == requests[requests.len() - 1]);
        let now = r.1;
        let win = in_window(key, lo);
        assert forall|e: SentEntry| #[trigger] win(e) implies !is_expired(now, e.1) by {}
        lemma_prune_count(memory, now, win);
        lemma_count_weaker(prune(memory, now), win, has_key(key));
        lemma_count_push(prune(memory, now), r, win);
        lemma_count_push(sent, r, has_key(key));
    }
}

/// Entries are remembered in clock order, none later than `now`.
pub open spec fn in_clock_order(q: Seq<SentEntry>, now: u128) -> bool {
    &&& forall|i: int, j: int| 0 <= i < j < q.len() ==> q[i].1 <= q[j].1
    &&& forall|i: int| 0 <= i < q.len() ==> q[i].1 <= now
}

/// With a clock that never goes back, the memory stays in clock order, and
/// after every request it holds no expired entry: exactly the entries let
/// through within the window before the request remain.
pub proof fn lemma_monotone_clock_memory(q: Seq<SentEntry>, key: Seq<char>, then: u128, now: u128)
    requires
        in_clock_order(q, then),
        then <= now,
    ensures
        in_clock_order(after_request(q, key, now), now),
        forall|i: int|
            0 <= i < prune(q, now).len() ==> !is_expired(now, (#[trigger] prune(q, now)[i]).1),
{
    lemma_prune_split(q, now);
    let p = prune(q, now);
    let d = q.len() - p.len();
    assert forall|i: int| 0 <= i < p.len() implies p[i] == q[i + d] by {}
    if p.len() > 0 {
        assert(!is_expired(now, p[0].1)) by {
            lemma_prune_front_live(q, now);
        }
        assert forall|i: int| 0 <= i < p.len() implies !is_expired(now, (#[trigger] p[i]).1) by {
            assert(p[0].1 <= p[i].1);
        }
    }
}

proof fn lemma_prune_front_live(q: Seq<SentEntry>, now: u128)
    requires
        prune(q, now).len() > 0,
    ensures
        !is_expired(now, prune(q, now)[0].1),
    decreases q.len(),
{
    if q.len() > 0 && is_expired(now, q[0].1) {
        lemma_prune_front_live(q.drop_first(), now);
    }
}

/// Entries with `key` that are still inside the window at time `now`.
pub open spec fn recent_with_key(key: Seq<char>, now: u128) -> spec_fn(SentEntry) -> bool {
    |e: SentEntry| e.0 == key && !is_expired(now, e.1)
}

/// Requests made with a clock that never goes back.
pub open spec fn clock_ordered(requests: Seq<SentEntry>) -> bool {
    forall|a: int, b: int| 0 <= a < b < requests.len() ==> requests[a].1 <= requests[b].1
}

proof fn lemma_expired_later(a: u128, b: u128, t: u128)
    requires
        is_expired(a, t),
        a <= b,
    ensures
        is_expired(b, t),
{
}

proof fn lemma_count_agree(q: Seq<SentEntry>, p: spec_fn(SentEntry) -> bool, p2: spec_fn(SentEntry) -> bool)
    requires
        forall|i: int| 0 <= i < q.len() ==> p(#[trigger] q[i]) == p2(q[i]),
    ensures
        count_where(q, p) == count_where(q, p2),
    decreases q.len(),
{
    if q.len() > 0 {
        let t = q.drop_last();
        assert forall|i: int| 0 <= i < t.len() implies p(#[trigger] t[i]) == p2(t[i]) by {
            assert(t[i] == q[i]);
        }
        assert(q.last() == q[q.len() - 1]);
        lemma_count_agree(t, p, p2);
    }
}

/// The memory is what was let through (`log`), less a prefix of entries
/// that had expired by the clock reading `latest`, and is in clock order
/// with no entry later than `latest`.
pub open spec fn memory_matches_log(memory: Seq<SentEntry>, log: Seq<SentEntry>, latest: u128) -> bool {
    &&& memory.len() <= log.len()
    &&& memory == log.subrange(log.len() - memory.len(), log.len() as int)
    &&& forall|j: int| 0 <= j < log.len() - memory.len() ==> is_expired(latest, #[trigger] log[j].1)
    &&& in_clock_order(memory, latest)
}

/// One request at a clock reading no earlier than the last: it goes out
/// exactly when fewer than `MAX_ALERTS_PER_WINDOW` entries with its key in
/// the log lie within the window before it, and the memory keeps matching
/// the log.
pub proof fn lemma_step_matches_log(
    memory: Seq<SentEntry>,
    log: Seq<SentEntry>,
    latest: u128,
    key: Seq<char>,
    now: u128,
)
    requires
        memory_matches_log(memory, log, latest),
        latest <= now,
    ensures
        admits(memory, key, now) == (count_where(log, recent_with_key(key, now))
            < MAX_ALERTS_PER_WINDOW),
        memory_matches_log(
            after_request(memory, key, now),
            if admits(memory, key, now) {
                log.push((key, now))
            } else {
                log
            },
            now,
        ),
{
    let recent = recent_with_key(key, now);
    lemma_monotone_clock_memory(memory, key, latest, now);
    lemma_prune_split(memory, now);
    let p = prune(memory, now);
    let e = memory.len() - p.len();
    // in the pruned memory every entry is live, so counting by key is
    // counting recent entries with the key
    assert forall|j: int| 0 <= j < p.len() implies has_key(key)(#[trigger] p[j]) == recent(p[j]) by {}
    lemma_count_agree(p, has_key(key), recent);
    // the dropped part of the memory holds no recent entry
    let head = memory.subrange(0, e);
    assert(memory =~= head + p);
    lemma_count_concat(head, p, recent);
    assert forall|j: int| 0 <= j < head.len() implies !recent(#[trigger] head[j]) by {
        assert(head[j] == memory[j]);
    }
    lemma_count_none(head, recent);
    // and neither does the part of the log forgotten earlier
    let d = log.len() - memory.len();
    let gone = log.subrange(0, d);
    assert(log =~= gone + memory);
    lemma_count_concat(gone, memory, recent);
    assert forall|j: int| 0 <= j < gone.len() implies !recent(#[trigger] gone[j]) by {
        assert(gone[j] == log[j]);
        lemma_expired_later(latest, now, log[j].1);
    }
    lemma_count_none(gone, recent);
    // the memory after the request still matches the log
    let log2 = if admits(memory, key, now) {
        log.push((key, now))
    } else {
        log
    };
    let memory2 = after_request(memory, key, now);
    assert(memory2 =~= log2.subrange(log2.len() - memory2.len(), log2.len() as int));
    assert forall|j: int| 0 <= j < log2.len() - memory2.len() implies is_expired(
        now,
        #[trigger] log2[j].1,
    ) by {
        assert(log2[j] == log[j]);
        if j < d {
            lemma_expired_later(latest, now, log[j].1);
        } else {
            assert(log[j] == memory[j - d]);
        }
    }
}

/// A fresh limiter's memory after the first `n` of `requests`, made with a
/// clock that never goes back, matches what went out.
proof fn lemma_replay_matches_log(requests: Seq<SentEntry>, n: int)
    requires
        clock_ordered(requests),
        0 <= n <= requests.len(),
    ensures
        ({
            let (memory, sent) = replay(Seq::empty(), requests.take(n));
            memory_matches_log(
                memory,
                sent,
                if n == 0 {
                    0
                } else {
                    requests[n - 1].1
                },
            )
        }),
    decreases n,
{
    if n == 0 {
        assert(requests.take(0) =~= Seq::<SentEntry>::empty());
        let e = Seq::<SentEntry>::empty();
        assert(e =~= e.subrange(0, 0));
    } else {
        lemma_replay_matches_log(requests, n - 1);
        if n >= 2 {
            assert(requests[n - 2].1 <= requests[n - 1].1);
        }
        let prior = requests.take(n - 1);
        assert(requests.take(n).drop_last() =~= prior);
        assert(requests.take(n).last() == requests[n - 1]);
        let (memory, sent) = replay(Seq::empty(), prior);
        let r = requests[n - 1];
        let latest: u128 = if n == 1 {
            0
        } else {
            requests[n - 2].1
        };
        lemma_step_matches_log(memory, sent, latest, r.0, r.1);
    }
}

/// Exact sliding-window rule: for requests to a fresh limiter made with a
/// clock that never goes back, the request at position `i` goes out
/// exactly when fewer than `MAX_ALERTS_PER_WINDOW` earlier requests with
/// the same key went out within the window before it (no more than
/// `WINDOW_NANOS` earlier). Held-back requests never count, and other keys
/// never count.
pub proof fn lemma_admission_by_recent_sends(requests: Seq<SentEntry>, i: int)
    requires
        clock_ordered(requests),
        0 <= i < requests.len(),
    ensures
        ({
            let (memory, sent) = replay(Seq::empty(), requests.take(i));
            admits(memory, requests[i].0, requests[i].1) == (count_where(
                sent,
                recent_with_key(requests[i].0, requests[i].1),
            ) < MAX_ALERTS_PER_WINDOW)
        }),
{
    lemma_replay_matches_log(requests, i);
    let (memory, sent) = replay(Seq::empty(), requests.take(i));
    let latest: u128 = if i == 0 {
        0
    } else {
        requests[i - 1].1
    };
    if i > 0 {
        assert(requests[i - 1].1 <= requests[i].1);
    }
    lemma_step_matches_log(memory, sent, latest, requests[i].0, requests[i].1);
}

/// Alerts expire: when requests come at readings that never go back, a
/// request at `now` whose key went out only more than `WINDOW_NANOS` before
/// `now` (or never) is let through, however many alerts of that key went
/// out earlier.
pub proof fn lemma_stale_key_admitted(limiter: RateLimiter, key: Seq<char>, now: u128)
    requires
        limiter.consistent(),
        limiter.latest_reading() <= now,
        forall|j: int|
            0 <= j < limiter.sent_log().len() && (#[trigger] limiter.sent_log()[j]).0 == key
                ==> is_expired(now, limiter.sent_log()[j].1),
    ensures
        admits(limiter@, key, now),
{
    let log = limiter.sent_log();
    lemma_step_matches_log(limiter@, log, limiter.latest_reading(), key, now);
    assert forall|j: int| 0 <= j < log.len() implies !recent_with_key(key, now)(
        #[trigger] log[j],
    ) by {}
    lemma_count_none(log, recent_with_key(key, now));
}

} // verus!
