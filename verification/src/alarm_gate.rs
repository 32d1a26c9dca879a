//! The alarm service's decision whether an alert goes out: one rate limiter
//! per device, created the first time the device raises an alert.
use crate::rate_limiter::{admits, after_request, alert_key, RateLimiter, SentEntry};
use crate::text::text_eq;
use vstd::prelude::*;

verus! {

/// The limiters' memories by device id, read from a list of
/// (device id, memory) pairs.
pub open spec fn limiter_map(s: Seq<(Seq<char>, Seq<SentEntry>)>) -> Map<Seq<char>, Seq<SentEntry>>
    decreases s.len(),
{
    if s.len() == 0 {
        Map::empty()
    } else {
        limiter_map(s.drop_last()).insert(s.last().0, s.last().1)
    }
}

pub open spec fn distinct_ids(s: Seq<(Seq<char>, Seq<SentEntry>)>) -> bool {
    forall|i: int, j: int| 0 <= i < j < s.len() ==> s[i].0 != s[j].0
}

/// The memory a device's limiter has: its own, or none yet.
pub open spec fn memory_of(m: Map<Seq<char>, Seq<SentEntry>>, device_id: Seq<char>) -> Seq<SentEntry> {
    if m.contains_key(device_id) {
        m[device_id]
    } else {
        Seq::empty()
    }
}

proof fn lemma_map_lookup(s: Seq<(Seq<char>, Seq<SentEntry>)>, i: int)
    requires
        distinct_ids(s),
        0 <= i < s.len(),
    ensures
        limiter_map(s).contains_key(s[i].0),
        limiter_map(s)[s[i].0] == s[i].1,
    decreases s.len(),
{
    if i < s.len() - 1 {
        let t = s.drop_last();
        assert(t[i] == s[i]);
        lemma_map_lookup(t, i);
    }
}

proof fn lemma_map_absent(s: Seq<(Seq<char>, Seq<SentEntry>)>, k: Seq<char>)
    requires
        forall|i: int| 0 <= i < s.len() ==> (#[trigger] s[i]).0 != k,
    ensures
        !limiter_map(s).contains_key(k),
    decreases s.len(),
{
    if s.len() > 0 {
        let t = s.drop_last();
        assert forall|i: int| 0 <= i < t.len() implies (#[trigger] t[i]).0 != k by {
            assert(t[i] == s[i]);
        }
        assert(s.last() == s[s.len() - 1]);
        lemma_map_absent(t, k);
    }
}

proof fn lemma_map_update(s: Seq<(Seq<char>, Seq<SentEntry>)>, i: int, v: Seq<SentEntry>)
    requires
        distinct_ids(s),
        0 <= i < s.len(),
    ensures
        limiter_map(s.update(i, (s[i].0, v))) =~= limiter_map(s).insert(s[i].0, v),
    decreases s.len(),
{
    let u = s.update(i, (s[i].0, v));
    if i == s.len() - 1 {
        assert(u.drop_last() =~= s.drop_last());
    } else {
        let t = s.drop_last();
        assert(t[i] == s[i]);
        lemma_map_update(t, i, v);
        assert(u.drop_last() =~= t.update(i, (s[i].0, v)));
        assert(u.last() == s.last());
        assert(s.last() == s[s.len() - 1]);
    }
}

pub struct DeviceRateLimiters {
    limiters: Vec<(String, RateLimiter)>,
}

impl DeviceRateLimiters {
    pub closed spec fn entries(self) -> Seq<(Seq<char>, Seq<SentEntry>)> {
        self.limiters@.map_values(|e: (String, RateLimiter)| (e.0@, e.1@))
    }

    #[verifier::type_invariant]
    closed spec fn ids_distinct(self) -> bool {
        distinct_ids(self.entries())
    }
}

impl View for DeviceRateLimiters {
    type V = Map<Seq<char>, Seq<SentEntry>>;

    closed spec fn view(&self) -> Map<Seq<char>, Seq<SentEntry>> {
        limiter_map(self.entries())
    }
}

impl DeviceRateLimiters {
    pub fn new() -> (r: Self)
        ensures
            r@ == Map::<Seq<char>, Seq<SentEntry>>::empty(),
    {
        let r = DeviceRateLimiters { limiters: Vec::new() };
        assert(r.entries() =~= Seq::<(Seq<char>, Seq<SentEntry>)>::empty());
        r
    }

    /// Where the limiter of `device_id` stands, if the device has one.
    fn position_of(&self, device_id: &str) -> (pos: Option<usize>)
        ensures
            match pos {
                Some(i) => i < self.entries().len() && self.entries()[i as int].0 == device_id@,
                None => forall|i: int|
                    0 <= i < self.entries().len() ==> (#[trigger] self.entries()[i]).0 != device_id@,
            },
    {
        let n = self.limiters.len();
        let mut i: usize = 0;
        while i < n
            invariant
                n == self.limiters@.len(),
                n == self.entries().len(),
                i <= n,
                forall|j: int| 0 <= j < i ==> (#[trigger] self.entries()[j]).0 != device_id@,
            decreases n - i,
        {
            if text_eq(self.limiters[i].0.as_str(), device_id) {
                return Some(i);
            }
            i = i + 1;
        }
        None
    }

    /// Decides, at clock reading `now`, whether `device_id`'s alert of
    /// `alert_type` and `level` goes out, creating the device's limiter if
    /// it has none yet. Other devices' limiters are left as they were.
    pub fn should_send_at(&mut self, device_id: &str, alert_type: &str, level: &str, now: u128) -> (sent: bool)
        ensures
            sent == admits(
                memory_of(old(self)@, device_id@),
                alert_key(alert_type@, level@),
                now,
            ),
            final(self)@ == old(self)@.insert(
                device_id@,
                after_request(memory_of(old(self)@, device_id@), alert_key(alert_type@, level@), now),
            ),
    {
        proof {
            use_type_invariant(&*self);
        }
        let pos = self.position_of(device_id);
        match pos {
            Some(i) => {
                proof {
                    lemma_map_lookup(self.entries(), i as int);
                }
                let ghost before = self.entries();
                let mut limiters: Vec<(String, RateLimiter)> = Vec::new();
                std::mem::swap(&mut limiters, &mut self.limiters);
                let (id, mut limiter) = limiters.remove(i);
                let sent = limiter.should_send_at(alert_type, level, now);
                let ghost updated = limiter@;
                limiters.insert(i, (id, limiter));
                proof {
                    let after = limiters@.map_values(|e: (String, RateLimiter)| (e.0@, e.1@));
                    assert(after =~= before.update(i as int, (before[i as int].0, updated)));
                    lemma_map_update(before, i as int, updated);
                }
                self.limiters = limiters;
                sent
            },
            None => {
                proof {
                    lemma_map_absent(self.entries(), device_id@);
                }
                let ghost before = self.entries();
                let mut limiter = RateLimiter::new();
                let sent = limiter.should_send_at(alert_type, level, now);
                let ghost updated = limiter@;
                let mut limiters: Vec<(String, RateLimiter)> = Vec::new();
                std::mem::swap(&mut limiters, &mut self.limiters);
                limiters.push((device_id.to_owned(), limiter));
                proof {
                    let after = limiters@.map_values(|e: (String, RateLimiter)| (e.0@, e.1@));
                    assert(after =~= before.push((device_id@, updated)));
                    assert(after.drop_last() =~= before);
                    assert forall|a: int, b: int| 0 <= a < b < after.len() implies after[a].0 != after[b].0 by {
                        if b == after.len() - 1 {
                            assert(after[a] == before[a]);
                        } else {
                            assert(after[a] == before[a]);
                            assert(after[b] == before[b]);
                        }
                    }
                }
                self.limiters = limiters;
                sent
            },
        }
    }

    /// Decides now, on the device's own limiter clock, whether
    /// `device_id`'s alert of `alert_type` and `level` goes out, as
    /// `should_send_at` does; a device without a limiter gets a new one,
    /// whose clock starts at zero.
    pub fn should_send(&mut self, device_id: &str, alert_type: &str, level: &str) -> (sent: bool)
        ensures
            exists|now: u128|
                {
                    &&& sent == admits(
                        memory_of(old(self)@, device_id@),
                        alert_key(alert_type@, level@),
                        now,
                    )
                    &&& final(self)@ == old(self)@.insert(
                        device_id@,
                        after_request(
                            memory_of(old(self)@, device_id@),
                            alert_key(alert_type@, level@),
                            now,
                        ),
                    )
                },
    {
        let now = match self.position_of(device_id) {
            Some(i) => self.limiters[i].1.clock_reading(),
            None => 0,
        };
        self.should_send_at(device_id, alert_type, level, now)
    }
}

/// Devices are limited independently: a request for one device leaves
/// every other device's limiter exactly as it was.
pub proof fn lemma_devices_independent(
    m: Map<Seq<char>, Seq<SentEntry>>,
    device_id: Seq<char>,
    key: Seq<char>,
    now: u128,
    other: Seq<char>,
)
    requires
        other != device_id,
    ensures
        ({
            let m2 = m.insert(device_id, after_request(memory_of(m, device_id), key, now));
            &&& m2.contains_key(other) == m.contains_key(other)
            &&& memory_of(m2, other) == memory_of(m, other)
        }),
{
}

} // verus!
