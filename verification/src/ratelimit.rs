use vstd::prelude::*;
use vstd::hash_map::StringHashMap;
use crate::internal_auth::InternalContext;
use crate::text::str_eq;

verus! {

/// One fixed-window counter: its current count and the absolute second at
/// which the window expires. The expiry is set exactly once, on the
/// increment that creates the counter.
#[derive(Clone, Copy, Debug, PartialEq, Eq, Structural)]
pub struct CounterEntry {
    pub count: u64,
    pub expires_at: u64,
}

/// A counter under `key` is live at `now` when it exists and its window
/// has not yet elapsed.
pub open spec fn live_at(m: Map<Seq<char>, CounterEntry>, key: Seq<char>, now: u64) -> bool {
    m.contains_key(key) && now < m[key].expires_at
}

/// Increment that stops at the top of the counter's range.
pub open spec fn sat_inc(c: u64) -> u64 {
    if c == u64::MAX {
        c
    } else {
        (c + 1) as u64
    }
}

/// In-process model of the shared counter store: fixed-window counters
/// keyed by string, expiring on a caller-supplied clock.
pub struct FixedWindowStore {
    entries: StringHashMap<CounterEntry>,
}

impl View for FixedWindowStore {
    type V = Map<Seq<char>, CounterEntry>;

    closed spec fn view(&self) -> Map<Seq<char>, CounterEntry> {
        self.entries@
    }
}

impl FixedWindowStore {
    pub fn new() -> (r: Self)
        ensures
            r@ == Map::<Seq<char>, CounterEntry>::empty(),
    {
        FixedWindowStore { entries: StringHashMap::new() }
    }

    /// The atomic increment-and-conditionally-expire step: increments the
    /// counter under `key`, creating it with value 1 and an expiry one
    /// window ahead when no live counter exists; an increment within the
    /// window reuses the existing expiry.
    pub fn increment(&mut self, key: &str, window_secs: u64, now: u64) -> (r: u64)
        requires
            now + window_secs <= u64::MAX,
        ensures
            live_at(old(self)@, key@, now) ==> {
                &&& r == sat_inc(old(self)@[key@].count)
                &&& final(self)@ == old(self)@.insert(
                    key@,
                    CounterEntry { count: r, expires_at: old(self)@[key@].expires_at },
                )
            },
            !live_at(old(self)@, key@, now) ==> {
                &&& r == 1
                &&& final(self)@ == old(self)@.insert(
                    key@,
                    CounterEntry { count: 1, expires_at: (now + window_secs) as u64 },
                )
            },
    {
        let (live, count0, exp0): (bool, u64, u64) = match self.entries.get(key) {
            Some(e) => (now < e.expires_at, e.count, e.expires_at),
            None => (false, 0, 0),
        };
        if live {
            let c = if count0 == u64::MAX {
                count0
            } else {
                count0 + 1
            };
            self.entries.insert(key.to_owned(), CounterEntry { count: c, expires_at: exp0 });
            c
        } else {
            self.entries.insert(
                key.to_owned(),
                CounterEntry { count: 1, expires_at: now + window_secs },
            );
            1
        }
    }
}

/// Ceiling per one-second window of an account tier; unknown tiers get
/// the default ("casual") ceiling.
pub open spec fn spec_limit_per_second(tier: Seq<char>) -> u64 {
    if tier == "developer"@ {
        20
    } else if tier == "enterprise"@ {
        100
    } else if tier == "reseller"@ {
        50
    } else {
        5
    }
}

/// Ceiling per sixty-second window of an account tier.
pub open spec fn spec_limit_per_minute(tier: Seq<char>) -> u64 {
    if tier == "developer"@ {
        300
    } else if tier == "enterprise"@ {
        1000
    } else if tier == "reseller"@ {
        500
    } else {
        60
    }
}

/// The per-second and per-minute ceilings of an account tier.
pub fn tier_limits(account_type: &str) -> (r: (u64, u64))
    ensures
        r.0 == spec_limit_per_second(account_type@),
        r.1 == spec_limit_per_minute(account_type@),
{
    if str_eq(account_type, "developer") {
        (20, 300)
    } else if str_eq(account_type, "enterprise") {
        (100, 1000)
    } else if str_eq(account_type, "reseller") {
        (50, 500)
    } else {
        (5, 60)
    }
}

/// The identity a request is counted under: its organization, else its
/// user, else one shared anonymous bucket.
pub open spec fn spec_rate_key(org: Option<String>, user: Option<String>) -> Seq<char> {
    match org {
        Some(o) => o@,
        None => match user {
            Some(u) => u@,
            None => "anonymous"@,
        },
    }
}

/// Derives the rate-limit key of a request's identity context.
pub fn rate_key(ctx: &InternalContext) -> (r: String)
    ensures
        r@ == spec_rate_key(ctx.organization_id, ctx.user_id),
{
    match &ctx.organization_id {
        Some(o) => o.clone(),
        None => match &ctx.user_id {
            Some(u) => u.clone(),
            None => String::from_str("anonymous"),
        },
    }
}

/// Name of the one-second counter of a key in the shared store.
pub open spec fn spec_second_key(base: Seq<char>) -> Seq<char> {
    "rate:"@ + base + ":second"@
}

/// Name of the sixty-second counter of a key in the shared store.
pub open spec fn spec_minute_key(base: Seq<char>) -> Seq<char> {
    "rate:"@ + base + ":minute"@
}

pub fn second_key(base: &str) -> (r: String)
    ensures
        r@ == spec_second_key(base@),
{
    String::from_str("rate:").concat(base).concat(":second")
}

pub fn minute_key(base: &str) -> (r: String)
    ensures
        r@ == spec_minute_key(base@),
{
    String::from_str("rate:").concat(base).concat(":minute")
}

/// What one round trip to the shared counter store produced: the counter's
/// new value, or no answer because the store was unreachable.
#[derive(Clone, Copy, Debug, PartialEq, Eq, Structural)]
pub enum StoreReply {
    Count(u64),
    Unreachable,
}

/// Where a rate check stands: which window's counter to probe next, or
/// the verdict (true allows the request).
#[derive(Clone, Copy, Debug, PartialEq, Eq, Structural)]
pub enum RateStep {
    ProbeSecond,
    ProbeMinute,
    Decided(bool),
}

/// One transition of the governor: a denial happens only on a successful
/// probe whose count exceeds the window's ceiling; an unreachable store
/// decides "allowed" at once, and the per-second probe comes first, so a
/// per-second denial leaves the minute counter untouched.
pub open spec fn spec_governor_step(
    step: RateStep,
    reply: StoreReply,
    limit_sec: u64,
    limit_min: u64,
) -> RateStep {
    match reply {
        StoreReply::Unreachable => RateStep::Decided(true),
        StoreReply::Count(c) => match step {
            RateStep::ProbeSecond => if c > limit_sec {
                RateStep::Decided(false)
            } else {
                RateStep::ProbeMinute
            },
            RateStep::ProbeMinute => if c > limit_min {
                RateStep::Decided(false)
            } else {
                RateStep::Decided(true)
            },
            RateStep::Decided(b) => RateStep::Decided(b),
        },
    }
}

/// Advances a rate check by one store reply.
pub fn governor_step(step: RateStep, reply: StoreReply, limit_sec: u64, limit_min: u64) -> (next:
    RateStep)
    ensures
        next == spec_governor_step(step, reply, limit_sec, limit_min),
{
    match reply {
        StoreReply::Unreachable => RateStep::Decided(true),
        StoreReply::Count(c) => match step {
            RateStep::ProbeSecond => if c > limit_sec {
                RateStep::Decided(false)
            } else {
                RateStep::ProbeMinute
            },
            RateStep::ProbeMinute => if c > limit_min {
                RateStep::Decided(false)
            } else {
                RateStep::Decided(true)
            },
            RateStep::Decided(b) => RateStep::Decided(b),
        },
    }
}

/// Law (fail-open): when the shared store is unreachable at any probe, the
/// governor decides "allowed" at once, whatever the tier's ceilings or the
/// counters' prior state.
pub proof fn lemma_fail_open(step: RateStep, limit_sec: u64, limit_min: u64)
    ensures
        spec_governor_step(step, StoreReply::Unreachable, limit_sec, limit_min)
            == RateStep::Decided(true),
{
}

/// The count an increment of `key` yields on store `m` at `now`.
pub open spec fn spec_incr_count(m: Map<Seq<char>, CounterEntry>, key: Seq<char>, now: u64) -> u64 {
    if live_at(m, key, now) {
        sat_inc(m[key].count)
    } else {
        1
    }
}

/// The store after an increment of `key` with window `window_secs`.
pub open spec fn spec_incr_map(
    m: Map<Seq<char>, CounterEntry>,
    key: Seq<char>,
    window_secs: u64,
    now: u64,
) -> Map<Seq<char>, CounterEntry> {
    if live_at(m, key, now) {
        m.insert(key, CounterEntry { count: sat_inc(m[key].count), expires_at: m[key].expires_at })
    } else {
        m.insert(key, CounterEntry { count: 1, expires_at: (now + window_secs) as u64 })
    }
}

/// Whether a request counted under `base` with tier ceilings passes both
/// windows: the second window is probed first and a denial there leaves
/// the minute counter untouched.
pub open spec fn spec_check_allowed(
    m0: Map<Seq<char>, CounterEntry>,
    base: Seq<char>,
    tier: Seq<char>,
    now: u64,
) -> bool {
    let skey = spec_second_key(base);
    let c1 = spec_incr_count(m0, skey, now);
    if c1 > spec_limit_per_second(tier) {
        false
    } else {
        let m1 = spec_incr_map(m0, skey, 1, now);
        spec_incr_count(m1, spec_minute_key(base), now) <= spec_limit_per_minute(tier)
    }
}

/// The store a rate check leaves behind.
pub open spec fn spec_check_store(
    m0: Map<Seq<char>, CounterEntry>,
    base: Seq<char>,
    tier: Seq<char>,
    now: u64,
) -> Map<Seq<char>, CounterEntry> {
    let skey = spec_second_key(base);
    let c1 = spec_incr_count(m0, skey, now);
    let m1 = spec_incr_map(m0, skey, 1, now);
    if c1 > spec_limit_per_second(tier) {
        m1
    } else {
        spec_incr_map(m1, spec_minute_key(base), 60, now)
    }
}

/// Law: on a reachable store the governor machine, fed the counts the two
/// increments would produce, reaches exactly the verdict of the local
/// check — the second-window count first, then, only when that window
/// passed, the minute-window count.
pub proof fn lemma_check_follows_governor(
    m0: Map<Seq<char>, CounterEntry>,
    base: Seq<char>,
    tier: Seq<char>,
    now: u64,
)
    ensures
        ({
            let limit_sec = spec_limit_per_second(tier);
            let limit_min = spec_limit_per_minute(tier);
            let skey = spec_second_key(base);
            let c1 = spec_incr_count(m0, skey, now);
            let m1 = spec_incr_map(m0, skey, 1, now);
            let c2 = spec_incr_count(m1, spec_minute_key(base), now);
            let after_sec = spec_governor_step(
                RateStep::ProbeSecond,
                StoreReply::Count(c1),
                limit_sec,
                limit_min,
            );
            let verdict = RateStep::Decided(spec_check_allowed(m0, base, tier, now));
            if after_sec is Decided {
                after_sec == verdict
            } else {
                spec_governor_step(after_sec, StoreReply::Count(c2), limit_sec, limit_min)
                    == verdict
            }
        }),
{
}

/// The two window counters of one key never collide in the store.
proof fn lemma_window_keys_differ(base: Seq<char>)
    ensures
        spec_second_key(base) != spec_minute_key(base),
{
    reveal_strlit("rate:");
    reveal_strlit(":second");
    reveal_strlit(":minute");
    let skey = spec_second_key(base);
    let mkey = spec_minute_key(base);
    if skey == mkey {
        let i = "rate:"@.len() + base.len() + 1;
        assert(skey[i as int] == ":second"@[1]);
        assert(mkey[i as int] == ":minute"@[1]);
    }
}

/// Law (counter reset via expiry): once a key's one-second counter has
/// expired or never existed, the next check recreates it at 1 with a fresh
/// one-second expiry, and the verdict turns on the minute window alone:
/// allowed exactly when no live minute counter sits at or over the tier's
/// minute ceiling.
pub proof fn lemma_second_window_reset(
    m: Map<Seq<char>, CounterEntry>,
    base: Seq<char>,
    tier: Seq<char>,
    now: u64,
)
    requires
        !live_at(m, spec_second_key(base), now),
        now + 60 <= u64::MAX,
    ensures
        spec_check_allowed(m, base, tier, now) == !(live_at(m, spec_minute_key(base), now)
            && m[spec_minute_key(base)].count >= spec_limit_per_minute(tier)),
        spec_check_store(m, base, tier, now)[spec_second_key(base)] == (CounterEntry {
            count: 1,
            expires_at: (now + 1) as u64,
        }),
{
    lemma_window_keys_differ(base);
}

/// Law: a denial only ever follows a successfully returned count that
/// exceeded its window's ceiling — never a backend error.
pub proof fn lemma_denial_needs_count(
    step: RateStep,
    reply: StoreReply,
    limit_sec: u64,
    limit_min: u64,
)
    ensures
        !(step is Decided) && spec_governor_step(step, reply, limit_sec, limit_min)
            == RateStep::Decided(false) ==> (reply matches StoreReply::Count(c) && ((step
            is ProbeSecond && c > limit_sec) || (step is ProbeMinute && c > limit_min))),
{
}

/// Admission controller: two fixed windows per identity key, each checked
/// against the account tier's ceiling, the one-second window first.
pub struct AccountTypeRateLimiter {
    store: FixedWindowStore,
}

impl View for AccountTypeRateLimiter {
    type V = Map<Seq<char>, CounterEntry>;

    closed spec fn view(&self) -> Map<Seq<char>, CounterEntry> {
        self.store@
    }
}

impl AccountTypeRateLimiter {
    /// A limiter over the given window store.
    pub fn new(store: FixedWindowStore) -> (r: Self)
        ensures
            r@ == store@,
    {
        AccountTypeRateLimiter { store }
    }

    /// Checks one request against both of its key's windows. `now` is the
    /// caller's clock in whole seconds.
    pub fn check_rate_limit(&mut self, context: &InternalContext, now: u64) -> (allowed: bool)
        requires
            now + 60 <= u64::MAX,
        ensures
            allowed == spec_check_allowed(
                old(self)@,
                spec_rate_key(context.organization_id, context.user_id),
                context.account_type@,
                now,
            ),
            final(self)@ == spec_check_store(
                old(self)@,
                spec_rate_key(context.organization_id, context.user_id),
                context.account_type@,
                now,
            ),
    {
        let base = rate_key(context);
        let limits = tier_limits(context.account_type.as_str());
        let skey = second_key(base.as_str());
        let current_sec = self.store.increment(skey.as_str(), 1, now);
        if current_sec > limits.0 {
            return false;
        }
        let mkey = minute_key(base.as_str());
        let current_min = self.store.increment(mkey.as_str(), 60, now);
        current_min <= limits.1
    }
}

} // verus!
