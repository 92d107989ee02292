use vstd::prelude::*;

verus! {

/// Seconds that must pass after an alert before the same validator may alert again.
pub const ALERT_COOLDOWN_SECS: u64 = 300;

/// Seconds elapsed from `from` to `now`, reading zero when `now` lies before `from`.
pub open spec fn elapsed(from: u64, now: u64) -> u64 {
    if now >= from {
        (now - from) as u64
    } else {
        0
    }
}

/// Whether an alert may fire at `now` for a slot whose last alert was at `last`.
pub open spec fn fires(last: Option<u64>, now: u64, cooldown: u64) -> bool {
    match last {
        None => true,
        Some(t) => elapsed(t, now) >= cooldown,
    }
}

/// The slot after asking at `now`: stamped with `now` when the alert fires.
pub open spec fn after_ask(last: Option<u64>, now: u64, cooldown: u64) -> Option<u64> {
    if fires(last, now, cooldown) {
        Some(now)
    } else {
        last
    }
}

/// Answers of successive asks at the instants `nows`, starting from the slot `last`.
pub open spec fn replay(last: Option<u64>, nows: Seq<u64>, cooldown: u64) -> Seq<bool>
    decreases nows.len(),
{
    if nows.len() == 0 {
        Seq::empty()
    } else {
        seq![fires(last, nows[0], cooldown)] + replay(
            after_ask(last, nows[0], cooldown),
            nows.drop_first(),
            cooldown,
        )
    }
}

/// Instants that strictly increase.
pub open spec fn increasing(nows: Seq<u64>) -> bool {
    forall|i: int, j: int| 0 <= i < j < nows.len() ==> nows[i] < nows[j]
}

proof fn lemma_spacing_from(last: Option<u64>, nows: Seq<u64>, cooldown: u64)
    requires
        increasing(nows),
        last matches Some(t) ==> forall|k: int| 0 <= k < nows.len() ==> t <= nows[k],
    ensures
        replay(last, nows, cooldown).len() == nows.len(),
        forall|i: int, j: int|
            0 <= i < j < nows.len() && #[trigger] replay(last, nows, cooldown)[i]
                && #[trigger] replay(last, nows, cooldown)[j] ==> nows[j] - nows[i] >= cooldown,
        last matches Some(t) ==> forall|j: int|
            0 <= j < nows.len() && #[trigger] replay(last, nows, cooldown)[j] ==> nows[j] - t
                >= cooldown,
    decreases nows.len(),
{
    if nows.len() > 0 {
        let next = after_ask(last, nows[0], cooldown);
        let rest = nows.drop_first();
        assert(increasing(rest));
        lemma_spacing_from(next, rest, cooldown);
        let all = replay(last, nows, cooldown);
        let tail = replay(next, rest, cooldown);
        assert(all == seq![fires(last, nows[0], cooldown)] + tail);
        assert forall|j: int| 0 < j < nows.len() implies all[j] == tail[j - 1] && nows[j] == rest[j
            - 1] by {}
    }
}

/// Asked at strictly increasing instants, a fresh (or reset) slot answers `true` first,
/// and any two `true` answers lie at least `cooldown` seconds apart.
pub proof fn lemma_alerts_spaced_by_cooldown(nows: Seq<u64>, cooldown: u64)
    requires
        increasing(nows),
    ensures
        nows.len() > 0 ==> replay(None, nows, cooldown)[0],
        forall|i: int, j: int|
            0 <= i < j < nows.len() && #[trigger] replay(None, nows, cooldown)[i]
                && #[trigger] replay(None, nows, cooldown)[j] ==> nows[j] - nows[i] >= cooldown,
{
    lemma_spacing_from(None, nows, cooldown);
}

/// Per-validator alert cooldown: remembers the instant (in seconds) of the last alert.
pub struct AlertTracker {
    last_alert_times: Vec<Option<u64>>,
    cooldown_seconds: u64,
}

impl AlertTracker {
    /// Instant of the last alert of each validator, by index.
    pub closed spec fn slots(&self) -> Seq<Option<u64>> {
        self.last_alert_times@
    }

    pub closed spec fn cooldown(&self) -> u64 {
        self.cooldown_seconds
    }

    pub fn new(validator_count: usize) -> (r: Self)
        ensures
            r.slots() == Seq::new(validator_count as nat, |i: int| None::<u64>),
            r.cooldown() == ALERT_COOLDOWN_SECS,
    {
        let mut times: Vec<Option<u64>> = Vec::new();
        let mut i: usize = 0;
        while i < validator_count
            invariant
                i <= validator_count,
                times@ == Seq::new(i as nat, |k: int| None::<u64>),
            decreases validator_count - i,
        {
            times.push(None);
            i = i + 1;
            assert(times@ =~= Seq::new(i as nat, |k: int| None::<u64>));
        }
        AlertTracker { last_alert_times: times, cooldown_seconds: ALERT_COOLDOWN_SECS }
    }

    /// Asks at instant `now` whether validator `validator_idx` may alert; a `true` answer
    /// stamps its slot with `now`. An index out of range never alerts.
    pub fn should_send_alert(&mut self, validator_idx: usize, now: u64) -> (r: bool)
        ensures
            final(self).cooldown() == old(self).cooldown(),
            validator_idx >= old(self).slots().len() ==> !r && final(self).slots() == old(
                self,
            ).slots(),
            validator_idx < old(self).slots().len() ==> {
                &&& r == fires(old(self).slots()[validator_idx as int], now, old(self).cooldown())
                &&& final(self).slots() == old(self).slots().update(
                    validator_idx as int,
                    after_ask(old(self).slots()[validator_idx as int], now, old(self).cooldown()),
                )
            },
    {
        if validator_idx >= self.last_alert_times.len() {
            return false;
        }
        let fire = match self.last_alert_times[validator_idx] {
            Some(last_time) => {
                let waited = if now >= last_time {
                    now - last_time
                } else {
                    0
                };
                waited >= self.cooldown_seconds
            },
            None => true,
        };
        if fire {
            self.last_alert_times.set(validator_idx, Some(now));
        }
        fire
    }

    /// One delinquency poll of validator `validator_idx` at instant `now`: a vote older
    /// than `threshold_seconds` asks for an alert (subject to the cooldown); a fresh vote
    /// clears the slot, so that the next lapse alerts at once. Returns whether to alert.
    pub fn poll_delinquency(
        &mut self,
        validator_idx: usize,
        seconds_since_vote: u64,
        threshold_seconds: u64,
        now: u64,
    ) -> (r: bool)
        ensures
            final(self).cooldown() == old(self).cooldown(),
            validator_idx >= old(self).slots().len() ==> !r && final(self).slots() == old(
                self,
            ).slots(),
            validator_idx < old(self).slots().len() && seconds_since_vote >= threshold_seconds
                ==> {
                &&& r == fires(old(self).slots()[validator_idx as int], now, old(self).cooldown())
                &&& final(self).slots() == old(self).slots().update(
                    validator_idx as int,
                    after_ask(old(self).slots()[validator_idx as int], now, old(self).cooldown()),
                )
            },
            validator_idx < old(self).slots().len() && seconds_since_vote < threshold_seconds
                ==> !r && final(self).slots() == old(self).slots().update(
                validator_idx as int,
                None,
            ),
    {
        if seconds_since_vote >= threshold_seconds {
            self.should_send_alert(validator_idx, now)
        } else {
            self.reset(validator_idx);
            false
        }
    }

    /// Clears the slot of `validator_idx`, so that its next lapse alerts at once.
    pub fn reset(&mut self, validator_idx: usize)
        ensures
            final(self).cooldown() == old(self).cooldown(),
            validator_idx < old(self).slots().len() ==> final(self).slots() == old(
                self,
            ).slots().update(validator_idx as int, None),
            validator_idx >= old(self).slots().len() ==> final(self).slots() == old(self).slots(),
    {
        if validator_idx < self.last_alert_times.len() {
            self.last_alert_times.set(validator_idx, None);
        }
    }
}

} // verus!
