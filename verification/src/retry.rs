//! The retry monitor: timeout-driven retransmission of outstanding work
//! descriptors.
//!
//! Per identity `(queue pair number, message sequence number)` the monitor is
//! a state machine: a `Retry` event starts tracking with a full budget and a
//! fresh deadline; an elapsed deadline with budget left consumes one unit of
//! budget, recomputes the deadline and resends the original descriptor; an
//! elapsed deadline with no budget left removes tracking and reports the
//! identity as permanently failed; a `Cancel` event removes tracking. The
//! monitor's background loop drains events and scans deadlines once per tick;
//! the tick's whole effect is stated here and machine-checked.

use std::time::SystemTime;
use std::time::UNIX_EPOCH;

use vstd::prelude::*;

use crate::desc::WorkDescriptor;
use crate::types::Msn;
use crate::types::Qpn;

verus! {

/// Configuration of the retry monitor. Durations are in milliseconds; the
/// checking interval should be at most about 1% of the retry timeout so that
/// actual retransmission delay tracks the configured value.
#[derive(Clone, Copy, Debug, PartialEq, Eq, Structural)]
pub struct RetryConfig {
    pub is_enable: bool,
    pub max_retry: u32,
    pub retry_timeout: u64,
    pub checking_interval: u64,
}

impl RetryConfig {
    /// Creates a new retry config; `retry_timeout` and `checking_interval`
    /// are in milliseconds.
    pub fn new(is_enable: bool, max_retry: u32, retry_timeout: u64, checking_interval: u64) -> (r:
        RetryConfig)
        ensures
            r == (RetryConfig { is_enable, max_retry, retry_timeout, checking_interval }),
    {
        RetryConfig { is_enable, max_retry, retry_timeout, checking_interval }
    }
}

/// Tracking state of one outstanding operation: the original descriptor to
/// resend, the remaining retry budget, and the absolute next deadline in
/// milliseconds.
#[derive(Clone, Copy, Debug, PartialEq, Eq, Structural)]
pub struct RetryContext {
    pub descriptor: WorkDescriptor,
    pub retry_counter: u32,
    pub next_timeout: u128,
}

/// A request to start (or restart) tracking an operation.
#[derive(Clone, Copy, Debug, PartialEq, Eq, Structural)]
pub struct RetryRecord {
    pub descriptor: WorkDescriptor,
    pub qpn: Qpn,
    pub msn: Msn,
}

impl RetryRecord {
    /// Builds a retry request for the identity `(qpn, msn)`.
    pub fn new(descriptor: WorkDescriptor, qpn: Qpn, msn: Msn) -> (r: RetryRecord)
        ensures
            r == (RetryRecord { descriptor, qpn, msn }),
    {
        RetryRecord { descriptor, qpn, msn }
    }
}

/// A request to stop tracking an operation (its completion was confirmed).
#[derive(Clone, Copy, Debug, PartialEq, Eq, Structural)]
pub struct RetryCancel {
    pub qpn: Qpn,
    pub msn: Msn,
}

/// An event sent to the retry monitor.
#[derive(Clone, Copy, Debug)]
pub enum RetryEvent {
    Retry(RetryRecord),
    Cancel(RetryCancel),
}

/// One tracked identity with its context.
#[derive(Clone, Copy, Debug, PartialEq, Eq, Structural)]
pub struct RetryEntry {
    pub qpn: Qpn,
    pub msn: Msn,
    pub ctx: RetryContext,
}

/// True when entry `e` is tracked under identity `(qpn, msn)`.
pub open spec fn key_is(e: RetryEntry, qpn: Qpn, msn: Msn) -> bool {
    e.qpn == qpn && e.msn == msn
}

/// No two entries share an identity: exactly one tracking context exists per
/// identity.
pub open spec fn unique_keys(s: Seq<RetryEntry>) -> bool {
    forall|i: int, j: int|
        0 <= i < j < s.len() ==> !key_is(#[trigger] s[i], #[trigger] s[j].qpn, s[j].msn)
}

/// The context tracked under `(qpn, msn)`, if any.
pub open spec fn find_ctx(s: Seq<RetryEntry>, qpn: Qpn, msn: Msn) -> Option<RetryContext>
    decreases s.len(),
{
    if s.len() == 0 {
        None
    } else if key_is(s[0], qpn, msn) {
        Some(s[0].ctx)
    } else {
        find_ctx(s.skip(1), qpn, msn)
    }
}

/// The deadline a context gets when (re)armed at `now`.
pub open spec fn spec_deadline(now: u64, timeout: u64) -> u128 {
    (now + timeout) as u128
}

/// The context a `Retry` event installs: full budget, fresh deadline, the
/// original descriptor.
pub open spec fn fresh_ctx(record: RetryRecord, config: RetryConfig, now: u64) -> RetryContext {
    RetryContext {
        descriptor: record.descriptor,
        retry_counter: config.max_retry,
        next_timeout: spec_deadline(now, config.retry_timeout),
    }
}

/// Whether a tracked context's deadline has elapsed at `now`.
pub open spec fn elapsed(c: RetryContext, now: u64) -> bool {
    c.next_timeout <= now as u128
}

/// A context resends at `now` when its deadline elapsed with budget left.
pub open spec fn fires(c: RetryContext, now: u64) -> bool {
    elapsed(c, now) && c.retry_counter > 0
}

/// A context permanently fails at `now` when its deadline elapsed with no
/// budget left.
pub open spec fn exhausts(c: RetryContext, now: u64) -> bool {
    elapsed(c, now) && c.retry_counter == 0
}

/// One deadline scan's effect on a single tracked context: untouched before
/// its deadline; one budget unit consumed and the deadline rearmed when it
/// fires; removed when it exhausts.
pub open spec fn tick_ctx(c: RetryContext, now: u64, timeout: u64) -> Option<RetryContext> {
    if !elapsed(c, now) {
        Some(c)
    } else if c.retry_counter > 0 {
        Some(
            RetryContext {
                descriptor: c.descriptor,
                retry_counter: (c.retry_counter - 1) as u32,
                next_timeout: spec_deadline(now, timeout),
            },
        )
    } else {
        None
    }
}

/// One deadline scan's effect on an untracked or tracked identity.
pub open spec fn tick_key(st: Option<RetryContext>, now: u64, timeout: u64) -> Option<
    RetryContext,
> {
    match st {
        None => None,
        Some(c) => tick_ctx(c, now, timeout),
    }
}

/// The entries one entry contributes to the scanned map.
pub open spec fn tick_entry_out(e: RetryEntry, now: u64, timeout: u64) -> Seq<RetryEntry> {
    match tick_ctx(e.ctx, now, timeout) {
        Some(c) => seq![RetryEntry { qpn: e.qpn, msn: e.msn, ctx: c }],
        None => Seq::empty(),
    }
}

/// The resend one entry contributes: its original descriptor, exactly when it
/// fires.
pub open spec fn resend_out(e: RetryEntry, now: u64) -> Seq<RetryRecord> {
    if fires(e.ctx, now) {
        seq![RetryRecord { descriptor: e.ctx.descriptor, qpn: e.qpn, msn: e.msn }]
    } else {
        Seq::empty()
    }
}

/// The permanent failure one entry contributes, exactly when it exhausts.
pub open spec fn failure_out(e: RetryEntry, now: u64) -> Seq<(Qpn, Msn)> {
    if exhausts(e.ctx, now) {
        seq![(e.qpn, e.msn)]
    } else {
        Seq::empty()
    }
}

/// The tracked entries with the first (under uniqueness: the only) entry of
/// identity `(qpn, msn)` removed; unchanged when none carries it.
pub open spec fn remove_key(s: Seq<RetryEntry>, qpn: Qpn, msn: Msn) -> Seq<RetryEntry>
    decreases s.len(),
{
    if s.len() == 0 {
        Seq::empty()
    } else if key_is(s[0], qpn, msn) {
        s.skip(1)
    } else {
        seq![s[0]] + remove_key(s.skip(1), qpn, msn)
    }
}

/// The tracked entries after one event: with retry disabled the event is
/// discarded; a `Retry` replaces any prior tracking of its identity with a
/// fresh context at the end; a `Cancel` removes its identity's tracking.
pub open spec fn apply_event(s: Seq<RetryEntry>, event: RetryEvent, config: RetryConfig, now: u64)
    -> Seq<RetryEntry> {
    if !config.is_enable {
        s
    } else {
        match event {
            RetryEvent::Retry(r) => remove_key(s, r.qpn, r.msn).push(
                RetryEntry { qpn: r.qpn, msn: r.msn, ctx: fresh_ctx(r, config, now) },
            ),
            RetryEvent::Cancel(c) => remove_key(s, c.qpn, c.msn),
        }
    }
}

/// The tracked entries after a batch of events, applied in order.
pub open spec fn apply_events(
    s: Seq<RetryEntry>,
    events: Seq<RetryEvent>,
    config: RetryConfig,
    now: u64,
) -> Seq<RetryEntry>
    decreases events.len(),
{
    if events.len() == 0 {
        s
    } else {
        apply_events(apply_event(s, events[0], config, now), events.skip(1), config, now)
    }
}

/// The tracked entries after one deadline scan at `now`.
pub open spec fn tick_entries(s: Seq<RetryEntry>, now: u64, timeout: u64) -> Seq<RetryEntry>
    decreases s.len(),
{
    if s.len() == 0 {
        Seq::empty()
    } else {
        tick_entry_out(s[0], now, timeout) + tick_entries(s.skip(1), now, timeout)
    }
}

/// The resends one deadline scan at `now` produces, in tracking order.
pub open spec fn tick_resends(s: Seq<RetryEntry>, now: u64) -> Seq<RetryRecord>
    decreases s.len(),
{
    if s.len() == 0 {
        Seq::empty()
    } else {
        resend_out(s[0], now) + tick_resends(s.skip(1), now)
    }
}

/// The permanent failures one deadline scan at `now` produces.
pub open spec fn tick_failures(s: Seq<RetryEntry>, now: u64) -> Seq<(Qpn, Msn)>
    decreases s.len(),
{
    if s.len() == 0 {
        Seq::empty()
    } else {
        failure_out(s[0], now) + tick_failures(s.skip(1), now)
    }
}

/// What one monitor tick decided: the descriptors to retransmit and the
/// identities whose retry budget ran out.
pub struct TimeoutOutcome {
    pub resends: Vec<RetryRecord>,
    pub failures: Vec<(Qpn, Msn)>,
}

/// The retry monitor's processing state: the tracked contexts and the
/// configuration. The monitor's thread owns it exclusively.
pub struct RetryMonitorContext {
    entries: Vec<RetryEntry>,
    pub config: RetryConfig,
}

impl RetryMonitorContext {
    /// The tracked entries, in tracking order.
    pub closed spec fn entries_seq(&self) -> Seq<RetryEntry> {
        self.entries@
    }

    /// The monitor's configuration.
    pub closed spec fn spec_config(&self) -> RetryConfig {
        self.config
    }

    /// Structural invariant: exactly one context per tracked identity.
    pub open spec fn wf(&self) -> bool {
        unique_keys(self.entries_seq())
    }

    /// The context tracked under `(qpn, msn)`, if any.
    pub open spec fn spec_tracked(&self, qpn: Qpn, msn: Msn) -> Option<RetryContext> {
        find_ctx(self.entries_seq(), qpn, msn)
    }

    /// Creates a monitor state tracking nothing.
    pub fn new(config: RetryConfig) -> (r: RetryMonitorContext)
        ensures
            r.wf(),
            r.spec_config() == config,
            r.entries_seq() =~= Seq::<RetryEntry>::empty(),
    {
        RetryMonitorContext { entries: Vec::new(), config }
    }

    /// How many identities are tracked.
    pub fn tracked_count(&self) -> (r: usize)
        ensures
            r == self.entries_seq().len(),
    {
        self.entries.len()
    }

    /// Reports whether `(qpn, msn)` is currently tracked.
    pub fn is_tracked(&self, qpn: Qpn, msn: Msn) -> (r: bool)
        requires
            self.wf(),
        ensures
            r == (self.spec_tracked(qpn, msn) is Some),
    {
        let r = find_index(&self.entries, qpn, msn);
        proof {
            lemma_find_none(self.entries@, qpn, msn);
            if r is Some {
                let i = r->Some_0 as int;
                lemma_find_index(self.entries@, qpn, msn, i);
            }
        }
        r.is_some()
    }

    /// Starts tracking `(record.qpn, record.msn)` with a full budget and a
    /// deadline `retry_timeout` past `now`. A duplicate `Retry` for an
    /// already-tracked identity overwrites the prior context rather than
    /// duplicating tracking; every other identity is untouched.
    pub fn handle_retry(&mut self, record: RetryRecord, now: u64)
        requires
            old(self).wf(),
        ensures
            final(self).wf(),
            final(self).spec_config() == old(self).spec_config(),
            final(self).spec_tracked(record.qpn, record.msn) == Some(
                fresh_ctx(record, old(self).spec_config(), now),
            ),
            forall|q: Qpn, m: Msn|
                !(q == record.qpn && m == record.msn) ==> final(self).spec_tracked(q, m) == old(self).spec_tracked(q, m),
            final(self).entries_seq() == remove_key(
                old(self).entries_seq(),
                record.qpn,
                record.msn,
            ).push(
                RetryEntry {
                    qpn: record.qpn,
                    msn: record.msn,
                    ctx: fresh_ctx(record, old(self).spec_config(), now),
                },
            ),
    {
        let entry = RetryEntry {
            qpn: record.qpn,
            msn: record.msn,
            ctx: RetryContext {
                descriptor: record.descriptor,
                retry_counter: self.config.max_retry,
                next_timeout: now as u128 + self.config.retry_timeout as u128,
            },
        };
        let found = find_index(&self.entries, record.qpn, record.msn);
        let ghost s0 = self.entries@;
        match found {
            Some(i) => {
                proof {
                    lemma_find_index(s0, record.qpn, record.msn, i as int);
                    lemma_find_remove(s0, record.qpn, record.msn, i as int);
                    lemma_remove_key_at(s0, record.qpn, record.msn, i as int);
                }
                let _ = self.entries.remove(i);
            },
            None => {
                proof {
                    lemma_find_none(s0, record.qpn, record.msn);
                    lemma_remove_key_absent(s0, record.qpn, record.msn);
                }
            },
        }
        let ghost s1 = self.entries@;
        proof {
            lemma_find_none(s1, record.qpn, record.msn);
            lemma_find_push(s1, entry);
        }
        self.entries.push(entry);
        proof {
            assert forall|q: Qpn, m: Msn|
                !(q == record.qpn && m == record.msn) implies final(self).spec_tracked(q, m) == old(self).spec_tracked(q, m) by {
                lemma_find_push_other(s1, entry, q, m);
                if found is Some {
                    lemma_find_remove(s0, record.qpn, record.msn, found->Some_0 as int);
                }
            }
        }
    }

    /// Stops tracking `(cancel.qpn, cancel.msn)`. A `Cancel` for an untracked
    /// identity is a no-op; every other identity is untouched.
    pub fn handle_cancel(&mut self, cancel: &RetryCancel)
        requires
            old(self).wf(),
        ensures
            final(self).wf(),
            final(self).spec_config() == old(self).spec_config(),
            final(self).spec_tracked(cancel.qpn, cancel.msn) is None,
            final(self).entries_seq() == remove_key(
                old(self).entries_seq(),
                cancel.qpn,
                cancel.msn,
            ),
            old(self).spec_tracked(cancel.qpn, cancel.msn) is None ==> final(self).entries_seq()
                == old(self).entries_seq(),
            forall|q: Qpn, m: Msn|
                !(q == cancel.qpn && m == cancel.msn) ==> final(self).spec_tracked(q, m) == old(self).spec_tracked(q, m),
    {
        let found = find_index(&self.entries, cancel.qpn, cancel.msn);
        let ghost s0 = self.entries@;
        match found {
            Some(i) => {
                proof {
                    lemma_find_index(s0, cancel.qpn, cancel.msn, i as int);
                    lemma_find_remove(s0, cancel.qpn, cancel.msn, i as int);
                    lemma_remove_key_at(s0, cancel.qpn, cancel.msn, i as int);
                }
                let _ = self.entries.remove(i);
            },
            None => {
                proof {
                    lemma_find_none(s0, cancel.qpn, cancel.msn);
                    lemma_remove_key_absent(s0, cancel.qpn, cancel.msn);
                }
            },
        }
    }

    /// Scans every tracked context once against the clock reading `now`.
    /// Contexts whose deadline has not elapsed are untouched. A context whose
    /// deadline elapsed with budget left loses one unit of budget, is rearmed
    /// to `now + retry_timeout`, and contributes its original descriptor to
    /// the resends — whether or not the later transmission succeeds, so a
    /// failed resend still consumes budget. A context whose deadline elapsed
    /// with no budget left is removed and its identity reported failed.
    pub fn check_timeout(&mut self, now: u64) -> (outcome: TimeoutOutcome)
        requires
            old(self).wf(),
        ensures
            final(self).wf(),
            final(self).spec_config() == old(self).spec_config(),
            final(self).entries_seq() == tick_entries(
                old(self).entries_seq(),
                now,
                old(self).spec_config().retry_timeout,
            ),
            outcome.resends@ == tick_resends(old(self).entries_seq(), now),
            outcome.failures@ == tick_failures(old(self).entries_seq(), now),
            forall|q: Qpn, m: Msn|
                final(self).spec_tracked(q, m) == tick_key(
                    old(self).spec_tracked(q, m),
                    now,
                    old(self).spec_config().retry_timeout,
                ),
    {
        let ghost s = self.entries@;
        let timeout = self.config.retry_timeout;
        let mut out: Vec<RetryEntry> = Vec::new();
        let mut resends: Vec<RetryRecord> = Vec::new();
        let mut failures: Vec<(Qpn, Msn)> = Vec::new();
        let n = self.entries.len();
        let mut i: usize = 0;
        while i < n
            invariant
                i <= n,
                n == self.entries@.len(),
                self.entries@ == s,
                timeout == self.config.retry_timeout,
                out@ == tick_entries(s.take(i as int), now, timeout),
                resends@ == tick_resends(s.take(i as int), now),
                failures@ == tick_failures(s.take(i as int), now),
            decreases n - i,
        {
            let e = self.entries[i];
            proof {
                assert(s.take(i + 1) =~= s.take(i as int).push(s[i as int]));
                lemma_tick_snoc(s.take(i as int), s[i as int], now, timeout);
            }
            if e.ctx.next_timeout > now as u128 {
                out.push(e);
            } else if e.ctx.retry_counter > 0 {
                out.push(
                    RetryEntry {
                        qpn: e.qpn,
                        msn: e.msn,
                        ctx: RetryContext {
                            descriptor: e.ctx.descriptor,
                            retry_counter: e.ctx.retry_counter - 1,
                            next_timeout: now as u128 + timeout as u128,
                        },
                    },
                );
                resends.push(RetryRecord { descriptor: e.ctx.descriptor, qpn: e.qpn, msn: e.msn });
            } else {
                failures.push((e.qpn, e.msn));
            }
            i = i + 1;
        }
        proof {
            assert(s.take(n as int) =~= s);
        }
        self.entries = out;
        proof {
            lemma_tick_unique(s, now, timeout);
            assert forall|q: Qpn, m: Msn|
                final(self).spec_tracked(q, m) == tick_key(
                    find_ctx(s, q, m),
                    now,
                    timeout,
                ) by {
                lemma_tick_find(s, now, timeout, q, m);
            }
        }
        TimeoutOutcome { resends, failures }
    }

    /// Applies one event. When retry is administratively disabled the event
    /// is discarded silently: no tracking occurs and no error is raised.
    pub fn process_event(&mut self, event: RetryEvent, now: u64)
        requires
            old(self).wf(),
        ensures
            final(self).wf(),
            final(self).spec_config() == old(self).spec_config(),
            !old(self).spec_config().is_enable ==> final(self).entries_seq() == old(self).entries_seq(),
            old(self).spec_config().is_enable && event is Retry ==> (final(self).spec_tracked(
                event->Retry_0.qpn,
                event->Retry_0.msn,
            ) == Some(fresh_ctx(event->Retry_0, old(self).spec_config(), now)) && (forall|q: Qpn, m: Msn|
                !(q == event->Retry_0.qpn && m == event->Retry_0.msn) ==> final(self).spec_tracked(
                    q,
                    m,
                ) == old(self).spec_tracked(q, m))),
            old(self).spec_config().is_enable && event is Cancel ==> (final(self).spec_tracked(
                event->Cancel_0.qpn,
                event->Cancel_0.msn,
            ) is None && (forall|q: Qpn, m: Msn|
                !(q == event->Cancel_0.qpn && m == event->Cancel_0.msn) ==> final(self).spec_tracked(q, m) == old(self).spec_tracked(q, m))),
            final(self).entries_seq() == apply_event(
                old(self).entries_seq(),
                event,
                old(self).spec_config(),
                now,
            ),
    {
        if self.config.is_enable {
            match event {
                RetryEvent::Retry(record) => self.handle_retry(record, now),
                RetryEvent::Cancel(cancel) => self.handle_cancel(&cancel),
            }
        }
    }

    /// Applies a batch of drained events in order: the tracked entries become
    /// exactly the in-order fold of the single-event transition over the
    /// batch. With retry disabled every event is discarded and the tracked
    /// set is unchanged.
    pub fn process_events(&mut self, events: Vec<RetryEvent>, now: u64)
        requires
            old(self).wf(),
        ensures
            final(self).wf(),
            final(self).spec_config() == old(self).spec_config(),
            final(self).entries_seq() == apply_events(
                old(self).entries_seq(),
                events@,
                old(self).spec_config(),
                now,
            ),
            !old(self).spec_config().is_enable ==> final(self).entries_seq() == old(self).entries_seq(),
    {
        let n = events.len();
        let mut i: usize = 0;
        while i < n
            invariant
                i <= n,
                n == events@.len(),
                self.wf(),
                self.spec_config() == old(self).spec_config(),
                self.entries_seq() == apply_events(
                    old(self).entries_seq(),
                    events@.take(i as int),
                    old(self).spec_config(),
                    now,
                ),
                !old(self).spec_config().is_enable ==> self.entries_seq() == old(self).entries_seq(),
            decreases n - i,
        {
            let ev = events[i];
            proof {
                assert(events@.take(i + 1) =~= events@.take(i as int).push(events@[i as int]));
                lemma_apply_events_snoc(
                    old(self).entries_seq(),
                    events@.take(i as int),
                    events@[i as int],
                    old(self).spec_config(),
                    now,
                );
            }
            self.process_event(ev, now);
            i = i + 1;
        }
        proof {
            assert(events@.take(n as int) =~= events@);
        }
    }

    /// One iteration of the monitor's background loop: reads the clock,
    /// drains all queued events without blocking, and scans the deadlines
    /// once. The caller retransmits the returned resends and resolves the
    /// returned failures, then sleeps for the checking interval. For some
    /// clock reading and some drained event batch — which ones depends on the
    /// wall clock and the senders — the new state and the outcome are exactly
    /// one in-order application of the batch followed by one deadline scan.
    /// With retry disabled and nothing tracked, nothing is ever tracked,
    /// resent or failed.
    pub fn monitor_tick(&mut self, receiver: &flume::Receiver<RetryEvent>) -> (outcome:
        TimeoutOutcome)
        requires
            old(self).wf(),
        ensures
            final(self).wf(),
            final(self).spec_config() == old(self).spec_config(),
            exists|now: u64, events: Seq<RetryEvent>|
                {
                    let drained = #[trigger] apply_events(
                        old(self).entries_seq(),
                        events,
                        old(self).spec_config(),
                        now,
                    );
                    &&& final(self).entries_seq() == tick_entries(
                        drained,
                        now,
                        old(self).spec_config().retry_timeout,
                    )
                    &&& outcome.resends@ == tick_resends(drained, now)
                    &&& outcome.failures@ == tick_failures(drained, now)
                },
            !old(self).spec_config().is_enable && old(self).entries_seq().len() == 0 ==> final(self).entries_seq().len() == 0 && outcome.resends@.len() == 0 && outcome.failures@.len()
                == 0,
    {
        let now = get_current_time();
        let events = recv_pending_events(receiver);
        let ghost evs = events@;
        self.process_events(events, now);
        let outcome = self.check_timeout(now);
        proof {
            let drained = apply_events(old(self).entries_seq(), evs, old(self).spec_config(), now);
            assert(self.entries_seq() == tick_entries(
                drained,
                now,
                old(self).spec_config().retry_timeout,
            ));
        }
        outcome
    }
}

/// Index of the first entry tracked under `(qpn, msn)`, if any.
fn find_index(entries: &Vec<RetryEntry>, qpn: Qpn, msn: Msn) -> (r: Option<usize>)
    ensures
        r matches Some(i) ==> i < entries@.len() && key_is(entries@[i as int], qpn, msn) && (
        forall|j: int| 0 <= j < i ==> !key_is(#[trigger] entries@[j], qpn, msn)),
        r is None ==> forall|j: int|
            0 <= j < entries@.len() ==> !key_is(#[trigger] entries@[j], qpn, msn),
{
    let n = entries.len();
    let mut i: usize = 0;
    while i < n
        invariant
            i <= n,
            n == entries@.len(),
            forall|j: int| 0 <= j < i ==> !key_is(#[trigger] entries@[j], qpn, msn),
        decreases n - i,
    {
        let e = &entries[i];
        if e.qpn.val == qpn.val && e.msn.val == msn.val {
            return Some(i);
        }
        i = i + 1;
    }
    None
}

/// The flume receiver type, declared so the monitor can drain its event
/// channel; values of it are opaque here.
#[verifier::external_type_specification]
#[verifier::external_body]
#[verifier::reject_recursive_types(T)]
pub struct ExReceiver<T>(flume::Receiver<T>);

/// Relies on std::time::SystemTime::now and duration_since: milliseconds
/// since the Unix epoch. The value depends on the wall clock, so nothing is
/// assumed of it; a clock before the epoch reads as zero rather than failing.
#[verifier::external_body]
fn get_current_time() -> u64 {
    SystemTime::now().duration_since(UNIX_EPOCH).map(|d| d.as_millis() as u64).unwrap_or(0)
}

/// Relies on flume::Receiver::try_recv: yields the queued events in receive
/// order without blocking, stopping at the first empty or disconnected poll.
/// What it returns depends on the other threads, so nothing is assumed of it.
#[verifier::external_body]
fn recv_pending_events(rx: &flume::Receiver<RetryEvent>) -> Vec<RetryEvent> {
    let mut events = Vec::new();
    loop {
        match rx.try_recv() {
            Ok(ev) => events.push(ev),
            Err(_) => break ,
        }
    }
    events
}

/// `find_ctx` yields nothing exactly when no entry carries the identity.
proof fn lemma_find_none(s: Seq<RetryEntry>, qpn: Qpn, msn: Msn)
    ensures
        (find_ctx(s, qpn, msn) is None) <==> (forall|j: int|
            0 <= j < s.len() ==> !key_is(#[trigger] s[j], qpn, msn)),
    decreases s.len(),
{
    if s.len() > 0 {
        lemma_find_none(s.skip(1), qpn, msn);
        assert(forall|j: int| 0 <= j < s.skip(1).len() ==> #[trigger] s.skip(1)[j] == s[j + 1]);
        if !key_is(s[0], qpn, msn) {
            if find_ctx(s, qpn, msn) is None {
                assert forall|j: int| 0 <= j < s.len() implies !key_is(
                    #[trigger] s[j],
                    qpn,
                    msn,
                ) by {
                    if j > 0 {
                        assert(s.skip(1)[j - 1] == s[j]);
                    }
                }
            }
        }
    }
}

/// `find_ctx` yields the context at the first index carrying the identity.
proof fn lemma_find_index(s: Seq<RetryEntry>, qpn: Qpn, msn: Msn, i: int)
    requires
        0 <= i < s.len(),
        key_is(s[i], qpn, msn),
        forall|j: int| 0 <= j < i ==> !key_is(#[trigger] s[j], qpn, msn),
    ensures
        find_ctx(s, qpn, msn) == Some(s[i].ctx),
    decreases i,
{
    if i > 0 {
        assert(forall|j: int| 0 <= j < i - 1 ==> #[trigger] s.skip(1)[j] == s[j + 1]);
        lemma_find_index(s.skip(1), qpn, msn, i - 1);
    }
}

/// Removing the only entry of an identity untracks it and leaves every other
/// identity's lookup unchanged.
proof fn lemma_find_remove(s: Seq<RetryEntry>, qpn: Qpn, msn: Msn, i: int)
    requires
        unique_keys(s),
        0 <= i < s.len(),
        key_is(s[i], qpn, msn),
    ensures
        unique_keys(s.remove(i)),
        find_ctx(s.remove(i), qpn, msn) is None,
        forall|q: Qpn, m: Msn|
            !(q == qpn && m == msn) ==> find_ctx(s.remove(i), q, m) == find_ctx(s, q, m),
    decreases s.len(),
{
    let t = s.remove(i);
    assert(forall|j: int| 0 <= j < i ==> #[trigger] t[j] == s[j]);
    assert(forall|j: int| i <= j < t.len() ==> #[trigger] t[j] == s[j + 1]);
    assert(unique_keys(t)) by {
        assert forall|a: int, b: int| 0 <= a < b < t.len() implies !key_is(
            #[trigger] t[a],
            #[trigger] t[b].qpn,
            t[b].msn,
        ) by {
            let a0: int = if a < i {
                a
            } else {
                a + 1
            };
            let b0: int = if b < i {
                b
            } else {
                b + 1
            };
            assert(t[a] == s[a0] && t[b] == s[b0]);
        }
    }
    assert(find_ctx(t, qpn, msn) is None) by {
        lemma_find_none(t, qpn, msn);
        assert forall|j: int| 0 <= j < t.len() implies !key_is(#[trigger] t[j], qpn, msn) by {
            let j0: int = if j < i {
                j
            } else {
                j + 1
            };
            assert(t[j] == s[j0]);
            if j0 != i && key_is(s[j0], qpn, msn) {
                if j0 < i {
                    assert(!key_is(s[j0], s[i].qpn, s[i].msn));
                } else {
                    assert(!key_is(s[i], s[j0].qpn, s[j0].msn));
                }
            }
        }
    }
    assert forall|q: Qpn, m: Msn| !(q == qpn && m == msn) implies find_ctx(t, q, m) == find_ctx(
        s,
        q,
        m,
    ) by {
        lemma_find_none(s, q, m);
        lemma_find_none(t, q, m);
        if find_ctx(s, q, m) is Some {
            let k = choose|k: int|
                0 <= k < s.len() && key_is(#[trigger] s[k], q, m) && (forall|j: int|
                    0 <= j < k ==> !key_is(#[trigger] s[j], q, m));
            lemma_find_first_witness(s, q, m);
            assert(0 <= k < s.len() && key_is(s[k], q, m) && (forall|j: int|
                0 <= j < k ==> !key_is(#[trigger] s[j], q, m)));
            lemma_find_index(s, q, m, k);
            let k1: int = if k < i {
                k
            } else {
                k - 1
            };
            assert(t[k1] == s[k]);
            assert forall|j: int| 0 <= j < k1 implies !key_is(#[trigger] t[j], q, m) by {
                let j0: int = if j < i {
                    j
                } else {
                    j + 1
                };
                assert(t[j] == s[j0]);
            }
            lemma_find_index(t, q, m, k1);
        } else {
            assert forall|j: int| 0 <= j < t.len() implies !key_is(#[trigger] t[j], q, m) by {
                let j0: int = if j < i {
                    j
                } else {
                    j + 1
                };
                assert(t[j] == s[j0]);
            }
        }
    }
}

/// A `Some` lookup has a first witness index.
proof fn lemma_find_first_witness(s: Seq<RetryEntry>, qpn: Qpn, msn: Msn)
    requires
        find_ctx(s, qpn, msn) is Some,
    ensures
        exists|k: int|
            0 <= k < s.len() && key_is(#[trigger] s[k], qpn, msn) && (forall|j: int|
                0 <= j < k ==> !key_is(#[trigger] s[j], qpn, msn)),
    decreases s.len(),
{
    if key_is(s[0], qpn, msn) {
        assert(0 <= 0 < s.len() && key_is(s[0], qpn, msn) && (forall|j: int|
            0 <= j < 0 ==> !key_is(#[trigger] s[j], qpn, msn)));
    } else {
        lemma_find_first_witness(s.skip(1), qpn, msn);
        let k = choose|k: int|
            0 <= k < s.skip(1).len() && key_is(#[trigger] s.skip(1)[k], qpn, msn) && (forall|
                j: int,
            |
                0 <= j < k ==> !key_is(#[trigger] s.skip(1)[j], qpn, msn));
        assert(s.skip(1)[k] == s[k + 1]);
        assert forall|j: int| 0 <= j < k + 1 implies !key_is(#[trigger] s[j], qpn, msn) by {
            if j > 0 {
                assert(s.skip(1)[j - 1] == s[j]);
            }
        }
        assert(0 <= k + 1 < s.len() && key_is(s[k + 1], qpn, msn));
    }
}

/// Appending an entry for an untracked identity tracks it, keeps identities
/// unique, and leaves every other identity's lookup unchanged.
proof fn lemma_find_push(s: Seq<RetryEntry>, e: RetryEntry)
    requires
        unique_keys(s),
        find_ctx(s, e.qpn, e.msn) is None,
    ensures
        unique_keys(s.push(e)),
        find_ctx(s.push(e), e.qpn, e.msn) == Some(e.ctx),
    decreases s.len(),
{
    lemma_find_none(s, e.qpn, e.msn);
    assert(unique_keys(s.push(e))) by {
        assert forall|a: int, b: int| 0 <= a < b < s.push(e).len() implies !key_is(
            #[trigger] s.push(e)[a],
            #[trigger] s.push(e)[b].qpn,
            s.push(e)[b].msn,
        ) by {
            if b == s.len() {
                assert(s.push(e)[a] == s[a] && s.push(e)[b] == e);
            } else {
                assert(s.push(e)[a] == s[a] && s.push(e)[b] == s[b]);
            }
        }
    }
    if s.len() == 0 {
        assert(s.push(e)[0] == e);
    } else {
        assert(s.push(e)[0] == s[0]);
        assert(s.push(e).skip(1) =~= s.skip(1).push(e));
        assert(forall|j: int| 0 <= j < s.skip(1).len() ==> #[trigger] s.skip(1)[j] == s[j + 1]);
        assert(unique_keys(s.skip(1))) by {
            assert forall|a: int, b: int| 0 <= a < b < s.skip(1).len() implies !key_is(
                #[trigger] s.skip(1)[a],
                #[trigger] s.skip(1)[b].qpn,
                s.skip(1)[b].msn,
            ) by {
                assert(s.skip(1)[a] == s[a + 1] && s.skip(1)[b] == s[b + 1]);
            }
        }
        lemma_find_push(s.skip(1), e);
    }
}

/// Appending an entry leaves every other identity's lookup unchanged.
proof fn lemma_find_push_other(s: Seq<RetryEntry>, e: RetryEntry, q: Qpn, m: Msn)
    requires
        !(q == e.qpn && m == e.msn),
    ensures
        find_ctx(s.push(e), q, m) == find_ctx(s, q, m),
    decreases s.len(),
{
    if s.len() == 0 {
        assert(s.push(e)[0] == e);
        assert(!key_is(e, q, m));
        assert(s.push(e).skip(1) =~= Seq::<RetryEntry>::empty());
        assert(find_ctx(s.push(e).skip(1), q, m) is None);
        assert(find_ctx(s.push(e), q, m) is None);
    } else {
        assert(s.push(e)[0] == s[0]);
        assert(s.push(e).skip(1) =~= s.skip(1).push(e));
        lemma_find_push_other(s.skip(1), e, q, m);
        if key_is(s[0], q, m) {
            assert(find_ctx(s.push(e), q, m) == Some(s[0].ctx));
        } else {
            assert(find_ctx(s.push(e), q, m) == find_ctx(s.skip(1).push(e), q, m));
        }
    }
}

/// With no entry of the identity present, removing it changes nothing.
proof fn lemma_remove_key_absent(s: Seq<RetryEntry>, qpn: Qpn, msn: Msn)
    requires
        forall|j: int| 0 <= j < s.len() ==> !key_is(#[trigger] s[j], qpn, msn),
    ensures
        remove_key(s, qpn, msn) == s,
    decreases s.len(),
{
    if s.len() > 0 {
        assert(forall|j: int| 0 <= j < s.skip(1).len() ==> #[trigger] s.skip(1)[j] == s[j + 1]);
        lemma_remove_key_absent(s.skip(1), qpn, msn);
        assert(seq![s[0]] + s.skip(1) =~= s);
    }
}

/// Removing an identity whose first entry stands at index `i` is removal at
/// `i`.
proof fn lemma_remove_key_at(s: Seq<RetryEntry>, qpn: Qpn, msn: Msn, i: int)
    requires
        0 <= i < s.len(),
        key_is(s[i], qpn, msn),
        forall|j: int| 0 <= j < i ==> !key_is(#[trigger] s[j], qpn, msn),
    ensures
        remove_key(s, qpn, msn) == s.remove(i),
    decreases i,
{
    if i == 0 {
        assert(s.skip(1) =~= s.remove(0));
    } else {
        assert(forall|j: int| 0 <= j < i - 1 ==> #[trigger] s.skip(1)[j] == s[j + 1]);
        lemma_remove_key_at(s.skip(1), qpn, msn, i - 1);
        assert(seq![s[0]] + s.skip(1).remove(i - 1) =~= s.remove(i));
    }
}

/// Applying a batch of events distributes over appending one event.
proof fn lemma_apply_events_snoc(
    s: Seq<RetryEntry>,
    events: Seq<RetryEvent>,
    e: RetryEvent,
    config: RetryConfig,
    now: u64,
)
    ensures
        apply_events(s, events.push(e), config, now) == apply_event(
            apply_events(s, events, config, now),
            e,
            config,
            now,
        ),
    decreases events.len(),
{
    if events.len() == 0 {
        assert(events.push(e)[0] == e);
        assert(events.push(e).skip(1) =~= Seq::<RetryEvent>::empty());
        assert(apply_events(s, events, config, now) == s);
        assert(apply_events(s, events.push(e), config, now) == apply_events(
            apply_event(s, e, config, now),
            events.push(e).skip(1),
            config,
            now,
        ));
        assert(apply_events(apply_event(s, e, config, now), events.push(e).skip(1), config, now)
            == apply_event(s, e, config, now));
    } else {
        assert(events.push(e)[0] == events[0]);
        assert(events.push(e).skip(1) =~= events.skip(1).push(e));
        lemma_apply_events_snoc(apply_event(s, events[0], config, now), events.skip(1), e, config, now);
        assert(apply_events(s, events.push(e), config, now) == apply_events(
            apply_event(s, events[0], config, now),
            events.skip(1).push(e),
            config,
            now,
        ));
        assert(apply_events(s, events, config, now) == apply_events(
            apply_event(s, events[0], config, now),
            events.skip(1),
            config,
            now,
        ));
    }
}

/// A deadline scan distributes over appending one entry.
proof fn lemma_tick_snoc(s: Seq<RetryEntry>, e: RetryEntry, now: u64, timeout: u64)
    ensures
        tick_entries(s.push(e), now, timeout) == tick_entries(s, now, timeout) + tick_entry_out(
            e,
            now,
            timeout,
        ),
        tick_resends(s.push(e), now) == tick_resends(s, now) + resend_out(e, now),
        tick_failures(s.push(e), now) == tick_failures(s, now) + failure_out(e, now),
    decreases s.len(),
{
    if s.len() == 0 {
        assert(s.push(e)[0] == e);
        assert(s.push(e).skip(1) =~= Seq::<RetryEntry>::empty());
        assert(tick_entries(s.push(e).skip(1), now, timeout) == Seq::<RetryEntry>::empty());
        assert(tick_resends(s.push(e).skip(1), now) == Seq::<RetryRecord>::empty());
        assert(tick_failures(s.push(e).skip(1), now) == Seq::<(Qpn, Msn)>::empty());
        assert(tick_entries(s.push(e), now, timeout) =~= tick_entries(s, now, timeout)
            + tick_entry_out(e, now, timeout));
        assert(tick_resends(s.push(e), now) =~= tick_resends(s, now) + resend_out(e, now));
        assert(tick_failures(s.push(e), now) =~= tick_failures(s, now) + failure_out(e, now));
    } else {
        assert(s.push(e)[0] == s[0]);
        assert(s.push(e).skip(1) =~= s.skip(1).push(e));
        lemma_tick_snoc(s.skip(1), e, now, timeout);
        assert(tick_entries(s.push(e), now, timeout) == tick_entry_out(s[0], now, timeout) + (
        tick_entries(s.skip(1), now, timeout) + tick_entry_out(e, now, timeout)));
        assert(tick_resends(s.push(e), now) == resend_out(s[0], now) + (tick_resends(
            s.skip(1),
            now,
        ) + resend_out(e, now)));
        assert(tick_failures(s.push(e), now) == failure_out(s[0], now) + (tick_failures(
            s.skip(1),
            now,
        ) + failure_out(e, now)));
        assert(tick_entries(s.push(e), now, timeout) =~= tick_entries(s, now, timeout)
            + tick_entry_out(e, now, timeout));
        assert(tick_resends(s.push(e), now) =~= tick_resends(s, now) + resend_out(e, now));
        assert(tick_failures(s.push(e), now) =~= tick_failures(s, now) + failure_out(e, now));
    }
}

/// An identity tracked nowhere stays untracked across a deadline scan.
proof fn lemma_tick_no_key(s: Seq<RetryEntry>, now: u64, timeout: u64, q: Qpn, m: Msn)
    requires
        forall|j: int| 0 <= j < s.len() ==> !key_is(#[trigger] s[j], q, m),
    ensures
        find_ctx(tick_entries(s, now, timeout), q, m) is None,
    decreases s.len(),
{
    if s.len() > 0 {
        assert(forall|j: int| 0 <= j < s.skip(1).len() ==> #[trigger] s.skip(1)[j] == s[j + 1]);
        lemma_tick_no_key(s.skip(1), now, timeout, q, m);
        let t = tick_entries(s, now, timeout);
        if tick_ctx(s[0].ctx, now, timeout) is Some {
            assert(t[0].qpn == s[0].qpn && t[0].msn == s[0].msn);
            assert(t.skip(1) =~= tick_entries(s.skip(1), now, timeout));
        } else {
            assert(t =~= tick_entries(s.skip(1), now, timeout));
        }
    }
}

/// Per identity, one deadline scan acts exactly as `tick_key` on its lookup.
proof fn lemma_tick_find(s: Seq<RetryEntry>, now: u64, timeout: u64, q: Qpn, m: Msn)
    requires
        unique_keys(s),
    ensures
        find_ctx(tick_entries(s, now, timeout), q, m) == tick_key(
            find_ctx(s, q, m),
            now,
            timeout,
        ),
    decreases s.len(),
{
    if s.len() > 0 {
        assert(forall|j: int| 0 <= j < s.skip(1).len() ==> #[trigger] s.skip(1)[j] == s[j + 1]);
        assert(unique_keys(s.skip(1))) by {
            assert forall|a: int, b: int| 0 <= a < b < s.skip(1).len() implies !key_is(
                #[trigger] s.skip(1)[a],
                #[trigger] s.skip(1)[b].qpn,
                s.skip(1)[b].msn,
            ) by {
                assert(s.skip(1)[a] == s[a + 1] && s.skip(1)[b] == s[b + 1]);
            }
        }
        let t = tick_entries(s, now, timeout);
        if key_is(s[0], q, m) {
            assert forall|j: int| 0 <= j < s.skip(1).len() implies !key_is(
                #[trigger] s.skip(1)[j],
                q,
                m,
            ) by {
                assert(s.skip(1)[j] == s[j + 1]);
                assert(!key_is(s[0], s[j + 1].qpn, s[j + 1].msn));
            }
            lemma_tick_no_key(s.skip(1), now, timeout, q, m);
            match tick_ctx(s[0].ctx, now, timeout) {
                Some(c) => {
                    assert(t[0] == RetryEntry { qpn: s[0].qpn, msn: s[0].msn, ctx: c });
                },
                None => {
                    assert(t =~= tick_entries(s.skip(1), now, timeout));
                },
            }
        } else {
            lemma_tick_find(s.skip(1), now, timeout, q, m);
            if tick_ctx(s[0].ctx, now, timeout) is Some {
                assert(t[0].qpn == s[0].qpn && t[0].msn == s[0].msn);
                assert(t.skip(1) =~= tick_entries(s.skip(1), now, timeout));
            } else {
                assert(t =~= tick_entries(s.skip(1), now, timeout));
            }
        }
    }
}

/// A deadline scan keeps identities unique.
proof fn lemma_tick_unique(s: Seq<RetryEntry>, now: u64, timeout: u64)
    requires
        unique_keys(s),
    ensures
        unique_keys(tick_entries(s, now, timeout)),
    decreases s.len(),
{
    if s.len() > 0 {
        assert(forall|j: int| 0 <= j < s.skip(1).len() ==> #[trigger] s.skip(1)[j] == s[j + 1]);
        assert(unique_keys(s.skip(1))) by {
            assert forall|a: int, b: int| 0 <= a < b < s.skip(1).len() implies !key_is(
                #[trigger] s.skip(1)[a],
                #[trigger] s.skip(1)[b].qpn,
                s.skip(1)[b].msn,
            ) by {
                assert(s.skip(1)[a] == s[a + 1] && s.skip(1)[b] == s[b + 1]);
            }
        }
        lemma_tick_unique(s.skip(1), now, timeout);
        let rest = tick_entries(s.skip(1), now, timeout);
        let t = tick_entries(s, now, timeout);
        match tick_ctx(s[0].ctx, now, timeout) {
            Some(c) => {
                assert forall|j: int| 0 <= j < s.skip(1).len() implies !key_is(
                    #[trigger] s.skip(1)[j],
                    s[0].qpn,
                    s[0].msn,
                ) by {
                    assert(s.skip(1)[j] == s[j + 1]);
                    assert(!key_is(s[0], s[j + 1].qpn, s[j + 1].msn));
                    if key_is(s[j + 1], s[0].qpn, s[0].msn) {
                        assert(key_is(s[0], s[j + 1].qpn, s[j + 1].msn));
                    }
                }
                lemma_tick_no_key(s.skip(1), now, timeout, s[0].qpn, s[0].msn);
                lemma_find_none(rest, s[0].qpn, s[0].msn);
                assert(t[0] == RetryEntry { qpn: s[0].qpn, msn: s[0].msn, ctx: c });
                assert(t.skip(1) =~= rest);
                assert forall|a: int, b: int| 0 <= a < b < t.len() implies !key_is(
                    #[trigger] t[a],
                    #[trigger] t[b].qpn,
                    t[b].msn,
                ) by {
                    assert(t[b] == rest[b - 1]);
                    if a == 0 {
                        assert(!key_is(rest[b - 1], t[0].qpn, t[0].msn));
                        if key_is(t[0], rest[b - 1].qpn, rest[b - 1].msn) {
                            assert(key_is(rest[b - 1], t[0].qpn, t[0].msn));
                        }
                    } else {
                        assert(t[a] == rest[a - 1]);
                    }
                }
            },
            None => {
                assert(t =~= rest);
            },
        }
    }
}

/// Law: tracking removed — by a `Cancel`, or never begun — yields no resend
/// for that identity in a later deadline scan, at any clock reading.
pub proof fn lemma_cancel_stops_resend(s: Seq<RetryEntry>, qpn: Qpn, msn: Msn, now: u64)
    requires
        find_ctx(s, qpn, msn) is None,
    ensures
        forall|i: int|
            0 <= i < tick_resends(s, now).len() ==> !((#[trigger] tick_resends(s, now)[i]).qpn
                == qpn && tick_resends(s, now)[i].msn == msn),
    decreases s.len(),
{
    if s.len() > 0 {
        lemma_cancel_stops_resend(s.skip(1), qpn, msn, now);
        let t = tick_resends(s, now);
        assert forall|i: int| 0 <= i < t.len() implies !((#[trigger] t[i]).qpn == qpn && t[i].msn
            == msn) by {
            if fires(s[0].ctx, now) {
                if i > 0 {
                    assert(t[i] == tick_resends(s.skip(1), now)[i - 1]);
                }
            } else {
                assert(t[i] == tick_resends(s.skip(1), now)[i]);
            }
        }
    }
}

/// How many of the resend records carry the identity `(qpn, msn)`.
pub open spec fn count_resends_for(rs: Seq<RetryRecord>, qpn: Qpn, msn: Msn) -> nat
    decreases rs.len(),
{
    if rs.len() == 0 {
        0nat
    } else {
        (if rs[0].qpn == qpn && rs[0].msn == msn {
            1nat
        } else {
            0nat
        }) + count_resends_for(rs.skip(1), qpn, msn)
    }
}

/// Law: one deadline scan resubmits a tracked identity exactly once when its
/// deadline elapsed with budget left — with exactly the original descriptor —
/// and not at all otherwise.
pub proof fn lemma_fire_resends_once(s: Seq<RetryEntry>, qpn: Qpn, msn: Msn, now: u64)
    requires
        unique_keys(s),
    ensures
        count_resends_for(tick_resends(s, now), qpn, msn) == (match find_ctx(s, qpn, msn) {
            Some(c) => if fires(c, now) {
                1nat
            } else {
                0nat
            },
            None => 0nat,
        }),
    decreases s.len(),
{
    if s.len() > 0 {
        assert(forall|j: int| 0 <= j < s.skip(1).len() ==> #[trigger] s.skip(1)[j] == s[j + 1]);
        assert(unique_keys(s.skip(1))) by {
            assert forall|a: int, b: int| 0 <= a < b < s.skip(1).len() implies !key_is(
                #[trigger] s.skip(1)[a],
                #[trigger] s.skip(1)[b].qpn,
                s.skip(1)[b].msn,
            ) by {
                assert(s.skip(1)[a] == s[a + 1] && s.skip(1)[b] == s[b + 1]);
            }
        }
        lemma_fire_resends_once(s.skip(1), qpn, msn, now);
        let t = tick_resends(s, now);
        if key_is(s[0], qpn, msn) {
            assert forall|j: int| 0 <= j < s.skip(1).len() implies !key_is(
                #[trigger] s.skip(1)[j],
                qpn,
                msn,
            ) by {
                assert(s.skip(1)[j] == s[j + 1]);
                assert(!key_is(s[0], s[j + 1].qpn, s[j + 1].msn));
            }
            lemma_find_none(s.skip(1), qpn, msn);
        }
        if fires(s[0].ctx, now) {
            assert(t[0] == resend_out(s[0], now)[0]);
            assert(t.skip(1) =~= tick_resends(s.skip(1), now));
        } else {
            assert(t =~= tick_resends(s.skip(1), now));
        }
    }
}

/// Single-identity view of a run of deadline scans at the given clock
/// readings.
pub open spec fn run_key(st: Option<RetryContext>, times: Seq<u64>, timeout: u64) -> Option<
    RetryContext,
>
    decreases times.len(),
{
    if times.len() == 0 {
        st
    } else {
        run_key(tick_key(st, times[0], timeout), times.skip(1), timeout)
    }
}

/// How many resends a run of deadline scans produces for one identity.
pub open spec fn run_resend_count(st: Option<RetryContext>, times: Seq<u64>, timeout: u64) -> nat
    decreases times.len(),
{
    if times.len() == 0 {
        0nat
    } else {
        (if st is Some && fires(st->Some_0, times[0]) {
            1nat
        } else {
            0nat
        }) + run_resend_count(tick_key(st, times[0], timeout), times.skip(1), timeout)
    }
}

/// Every scan in the run finds the identity's then-current deadline elapsed.
pub open spec fn all_elapsed(st: Option<RetryContext>, times: Seq<u64>, timeout: u64) -> bool
    decreases times.len(),
{
    if times.len() == 0 {
        true
    } else {
        st is Some && elapsed(st->Some_0, times[0]) && all_elapsed(
            tick_key(st, times[0], timeout),
            times.skip(1),
            timeout,
        )
    }
}

/// Law: an identity tracked with budget `N` that receives no `Cancel` is
/// resent exactly `N` times and is then removed — resolved as permanently
/// failed — once `N + 1` deadlines have elapsed.
pub proof fn lemma_retry_exhaustion(c: RetryContext, times: Seq<u64>, timeout: u64)
    requires
        times.len() == c.retry_counter + 1,
        all_elapsed(Some(c), times, timeout),
    ensures
        run_key(Some(c), times, timeout) is None,
        run_resend_count(Some(c), times, timeout) == c.retry_counter,
    decreases times.len(),
{
    if c.retry_counter == 0 {
        assert(tick_key(Some(c), times[0], timeout) is None);
        assert(times.skip(1).len() == 0);
        assert(run_key(None, times.skip(1), timeout) is None);
        assert(run_resend_count(Option::<RetryContext>::None, times.skip(1), timeout) == 0);
        assert(!fires(c, times[0]));
    } else {
        assert(fires(c, times[0]));
        let c2 = tick_ctx(c, times[0], timeout)->Some_0;
        assert(c2.retry_counter == c.retry_counter - 1);
        lemma_retry_exhaustion(c2, times.skip(1), timeout);
        assert(run_resend_count(Some(c), times, timeout) == 1 + run_resend_count(
            Some(c2),
            times.skip(1),
            timeout,
        ));
    }
}

/// Law: a resend never exceeds the budget — over any run of deadline scans,
/// at most `N` resends happen for an identity tracked with budget `N`.
pub proof fn lemma_resend_budget(st: Option<RetryContext>, times: Seq<u64>, timeout: u64)
    ensures
        st is Some ==> run_resend_count(st, times, timeout) <= st->Some_0.retry_counter,
        st is None ==> run_resend_count(st, times, timeout) == 0,
    decreases times.len(),
{
    if times.len() > 0 {
        lemma_resend_budget(tick_key(st, times[0], timeout), times.skip(1), timeout);
    }
}

/// Law: a firing deadline observed within one checking interval of its due
/// time rearms the context to a deadline between `retry_timeout` and
/// `retry_timeout + interval` past the prior one — so consecutive resends of
/// one identity are spaced within `[retry_timeout, retry_timeout + interval)`
/// when the loop ticks at least once per interval.
pub proof fn lemma_resend_interval(c: RetryContext, now: u64, timeout: u64, interval: u64)
    requires
        fires(c, now),
        (now as u128) < c.next_timeout + interval,
    ensures
        tick_ctx(c, now, timeout) matches Some(c2) && c.next_timeout + timeout
            <= c2.next_timeout < c.next_timeout + timeout + interval,
{
}

} // verus!
