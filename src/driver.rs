//! The load-run state machine.
//!
//! A run goes `Unopened -> Loading -> Flushing -> Done`, or `Unopened ->
//! Aborted` when the store cannot be opened. Each call of [`Driver::step`]
//! takes the outcome of the action handed out before and hands out the next
//! one. Failed writes, submissions and flushes are counted and the run goes on.
use vstd::prelude::*;
use crate::config::{RunConfig, WriteStrategy};
use crate::workload::{random_pair, KvPair};

verus! {

#[derive(Clone, Copy, Debug, PartialEq, Eq, Structural)]
pub enum Phase {
    Unopened,
    Loading,
    Flushing,
    Done,
    Aborted,
}

/// What the host does next.
#[derive(Clone, Copy, Debug, PartialEq, Eq, Structural)]
pub enum Action {
    /// Open or create the store.
    Open,
    /// Begin a transaction and open the table inside it.
    BeginUnit,
    /// Write the pair on its own.
    Write,
    /// Add the pair to the current batch or transaction.
    Stage,
    /// The current transaction could not be begun: the pair is dropped.
    Skip,
    /// Submit the current batch, or commit the current transaction.
    Submit,
    /// Report progress after `entries` pairs.
    LogProgress { entries: u64 },
    /// Flush the store.
    Flush,
    /// Report the end of the run after `entries` pairs.
    Summary { entries: u64 },
    /// Nothing is left to do.
    Stop,
}

/// How the host's last action went.
#[derive(Clone, Copy, Debug, PartialEq, Eq, Structural)]
pub enum Outcome {
    Succeeded,
    Failed,
}

/// An action, with the freshly generated pair that it carries.
#[derive(Clone, Copy, Debug)]
pub struct Command {
    pub action: Action,
    pub pair: Option<KvPair>,
}

impl Action {
    pub open spec fn carries_pair(self) -> bool {
        self is Write || self is Stage || self is Skip
    }
}

/// The state of one run. Counters only grow within a run.
#[derive(Clone, Copy, Debug)]
pub struct Driver {
    pub config: RunConfig,
    pub phase: Phase,
    /// The action handed out by the previous step, if any.
    pub last: Option<Action>,
    /// Pairs generated so far.
    pub generated: u64,
    /// Pairs handed to the store (written or staged).
    pub written: u64,
    /// Pairs dropped because their transaction could not be begun.
    pub skipped: u64,
    /// Pairs since the last progress report.
    pub since_log: u64,
    pub progress_logs: u64,
    /// Pairs in the current batch or transaction.
    pub in_unit: u64,
    /// Batches or transactions closed with a full complement of pairs.
    pub full_units: u64,
    /// The last, partial batch or transaction has been closed.
    pub tail_closed: bool,
    /// The current transaction has been begun.
    pub unit_begun: bool,
    /// Pairs of the current unit reach the store.
    pub unit_open: bool,
    /// Batch submissions and transaction commits.
    pub submits: u64,
    /// Transactions given up because they could not be begun.
    pub abandoned: u64,
    pub begin_failures: u64,
    pub write_failures: u64,
    pub submit_failures: u64,
    pub flushes: u64,
    pub flush_failed: bool,
    pub summaries: u64,
}

pub open spec fn ceil_div(n: int, d: int) -> int {
    (n + d - 1) / d
}

impl Driver {
    /// The state of a run before anything has been done.
    pub open spec fn initial(config: RunConfig) -> Driver {
        Driver {
            config,
            phase: Phase::Unopened,
            last: None,
            generated: 0,
            written: 0,
            skipped: 0,
            since_log: 0,
            progress_logs: 0,
            in_unit: 0,
            full_units: 0,
            tail_closed: false,
            unit_begun: false,
            unit_open: config.strategy != WriteStrategy::Transactional,
            submits: 0,
            abandoned: 0,
            begin_failures: 0,
            write_failures: 0,
            submit_failures: 0,
            flushes: 0,
            flush_failed: false,
            summaries: 0,
        }
    }

    /// The state after the host reports how the last action went.
    pub open spec fn absorb(self, outcome: Outcome) -> Driver {
        let failed = outcome == Outcome::Failed;
        match self.last {
            Some(Action::Open) => if failed {
                Driver { phase: Phase::Aborted, ..self }
            } else {
                Driver { phase: Phase::Loading, ..self }
            },
            Some(Action::BeginUnit) => if failed {
                Driver { unit_open: false, begin_failures: (self.begin_failures + 1) as u64, ..self }
            } else {
                self
            },
            Some(Action::Write) | Some(Action::Stage) => if failed {
                Driver { write_failures: (self.write_failures + 1) as u64, ..self }
            } else {
                self
            },
            Some(Action::Submit) => if failed {
                Driver { submit_failures: (self.submit_failures + 1) as u64, ..self }
            } else {
                self
            },
            Some(Action::Flush) => if failed {
                Driver { flush_failed: true, ..self }
            } else {
                self
            },
            _ => self,
        }
    }

    /// The state after a pair has been generated and handed on by `action`.
    pub open spec fn after_pair(self) -> (Driver, Action) {
        let c = self.config;
        let g = (self.generated + 1) as u64;
        let s = Driver { generated: g, since_log: (self.since_log + 1) as u64, ..self };
        match c.strategy {
            WriteStrategy::Immediate => (
                Driver { written: (s.written + 1) as u64, ..s },
                Action::Write,
            ),
            WriteStrategy::Batched => (
                Driver { written: (s.written + 1) as u64, in_unit: (s.in_unit + 1) as u64, ..s },
                Action::Stage,
            ),
            WriteStrategy::Transactional => {
                let n = (s.in_unit + 1) as u64;
                if s.unit_open {
                    (Driver { written: (s.written + 1) as u64, in_unit: n, ..s }, Action::Stage)
                } else {
                    let s = Driver { skipped: (s.skipped + 1) as u64, in_unit: n, ..s };
                    if n == c.batch_size {
                        (
                            Driver {
                                in_unit: 0,
                                full_units: (s.full_units + 1) as u64,
                                abandoned: (s.abandoned + 1) as u64,
                                unit_begun: false,
                                ..s
                            },
                            Action::Skip,
                        )
                    } else if g == c.num_entries {
                        (
                            Driver {
                                tail_closed: true,
                                abandoned: (s.abandoned + 1) as u64,
                                unit_begun: false,
                                ..s
                            },
                            Action::Skip,
                        )
                    } else {
                        (s, Action::Skip)
                    }
                }
            },
        }
    }

    /// The next action, and the state once it has been handed out.
    pub open spec fn decide(self) -> (Driver, Action) {
        let c = self.config;
        match self.phase {
            Phase::Unopened => (self, Action::Open),
            Phase::Loading => if self.in_unit == c.batch_size {
                (
                    Driver {
                        in_unit: 0,
                        full_units: (self.full_units + 1) as u64,
                        submits: (self.submits + 1) as u64,
                        unit_begun: false,
                        ..self
                    },
                    Action::Submit,
                )
            } else if self.since_log == c.log_interval {
                (
                    Driver {
                        since_log: 0,
                        progress_logs: (self.progress_logs + 1) as u64,
                        ..self
                    },
                    Action::LogProgress { entries: self.generated },
                )
            } else if self.generated < c.num_entries {
                if c.strategy == WriteStrategy::Transactional && !self.unit_begun {
                    (Driver { unit_begun: true, unit_open: true, ..self }, Action::BeginUnit)
                } else {
                    self.after_pair()
                }
            } else if self.in_unit > 0 && !self.tail_closed {
                (
                    Driver {
                        tail_closed: true,
                        submits: (self.submits + 1) as u64,
                        unit_begun: false,
                        ..self
                    },
                    Action::Submit,
                )
            } else {
                (
                    Driver { phase: Phase::Flushing, flushes: (self.flushes + 1) as u64, ..self },
                    Action::Flush,
                )
            },
            Phase::Flushing => (
                Driver { phase: Phase::Done, summaries: (self.summaries + 1) as u64, ..self },
                Action::Summary { entries: self.generated },
            ),
            Phase::Done | Phase::Aborted => (self, Action::Stop),
        }
    }

    /// One step: take the outcome of the last action, hand out the next one.
    pub open spec fn transition(self, outcome: Outcome) -> (Driver, Action) {
        let (s, a) = self.absorb(outcome).decide();
        (Driver { last: Some(a), ..s }, a)
    }

    /// The counters agree with one another.
    pub open spec fn counts_ok(self) -> bool {
        let c = self.config;
        let b = c.batch_size as int;
        let l = c.log_interval as int;
        let g = self.generated as int;
        &&& c.wf()
        &&& g <= c.num_entries
        &&& self.written + self.skipped == g
        &&& self.since_log <= l
        &&& self.progress_logs * l + self.since_log == g
        &&& self.progress_logs + (if self.since_log > 0 { 1int } else { 0 }) <= g
        &&& c.groups_pairs() ==> self.full_units * b + self.in_unit == g
        &&& self.in_unit <= b
        &&& self.full_units + (if self.in_unit > 0 { 1int } else { 0 }) <= g
        &&& self.tail_closed ==> (g == c.num_entries && 0 < self.in_unit < b)
        &&& self.submits + self.abandoned == self.full_units + (if self.tail_closed { 1int } else { 0 })
        &&& self.abandoned + (if self.unit_begun && !self.unit_open { 1int } else { 0 }) == self.begin_failures
        &&& self.write_failures <= self.written
        &&& self.submit_failures <= self.submits
        &&& c.strategy != WriteStrategy::Transactional ==> self.unit_open && !self.unit_begun && self.skipped == 0 && self.abandoned == 0
        &&& c.strategy == WriteStrategy::Immediate ==> self.in_unit == 0 && self.full_units == 0 && self.submits == 0
        &&& self.unit_begun ==> !self.tail_closed && (self.in_unit > 0 || g < c.num_entries)
        &&& (c.strategy == WriteStrategy::Transactional && !self.unit_begun && !self.tail_closed) ==> self.in_unit == 0
        &&& (self.unit_begun && !self.unit_open) ==> g < c.num_entries && self.in_unit < b
    }

    /// What each phase implies of the counters.
    pub open spec fn phase_ok(self) -> bool {
        let c = self.config;
        let g = self.generated as int;
        &&& (self.phase == Phase::Unopened || self.phase == Phase::Aborted) ==> (g == 0 && !self.unit_begun && self.submits == 0)
        &&& (self.phase == Phase::Unopened || self.phase == Phase::Aborted || self.phase == Phase::Loading) ==> self.flushes == 0
        &&& self.phase != Phase::Done ==> self.summaries == 0
        &&& (self.phase == Phase::Flushing || self.phase == Phase::Done) ==> {
            &&& g == c.num_entries
            &&& self.since_log < c.log_interval
            &&& self.in_unit < c.batch_size
            &&& (self.in_unit > 0 <==> self.tail_closed)
            &&& !self.unit_begun
            &&& self.flushes == 1
        }
        &&& self.phase == Phase::Done ==> self.summaries == 1
    }

    /// What the action awaiting its outcome implies.
    pub open spec fn pending_ok(self) -> bool {
        let c = self.config;
        &&& self.write_failures + (if self.last == Some(Action::Write) || self.last == Some(Action::Stage) { 1int } else { 0 }) <= self.written
        &&& self.submit_failures + (if self.last == Some(Action::Submit) { 1int } else { 0 }) <= self.submits
        &&& (self.phase == Phase::Unopened) ==> (self.last == None::<Action> || self.last == Some(Action::Open))
        &&& self.phase != Phase::Unopened ==> self.last != None::<Action> && self.last != Some(Action::Open)
        &&& self.phase == Phase::Aborted ==> self.last == Some(Action::Stop)
        &&& self.last == Some(Action::BeginUnit) ==> {
            &&& self.unit_begun
            &&& self.unit_open
            &&& self.in_unit == 0
            &&& self.generated < c.num_entries
            &&& self.phase == Phase::Loading
        }
    }

    /// The invariant of a run, kept by every step.
    pub open spec fn wf(self) -> bool {
        &&& self.counts_ok()
        &&& self.phase_ok()
        &&& self.pending_ok()
    }

    /// Steps still owed before the run ends; every step of a live run lowers it.
    pub open spec fn remaining(self) -> nat {
        let c = self.config;
        let n = c.num_entries as int;
        let g = self.generated as int;
        let owed = 4 * (n - g)
            + (if self.in_unit == c.batch_size { 2int } else { 0 })
            + (if self.since_log == c.log_interval { 1int } else { 0 })
            + (if c.strategy == WriteStrategy::Transactional && g < n && !self.unit_begun { 1int } else { 0 })
            + (if g == n && self.in_unit > 0 && !self.tail_closed && self.in_unit != c.batch_size { 1int } else { 0 });
        match self.phase {
            Phase::Unopened => if self.last is None { (4 * n + 8) as nat } else { (4 * n + 7) as nat },
            Phase::Loading => (owed + 2) as nat,
            Phase::Flushing => 1,
            Phase::Done | Phase::Aborted => 0,
        }
    }

    pub open spec fn is_finished(self) -> bool {
        self.phase == Phase::Done || self.phase == Phase::Aborted
    }
}

impl Driver {
    /// A run of `config` that has not yet opened its store.
    pub fn new(config: RunConfig) -> (r: Driver)
        requires
            config.wf(),
        ensures
            r == Driver::initial(config),
            r.wf(),
    {
        let unit_open = match config.strategy {
            WriteStrategy::Transactional => false,
            _ => true,
        };
        proof {
            lemma_initial_wf(config);
        }
        Driver {
            config,
            phase: Phase::Unopened,
            last: None,
            generated: 0,
            written: 0,
            skipped: 0,
            since_log: 0,
            progress_logs: 0,
            in_unit: 0,
            full_units: 0,
            tail_closed: false,
            unit_begun: false,
            unit_open,
            submits: 0,
            abandoned: 0,
            begin_failures: 0,
            write_failures: 0,
            submit_failures: 0,
            flushes: 0,
            flush_failed: false,
            summaries: 0,
        }
    }

    /// Whether the run has ended, normally or not.
    pub fn finished(&self) -> (r: bool)
        ensures
            r == self.is_finished(),
    {
        match self.phase {
            Phase::Done | Phase::Aborted => true,
            _ => false,
        }
    }

    fn absorb_outcome(&mut self, outcome: Outcome)
        requires
            old(self).wf(),
        ensures
            *final(self) == old(self).absorb(outcome),
    {
        let failed = match outcome {
            Outcome::Failed => true,
            Outcome::Succeeded => false,
        };
        match self.last {
            Some(Action::Open) => {
                self.phase = if failed { Phase::Aborted } else { Phase::Loading };
            },
            Some(Action::BeginUnit) => {
                if failed {
                    self.unit_open = false;
                    self.begin_failures = self.begin_failures + 1;
                }
            },
            Some(Action::Write) | Some(Action::Stage) => {
                if failed {
                    self.write_failures = self.write_failures + 1;
                }
            },
            Some(Action::Submit) => {
                if failed {
                    self.submit_failures = self.submit_failures + 1;
                }
            },
            Some(Action::Flush) => {
                if failed {
                    self.flush_failed = true;
                }
            },
            _ => {},
        }
    }

    fn emit_pair(&mut self) -> (r: Command)
        requires
            old(self).counts_ok(),
            old(self).phase == Phase::Loading,
            old(self).in_unit != old(self).config.batch_size,
            old(self).generated < old(self).config.num_entries,
        ensures
            (*final(self), r.action) == old(self).after_pair(),
            r.pair is Some,
    {
        let pair = random_pair();
        self.generated = self.generated + 1;
        self.since_log = self.since_log + 1;
        let action = match self.config.strategy {
            WriteStrategy::Immediate => {
                self.written = self.written + 1;
                Action::Write
            },
            WriteStrategy::Batched => {
                self.written = self.written + 1;
                self.in_unit = self.in_unit + 1;
                Action::Stage
            },
            WriteStrategy::Transactional => {
                self.in_unit = self.in_unit + 1;
                if self.unit_open {
                    self.written = self.written + 1;
                    Action::Stage
                } else {
                    self.skipped = self.skipped + 1;
                    if self.in_unit == self.config.batch_size {
                        self.in_unit = 0;
                        self.full_units = self.full_units + 1;
                        self.abandoned = self.abandoned + 1;
                        self.unit_begun = false;
                    } else if self.generated == self.config.num_entries {
                        self.tail_closed = true;
                        self.abandoned = self.abandoned + 1;
                        self.unit_begun = false;
                    }
                    Action::Skip
                }
            },
        };
        Command { action, pair: Some(pair) }
    }

    fn decide_next(&mut self) -> (r: Command)
        requires
            old(self).counts_ok(),
            old(self).phase_ok(),
        ensures
            (*final(self), r.action) == old(self).decide(),
            r.pair is Some <==> r.action.carries_pair(),
    {
        match self.phase {
            Phase::Unopened => Command { action: Action::Open, pair: None },
            Phase::Loading => {
                if self.in_unit == self.config.batch_size {
                    self.in_unit = 0;
                    self.full_units = self.full_units + 1;
                    self.submits = self.submits + 1;
                    self.unit_begun = false;
                    Command { action: Action::Submit, pair: None }
                } else if self.since_log == self.config.log_interval {
                    self.since_log = 0;
                    self.progress_logs = self.progress_logs + 1;
                    Command { action: Action::LogProgress { entries: self.generated }, pair: None }
                } else if self.generated < self.config.num_entries {
                    let transactional = match self.config.strategy {
                        WriteStrategy::Transactional => true,
                        _ => false,
                    };
                    if transactional && !self.unit_begun {
                        self.unit_begun = true;
                        self.unit_open = true;
                        Command { action: Action::BeginUnit, pair: None }
                    } else {
                        self.emit_pair()
                    }
                } else if self.in_unit > 0 && !self.tail_closed {
                    self.tail_closed = true;
                    self.submits = self.submits + 1;
                    self.unit_begun = false;
                    Command { action: Action::Submit, pair: None }
                } else {
                    self.phase = Phase::Flushing;
                    self.flushes = self.flushes + 1;
                    Command { action: Action::Flush, pair: None }
                }
            },
            Phase::Flushing => {
                self.phase = Phase::Done;
                self.summaries = self.summaries + 1;
                Command { action: Action::Summary { entries: self.generated }, pair: None }
            },
            Phase::Done | Phase::Aborted => Command { action: Action::Stop, pair: None },
        }
    }

    /// Takes how the last action went and hands out the next one. The first
    /// call of a run ignores `outcome`. A pair action carries a freshly
    /// generated pair; no other action carries one.
    pub fn step(&mut self, outcome: Outcome) -> (r: Command)
        requires
            old(self).wf(),
        ensures
            (*final(self), r.action) == old(self).transition(outcome),
            r.pair is Some <==> r.action.carries_pair(),
            final(self).wf(),
            !old(self).is_finished() ==> final(self).remaining() < old(self).remaining(),
    {
        proof {
            lemma_step_keeps_invariant(*self, outcome);
            if !self.is_finished() {
                lemma_step_progresses(*self, outcome);
            }
            lemma_absorb(*self, outcome);
        }
        self.absorb_outcome(outcome);
        let r = self.decide_next();
        self.last = Some(r.action);
        r
    }
}

proof fn lemma_mul_succ(a: int, b: int)
    ensures
        (a + 1) * b == a * b + b,
{
    assert((a + 1) * b == a * b + b) by (nonlinear_arith);
}

proof fn lemma_absorb(d: Driver, outcome: Outcome)
    requires
        d.wf(),
    ensures
        d.absorb(outcome).counts_ok(),
        d.absorb(outcome).phase_ok(),
        d.absorb(outcome).phase == Phase::Unopened ==> d.absorb(outcome).last == None::<Action>,
{
}

proof fn lemma_after_pair(a: Driver)
    requires
        a.counts_ok(),
        a.phase_ok(),
        a.phase == Phase::Loading,
        a.in_unit != a.config.batch_size,
        a.since_log != a.config.log_interval,
        a.generated < a.config.num_entries,
        a.config.strategy == WriteStrategy::Transactional ==> a.unit_begun,
    ensures
        ({
            let (s, act) = a.after_pair();
            Driver { last: Some(act), ..s }.wf()
        }),
{
    let c = a.config;
    let (s, act) = a.after_pair();
    lemma_mul_succ(a.full_units as int, c.batch_size as int);
    assert(s.progress_logs * c.log_interval + s.since_log == s.generated);
    if c.strategy == WriteStrategy::Transactional && !a.unit_open && a.in_unit + 1
        == c.batch_size {
        assert(s.full_units == a.full_units + 1);
        assert(s.in_unit == 0);
        assert(s.full_units * c.batch_size + s.in_unit == s.generated);
    } else {
        assert(s.full_units == a.full_units);
    }
}

proof fn lemma_decide_loading(a: Driver)
    requires
        a.counts_ok(),
        a.phase_ok(),
        a.phase == Phase::Loading,
    ensures
        ({
            let (s, act) = a.decide();
            Driver { last: Some(act), ..s }.wf()
        }),
{
    let c = a.config;
    let (s, act) = a.decide();
    if a.in_unit == c.batch_size {
        lemma_mul_succ(a.full_units as int, c.batch_size as int);
        assert(s.full_units == a.full_units + 1);
        assert(s.full_units * c.batch_size + s.in_unit == s.generated);
    } else if a.since_log == c.log_interval {
        lemma_mul_succ(a.progress_logs as int, c.log_interval as int);
        assert(s.progress_logs == a.progress_logs + 1);
        assert(s.progress_logs * c.log_interval + s.since_log == s.generated);
    } else if a.generated < c.num_entries {
        if !(c.strategy == WriteStrategy::Transactional && !a.unit_begun) {
            lemma_after_pair(a);
        }
    }
}

/// Every step keeps the run's invariant, whatever the host reports.
pub proof fn lemma_step_keeps_invariant(d: Driver, outcome: Outcome)
    requires
        d.wf(),
    ensures
        d.transition(outcome).0.wf(),
{
    lemma_absorb(d, outcome);
    let a = d.absorb(outcome);
    if a.phase == Phase::Loading {
        lemma_decide_loading(a);
    }
}

/// Every step of a run that has not ended brings it closer to its end, so a
/// run ends after finitely many steps whatever the host reports.
pub proof fn lemma_step_progresses(d: Driver, outcome: Outcome)
    requires
        d.wf(),
        !d.is_finished(),
    ensures
        d.transition(outcome).0.remaining() < d.remaining(),
{
}

/// A fresh run satisfies the invariant.
pub proof fn lemma_initial_wf(config: RunConfig)
    requires
        config.wf(),
    ensures
        Driver::initial(config).wf(),
{
}

/// A run that has ended normally generated exactly `num_entries` pairs, each
/// written, staged or dropped, however many writes, submissions or
/// transactions failed; it reported progress `num_entries / log_interval`
/// times, flushed once and reported its end once. With batches or
/// transactions it closed `ceil(num_entries / batch_size)` of them: each one
/// submitted or committed, except transactions that could not be begun; a
/// batched run submitted every one. Without them it wrote every pair on its own.
pub proof fn lemma_completed_run(d: Driver)
    requires
        d.wf(),
        d.phase == Phase::Done,
    ensures
        d.generated == d.config.num_entries,
        d.written + d.skipped == d.config.num_entries,
        d.progress_logs == d.config.num_entries / d.config.log_interval,
        d.flushes == 1,
        d.summaries == 1,
        d.config.groups_pairs() ==> d.submits + d.abandoned == ceil_div(
            d.config.num_entries as int,
            d.config.batch_size as int,
        ),
        d.abandoned == d.begin_failures,
        d.config.strategy == WriteStrategy::Batched ==> d.submits == ceil_div(
            d.config.num_entries as int,
            d.config.batch_size as int,
        ),
        d.config.strategy == WriteStrategy::Immediate ==> d.written == d.config.num_entries
            && d.submits == 0,
{
    let c = d.config;
    let n = c.num_entries as int;
    let b = c.batch_size as int;
    let l = c.log_interval as int;
    vstd::arithmetic::div_mod::lemma_fundamental_div_mod_converse(
        n,
        l,
        d.progress_logs as int,
        d.since_log as int,
    );
    if c.groups_pairs() {
        let k = d.full_units as int;
        if d.in_unit > 0 {
            assert(n + b - 1 == (k + 1) * b + (d.in_unit - 1)) by (nonlinear_arith)
                requires
                    k * b + d.in_unit == n,
            ;
            vstd::arithmetic::div_mod::lemma_fundamental_div_mod_converse(
                n + b - 1,
                b,
                k + 1,
                d.in_unit - 1,
            );
        } else {
            vstd::arithmetic::div_mod::lemma_fundamental_div_mod_converse(n + b - 1, b, k, b - 1);
        }
    }
}

/// When the store cannot be opened the run ends at once: nothing is
/// generated, written, submitted, flushed or reported, and every later step
/// hands out `Stop` and leaves the state as it is.
pub proof fn lemma_open_failure_aborts(d: Driver)
    requires
        d.wf(),
        d.phase == Phase::Unopened,
        d.last == Some(Action::Open),
    ensures
        d.transition(Outcome::Failed).0.phase == Phase::Aborted,
        d.transition(Outcome::Failed).1 == Action::Stop,
{
}

/// An aborted run has done nothing, and stays as it is whatever the host
/// reports.
pub proof fn lemma_aborted_run_is_inert(d: Driver, outcome: Outcome)
    requires
        d.wf(),
        d.phase == Phase::Aborted,
    ensures
        d.generated == 0,
        d.written == 0,
        d.submits == 0,
        d.flushes == 0,
        d.progress_logs == 0,
        d.summaries == 0,
        d.transition(outcome).1 == Action::Stop,
        d.transition(outcome).0 == (Driver { last: Some(Action::Stop), ..d }),
{
}

} // verus!
