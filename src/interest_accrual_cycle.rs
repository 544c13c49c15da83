use vstd::prelude::*;

use crate::primitives::{
    lemma_sum_push, sum, InterestAccrualCycleId, Timestamp, UsdCents,
    DAYS_PER_YEAR, SECONDS_PER_DAY,
};
use crate::terms::{interest_for, interest_for_period, MAX_ANNUAL_RATE_BPS, MAX_USD_CENTS};

verus! {

/// Latest instant at which a cycle may end.
pub const MAX_CYCLE_END: u64 = 0x7fff_ffff_ffff_ffff;

/// Most sub-periods a cycle may hold (one year of daily accruals).
pub const MAX_PERIODS_PER_CYCLE: u64 = 366;

/// A half-open span of time `[start, end)`.
#[derive(Debug, Clone, Copy, PartialEq, Eq, Structural)]
pub struct InterestPeriod {
    pub start: Timestamp,
    pub end: Timestamp,
}

/// Interest accrued over one sub-period.
#[derive(Debug, Clone, Copy, PartialEq, Eq, Structural)]
pub struct InterestAccrualData {
    pub interest: UsdCents,
    pub period: InterestPeriod,
}

/// One accrual cycle of a facility: a span `[start, end)` cut into
/// sub-periods of `accrual_interval` seconds (the last one may be shorter),
/// with the interest accrued in each sub-period so far.
#[derive(Debug, Clone, PartialEq, Eq)]
pub struct InterestAccrualCycle {
    pub id: InterestAccrualCycleId,
    pub idx: u64,
    pub start: Timestamp,
    pub end: Timestamp,
    pub accrual_interval: u64,
    pub annual_rate_bps: u64,
    /// End of the last accrued sub-period (`start` before the first).
    pub accrued_until: Timestamp,
    /// Interest of each accrued sub-period, in order.
    pub accruals: Vec<UsdCents>,
    /// Whether the cycle's total was posted as an obligation.
    pub posted: bool,
}

impl InterestAccrualCycle {
    /// Number of sub-periods in the cycle.
    pub open spec fn periods_in_cycle(&self) -> int {
        ((self.end - self.start) + self.accrual_interval - 1) / self.accrual_interval as int
    }

    pub open spec fn wf(&self) -> bool {
        &&& self.start <= self.accrued_until <= self.end <= MAX_CYCLE_END
        &&& 0 < self.accrual_interval <= DAYS_PER_YEAR * SECONDS_PER_DAY
        &&& self.annual_rate_bps <= MAX_ANNUAL_RATE_BPS
        &&& self.periods_in_cycle() <= MAX_PERIODS_PER_CYCLE
        &&& self.accrued_until == if self.start + self.accruals.len() * self.accrual_interval
            <= self.end {
            self.start + self.accruals.len() * self.accrual_interval
        } else {
            self.end as int
        }
        &&& (self.accruals.len() == 0 || self.start + (self.accruals.len() - 1)
            * self.accrual_interval < self.end)
        &&& forall|i: int| 0 <= i < self.accruals.len() ==> self.accruals@[i] <= MAX_USD_CENTS
    }

    /// The sub-period to accrue next, if the cycle has one left.
    pub open spec fn spec_next_accrual_period(&self) -> Option<InterestPeriod> {
        if self.accrued_until >= self.end {
            None
        } else {
            Some(
                InterestPeriod {
                    start: self.accrued_until,
                    end: if self.accrued_until + self.accrual_interval <= self.end {
                        (self.accrued_until + self.accrual_interval) as u64
                    } else {
                        self.end
                    },
                },
            )
        }
    }

    /// A fresh cycle over `[start, end)`.
    pub fn new(
        id: InterestAccrualCycleId,
        idx: u64,
        start: Timestamp,
        end: Timestamp,
        accrual_interval: u64,
        annual_rate_bps: u64,
    ) -> (r: Self)
        requires
            start <= end <= MAX_CYCLE_END,
            0 < accrual_interval <= DAYS_PER_YEAR * SECONDS_PER_DAY,
            annual_rate_bps <= MAX_ANNUAL_RATE_BPS,
            (end - start) <= MAX_PERIODS_PER_CYCLE * accrual_interval,
        ensures
            r.wf(),
            r.id == id,
            r.idx == idx,
            r.start == start,
            r.end == end,
            r.accrual_interval == accrual_interval,
            r.annual_rate_bps == annual_rate_bps,
            r.accruals@.len() == 0,
            r.accrued_until == start,
            !r.posted,
    {
        let r = InterestAccrualCycle {
            id,
            idx,
            start,
            end,
            accrual_interval,
            annual_rate_bps,
            accrued_until: start,
            accruals: Vec::new(),
            posted: false,
        };
        assert(r.accruals@.len() == 0);
        assert(r.start + r.accruals@.len() * r.accrual_interval == start);
        assert(r.periods_in_cycle() <= MAX_PERIODS_PER_CYCLE) by (nonlinear_arith)
            requires
                (end - start) <= MAX_PERIODS_PER_CYCLE * accrual_interval,
                accrual_interval > 0,
                r.periods_in_cycle() == ((end - start) + accrual_interval - 1)
                    / accrual_interval as int,
        ;
        r
    }

    /// The sub-period to accrue next; `None` once the cycle is complete.
    pub fn next_accrual_period(&self) -> (r: Option<InterestPeriod>)
        requires
            self.wf(),
        ensures
            r == self.spec_next_accrual_period(),
    {
        if self.accrued_until >= self.end {
            None
        } else {
            let end = if self.accrued_until + self.accrual_interval <= self.end {
                self.accrued_until + self.accrual_interval
            } else {
                self.end
            };
            Some(InterestPeriod { start: self.accrued_until, end })
        }
    }

    pub open spec fn spec_is_completed(&self) -> bool {
        self.accrued_until >= self.end
    }

    /// Whether every sub-period has been accrued.
    pub fn is_completed(&self) -> (r: bool)
        requires
            self.wf(),
        ensures
            r == self.spec_is_completed(),
            r == (self.spec_next_accrual_period() is None),
    {
        self.accrued_until >= self.end
    }

    /// Number of sub-periods accrued so far.
    pub fn count_accrued(&self) -> (r: usize)
        ensures
            r == self.accruals@.len(),
    {
        self.accruals.len()
    }

    /// Total interest accrued so far.
    pub open spec fn spec_total_accrued(&self) -> int {
        sum(self.accruals@)
    }

    /// Adds up the interest of the accrued sub-periods.
    pub fn total_accrued(&self) -> (r: UsdCents)
        requires
            self.wf(),
        ensures
            r == self.spec_total_accrued(),
    {
        proof {
            self.lemma_accrual_count_bounded();
        }
        let mut total: u64 = 0;
        let mut i: usize = 0;
        while i < self.accruals.len()
            invariant
                self.wf(),
                self.accruals@.len() <= MAX_PERIODS_PER_CYCLE,
                i <= self.accruals@.len(),
                total == sum(self.accruals@.subrange(0, i as int)),
                total <= i * MAX_USD_CENTS,
            decreases self.accruals.len() - i,
        {
            proof {
                let s = self.accruals@.subrange(0, i as int);
                lemma_sum_push(s, self.accruals@[i as int]);
                assert(self.accruals@.subrange(0, i + 1) =~= s.push(self.accruals@[i as int]));
            }
            total = total + self.accruals[i];
            i = i + 1;
        }
        assert(self.accruals@.subrange(0, i as int) =~= self.accruals@);
        total
    }

    /// Accrues interest on `outstanding_principal` over the next sub-period and
    /// moves the cursor past it.
    pub fn record_accrual(&mut self, outstanding_principal: UsdCents) -> (r: InterestAccrualData)
        requires
            old(self).wf(),
            old(self).spec_next_accrual_period() is Some,
            outstanding_principal <= MAX_USD_CENTS,
        ensures
            accrual_step(*old(self), *final(self), outstanding_principal, r),
    {
        let period = self.next_accrual_period().unwrap();
        let interest = interest_for(
            outstanding_principal,
            self.annual_rate_bps,
            period.end - period.start,
        );
        let ghost len = self.accruals@.len();
        proof {
            assert(self.start + len * self.accrual_interval < self.end);
            assert(self.start + (len + 1) * self.accrual_interval == self.start + len
                * self.accrual_interval + self.accrual_interval) by (nonlinear_arith);
        }
        self.accruals.push(interest);
        self.accrued_until = period.end;
        InterestAccrualData { interest, period }
    }

    /// Marks the cycle as posted.
    pub fn record_posted(&mut self)
        ensures
            *final(self) == (InterestAccrualCycle { posted: true, ..*old(self) }),
    {
        self.posted = true;
    }

    /// The cycle accrues at most `periods_in_cycle` sub-periods, and is complete
    /// exactly when it has accrued all of them.
    pub proof fn lemma_accrual_count_bounded(&self)
        requires
            self.wf(),
        ensures
            self.accruals@.len() <= self.periods_in_cycle(),
            self.periods_in_cycle() <= MAX_PERIODS_PER_CYCLE,
            self.spec_is_completed() <==> self.accruals@.len() == self.periods_in_cycle(),
    {
        let n = self.accruals@.len() as int;
        let d = (self.end - self.start) as int;
        let iv = self.accrual_interval as int;
        let p = self.periods_in_cycle();
        assert(p == (d + iv - 1) / iv);
        assert(n == 0 || (n - 1) * iv < d) by (nonlinear_arith)
            requires
                n == 0 || self.start + (n - 1) * iv < self.end,
                d == self.end - self.start,
        ;
        assert(n <= p) by (nonlinear_arith)
            requires
                n == 0 || (n - 1) * iv < d,
                iv > 0,
                d >= 0,
                p == (d + iv - 1) / iv,
        ;
        if self.spec_is_completed() {
            assert(n * iv >= d) by (nonlinear_arith)
                requires
                    self.accrued_until >= self.end,
                    self.accrued_until == if self.start + n * iv <= self.end {
                        self.start + n * iv
                    } else {
                        self.end as int
                    },
                    d == self.end - self.start,
            ;
            assert(n >= p) by (nonlinear_arith)
                requires
                    n * iv >= d,
                    iv > 0,
                    d >= 0,
                    p == (d + iv - 1) / iv,
            ;
        } else {
            assert(n * iv < d) by (nonlinear_arith)
                requires
                    self.accrued_until < self.end,
                    self.accrued_until == if self.start + n * iv <= self.end {
                        self.start + n * iv
                    } else {
                        self.end as int
                    },
                    d == self.end - self.start,
            ;
            assert(n < p) by (nonlinear_arith)
                requires
                    n * iv < d,
                    iv > 0,
                    n >= 0,
                    p == (d + iv - 1) / iv,
            ;
        }
    }
}

/// One call of `record_accrual` took the cycle from `before` to `after` and
/// returned `data`.
pub open spec fn accrual_step(
    before: InterestAccrualCycle,
    after: InterestAccrualCycle,
    principal: UsdCents,
    data: InterestAccrualData,
) -> bool {
    &&& before.spec_next_accrual_period() == Some(data.period)
    &&& data.interest == interest_for_period(
        principal as int,
        before.annual_rate_bps as int,
        data.period.end - data.period.start,
    )
    &&& after.wf()
    &&& after.accruals@ == before.accruals@.push(data.interest)
    &&& after.accrued_until == data.period.end
    &&& after == (InterestAccrualCycle {
        accruals: after.accruals,
        accrued_until: after.accrued_until,
        ..before
    })
}

/// Sum of the interest of a sequence of accruals.
pub open spec fn sum_of_interest(ds: Seq<InterestAccrualData>) -> int
    decreases ds.len(),
{
    if ds.len() == 0 {
        0
    } else {
        sum_of_interest(ds.drop_last()) + ds.last().interest
    }
}

/// Accrual conservation: over a run of `record_accrual` calls that starts on a
/// fresh cycle and leaves it complete, the interest returned by the calls adds
/// up to the cycle's total, and the run has exactly as many calls as the cycle
/// has sub-periods.
pub proof fn lemma_accrual_conservation(
    cycles: Seq<InterestAccrualCycle>,
    principals: Seq<UsdCents>,
    data: Seq<InterestAccrualData>,
)
    requires
        cycles.len() == data.len() + 1,
        principals.len() == data.len(),
        cycles[0].wf(),
        cycles[0].accruals@.len() == 0,
        forall|i: int|
            0 <= i < data.len() ==> #[trigger] accrual_step(
                cycles[i],
                cycles[i + 1],
                principals[i],
                data[i],
            ),
        cycles.last().spec_is_completed(),
    ensures
        sum_of_interest(data) == cycles.last().spec_total_accrued(),
        data.len() == cycles[0].periods_in_cycle(),
{
    lemma_accrual_run(cycles, principals, data);
    cycles.last().lemma_accrual_count_bounded();
}

proof fn lemma_accrual_run(
    cycles: Seq<InterestAccrualCycle>,
    principals: Seq<UsdCents>,
    data: Seq<InterestAccrualData>,
)
    requires
        cycles.len() == data.len() + 1,
        principals.len() == data.len(),
        cycles[0].wf(),
        cycles[0].accruals@.len() == 0,
        forall|i: int|
            0 <= i < data.len() ==> #[trigger] accrual_step(
                cycles[i],
                cycles[i + 1],
                principals[i],
                data[i],
            ),
    ensures
        sum_of_interest(data) == cycles.last().spec_total_accrued(),
        cycles.last().accruals@.len() == data.len(),
        cycles.last().wf(),
        cycles.last().periods_in_cycle() == cycles[0].periods_in_cycle(),
    decreases data.len(),
{
    if data.len() == 0 {
        assert(cycles.last() == cycles[0]);
    } else {
        let n = data.len() - 1;
        lemma_accrual_run(cycles.drop_last(), principals.drop_last(), data.drop_last());
        assert(accrual_step(cycles[n], cycles[n + 1], principals[n], data[n]));
        assert(cycles.drop_last().last() == cycles[n]);
        lemma_sum_push(cycles[n].accruals@, data[n].interest);
    }
}

} // verus!
