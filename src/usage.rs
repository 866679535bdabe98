//! The charge of one billing period: the prorated plan price plus the
//! charge for usage beyond what the plan includes.
use vstd::prelude::*;

use crate::date::{days_in_month, month_length};
use crate::error::BillingError;
use crate::period::BillingPeriod;
use crate::pricing::{OrganizationPricing, OrganizationPricingTier};

verus! {

/// Quantities bought on top of the plan's included limits.
#[derive(Debug, Clone, Copy, PartialEq, Eq, Structural)]
pub struct OrganizationPricingAdditions {
    pub branches: usize,
    pub users: usize,
    pub cash_registers: usize,
    pub clients: usize,
    pub warehouse: usize,
}

impl OrganizationPricingAdditions {
    /// No additions at all.
    pub fn none() -> (r: OrganizationPricingAdditions)
        ensures
            r.branches == 0 && r.users == 0 && r.cash_registers == 0 && r.clients == 0
                && r.warehouse == 0,
    {
        OrganizationPricingAdditions { branches: 0, users: 0, cash_registers: 0, clients: 0, warehouse: 0 }
    }
}

/// What an organization actually uses, per metered dimension.
#[derive(Debug, Clone, Copy, PartialEq, Eq, Structural)]
pub struct UsageCounts {
    pub branches: usize,
    pub users: usize,
    pub cash_registers: usize,
    pub clients: usize,
    pub warehouse: usize,
}

/// Prices, in hundredths of the currency unit, of one unit of each metered
/// dimension per billing period. `version` names the rate table in force.
#[derive(Debug, Clone, Copy, PartialEq, Eq, Structural)]
pub struct OverageRates {
    pub version: u32,
    pub branch: u64,
    pub user: u64,
    pub cash_register: u64,
    pub client: u64,
    pub warehouse: u64,
}

/// One usage row of an invoice: the charge of one billing period, in
/// hundredths of the currency unit.
#[derive(Debug, Clone, Copy, PartialEq, Eq, Structural)]
pub struct OrganizationUsage {
    pub billing_period: BillingPeriod,
    pub plan: OrganizationPricingTier,
    pub base_charge: u64,
    pub additional_usage_charges: u64,
}

/// How far `actual` goes beyond `included`.
pub open spec fn overage(actual: int, included: int) -> int {
    if actual > included { actual - included } else { 0 }
}

/// The charge of one dimension: overage plus purchased quantity, at `rate`.
pub open spec fn dimension_charge(actual: int, included: int, added: int, rate: int) -> int {
    (overage(actual, included) + added) * rate
}

/// The additional-usage charge of a period.
pub open spec fn additional_charge(
    plan: OrganizationPricing,
    add: OrganizationPricingAdditions,
    used: UsageCounts,
    rates: OverageRates,
) -> int {
    dimension_charge(used.branches as int, plan.branches as int, add.branches as int, rates.branch as int)
        + dimension_charge(used.users as int, plan.users as int, add.users as int, rates.user as int)
        + dimension_charge(
        used.cash_registers as int,
        plan.cash_registers as int,
        add.cash_registers as int,
        rates.cash_register as int,
    ) + dimension_charge(used.clients as int, plan.clients as int, add.clients as int, rates.client as int)
        + dimension_charge(
        used.warehouse as int,
        plan.warehouse as int,
        add.warehouse as int,
        rates.warehouse as int,
    )
}

/// Usage beyond a plan maximum (users or branches) that no addition covers.
pub open spec fn policy_violation(
    plan: OrganizationPricing,
    add: OrganizationPricingAdditions,
    used: UsageCounts,
) -> bool {
    ||| (plan.max_users matches Some(m) && used.users > m + add.users)
    ||| (plan.max_branches matches Some(m) && used.branches > m + add.branches)
}

/// The number of days of a period (its end excluded).
pub open spec fn period_days(p: BillingPeriod) -> int {
    if p.end.year == p.start.year && p.end.month == p.start.month {
        p.end.day - p.start.day
    } else {
        days_in_month(p.start.year as int, p.start.month as int) - p.start.day + 1
    }
}

/// `price` (whole currency units) for `days` of a month of `month_days`
/// days, in hundredths, rounded half up.
pub open spec fn prorated(price: int, days: int, month_days: int) -> int {
    (200 * price * days + month_days) / (2 * month_days)
}

/// The base charge of a period under `plan`, in hundredths.
pub open spec fn base_charge(p: BillingPeriod, plan: OrganizationPricing) -> int {
    prorated(
        plan.price as int,
        period_days(p),
        days_in_month(p.start.year as int, p.start.month as int),
    )
}

/// Whether `used` lies beyond a plan maximum that `add` does not cover.
pub fn violates_policy(
    plan: &OrganizationPricing,
    add: &OrganizationPricingAdditions,
    used: &UsageCounts,
) -> (r: bool)
    ensures
        r == policy_violation(*plan, *add, *used),
{
    let users_over = match plan.max_users {
        Some(m) => used.users as u128 > m as u128 + add.users as u128,
        None => false,
    };
    let branches_over = match plan.max_branches {
        Some(m) => used.branches as u128 > m as u128 + add.branches as u128,
        None => false,
    };
    users_over || branches_over
}

/// The charge of one dimension, where it fits in a `u64`.
pub fn charge_dimension(actual: usize, included: usize, added: usize, rate: u64) -> (r: Option<u64>)
    ensures
        r matches Some(v) ==> v == dimension_charge(actual as int, included as int, added as int, rate as int),
        r is None <==> dimension_charge(actual as int, included as int, added as int, rate as int)
            > u64::MAX,
{
    if rate == 0 {
        return Some(0);
    }
    let over: u64 = if actual > included { (actual - included) as u64 } else { 0 };
    match over.checked_add(added as u64) {
        None => {
            proof {
                let q = over as int + added as int;
                assert(q * (rate as int) >= q) by (nonlinear_arith)
                    requires rate >= 1, q >= 0;
            }
            None
        },
        Some(q) => q.checked_mul(rate),
    }
}

/// An amount that stands for `v`: present exactly when `v` fits in a `u64`.
pub open spec fn represents(a: Option<u64>, v: int) -> bool {
    &&& a matches Some(x) ==> x == v
    &&& a is None <==> v > u64::MAX
}

fn add_amounts(a: Option<u64>, b: Option<u64>, Ghost(av): Ghost<int>, Ghost(bv): Ghost<int>) -> (r: Option<u64>)
    requires
        av >= 0,
        bv >= 0,
        represents(a, av),
        represents(b, bv),
    ensures
        represents(r, av + bv),
{
    match (a, b) {
        (Some(x), Some(y)) => x.checked_add(y),
        _ => None,
    }
}

/// The additional-usage charge, where it fits in a `u64`.
pub fn additional_usage_charge(
    plan: &OrganizationPricing,
    add: &OrganizationPricingAdditions,
    used: &UsageCounts,
    rates: &OverageRates,
) -> (r: Option<u64>)
    ensures
        represents(r, additional_charge(*plan, *add, *used, *rates)),
{
    let ghost c1 = dimension_charge(used.branches as int, plan.branches as int, add.branches as int, rates.branch as int);
    let ghost c2 = dimension_charge(used.users as int, plan.users as int, add.users as int, rates.user as int);
    let ghost c3 = dimension_charge(used.cash_registers as int, plan.cash_registers as int, add.cash_registers as int, rates.cash_register as int);
    let ghost c4 = dimension_charge(used.clients as int, plan.clients as int, add.clients as int, rates.client as int);
    let ghost c5 = dimension_charge(used.warehouse as int, plan.warehouse as int, add.warehouse as int, rates.warehouse as int);
    proof {
        lemma_dimension_charge_nonneg(used.branches as int, plan.branches as int, add.branches as int, rates.branch as int);
        lemma_dimension_charge_nonneg(used.users as int, plan.users as int, add.users as int, rates.user as int);
        lemma_dimension_charge_nonneg(used.cash_registers as int, plan.cash_registers as int, add.cash_registers as int, rates.cash_register as int);
        lemma_dimension_charge_nonneg(used.clients as int, plan.clients as int, add.clients as int, rates.client as int);
        lemma_dimension_charge_nonneg(used.warehouse as int, plan.warehouse as int, add.warehouse as int, rates.warehouse as int);
    }
    let a1 = charge_dimension(used.branches, plan.branches, add.branches, rates.branch);
    let a2 = charge_dimension(used.users, plan.users, add.users, rates.user);
    let a3 = charge_dimension(used.cash_registers, plan.cash_registers, add.cash_registers, rates.cash_register);
    let a4 = charge_dimension(used.clients, plan.clients, add.clients, rates.client);
    let a5 = charge_dimension(used.warehouse, plan.warehouse, add.warehouse, rates.warehouse);
    let s12 = add_amounts(a1, a2, Ghost(c1), Ghost(c2));
    let s123 = add_amounts(s12, a3, Ghost(c1 + c2), Ghost(c3));
    let s1234 = add_amounts(s123, a4, Ghost(c1 + c2 + c3), Ghost(c4));
    add_amounts(s1234, a5, Ghost(c1 + c2 + c3 + c4), Ghost(c5))
}

pub proof fn lemma_dimension_charge_nonneg(actual: int, included: int, added: int, rate: int)
    requires
        added >= 0,
        rate >= 0,
    ensures
        dimension_charge(actual, included, added, rate) >= 0,
{
    assert((overage(actual, included) + added) * rate >= 0) by (nonlinear_arith)
        requires overage(actual, included) + added >= 0, rate >= 0;
}

/// Charges are never negative.
pub proof fn lemma_charges_nonneg(
    p: BillingPeriod,
    plan: OrganizationPricing,
    add: OrganizationPricingAdditions,
    used: UsageCounts,
    rates: OverageRates,
)
    requires
        p.wf(),
    ensures
        base_charge(p, plan) >= 0,
        additional_charge(plan, add, used, rates) >= 0,
{
    lemma_dimension_charge_nonneg(used.branches as int, plan.branches as int, add.branches as int, rates.branch as int);
    lemma_dimension_charge_nonneg(used.users as int, plan.users as int, add.users as int, rates.user as int);
    lemma_dimension_charge_nonneg(used.cash_registers as int, plan.cash_registers as int, add.cash_registers as int, rates.cash_register as int);
    lemma_dimension_charge_nonneg(used.clients as int, plan.clients as int, add.clients as int, rates.client as int);
    lemma_dimension_charge_nonneg(used.warehouse as int, plan.warehouse as int, add.warehouse as int, rates.warehouse as int);
    let price = plan.price as int;
    let days = period_days(p);
    let md = days_in_month(p.start.year as int, p.start.month as int);
    assert(days >= 1);
    assert((200 * price * days + md) / (2 * md) >= 0) by (nonlinear_arith)
        requires price >= 0, days >= 1, md >= 28;
}

/// The prorated base charge of a period, where it fits in a `u64`.
pub fn period_base_charge(p: &BillingPeriod, plan: &OrganizationPricing) -> (r: Option<u64>)
    requires
        p.wf(),
    ensures
        represents(r, base_charge(*p, *plan)),
{
    let month_days = month_length(p.start.year, p.start.month);
    let days: u32 = if p.end.year == p.start.year && p.end.month == p.start.month {
        p.end.day - p.start.day
    } else {
        month_days - p.start.day + 1
    };
    let price = plan.price as u128;
    assert(days as int == period_days(*p) && 1 <= days <= 31);
    assert(200 * price * days <= 200 * 0xffff_ffff_ffff_ffffu128 * 31) by (nonlinear_arith)
        requires price <= 0xffff_ffff_ffff_ffffu128, days <= 31;
    let num: u128 = 200 * price * days as u128 + month_days as u128;
    let den: u128 = 2 * month_days as u128;
    let q = num / den;
    if q > u64::MAX as u128 {
        None
    } else {
        Some(q as u64)
    }
}

/// The usage row of period `p` under `plan`, with purchased `add` and actual
/// usage `used`. Usage beyond a plan maximum that no addition covers is a
/// policy violation; an amount too large for a `u64` is an internal error.
pub fn charge(
    p: &BillingPeriod,
    plan: &OrganizationPricing,
    add: &OrganizationPricingAdditions,
    used: &UsageCounts,
    rates: &OverageRates,
) -> (r: Result<OrganizationUsage, BillingError>)
    requires
        p.wf(),
    ensures
        policy_violation(*plan, *add, *used) ==> r == Err::<OrganizationUsage, BillingError>(
            BillingError::PolicyViolation,
        ),
        !policy_violation(*plan, *add, *used) && (base_charge(*p, *plan) > u64::MAX
            || additional_charge(*plan, *add, *used, *rates) > u64::MAX) ==> r == Err::<
            OrganizationUsage,
            BillingError,
        >(BillingError::Internal),
        r matches Ok(u) ==> u.billing_period == *p && u.plan == plan.tier && u.base_charge
            == base_charge(*p, *plan) && u.additional_usage_charges == additional_charge(
            *plan,
            *add,
            *used,
            *rates,
        ),
        r is Ok <==> !policy_violation(*plan, *add, *used) && base_charge(*p, *plan) <= u64::MAX
            && additional_charge(*plan, *add, *used, *rates) <= u64::MAX,
{
    if violates_policy(plan, add, used) {
        return Err(BillingError::PolicyViolation);
    }
    match (period_base_charge(p, plan), additional_usage_charge(plan, add, used, rates)) {
        (Some(base), Some(extra)) => Ok(
            OrganizationUsage {
                billing_period: *p,
                plan: plan.tier,
                base_charge: base,
                additional_usage_charges: extra,
            },
        ),
        _ => Err(BillingError::Internal),
    }
}

/// More usage in any dimension never lowers the additional-usage charge.
pub proof fn lemma_charge_monotonic(
    plan: OrganizationPricing,
    add: OrganizationPricingAdditions,
    lo: UsageCounts,
    hi: UsageCounts,
    rates: OverageRates,
)
    requires
        lo.branches <= hi.branches,
        lo.users <= hi.users,
        lo.cash_registers <= hi.cash_registers,
        lo.clients <= hi.clients,
        lo.warehouse <= hi.warehouse,
    ensures
        additional_charge(plan, add, lo, rates) <= additional_charge(plan, add, hi, rates),
{
    lemma_dimension_monotonic(lo.branches as int, hi.branches as int, plan.branches as int, add.branches as int, rates.branch as int);
    lemma_dimension_monotonic(lo.users as int, hi.users as int, plan.users as int, add.users as int, rates.user as int);
    lemma_dimension_monotonic(lo.cash_registers as int, hi.cash_registers as int, plan.cash_registers as int, add.cash_registers as int, rates.cash_register as int);
    lemma_dimension_monotonic(lo.clients as int, hi.clients as int, plan.clients as int, add.clients as int, rates.client as int);
    lemma_dimension_monotonic(lo.warehouse as int, hi.warehouse as int, plan.warehouse as int, add.warehouse as int, rates.warehouse as int);
}

proof fn lemma_dimension_monotonic(lo: int, hi: int, included: int, added: int, rate: int)
    requires
        lo <= hi,
        rate >= 0,
    ensures
        dimension_charge(lo, included, added, rate) <= dimension_charge(hi, included, added, rate),
{
    let a = overage(lo, included) + added;
    let b = overage(hi, included) + added;
    assert(a * rate <= b * rate) by (nonlinear_arith)
        requires a <= b, rate >= 0;
}

} // verus!
