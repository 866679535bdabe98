//! Invoices: their amounts, the finalize transition, and the invoice of one
//! run for one organization.
use vstd::prelude::*;

use crate::date::Date;
use crate::error::BillingError;
use crate::period::BillingPeriod;
use crate::pricing::OrganizationPricing;
use crate::usage::{
    additional_charge, base_charge, charge, lemma_charges_nonneg, policy_violation, violates_policy, OrganizationPricingAdditions,
    OrganizationUsage, OverageRates, UsageCounts,
};

verus! {

/// The flat tax ratio, in percent.
pub const TAX_RATIO_PERCENT: u64 = 18;

/// Whether an invoice has been paid.
#[derive(Debug, Clone, Copy, PartialEq, Eq, Structural)]
pub enum PaidStatus {
    Paid,
    Unpaid,
}

impl PaidStatus {
    /// The status as stored (`PAID`, `UNPAID`).
    pub fn to_string(&self) -> (r: String)
        ensures
            *self == PaidStatus::Paid ==> r@ == "PAID"@,
            *self == PaidStatus::Unpaid ==> r@ == "UNPAID"@,
    {
        match self {
            PaidStatus::Paid => String::from_str("PAID"),
            PaidStatus::Unpaid => String::from_str("UNPAID"),
        }
    }
}

/// An invoice of one organization. Amounts are in hundredths of the currency
/// unit; `date` is the end of the last billed period; instants are
/// milliseconds since the Unix epoch.
#[derive(Debug, Clone)]
pub struct Invoice {
    pub id: String,
    pub invoice_no: u64,
    pub date: Date,
    pub billed_to: String,
    pub organization: String,
    pub organization_usage: Vec<OrganizationUsage>,
    pub service_value: u64,
    pub tax_ratio: u64,
    pub tax_value: u64,
    pub total_value: u64,
    pub rounded_value: u64,
    pub draft: bool,
    pub paid_status: PaidStatus,
    pub created_at: i64,
    pub updated_at: i64,
}

/// The tax on `service`, rounded half up to a hundredth.
pub open spec fn tax_of(service: int) -> int {
    (service * TAX_RATIO_PERCENT + 50) / 100
}

/// `service` with tax, rounded half up to a hundredth.
pub open spec fn taxed_total(service: int) -> int {
    (service * (100 + TAX_RATIO_PERCENT) + 50) / 100
}

/// The cost of one period: base charge plus additional-usage charge.
pub open spec fn period_cost(
    p: BillingPeriod,
    plan: OrganizationPricing,
    add: OrganizationPricingAdditions,
    used: UsageCounts,
    rates: OverageRates,
) -> int {
    base_charge(p, plan) + additional_charge(plan, add, used, rates)
}

/// The summed cost of a sequence of periods.
pub open spec fn periods_total(
    ps: Seq<BillingPeriod>,
    plan: OrganizationPricing,
    add: OrganizationPricingAdditions,
    used: UsageCounts,
    rates: OverageRates,
) -> int
    decreases ps.len(),
{
    if ps.len() == 0 {
        0
    } else {
        periods_total(ps.drop_last(), plan, add, used, rates) + period_cost(
            ps.last(),
            plan,
            add,
            used,
            rates,
        )
    }
}

/// Every amount of an invoice over periods `ps` fits in a `u64`.
pub open spec fn amounts_fit(
    ps: Seq<BillingPeriod>,
    plan: OrganizationPricing,
    add: OrganizationPricingAdditions,
    used: UsageCounts,
    rates: OverageRates,
) -> bool {
    &&& forall|i: int| 0 <= i < ps.len() ==> base_charge(#[trigger] ps[i], plan) <= u64::MAX
    &&& additional_charge(plan, add, used, rates) <= u64::MAX
    &&& periods_total(ps, plan, add, used, rates) <= u64::MAX
    &&& taxed_total(periods_total(ps, plan, add, used, rates)) <= u64::MAX
}

/// The usage rows `lines` charge exactly the periods `ps`.
pub open spec fn lines_charge(
    lines: Seq<OrganizationUsage>,
    ps: Seq<BillingPeriod>,
    plan: OrganizationPricing,
    add: OrganizationPricingAdditions,
    used: UsageCounts,
    rates: OverageRates,
) -> bool {
    &&& lines.len() == ps.len()
    &&& forall|i: int|
        0 <= i < lines.len() ==> (#[trigger] lines[i]).billing_period == ps[i] && lines[i].plan
            == plan.tier && lines[i].base_charge == base_charge(ps[i], plan)
            && lines[i].additional_usage_charges == additional_charge(plan, add, used, rates)
}

/// The billing periods of a sequence of usage rows.
pub open spec fn periods_of(lines: Seq<OrganizationUsage>) -> Seq<BillingPeriod> {
    lines.map_values(|l: OrganizationUsage| l.billing_period)
}

/// The invoice `inv`, freshly issued for organization `org_name` at `now`,
/// charges the periods `ps` and holds the amounts that follow from them.
pub open spec fn issued_for(
    inv: Invoice,
    ps: Seq<BillingPeriod>,
    plan: OrganizationPricing,
    add: OrganizationPricingAdditions,
    used: UsageCounts,
    rates: OverageRates,
    now: Date,
) -> bool {
    &&& lines_charge(inv.organization_usage@, ps, plan, add, used, rates)
    &&& inv.service_value == periods_total(ps, plan, add, used, rates)
    &&& inv.tax_ratio == TAX_RATIO_PERCENT
    &&& inv.tax_value == tax_of(inv.service_value as int)
    &&& inv.total_value == inv.service_value + inv.tax_value
    &&& inv.rounded_value == inv.total_value
    &&& inv.date == now
    &&& inv.draft
    &&& inv.paid_status == PaidStatus::Unpaid
}

/// `b` is `a` with the draft flag possibly changed: every other field,
/// monetary ones included, is identical.
pub open spec fn same_but_draft(a: Invoice, b: Invoice) -> bool {
    &&& b.id@ == a.id@
    &&& b.invoice_no == a.invoice_no
    &&& b.date == a.date
    &&& b.billed_to@ == a.billed_to@
    &&& b.organization@ == a.organization@
    &&& b.organization_usage@ == a.organization_usage@
    &&& b.service_value == a.service_value
    &&& b.tax_ratio == a.tax_ratio
    &&& b.tax_value == a.tax_value
    &&& b.total_value == a.total_value
    &&& b.rounded_value == a.rounded_value
    &&& b.paid_status == a.paid_status
    &&& b.created_at == a.created_at
    &&& b.updated_at == a.updated_at
}

/// The draft flag after the finalize pass: a draft with a positive total
/// is finalized; anything else keeps its flag.
pub open spec fn draft_after_finalize(inv: Invoice) -> bool {
    inv.draft && inv.total_value == 0
}

impl Invoice {
    /// The finalize pass: a draft whose total is positive stops being a
    /// draft. Nothing else changes.
    pub fn finalized(self) -> (r: Invoice)
        ensures
            same_but_draft(self, r),
            r.draft == draft_after_finalize(self),
    {
        let mut inv = self;
        if inv.draft && inv.total_value > 0 {
            inv.draft = false;
        }
        inv
    }
}

/// The tax and the taxed total of a service value are consistent: the
/// total is the service value plus its tax, and equals the service value
/// with tax, rounded to a hundredth.
pub proof fn lemma_tax_arithmetic(service: int)
    requires
        service >= 0,
    ensures
        service + tax_of(service) == taxed_total(service),
{
    let x = service * 18 + 50;
    assert(service * 118 + 50 == 100 * service + x);
    assert((100 * service + x) / 100 == service + x / 100) by (nonlinear_arith)
        requires x >= 0;
}

proof fn lemma_total_of_prefix(
    ps: Seq<BillingPeriod>,
    k: int,
    plan: OrganizationPricing,
    add: OrganizationPricingAdditions,
    used: UsageCounts,
    rates: OverageRates,
)
    requires
        0 <= k <= ps.len(),
        forall|i: int| 0 <= i < ps.len() ==> (#[trigger] ps[i]).wf(),
    ensures
        0 <= periods_total(ps.take(k), plan, add, used, rates) <= periods_total(ps, plan, add, used, rates),
    decreases ps.len(),
{
    if ps.len() > 0 {
        lemma_charges_nonneg(ps.last(), plan, add, used, rates);
        assert(ps.drop_last().len() == ps.len() - 1);
        if k == ps.len() {
            assert(ps.take(k) =~= ps);
            lemma_total_of_prefix(ps.drop_last(), k - 1, plan, add, used, rates);
            assert(ps.drop_last().take(k - 1) =~= ps.drop_last());
        } else {
            lemma_total_of_prefix(ps.drop_last(), k, plan, add, used, rates);
            assert(ps.drop_last().take(k) =~= ps.take(k));
        }
    }
}

/// The identity and audit fields that a new invoice is given.
#[derive(Debug, Clone)]
pub struct NewInvoiceKey {
    pub id: String,
    pub invoice_no: u64,
    pub created_at: i64,
}

/// The draft invoice, dated `now`, that charges the periods `ps` to the
/// organization named `organization` (billed to `billed_to`).
pub fn invoice_for_periods(
    ps: &Vec<BillingPeriod>,
    plan: &OrganizationPricing,
    add: &OrganizationPricingAdditions,
    used: &UsageCounts,
    rates: &OverageRates,
    now: Date,
    organization: String,
    billed_to: String,
    key: NewInvoiceKey,
) -> (r: Result<Invoice, BillingError>)
    requires
        ps@.len() > 0,
        forall|i: int| 0 <= i < ps@.len() ==> (#[trigger] ps@[i]).wf(),
    ensures
        policy_violation(*plan, *add, *used) ==> r == Err::<Invoice, BillingError>(
            BillingError::PolicyViolation,
        ),
        r is Ok <==> !policy_violation(*plan, *add, *used) && amounts_fit(ps@, *plan, *add, *used, *rates),
        !policy_violation(*plan, *add, *used) && !amounts_fit(ps@, *plan, *add, *used, *rates)
            ==> r == Err::<Invoice, BillingError>(BillingError::Internal),
        r matches Ok(inv) ==> issued_for(inv, ps@, *plan, *add, *used, *rates, now)
            && inv.organization@ == organization@ && inv.billed_to@ == billed_to@
            && inv.id@ == key.id@ && inv.invoice_no == key.invoice_no
            && inv.created_at == key.created_at && inv.updated_at == key.created_at,
{
    if violates_policy(plan, add, used) {
        return Err(BillingError::PolicyViolation);
    }
    let ghost extra = additional_charge(*plan, *add, *used, *rates);
    let mut lines: Vec<OrganizationUsage> = Vec::new();
    let mut service: u64 = 0;
    let mut i: usize = 0;
    while i < ps.len()
        invariant
            0 <= i <= ps@.len(),
            ps@.len() > 0,
            forall|j: int| 0 <= j < ps@.len() ==> (#[trigger] ps@[j]).wf(),
            !policy_violation(*plan, *add, *used),
            i > 0 ==> extra <= u64::MAX,
            forall|j: int| 0 <= j < i ==> base_charge(#[trigger] ps@[j], *plan) <= u64::MAX,
            lines_charge(lines@, ps@.take(i as int), *plan, *add, *used, *rates),
            service == periods_total(ps@.take(i as int), *plan, *add, *used, *rates),
            extra == additional_charge(*plan, *add, *used, *rates),
        decreases ps@.len() - i,
    {
        let line = match charge(&ps[i], plan, add, used, rates) {
            Ok(line) => line,
            Err(e) => {
                return Err(e);
            },
        };
        proof {
            lemma_charges_nonneg(ps@[i as int], *plan, *add, *used, *rates);
            assert(ps@.take(i as int + 1).drop_last() =~= ps@.take(i as int));
            lemma_total_of_prefix(ps@, i as int + 1, *plan, *add, *used, *rates);
        }
        let sum = match service.checked_add(line.base_charge) {
            Some(s) => s,
            None => {
                return Err(BillingError::Internal);
            },
        };
        let sum = match sum.checked_add(line.additional_usage_charges) {
            Some(s) => s,
            None => {
                return Err(BillingError::Internal);
            },
        };
        let ghost old_lines = lines@;
        lines.push(line);
        proof {
            assert(forall|j: int| 0 <= j < i ==> lines@[j] == old_lines[j]);
            assert(forall|j: int| 0 <= j <= i ==> ps@.take(i as int + 1)[j] == ps@[j]);
        }
        service = sum;
        i = i + 1;
    }
    proof {
        assert(ps@.take(i as int) =~= ps@);
        lemma_tax_arithmetic(service as int);
    }
    let tax_wide: u128 = (service as u128 * 18 + 50) / 100;
    let total_wide: u128 = service as u128 + tax_wide;
    if total_wide > u64::MAX as u128 {
        return Err(BillingError::Internal);
    }
    let tax = tax_wide as u64;
    let total = total_wide as u64;
    Ok(
        Invoice {
            id: key.id,
            invoice_no: key.invoice_no,
            date: now,
            billed_to,
            organization,
            organization_usage: lines,
            service_value: service,
            tax_ratio: TAX_RATIO_PERCENT,
            tax_value: tax,
            total_value: total,
            rounded_value: total,
            draft: true,
            paid_status: PaidStatus::Unpaid,
            created_at: key.created_at,
            updated_at: key.created_at,
        },
    )
}

} // verus!
