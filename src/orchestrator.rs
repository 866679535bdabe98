//! One invoicing run for one organization: the finalize pass over its latest
//! invoice, then the draft invoice of the window that is not invoiced yet.
//! Reading and writing the store is left to the caller.
use vstd::prelude::*;

use crate::date::Date;
use crate::error::BillingError;
use crate::invoice::{
    draft_after_finalize, invoice_for_periods, issued_for, lemma_tax_arithmetic, amounts_fit,
    same_but_draft, taxed_total, Invoice, NewInvoiceKey,
};
use crate::organization::{billable, Organization};
use crate::period::{month_periods, split, tiles, BillingPeriod};
use crate::pricing::OrganizationPricing;
use crate::usage::{policy_violation, OrganizationPricingAdditions, OverageRates, UsageCounts};

verus! {

/// The additions of an organization; none at all where it has bought none.
pub open spec fn additions_of(org: Organization) -> OrganizationPricingAdditions {
    match org.additions {
        Some(a) => a,
        None => OrganizationPricingAdditions {
            branches: 0,
            users: 0,
            cash_registers: 0,
            clients: 0,
            warehouse: 0,
        },
    }
}

/// Where the window not yet invoiced starts: the date of the latest invoice,
/// or the organization's book begin where it has none.
pub open spec fn window_from(org: Organization, latest: Option<Invoice>) -> Date {
    match latest {
        Some(inv) => inv.date,
        None => org.book_begin,
    }
}

/// The finalize pass over the latest invoice of an organization.
pub fn finalize_latest(latest: Option<Invoice>) -> (r: Option<Invoice>)
    ensures
        r is Some <==> latest is Some,
        r matches Some(after) ==> same_but_draft(latest->0, after) && after.draft
            == draft_after_finalize(latest->0),
{
    match latest {
        Some(inv) => Some(inv.finalized()),
        None => None,
    }
}

/// The first day of the window not yet invoiced.
pub fn window_start(org: &Organization, latest: &Option<Invoice>) -> (r: Date)
    ensures
        r == window_from(*org, *latest),
{
    match latest {
        Some(inv) => inv.date,
        None => org.book_begin,
    }
}

/// The new draft invoice of organization `org` for a run at `now`, charged
/// under `plan` (the catalog plan of its tier) for usage `used`; `latest` is
/// its most recent invoice. `None` where the organization is exempt or
/// inactive, or where nothing lies between the window start and `now`.
pub fn next_invoice(
    org: &Organization,
    latest: &Option<Invoice>,
    plan: &OrganizationPricing,
    now: Date,
    used: &UsageCounts,
    rates: &OverageRates,
    key: NewInvoiceKey,
) -> (r: Result<Option<Invoice>, BillingError>)
    ensures
        !billable(*org) ==> r == Ok::<Option<Invoice>, BillingError>(None),
        billable(*org) && !(window_from(*org, *latest).wf() && now.wf()) ==> r == Err::<
            Option<Invoice>,
            BillingError,
        >(BillingError::DataIntegrity),
        billable(*org) && window_from(*org, *latest).wf() && now.wf() && window_from(
            *org,
            *latest,
        ).key() >= now.key() ==> r == Ok::<Option<Invoice>, BillingError>(None),
        ({
            let from = window_from(*org, *latest);
            let ps = month_periods(from, now);
            let add = additions_of(*org);
            billable(*org) && from.wf() && now.wf() && from.key() < now.key() ==> {
                &&& policy_violation(*plan, add, *used) ==> r == Err::<Option<Invoice>, BillingError>(
                    BillingError::PolicyViolation,
                )
                &&& !policy_violation(*plan, add, *used) && !amounts_fit(ps, *plan, add, *used, *rates)
                    ==> r == Err::<Option<Invoice>, BillingError>(BillingError::Internal)
                &&& r is Ok <==> !policy_violation(*plan, add, *used) && amounts_fit(
                    ps,
                    *plan,
                    add,
                    *used,
                    *rates,
                )
                &&& r matches Ok(x) ==> x is Some
                &&& r matches Ok(Some(inv)) ==> {
                    &&& issued_for(inv, ps, *plan, add, *used, *rates, now)
                    &&& tiles(ps, from, now)
                    &&& inv.date.key() > from.key()
                    &&& inv.organization@ == org.name@
                    &&& inv.billed_to@ == org.full_name@
                    &&& inv.id@ == key.id@
                    &&& inv.invoice_no == key.invoice_no
                }
            }
        }),
{
    if !org.is_billable() {
        return Ok(None);
    }
    let from = window_start(org, latest);
    if !from.is_valid() || !now.is_valid() {
        return Err(BillingError::DataIntegrity);
    }
    if !from.is_before(&now) {
        return Ok(None);
    }
    let add = match org.additions {
        Some(a) => a,
        None => OrganizationPricingAdditions::none(),
    };
    let ps = split(from, now);
    match invoice_for_periods(
        &ps,
        plan,
        &add,
        used,
        rates,
        now,
        org.name.clone(),
        org.full_name.clone(),
        key,
    ) {
        Ok(inv) => Ok(Some(inv)),
        Err(e) => Err(e),
    }
}

/// The usage that an organization record shows: its user list. The other
/// metered dimensions are not recorded on it and count as zero.
pub fn observed_usage(org: &Organization) -> (r: UsageCounts)
    ensures
        r.users == org.users@.len(),
        r.branches == 0 && r.cash_registers == 0 && r.clients == 0 && r.warehouse == 0,
{
    UsageCounts { branches: 0, users: org.users.len(), cash_registers: 0, clients: 0, warehouse: 0 }
}

/// The sequence number of the invoice that follows `latest`: one more than
/// its number (saturating), or 1 where there is none.
pub fn next_invoice_no(latest: &Option<Invoice>) -> (r: u64)
    ensures
        latest is None ==> r == 1,
        latest matches Some(inv) ==> r == if inv.invoice_no == u64::MAX {
            u64::MAX as int
        } else {
            inv.invoice_no + 1
        },
{
    match latest {
        Some(inv) => inv.invoice_no.saturating_add(1),
        None => 1,
    }
}

/// A second run at the same instant adds nothing: once the invoice that a
/// run at `now` issued is the latest one (after the finalize pass, which
/// keeps its date), the window that is not yet invoiced is empty, so
/// `next_invoice` at `now` returns `Ok(None)`.
pub proof fn lemma_rerun_adds_nothing(
    org: Organization,
    issued: Invoice,
    after: Invoice,
    ps: Seq<BillingPeriod>,
    plan: OrganizationPricing,
    add: OrganizationPricingAdditions,
    used: UsageCounts,
    rates: OverageRates,
    now: Date,
)
    requires
        issued_for(issued, ps, plan, add, used, rates, now),
        same_but_draft(issued, after),
    ensures
        window_from(org, Some(after)) == now,
        !(window_from(org, Some(after)).key() < now.key()),
{
}

/// The invoices of one organization, oldest first, have strictly increasing
/// dates; the date is the end of the billed window.
pub open spec fn dates_increasing(history: Seq<Invoice>) -> bool {
    forall|i: int, j: int|
        0 <= i < j < history.len() ==> (#[trigger] history[i]).date.key() < (#[trigger] history[j]).date.key()
}

/// Appending the invoice that a run issues after the latest one keeps every
/// invoice of the organization on its own billing window: dates stay
/// strictly increasing, so no two invoices share their natural key.
pub proof fn lemma_natural_key_unique(org: Organization, history: Seq<Invoice>, issued: Invoice)
    requires
        dates_increasing(history),
        history.len() > 0 ==> issued.date.key() > window_from(org, Some(history.last())).key(),
    ensures
        dates_increasing(history.push(issued)),
        forall|i: int| 0 <= i < history.len() ==> (#[trigger] history[i]).date != issued.date,
{
    assert forall|i: int, j: int|
        0 <= i < j < history.push(issued).len() implies (#[trigger] history.push(issued)[i]).date.key()
        < (#[trigger] history.push(issued)[j]).date.key() by {
        if j == history.len() {
            if i < history.len() - 1 {
                assert(history[i].date.key() < history[history.len() - 1].date.key());
            }
        } else {
            assert(history[i].date.key() < history[j].date.key());
        }
    }
    assert forall|i: int| 0 <= i < history.len() implies (#[trigger] history[i]).date != issued.date by {
        if i < history.len() - 1 {
            assert(history[i].date.key() < history[history.len() - 1].date.key());
        }
    }
}

/// The finalize pass leaves an invoice that is already final exactly as it
/// was, monetary fields included.
pub proof fn lemma_final_invoice_unchanged(inv: Invoice, after: Invoice)
    requires
        !inv.draft,
        same_but_draft(inv, after),
        after.draft == draft_after_finalize(inv),
    ensures
        same_but_draft(inv, after),
        after.draft == inv.draft,
        after.service_value == inv.service_value,
        after.tax_value == inv.tax_value,
        after.total_value == inv.total_value,
        after.rounded_value == inv.rounded_value,
{
}

/// Every issued invoice's total is its service value with tax, rounded to a
/// hundredth.
pub proof fn lemma_issued_total_taxed(
    inv: Invoice,
    ps: Seq<BillingPeriod>,
    plan: OrganizationPricing,
    add: OrganizationPricingAdditions,
    used: UsageCounts,
    rates: OverageRates,
    now: Date,
)
    requires
        issued_for(inv, ps, plan, add, used, rates, now),
    ensures
        inv.total_value == taxed_total(inv.service_value as int),
        inv.rounded_value == inv.total_value,
{
    lemma_tax_arithmetic(inv.service_value as int);
}

} // verus!
