use invoicing::{
    charge, finalize_latest, next_invoice, split, window_start, BillingError, BillingPeriod,
    Context, Date, Error, ErrorKind, ErrorResponse, Invoice, NewInvoiceKey, Organization,
    OrganizationAddress, OrganizationFeatures, OrganizationPricing, OrganizationPricingAdditions,
    OrganizationPricingTier, OrganizationStatus, OverageRates, PaidStatus, UsageCounts,
    TAX_RATIO_PERCENT,
};

fn d(y: i32, m: u32, day: u32) -> Date {
    Date::new(y, m, day).unwrap()
}

fn rates() -> OverageRates {
    OverageRates { version: 1, branch: 1000, user: 200, cash_register: 300, client: 50, warehouse: 700 }
}

fn no_usage() -> UsageCounts {
    UsageCounts { branches: 0, users: 0, cash_registers: 0, clients: 0, warehouse: 0 }
}

fn org(tier: OrganizationPricingTier, book_begin: Date) -> Organization {
    Organization {
        id: "65a0c0ffee0000000000000a".to_string(),
        name: "acme".to_string(),
        full_name: "Acme Traders".to_string(),
        country: "IN".to_string(),
        gst_no: None,
        book_begin,
        fp_code: 4,
        pricing: tier,
        cluster: "c1".to_string(),
        users: vec![],
        communication_address: OrganizationAddress::with_country("IN".to_string()),
        billing_address: OrganizationAddress::with_country("IN".to_string()),
        grace_period: 7,
        unbilled: false,
        additions: None,
        status: OrganizationStatus::Active,
        fund: 0,
        owned_by: "65a0c0ffee0000000000000b".to_string(),
        created_at: 0,
        updated_at: 0,
    }
}

fn key(no: u64) -> NewInvoiceKey {
    NewInvoiceKey { id: format!("inv{}", no), invoice_no: no, created_at: 1_700_000_000_000 }
}

fn invoice_at(date: Date, total: u64, draft: bool) -> Invoice {
    Invoice {
        id: "inv0".to_string(),
        invoice_no: 0,
        date,
        billed_to: "Acme Traders".to_string(),
        organization: "acme".to_string(),
        organization_usage: vec![],
        service_value: total,
        tax_ratio: TAX_RATIO_PERCENT,
        tax_value: 0,
        total_value: total,
        rounded_value: total,
        draft,
        paid_status: PaidStatus::Unpaid,
        created_at: 0,
        updated_at: 0,
    }
}

#[test]
fn catalog_prices_and_limits() {
    let free = OrganizationPricing::free();
    assert_eq!(free.price, 0);
    assert_eq!(free.max_users, Some(1));
    assert_eq!(free.vouchers, 1200);
    let t3 = OrganizationPricingTier::T3.info();
    assert_eq!(t3.tier, OrganizationPricingTier::T3);
    assert_eq!(t3.price, 2499);
    assert_eq!(t3.max_branches, Some(3));
    assert_eq!(t3.cash_registers, 7);
    let t5 = OrganizationPricing::t5();
    assert_eq!(t5.price, 14999);
    assert_eq!(t5.max_branches, None);
    assert_eq!(t5.users, 100);
    assert_eq!(OrganizationPricing::t1().price, 399);
    assert_eq!(OrganizationPricing::t2().clients, 5);
    assert_eq!(OrganizationPricing::t4().warehouse, 1);
}

#[test]
fn features_are_cumulative() {
    assert!(OrganizationPricingTier::Free.features().is_empty());
    assert!(OrganizationPricingTier::T1.features().is_empty());
    assert_eq!(OrganizationPricingTier::T2.features(), vec![OrganizationFeatures::AccountantAccess]);
    let t4 = OrganizationPricingTier::T4.features();
    assert_eq!(t4.len(), 9);
    assert_eq!(t4[0], OrganizationFeatures::AccountantAccess);
    assert_eq!(t4[8], OrganizationFeatures::Warehouse);
    let t5 = OrganizationPricingTier::T5.features();
    assert_eq!(&t5[..9], &t4[..]);
    assert_eq!(t5[9], OrganizationFeatures::OnlineCustomerAndVendorPortal);
    assert_eq!(t5[10], OrganizationFeatures::MultipleGST);
}

#[test]
fn names_of_enums() {
    assert_eq!(OrganizationPricingTier::Free.to_string(), "FREE");
    assert_eq!(OrganizationPricingTier::T4.to_string(), "T4");
    assert_eq!(OrganizationStatus::Suspended.to_string(), "SUSPENDED");
    assert_eq!(PaidStatus::Unpaid.to_string(), "UNPAID");
    assert_eq!(PaidStatus::Paid.to_string(), "PAID");
}

#[test]
fn dates_are_checked() {
    assert!(Date::new(2024, 2, 29).is_some());
    assert!(Date::new(2023, 2, 29).is_none());
    assert!(Date::new(1900, 2, 29).is_none());
    assert!(Date::new(2000, 2, 29).is_some());
    assert!(Date::new(2024, 13, 1).is_none());
    assert!(Date::new(2024, 4, 31).is_none());
    assert!(d(2023, 12, 31).is_before(&d(2024, 1, 1)));
    assert!(!d(2024, 1, 1).is_before(&d(2024, 1, 1)));
    assert_eq!(d(2024, 12, 15).month_after(), d(2025, 1, 1));
}

#[test]
fn date_text_round_trip() {
    assert_eq!(d(2024, 2, 5).to_string(), "2024-02-05");
    assert_eq!(Date::from_str("2024-03-09"), Some(d(2024, 3, 9)));
    assert_eq!(Date::from_str("2024-02-30"), None);
    assert_eq!(Date::from_str("not a date"), None);
}

#[test]
fn split_same_day_is_empty() {
    assert!(split(d(2024, 1, 10), d(2024, 1, 10)).is_empty());
    assert!(split(d(2024, 3, 1), d(2024, 2, 1)).is_empty());
}

#[test]
fn split_covers_window_by_month() {
    let ps = split(d(2024, 1, 1), d(2024, 2, 15));
    assert_eq!(
        ps,
        vec![
            BillingPeriod { start: d(2024, 1, 1), end: d(2024, 2, 1) },
            BillingPeriod { start: d(2024, 2, 1), end: d(2024, 2, 15) },
        ]
    );
    let ps = split(d(2023, 11, 20), d(2024, 1, 3));
    assert_eq!(ps.len(), 3);
    assert_eq!(ps[0].start, d(2023, 11, 20));
    assert_eq!(ps[0].end, d(2023, 12, 1));
    assert_eq!(ps[1].end, d(2024, 1, 1));
    assert_eq!(ps[2].end, d(2024, 1, 3));
    for w in ps.windows(2) {
        assert_eq!(w[0].end, w[1].start);
    }
    let ps = split(d(2024, 5, 3), d(2024, 5, 20));
    assert_eq!(ps, vec![BillingPeriod { start: d(2024, 5, 3), end: d(2024, 5, 20) }]);
}

#[test]
fn base_charge_prorates_partial_month() {
    let t1 = OrganizationPricing::t1();
    let none = OrganizationPricingAdditions::none();
    let full = BillingPeriod { start: d(2024, 1, 1), end: d(2024, 2, 1) };
    let line = charge(&full, &t1, &none, &no_usage(), &rates()).unwrap();
    assert_eq!(line.base_charge, 39900);
    assert_eq!(line.additional_usage_charges, 0);
    assert_eq!(line.plan, OrganizationPricingTier::T1);
    let part = BillingPeriod { start: d(2024, 2, 1), end: d(2024, 2, 15) };
    let line = charge(&part, &t1, &none, &no_usage(), &rates()).unwrap();
    assert_eq!(line.base_charge, 19262);
    let tail = BillingPeriod { start: d(2024, 1, 20), end: d(2024, 2, 1) };
    let line = charge(&tail, &t1, &none, &no_usage(), &rates()).unwrap();
    assert_eq!(line.base_charge, 15445);
}

#[test]
fn additional_usage_beyond_included() {
    let t2 = OrganizationPricing::t2();
    let add = OrganizationPricingAdditions { branches: 1, users: 0, cash_registers: 0, clients: 2, warehouse: 0 };
    let used = UsageCounts { branches: 2, users: 13, cash_registers: 0, clients: 4, warehouse: 0 };
    let p = BillingPeriod { start: d(2024, 1, 1), end: d(2024, 2, 1) };
    let line = charge(&p, &t2, &add, &used, &rates()).unwrap();
    // branches: (1 over + 1 bought) * 1000; users: 3 over * 200; clients: 2 bought * 50
    assert_eq!(line.additional_usage_charges, 2000 + 600 + 100);
}

#[test]
fn additional_charge_is_monotonic() {
    let t2 = OrganizationPricing::t2();
    let none = OrganizationPricingAdditions::none();
    let p = BillingPeriod { start: d(2024, 1, 1), end: d(2024, 2, 1) };
    let mut prev = 0;
    for users in [0usize, 5, 10, 11, 20] {
        let used = UsageCounts { branches: 1, users, cash_registers: 0, clients: 0, warehouse: 0 };
        let c = charge(&p, &t2, &none, &used, &rates()).unwrap().additional_usage_charges;
        assert!(c >= prev);
        prev = c;
    }
    assert_eq!(prev, 10 * 200);
}

#[test]
fn overflow_is_internal_error() {
    let t2 = OrganizationPricing::t2();
    let none = OrganizationPricingAdditions::none();
    let p = BillingPeriod { start: d(2024, 1, 1), end: d(2024, 2, 1) };
    let big = OverageRates { version: 1, branch: 0, user: u64::MAX, cash_register: 0, client: 0, warehouse: 0 };
    let used = UsageCounts { branches: 1, users: 12, cash_registers: 0, clients: 0, warehouse: 0 };
    assert_eq!(charge(&p, &t2, &none, &used, &big), Err(BillingError::Internal));
}

#[test]
fn scenario_new_organization_first_run() {
    let o = org(OrganizationPricingTier::Free, d(2024, 1, 1));
    let plan = o.pricing.info();
    let used = UsageCounts { branches: 1, users: 1, cash_registers: 0, clients: 0, warehouse: 0 };
    let inv = next_invoice(&o, &None, &plan, d(2024, 2, 15), &used, &rates(), key(1)).unwrap().unwrap();
    assert_eq!(inv.date, d(2024, 2, 15));
    assert_eq!(inv.organization_usage.len(), 2);
    assert_eq!(inv.organization_usage[0].billing_period.start, d(2024, 1, 1));
    assert_eq!(inv.organization_usage[1].billing_period.end, d(2024, 2, 15));
    assert_eq!(inv.organization_usage[0].base_charge, 0);
    assert_eq!(inv.organization_usage[1].base_charge, 0);
    assert_eq!(inv.total_value, 0);
    assert!(inv.draft);
    assert_eq!(inv.paid_status, PaidStatus::Unpaid);
    assert_eq!(inv.organization, "acme");
    assert_eq!(inv.billed_to, "Acme Traders");
    assert_eq!(inv.invoice_no, 1);
}

#[test]
fn paid_tier_first_run_amounts() {
    let o = org(OrganizationPricingTier::T1, d(2024, 1, 1));
    let plan = o.pricing.info();
    let inv = next_invoice(&o, &None, &plan, d(2024, 2, 15), &no_usage(), &rates(), key(1)).unwrap().unwrap();
    assert_eq!(inv.service_value, 39900 + 19262);
    assert_eq!(inv.tax_ratio, 18);
    assert_eq!(inv.tax_value, 10649);
    assert_eq!(inv.total_value, 59162 + 10649);
    assert_eq!(inv.rounded_value, inv.total_value);
}

#[test]
fn tax_rounds_half_up() {
    let o = org(OrganizationPricingTier::T1, d(2024, 1, 1));
    let plan = o.pricing.info();
    // 3 days of 399 in a 31-day month: 3861.29.. rounds to 3861 hundredths
    let inv = next_invoice(&o, &None, &plan, d(2024, 1, 4), &no_usage(), &rates(), key(1)).unwrap().unwrap();
    assert_eq!(inv.service_value, 3861);
    assert_eq!(inv.tax_value, 695);
    assert_eq!(inv.total_value, 4556);
}

#[test]
fn scenario_draft_is_finalized_before_next_window() {
    let o = org(OrganizationPricingTier::T1, d(2024, 1, 1));
    let latest = Some(invoice_at(d(2024, 2, 1), 25000, true));
    assert_eq!(window_start(&o, &latest), d(2024, 2, 1));
    let after = finalize_latest(latest).unwrap();
    assert!(!after.draft);
    assert_eq!(after.total_value, 25000);
    let plan = o.pricing.info();
    let inv = next_invoice(&o, &Some(after), &plan, d(2024, 3, 1), &no_usage(), &rates(), key(2)).unwrap().unwrap();
    assert_eq!(inv.organization_usage.len(), 1);
    assert_eq!(inv.organization_usage[0].billing_period.start, d(2024, 2, 1));
    assert_eq!(inv.organization_usage[0].base_charge, 39900);
}

#[test]
fn zero_value_draft_stays_draft() {
    let after = finalize_latest(Some(invoice_at(d(2024, 2, 1), 0, true))).unwrap();
    assert!(after.draft);
    assert!(finalize_latest(None).is_none());
}

#[test]
fn final_invoice_is_left_unchanged() {
    let inv = invoice_at(d(2024, 2, 1), 5000, false);
    let after = finalize_latest(Some(inv.clone())).unwrap();
    assert!(!after.draft);
    assert_eq!(after.total_value, inv.total_value);
    assert_eq!(after.service_value, inv.service_value);
    assert_eq!(after.tax_value, inv.tax_value);
    assert_eq!(after.rounded_value, inv.rounded_value);
}

#[test]
fn scenario_unbilled_organization_is_skipped() {
    let mut o = org(OrganizationPricingTier::T2, d(2024, 1, 1));
    o.unbilled = true;
    assert!(!o.is_billable());
    let plan = o.pricing.info();
    assert_eq!(next_invoice(&o, &None, &plan, d(2024, 2, 15), &no_usage(), &rates(), key(1)).map(|x| x.is_none()), Ok(true));
    let mut o = org(OrganizationPricingTier::T2, d(2024, 1, 1));
    o.status = OrganizationStatus::Deactivated;
    assert_eq!(next_invoice(&o, &None, &plan, d(2024, 2, 15), &no_usage(), &rates(), key(1)).map(|x| x.is_none()), Ok(true));
}

#[test]
fn scenario_users_beyond_maximum() {
    let o = org(OrganizationPricingTier::T2, d(2024, 1, 1));
    let mut plan = o.pricing.info();
    plan.max_users = Some(10);
    let used = UsageCounts { branches: 1, users: 12, cash_registers: 0, clients: 0, warehouse: 0 };
    let r = next_invoice(&o, &None, &plan, d(2024, 2, 15), &used, &rates(), key(1));
    assert_eq!(r.map(|x| x.is_some()), Err(BillingError::PolicyViolation));
    let mut covered = org(OrganizationPricingTier::T2, d(2024, 1, 1));
    covered.additions = Some(OrganizationPricingAdditions { branches: 0, users: 2, cash_registers: 0, clients: 0, warehouse: 0 });
    assert!(next_invoice(&covered, &None, &plan, d(2024, 2, 15), &used, &rates(), key(1)).unwrap().is_some());
}

#[test]
fn branches_beyond_maximum() {
    let o = org(OrganizationPricingTier::Free, d(2024, 1, 1));
    let plan = o.pricing.info();
    let used = UsageCounts { branches: 2, users: 1, cash_registers: 0, clients: 0, warehouse: 0 };
    let p = BillingPeriod { start: d(2024, 1, 1), end: d(2024, 2, 1) };
    assert_eq!(charge(&p, &plan, &OrganizationPricingAdditions::none(), &used, &rates()), Err(BillingError::PolicyViolation));
}

#[test]
fn rerun_at_same_instant_adds_nothing() {
    let o = org(OrganizationPricingTier::T1, d(2024, 1, 1));
    let plan = o.pricing.info();
    let now = d(2024, 2, 15);
    let first = next_invoice(&o, &None, &plan, now, &no_usage(), &rates(), key(1)).unwrap().unwrap();
    let latest = finalize_latest(Some(first));
    let second = next_invoice(&o, &latest, &plan, now, &no_usage(), &rates(), key(2)).unwrap();
    assert!(second.is_none());
}

#[test]
fn later_run_bills_only_new_window() {
    let o = org(OrganizationPricingTier::T1, d(2024, 1, 1));
    let plan = o.pricing.info();
    let first = next_invoice(&o, &None, &plan, d(2024, 2, 15), &no_usage(), &rates(), key(1)).unwrap().unwrap();
    let latest = finalize_latest(Some(first.clone()));
    let second = next_invoice(&o, &latest, &plan, d(2024, 3, 10), &no_usage(), &rates(), key(2)).unwrap().unwrap();
    assert!(second.date.is_before(&d(2024, 3, 11)) && first.date.is_before(&second.date));
    assert_eq!(second.organization_usage[0].billing_period.start, first.date);
    assert_eq!(second.organization_usage.len(), 2);
}

#[test]
fn malformed_dates_are_data_integrity_errors() {
    let bad = Date { year: 2024, month: 2, day: 30 };
    let o = org(OrganizationPricingTier::T1, bad);
    let plan = o.pricing.info();
    let r = next_invoice(&o, &None, &plan, d(2024, 3, 10), &no_usage(), &rates(), key(1));
    assert_eq!(r.map(|x| x.is_some()), Err(BillingError::DataIntegrity));
}

#[test]
fn errors_and_responses() {
    let e = Error::new("boom".to_string(), ErrorKind::NotFound);
    assert_eq!(e.msg(), "boom");
    assert_eq!(e.code(), "NA");
    assert_eq!(*e.kind(), ErrorKind::NotFound);
    let e = Error::with_code("late".to_string(), "E42".to_string(), ErrorKind::LogicalError);
    assert_eq!(e.code(), "E42");
    assert_eq!(ErrorKind::LogicalError.status_code(), 409);
    assert_eq!(ErrorKind::InvalidData.status_code(), 400);
    assert_eq!(BillingError::PolicyViolation.kind(), ErrorKind::LogicalError);
    assert_eq!(BillingError::StoreUnavailable.kind(), ErrorKind::DatabaseError);
    let r = ErrorResponse::new("NA".to_string(), "oops".to_string());
    assert_eq!(r.code, "NA");
    assert_eq!(r.msg, "oops");
    let failed: Result<u8, ErrorKind> = Err(ErrorKind::Internal);
    let e = failed.context("while loading".to_string()).unwrap_err();
    assert_eq!(e.msg(), "while loading");
    let ok: Result<u8, ErrorKind> = Ok(3);
    assert_eq!(ok.context("unused".to_string()).unwrap(), 3);
}


#[test]
fn add_days_moves_across_months_and_years() {
    let mut x = d(2024, 2, 28);
    x.add_days(2);
    assert_eq!(x, d(2024, 3, 1));
    let mut y = d(2024, 12, 31);
    y.add_days(1);
    assert_eq!(y, d(2025, 1, 1));
    let mut z = d(2024, 3, 1);
    z.add_days(-1);
    assert_eq!(z, d(2024, 2, 29));
    let mut w = d(2023, 1, 15);
    w.add_days(0);
    assert_eq!(w, d(2023, 1, 15));
}
