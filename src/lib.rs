//! Subscription billing: pricing tiers, calendar billing periods, usage
//! charges and the invoice state machine for tenant organizations.

pub mod date;
pub mod error;
pub mod invoice;
pub mod orchestrator;
pub mod organization;
pub mod period;
pub mod pricing;
pub mod usage;

pub use date::Date;
pub use error::{BillingError, Context, Error, ErrorKind, ErrorResponse};
pub use invoice::{Invoice, NewInvoiceKey, PaidStatus, TAX_RATIO_PERCENT};
pub use orchestrator::{
    finalize_latest, next_invoice, next_invoice_no, observed_usage, window_start,
};
pub use organization::{Organization, OrganizationAddress, OrganizationStatus};
pub use period::{split, BillingPeriod};
pub use pricing::{OrganizationFeatures, OrganizationPricing, OrganizationPricingTier};
pub use usage::{
    charge, OrganizationPricingAdditions, OrganizationUsage, OverageRates, UsageCounts,
};
