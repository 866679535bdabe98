//! Tenant organizations as the billing engine reads them.
use vstd::prelude::*;

use crate::date::Date;
use crate::pricing::OrganizationPricingTier;
use crate::usage::OrganizationPricingAdditions;

verus! {

/// The lifecycle status of an organization.
#[derive(Debug, Clone, Copy, PartialEq, Eq, Structural)]
pub enum OrganizationStatus {
    Active,
    Suspended,
    Deactivated,
}

impl OrganizationStatus {
    /// The status as stored (`ACTIVE`, `SUSPENDED`, `DEACTIVATED`).
    pub fn to_string(&self) -> (r: String)
        ensures
            r@ == status_name(*self),
    {
        match self {
            OrganizationStatus::Active => String::from_str("ACTIVE"),
            OrganizationStatus::Suspended => String::from_str("SUSPENDED"),
            OrganizationStatus::Deactivated => String::from_str("DEACTIVATED"),
        }
    }
}

pub open spec fn status_name(s: OrganizationStatus) -> Seq<char> {
    match s {
        OrganizationStatus::Active => "ACTIVE"@,
        OrganizationStatus::Suspended => "SUSPENDED"@,
        OrganizationStatus::Deactivated => "DEACTIVATED"@,
    }
}

/// A postal address; only the country is required.
#[derive(Debug, Clone)]
pub struct OrganizationAddress {
    pub street: Option<String>,
    pub city: Option<String>,
    pub pin_code: Option<String>,
    pub state: Option<String>,
    pub country: String,
}

impl OrganizationAddress {
    /// An address that names only a country.
    pub fn with_country(country: String) -> (r: OrganizationAddress)
        ensures
            r.street is None,
            r.city is None,
            r.pin_code is None,
            r.state is None,
            r.country@ == country@,
    {
        OrganizationAddress { street: None, city: None, pin_code: None, state: None, country }
    }
}

/// A tenant organization. Identities are hexadecimal object ids; instants
/// are milliseconds since the Unix epoch.
#[derive(Debug, Clone)]
pub struct Organization {
    pub id: String,
    pub name: String,
    pub full_name: String,
    pub country: String,
    pub gst_no: Option<String>,
    pub book_begin: Date,
    pub fp_code: u8,
    pub pricing: OrganizationPricingTier,
    pub cluster: String,
    pub users: Vec<String>,
    pub communication_address: OrganizationAddress,
    pub billing_address: OrganizationAddress,
    pub grace_period: u8,
    pub unbilled: bool,
    pub additions: Option<OrganizationPricingAdditions>,
    pub status: OrganizationStatus,
    pub fund: usize,
    pub owned_by: String,
    pub created_at: i64,
    pub updated_at: i64,
}

/// An organization that invoicing runs over: not exempt and active.
pub open spec fn billable(o: Organization) -> bool {
    !o.unbilled && o.status == OrganizationStatus::Active
}

impl Organization {
    /// Whether invoicing runs over this organization.
    pub fn is_billable(&self) -> (r: bool)
        ensures
            r == billable(*self),
    {
        !self.unbilled && self.status == OrganizationStatus::Active
    }
}

} // verus!
