//! The pricing catalog: one plan per tier, with cumulative feature sets.
use vstd::prelude::*;

verus! {

/// A subscription level. Tiers are ranked: each one includes every feature
/// of the tier below it.
#[derive(Debug, Clone, Copy, PartialEq, Eq, Structural)]
pub enum OrganizationPricingTier {
    Free,
    T1,
    T2,
    T3,
    T4,
    T5,
}

/// A named feature that a tier may unlock.
#[derive(Debug, Clone, Copy, PartialEq, Eq, Structural)]
pub enum OrganizationFeatures {
    CashRegister,
    AccountantAccess,
    OnlineCustomerAndVendorPortal,
    OnlineGstAccess,
    Website,
    SaleIncharge,
    ChequePrinting,
    MaterialConversion,
    Warehouse,
    MultipleGST,
    EmailIntegration,
}

/// The plan of one tier: its monthly price, features and limits.
#[derive(Debug, Clone)]
pub struct OrganizationPricing {
    pub tier: OrganizationPricingTier,
    pub price: usize,
    pub features: Vec<OrganizationFeatures>,
    pub max_users: Option<usize>,
    pub max_branches: Option<usize>,
    pub branches: usize,
    pub users: usize,
    pub cash_registers: usize,
    pub vouchers: usize,
    pub storage: usize,
    pub clients: usize,
    pub warehouse: usize,
}

/// The rank of a tier, `Free` being the lowest.
pub open spec fn tier_rank(t: OrganizationPricingTier) -> nat {
    match t {
        OrganizationPricingTier::Free => 0,
        OrganizationPricingTier::T1 => 1,
        OrganizationPricingTier::T2 => 2,
        OrganizationPricingTier::T3 => 3,
        OrganizationPricingTier::T4 => 4,
        OrganizationPricingTier::T5 => 5,
    }
}

/// The tier directly below `t` (`Free` has none; it maps to itself).
pub open spec fn tier_below(t: OrganizationPricingTier) -> OrganizationPricingTier {
    match t {
        OrganizationPricingTier::Free => OrganizationPricingTier::Free,
        OrganizationPricingTier::T1 => OrganizationPricingTier::Free,
        OrganizationPricingTier::T2 => OrganizationPricingTier::T1,
        OrganizationPricingTier::T3 => OrganizationPricingTier::T2,
        OrganizationPricingTier::T4 => OrganizationPricingTier::T3,
        OrganizationPricingTier::T5 => OrganizationPricingTier::T4,
    }
}

/// The features that tier `t` adds on top of the tier below it.
pub open spec fn added_features(t: OrganizationPricingTier) -> Seq<OrganizationFeatures> {
    match t {
        OrganizationPricingTier::Free => seq![],
        OrganizationPricingTier::T1 => seq![],
        OrganizationPricingTier::T2 => seq![OrganizationFeatures::AccountantAccess],
        OrganizationPricingTier::T3 => seq![
            OrganizationFeatures::SaleIncharge,
            OrganizationFeatures::EmailIntegration,
            OrganizationFeatures::Website,
            OrganizationFeatures::OnlineGstAccess,
            OrganizationFeatures::CashRegister,
        ],
        OrganizationPricingTier::T4 => seq![
            OrganizationFeatures::ChequePrinting,
            OrganizationFeatures::MaterialConversion,
            OrganizationFeatures::Warehouse,
        ],
        OrganizationPricingTier::T5 => seq![
            OrganizationFeatures::OnlineCustomerAndVendorPortal,
            OrganizationFeatures::MultipleGST,
        ],
    }
}

/// Every feature of tier `t`: those of the tier below, then its own.
pub open spec fn tier_features(t: OrganizationPricingTier) -> Seq<OrganizationFeatures>
    decreases tier_rank(t),
{
    if tier_rank(t) == 0 {
        added_features(t)
    } else {
        tier_features(tier_below(t)) + added_features(t)
    }
}

impl OrganizationPricing {
    /// The catalog entry of tier `t`: price, features and every limit.
    pub open spec fn is_plan_for(&self, t: OrganizationPricingTier) -> bool {
        &&& self.tier == t
        &&& self.features@ == tier_features(t)
        &&& match t {
            OrganizationPricingTier::Free => self.price == 0 && self.max_users == Some(1usize)
                && self.max_branches == Some(1usize) && self.users == 1 && self.branches == 1
                && self.cash_registers == 0 && self.vouchers == 1200 && self.storage == 500
                && self.clients == 0 && self.warehouse == 0,
            OrganizationPricingTier::T1 => self.price == 399 && self.max_users == None::<usize>
                && self.max_branches == Some(1usize) && self.users == 5 && self.branches == 1
                && self.cash_registers == 0 && self.vouchers == 1200 && self.storage == 500
                && self.clients == 1 && self.warehouse == 0,
            OrganizationPricingTier::T2 => self.price == 999 && self.max_users == None::<usize>
                && self.max_branches == Some(2usize) && self.users == 10 && self.branches == 1
                && self.cash_registers == 0 && self.vouchers == 6000 && self.storage == 500
                && self.clients == 5 && self.warehouse == 0,
            OrganizationPricingTier::T3 => self.price == 2499 && self.max_users == None::<usize>
                && self.max_branches == Some(3usize) && self.users == 20 && self.branches == 1
                && self.cash_registers == 7 && self.vouchers == 12000 && self.storage == 1000
                && self.clients == 12 && self.warehouse == 0,
            OrganizationPricingTier::T4 => self.price == 6499 && self.max_users == None::<usize>
                && self.max_branches == Some(4usize) && self.users == 40 && self.branches == 1
                && self.cash_registers == 18 && self.vouchers == 30000 && self.storage == 2000
                && self.clients == 30 && self.warehouse == 1,
            OrganizationPricingTier::T5 => self.price == 14999 && self.max_users == None::<usize>
                && self.max_branches == None::<usize> && self.users == 100 && self.branches == 1
                && self.cash_registers == 50 && self.vouchers == 80000 && self.storage == 4000
                && self.clients == 70 && self.warehouse == 2,
        }
    }

    pub fn free() -> (r: OrganizationPricing)
        ensures
            r.is_plan_for(OrganizationPricingTier::Free),
    {
        let r = OrganizationPricing {
            tier: OrganizationPricingTier::Free,
            price: 0,
            features: vec![],
            max_users: Some(1),
            max_branches: Some(1),
            users: 1,
            branches: 1,
            cash_registers: 0,
            vouchers: 1200,
            storage: 500,
            clients: 0,
            warehouse: 0,
        };
        assert(r.features@ =~= tier_features(OrganizationPricingTier::Free));
        r
    }

    pub fn t1() -> (r: OrganizationPricing)
        ensures
            r.is_plan_for(OrganizationPricingTier::T1),
    {
        let features = OrganizationPricing::free().features;
        proof {
            reveal_with_fuel(tier_features, 2);
        }
        assert(features@ =~= tier_features(OrganizationPricingTier::T1));
        OrganizationPricing {
            tier: OrganizationPricingTier::T1,
            price: 399,
            features,
            max_users: None,
            max_branches: Some(1),
            users: 5,
            branches: 1,
            cash_registers: 0,
            vouchers: 1200,
            storage: 500,
            clients: 1,
            warehouse: 0,
        }
    }

    pub fn t2() -> (r: OrganizationPricing)
        ensures
            r.is_plan_for(OrganizationPricingTier::T2),
    {
        let mut features = OrganizationPricing::t1().features;
        features.push(OrganizationFeatures::AccountantAccess);
        assert(features@ =~= tier_features(OrganizationPricingTier::T2));
        OrganizationPricing {
            tier: OrganizationPricingTier::T2,
            price: 999,
            features,
            max_users: None,
            max_branches: Some(2),
            users: 10,
            branches: 1,
            cash_registers: 0,
            vouchers: 6000,
            storage: 500,
            clients: 5,
            warehouse: 0,
        }
    }

    pub fn t3() -> (r: OrganizationPricing)
        ensures
            r.is_plan_for(OrganizationPricingTier::T3),
    {
        let mut features = OrganizationPricing::t2().features;
        features.push(OrganizationFeatures::SaleIncharge);
        features.push(OrganizationFeatures::EmailIntegration);
        features.push(OrganizationFeatures::Website);
        features.push(OrganizationFeatures::OnlineGstAccess);
        features.push(OrganizationFeatures::CashRegister);
        assert(features@ =~= tier_features(OrganizationPricingTier::T3));
        OrganizationPricing {
            tier: OrganizationPricingTier::T3,
            price: 2499,
            features,
            max_users: None,
            max_branches: Some(3),
            users: 20,
            branches: 1,
            cash_registers: 7,
            vouchers: 12000,
            storage: 1000,
            clients: 12,
            warehouse: 0,
        }
    }

    pub fn t4() -> (r: OrganizationPricing)
        ensures
            r.is_plan_for(OrganizationPricingTier::T4),
    {
        let mut features = OrganizationPricing::t3().features;
        features.push(OrganizationFeatures::ChequePrinting);
        features.push(OrganizationFeatures::MaterialConversion);
        features.push(OrganizationFeatures::Warehouse);
        assert(features@ =~= tier_features(OrganizationPricingTier::T4));
        OrganizationPricing {
            tier: OrganizationPricingTier::T4,
            price: 6499,
            features,
            max_users: None,
            max_branches: Some(4),
            users: 40,
            branches: 1,
            cash_registers: 18,
            vouchers: 30000,
            storage: 2000,
            clients: 30,
            warehouse: 1,
        }
    }

    pub fn t5() -> (r: OrganizationPricing)
        ensures
            r.is_plan_for(OrganizationPricingTier::T5),
    {
        let mut features = OrganizationPricing::t4().features;
        features.push(OrganizationFeatures::OnlineCustomerAndVendorPortal);
        features.push(OrganizationFeatures::MultipleGST);
        assert(features@ =~= tier_features(OrganizationPricingTier::T5));
        OrganizationPricing {
            tier: OrganizationPricingTier::T5,
            price: 14999,
            features,
            max_users: None,
            max_branches: None,
            users: 100,
            branches: 1,
            cash_registers: 50,
            vouchers: 80000,
            storage: 4000,
            clients: 70,
            warehouse: 2,
        }
    }
}

impl OrganizationPricingTier {
    /// The catalog entry of this tier.
    pub fn info(&self) -> (r: OrganizationPricing)
        ensures
            r.is_plan_for(*self),
    {
        match self {
            OrganizationPricingTier::Free => OrganizationPricing::free(),
            OrganizationPricingTier::T1 => OrganizationPricing::t1(),
            OrganizationPricingTier::T2 => OrganizationPricing::t2(),
            OrganizationPricingTier::T3 => OrganizationPricing::t3(),
            OrganizationPricingTier::T4 => OrganizationPricing::t4(),
            OrganizationPricingTier::T5 => OrganizationPricing::t5(),
        }
    }

    /// The cumulative feature set of this tier.
    pub fn features(&self) -> (r: Vec<OrganizationFeatures>)
        ensures
            r@ == tier_features(*self),
    {
        self.info().features
    }

    /// The tier's name as stored and displayed (`FREE`, `T1`, ...).
    pub fn to_string(&self) -> (r: String)
        ensures
            r@ == tier_name(*self),
    {
        match self {
            OrganizationPricingTier::Free => String::from_str("FREE"),
            OrganizationPricingTier::T1 => String::from_str("T1"),
            OrganizationPricingTier::T2 => String::from_str("T2"),
            OrganizationPricingTier::T3 => String::from_str("T3"),
            OrganizationPricingTier::T4 => String::from_str("T4"),
            OrganizationPricingTier::T5 => String::from_str("T5"),
        }
    }
}

/// The display name of a tier.
pub open spec fn tier_name(t: OrganizationPricingTier) -> Seq<char> {
    match t {
        OrganizationPricingTier::Free => "FREE"@,
        OrganizationPricingTier::T1 => "T1"@,
        OrganizationPricingTier::T2 => "T2"@,
        OrganizationPricingTier::T3 => "T3"@,
        OrganizationPricingTier::T4 => "T4"@,
        OrganizationPricingTier::T5 => "T5"@,
    }
}

/// A tier's features include those of every lower tier.
pub proof fn lemma_features_inherited(lo: OrganizationPricingTier, hi: OrganizationPricingTier)
    requires
        tier_rank(lo) <= tier_rank(hi),
    ensures
        tier_features(lo).len() <= tier_features(hi).len(),
        forall|i: int|
            0 <= i < tier_features(lo).len() ==> tier_features(hi)[i] == tier_features(lo)[i],
    decreases tier_rank(hi),
{
    if tier_rank(lo) < tier_rank(hi) {
        lemma_features_inherited(lo, tier_below(hi));
    }
}

} // verus!
