//! Per-product subscription flow over huggian-core.

pub mod cache;
pub mod client;
pub mod error;
pub mod service;
pub mod state;
pub mod types;

pub use cache::StateCache;
pub use client::{BillingClient, BillingConfig};
pub use error::BillingError;
pub use service::{BillingService, CompanyIdentity, ServiceConfig, TrialOutcome};
pub use state::{resolve_state, SubscriptionKind, SubscriptionState, GRACE_DAYS};
pub use types::{CheckoutDeclined, CheckoutOutcome, Customer, Plan, Subscription};
