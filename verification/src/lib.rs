//! Verified core of an education savings and payouts platform: money and
//! currency values, status vocabularies, access and transition rules for
//! contributions, payouts and scholarships, the ledger arithmetic that
//! settles them, audit records and notification rendering.

pub mod text;
pub mod status;
pub mod shared;
pub mod json;
pub mod records;
pub mod auth;
pub mod contributions;
pub mod payouts;
pub mod scholarships;
pub mod repos;
pub mod ledger;
pub mod platform;
pub mod audit;
pub mod scholarship_services;
pub mod savings;
pub mod schools;
pub mod kyc;
pub mod notifications;
pub mod credentials;
pub mod blockchain;
pub mod onchain;
pub mod infra;
