//! Enterprise integration: audit logging, SAML single sign-on, the OIDC
//! provider, the identity server, and the enterprise session registry.
use vstd::prelude::*;

pub mod audit;
pub mod saml;
pub mod oidc;
pub mod identity;
pub mod service;

verus! {

/// Regulatory regime the audit log serves.
#[derive(Debug, Clone, PartialEq, Eq)]
pub enum ComplianceMode {
    Standard,
    Gdpr,
    Hipaa,
    Sox,
    Custom(String),
}

} // verus!
