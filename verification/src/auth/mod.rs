//! Client authentication through an OpenID Connect provider.
pub mod oidc;
