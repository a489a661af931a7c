//! The boundary to the external identity provider.
//!
//! Refreshing a credential is a network round trip to the provider; the store
//! consumes it through [`TokenExchanger`], which the edge code implements
//! with the real provider client (and tests implement with substitutes).

use vstd::prelude::*;

use crate::model::TokenResponseV;

verus! {

/// What a successful token exchange hands back.
///
/// The provider's contract guarantees an expiry on success, so `expires_at`
/// is not optional here: an implementation that receives a payload without
/// one has hit a programming-invariant violation at the boundary and must
/// treat it as fatal there, not hand it to the store.
#[derive(Debug, Clone, PartialEq, Eq)]
pub struct TokenResponse {
    /// The fresh access token.
    pub access_token: String,
    /// The rotated refresh token, when the provider rotated it.
    pub refresh_token: Option<String>,
    /// Moment (whole seconds since the Unix epoch) at which the fresh access
    /// token expires.
    pub expires_at: i64,
}

impl View for TokenResponse {
    type V = TokenResponseV;

    open spec fn view(&self) -> TokenResponseV {
        TokenResponseV {
            access_token: self.access_token@,
            refresh_token: self.refresh_token.deep_view(),
            expires_at: self.expires_at,
        }
    }
}

/// A client able to exchange a stored refresh token for fresh credentials.
///
/// `None` covers both an exchange failure and an empty result: either way the
/// store treats the link as dead.  No contract constrains implementations;
/// the store's guarantees hold for every outcome.
pub trait TokenExchanger {
    /// One exchange round trip with the provider.
    fn exchange(&mut self, refresh_token: &str) -> Option<TokenResponse>;
}

} // verus!
