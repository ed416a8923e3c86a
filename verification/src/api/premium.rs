//! Whether an account may play: what is made of the answer to the question who is
//! logged in.

use vstd::prelude::*;

use crate::api::api_models::User;
use crate::api::cached_client::{SpotifyApiError, SpotifyResult};
use crate::text::str_eq;

verus! {

/// What a probe found out about an account.
#[derive(Debug, PartialEq, Eq)]
pub enum PremiumStatus {
    /// The account is a premium account.
    Premium,
    /// The account is none.
    NotPremium,
    /// The probe failed, which says nothing about the account.
    ProbeFailed(SpotifyApiError),
}

/// What a probe found out about an account. `answer` is the user that the service
/// named; none if it answered with something else.
pub fn check_premium(answer: SpotifyResult<Option<User>>) -> (r: PremiumStatus)
    ensures
        match answer {
            Err(e) => r == PremiumStatus::ProbeFailed(e),
            Ok(None) => r == PremiumStatus::ProbeFailed(SpotifyApiError::NoContent),
            Ok(Some(user)) => r == (if user.product matches Some(product) && product@
                == "premium"@ {
                PremiumStatus::Premium
            } else {
                PremiumStatus::NotPremium
            }),
        },
        r is NotPremium ==> answer matches Ok(Some(_)),
{
    match answer {
        Err(e) => PremiumStatus::ProbeFailed(e),
        Ok(None) => PremiumStatus::ProbeFailed(SpotifyApiError::NoContent),
        Ok(Some(user)) => match &user.product {
            Some(product) => if str_eq(product.as_str(), "premium") {
                PremiumStatus::Premium
            } else {
                PremiumStatus::NotPremium
            },
            None => PremiumStatus::NotPremium,
        },
    }
}

} // verus!
