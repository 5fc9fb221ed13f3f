use crate::domain::subscriber_email::is_alphanumeric_char;
use vstd::prelude::*;

verus! {

/// The number of characters of a confirmation token.
pub const TOKEN_LENGTH: usize = 25;

/// The shape of a confirmation token: 25 ASCII letters and digits.
pub open spec fn is_token_text(s: Seq<char>) -> bool {
    &&& s.len() == TOKEN_LENGTH
    &&& forall|i: int| 0 <= i < s.len() ==> is_alphanumeric_char(#[trigger] s[i])
}

/// A confirmation token as the store records one: the secret text, and the
/// subscriber that it confirms.
pub struct SubscriptionToken {
    pub token: String,
    pub subscriber_id: u128,
}

/// What a `SubscriptionToken` holds, as plain values.
pub struct SubscriptionTokenView {
    pub token: Seq<char>,
    pub subscriber_id: u128,
}

impl View for SubscriptionToken {
    type V = SubscriptionTokenView;

    open spec fn view(&self) -> SubscriptionTokenView {
        SubscriptionTokenView { token: self.token@, subscriber_id: self.subscriber_id }
    }
}

impl SubscriptionToken {
    /// A copy of this record.
    pub fn duplicate(&self) -> (copy: Self)
        ensures
            copy@ == self@,
    {
        SubscriptionToken { token: self.token.clone(), subscriber_id: self.subscriber_id }
    }
}

} // verus!
