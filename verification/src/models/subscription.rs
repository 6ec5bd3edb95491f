//! Subscriptions, their confirmation tokens and the confirmation mail.

use rand::distributions::Alphanumeric;
use rand::Rng;
use uuid::Uuid;
use vstd::prelude::*;
use vstd::string::*;

verus! {

/// Number of characters in a subscription token.
pub const SUBSCRIPTION_TOKEN_LEN: usize = 25;

/// `uuid::Uuid`: 128 bits that identify a row. The library carries such a
/// value and never looks inside.
#[verifier::external_type_specification]
#[verifier::external_body]
pub struct ExUuid(Uuid);

/// Whether a byte is an ASCII letter or digit.
pub open spec fn is_alphanumeric(byte: u8) -> bool {
    ||| 0x30 <= byte <= 0x39
    ||| 0x41 <= byte <= 0x5a
    ||| 0x61 <= byte <= 0x7a
}

/// Whether a character is an ASCII letter or digit.
pub open spec fn is_alphanumeric_char(ch: char) -> bool {
    ||| 0x30 <= ch as u32 <= 0x39
    ||| 0x41 <= ch as u32 <= 0x5a
    ||| 0x61 <= ch as u32 <= 0x7a
}

/// `Rng::sample` of `rand::thread_rng()` with `Alphanumeric`: one of the 62
/// ASCII letters and digits. Which one is open, so two calls may differ.
#[verifier::external_body]
fn random_alphanumeric() -> (byte: u8)
    ensures
        is_alphanumeric(byte),
{
    rand::thread_rng().sample(Alphanumeric)
}

/// `String::push` appends one character.
pub assume_specification[ String::push ](text: &mut String, ch: char)
    ensures
        final(text)@ == old(text)@.push(ch),
;

/// Where a subscription stands.
#[derive(Debug, Clone, Copy, PartialEq, Eq, Structural)]
pub enum SubscriptionStatus {
    /// The subscriber has not yet followed the confirmation link.
    PendingConfirmation,
    /// The subscriber has confirmed.
    Confirmed,
}

impl SubscriptionStatus {
    /// The status as the database stores it.
    pub open spec fn text(self) -> Seq<char> {
        match self {
            SubscriptionStatus::Confirmed => "confirmed"@,
            SubscriptionStatus::PendingConfirmation => "pending_confirmation"@,
        }
    }

    /// The status as the database stores it.
    pub fn as_str(&self) -> (text: &'static str)
        ensures
            text@ == self.text(),
    {
        match self {
            SubscriptionStatus::Confirmed => "confirmed",
            SubscriptionStatus::PendingConfirmation => "pending_confirmation",
        }
    }

    /// Two statuses are stored alike only if they are the same status.
    pub proof fn lemma_text_tells_apart(self, other: SubscriptionStatus)
        ensures
            self.text() == other.text() <==> self == other,
    {
        reveal_strlit("confirmed");
        reveal_strlit("pending_confirmation");
        assert("confirmed"@.len() != "pending_confirmation"@.len());
    }
}

/// A row of the subscriptions table.
pub struct Subscription {
    pub id: Uuid,
    pub email: String,
    pub name: String,
    pub status: String,
}

/// The mail that asks a new subscriber to confirm.
pub struct ConfirmationEmail {
    pub recipient: String,
    pub subject: String,
    pub html_body: String,
    pub plain_body: String,
}

/// The link that confirms the subscription which a token stands for.
pub open spec fn confirmation_link(base_url: Seq<char>, subscription_token: Seq<char>) -> Seq<char> {
    base_url + "/subscriptions/confirm?subscription_token="@ + subscription_token
}

/// The mail's body for readers of plain text.
pub open spec fn plain_body(link: Seq<char>) -> Seq<char> {
    "Welcome to our newsletter!\nVisit "@ + link + " to confirm your subscription."@
}

/// The mail's body for readers of HTML.
pub open spec fn html_body(link: Seq<char>) -> Seq<char> {
    "Welcome to our newsletter!<br />Click <a href=\""@ + link
        + "\">here</a> to confirm your subscription."@
}

impl Subscription {
    /// The row of a subscriber who has just signed up: the subscription
    /// awaits confirmation.
    pub fn pending(id: Uuid, email: String, name: String) -> (subscription: Subscription)
        ensures
            subscription.id == id,
            subscription.email@ == email@,
            subscription.name@ == name@,
            subscription.status@ == SubscriptionStatus::PendingConfirmation.text(),
    {
        Subscription {
            id,
            email,
            name,
            status: String::from_str(SubscriptionStatus::PendingConfirmation.as_str()),
        }
    }

    /// The confirmation mail for this subscriber: both bodies hold the link
    /// made of the site's address and the subscription token.
    pub fn confirmation_email(&self, base_url: &str, subscription_token: &str) -> (mail:
        ConfirmationEmail)
        ensures
            mail.recipient@ == self.email@,
            mail.subject@ == "Welcome!"@,
            mail.html_body@ == html_body(confirmation_link(base_url@, subscription_token@)),
            mail.plain_body@ == plain_body(confirmation_link(base_url@, subscription_token@)),
    {
        let mut link = String::from_str(base_url);
        link.append("/subscriptions/confirm?subscription_token=");
        link.append(subscription_token);
        let mut plain = String::from_str("Welcome to our newsletter!\nVisit ");
        plain.append(link.as_str());
        plain.append(" to confirm your subscription.");
        let mut html = String::from_str("Welcome to our newsletter!<br />Click <a href=\"");
        html.append(link.as_str());
        html.append("\">here</a> to confirm your subscription.");
        ConfirmationEmail {
            recipient: self.email.clone(),
            subject: String::from_str("Welcome!"),
            html_body: html,
            plain_body: plain,
        }
    }

    /// The token that a run of samples spells: one character for each byte,
    /// in order.
    pub fn token_from_samples(samples: &[u8]) -> (token: String)
        ensures
            token@ == Seq::new(samples@.len(), |i: int| samples@[i] as char),
    {
        let mut token = String::new();
        let mut i: usize = 0;
        while i < samples.len()
            invariant
                i <= samples@.len(),
                token@ == Seq::new(i as nat, |k: int| samples@[k] as char),
            decreases samples@.len() - i,
        {
            token.push(samples[i] as char);
            i += 1;
            assert(token@ =~= Seq::new(i as nat, |k: int| samples@[k] as char));
        }
        token
    }

    /// A fresh token for a confirmation link: 25 random ASCII letters and
    /// digits.
    pub fn generate_subscription_token() -> (token: String)
        ensures
            token@.len() == SUBSCRIPTION_TOKEN_LEN,
            forall|i: int| 0 <= i < token@.len() ==> is_alphanumeric_char(#[trigger] token@[i]),
    {
        let mut samples: Vec<u8> = Vec::new();
        while samples.len() < SUBSCRIPTION_TOKEN_LEN
            invariant
                samples@.len() <= SUBSCRIPTION_TOKEN_LEN,
                forall|i: int| 0 <= i < samples@.len() ==> is_alphanumeric(#[trigger] samples@[i]),
            decreases SUBSCRIPTION_TOKEN_LEN - samples@.len(),
        {
            samples.push(random_alphanumeric());
        }
        let token = Self::token_from_samples(samples.as_slice());
        assert forall|i: int| 0 <= i < token@.len() implies is_alphanumeric_char(
            #[trigger] token@[i],
        ) by {
            assert(is_alphanumeric(samples@[i]));
            assert(token@[i] == samples@[i] as char);
        }
        token
    }
}

} // verus!
