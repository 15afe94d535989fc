//! The airdrop page and popup: what they say and which button they offer
//! while a claim is made.
use vstd::prelude::*;
use crate::number::{decimal, push_decimal};
use crate::text::{append_str, chars_of, contains_text, starts_with, text_contains, text_starts_with};

verus! {

/// The button under an airdrop offer.
#[derive(Clone, Copy, Debug, PartialEq, Eq, Structural)]
pub enum AirdropButton {
    /// A spinner while the claim is being made.
    Waiting,
    /// A link to the wallet once the airdrop is claimed.
    GoToWallet,
    /// The button that claims it.
    ClaimNow,
}

/// The button shown: a claim under way shows a spinner; a claimed airdrop
/// links to the wallet; otherwise the airdrop can be claimed.
pub fn airdrop_button(buffering: bool, claimed: bool) -> (r: AirdropButton)
    ensures
        r == (if buffering {
            AirdropButton::Waiting
        } else if claimed {
            AirdropButton::GoToWallet
        } else {
            AirdropButton::ClaimNow
        }),
{
    if buffering {
        AirdropButton::Waiting
    } else if claimed {
        AirdropButton::GoToWallet
    } else {
        AirdropButton::ClaimNow
    }
}

/// The headline of the airdrop page.
pub open spec fn airdrop_headline_text(amount: u64, name: Seq<char>, claimed: bool) -> Seq<char> {
    decimal(amount as nat) + " "@ + name + if claimed {
        " added to wallet"@
    } else {
        " Airdrop received"@
    }
}

/// The headline of the airdrop page for `amount` of the token `name`.
pub fn airdrop_headline(amount: u64, name: &str, claimed: bool) -> (r: String)
    ensures
        r@ == airdrop_headline_text(amount, name@, claimed),
{
    let mut r = String::new();
    push_decimal(&mut r, amount as u128);
    append_str(&mut r, " ");
    append_str(&mut r, name);
    if claimed {
        append_str(&mut r, " added to wallet");
    } else {
        append_str(&mut r, " Airdrop received");
    }
    r
}

/// The label of the link shown once the airdrop popup's claim is done.
pub open spec fn followup_label_text(host: Seq<char>, path: Seq<char>) -> Seq<char> {
    if contains_text(host, "icpump"@) {
        if starts_with(path, "/wallet"@) || starts_with(path, "/profile"@) {
            "Explore more Tokens"@
        } else {
            "View Wallet"@
        }
    } else if contains_text(host, "pumpdump"@) {
        "Continue Playing"@
    } else if contains_text(host, "yral"@) {
        "Watch more Videos"@
    } else {
        "View Wallet"@
    }
}

/// The label of the link after a claim, by the site (`host`) and the page
/// (`path`) the popup is on.
pub fn airdrop_followup_label(host: &str, path: &str) -> (r: &'static str)
    ensures
        r@ == followup_label_text(host@, path@),
{
    let h = chars_of(host);
    let p = chars_of(path);
    if text_contains(&h, &chars_of("icpump")) {
        if text_starts_with(&p, &chars_of("/wallet")) || text_starts_with(&p, &chars_of("/profile")) {
            "Explore more Tokens"
        } else {
            "View Wallet"
        }
    } else if text_contains(&h, &chars_of("pumpdump")) {
        "Continue Playing"
    } else if text_contains(&h, &chars_of("yral")) {
        "Watch more Videos"
    } else {
        "View Wallet"
    }
}

/// Whether the airdrop popup may be closed: not while a claim is under way.
pub fn popup_can_close(buffering: bool) -> (r: bool)
    ensures
        r == !buffering,
{
    !buffering
}

} // verus!
