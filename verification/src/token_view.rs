//! What the wallet's token cards and the token details page show and link
//! to: share messages and links, the airdrop and withdrawal controls.
use vstd::prelude::*;
use crate::principal::{PrincipalId, principal_text};
use crate::text::{append_str, push_char};
use crate::upload::owned;

verus! {

/// The kind of token a root names: the two utility tokens of the app, or a
/// token created by a user.
#[derive(Clone, Copy, Debug, PartialEq, Eq, Structural)]
pub enum RootKind {
    Coyns,
    Cents,
    Other,
}

/// Whether the token is one of the app's utility tokens, for which sending,
/// sharing and the details page are disabled.
pub fn is_utility_token(kind: RootKind) -> (r: bool)
    ensures
        r == (kind == RootKind::Coyns || kind == RootKind::Cents),
{
    match kind {
        RootKind::Coyns | RootKind::Cents => true,
        RootKind::Other => false,
    }
}

/// The message that shares a token with its link.
pub open spec fn share_message(symbol: Seq<char>, link: Seq<char>) -> Seq<char> {
    "Hey! Check out the token: "@ + symbol + " I created on YRAL 👇 "@ + link
        + ". I just minted my own token—come see and create yours! 🚀 #YRAL #TokenMinter"@
}

/// The message that shares the token `symbol` with `share_link`.
pub fn token_share_message(symbol: &str, share_link: &str) -> (r: String)
    ensures
        r@ == share_message(symbol@, share_link@),
{
    let mut r = owned("Hey! Check out the token: ");
    append_str(&mut r, symbol);
    append_str(&mut r, " I created on YRAL 👇 ");
    append_str(&mut r, share_link);
    append_str(
        &mut r,
        ". I just minted my own token—come see and create yours! 🚀 #YRAL #TokenMinter",
    );
    r
}

/// The link that shares a token page with an airdrop offer.
pub open spec fn airdrop_share_link(root_text: Seq<char>, key: Seq<u8>) -> Seq<char> {
    crate::wallet::share_link_text(root_text, principal_text(key))
}

/// The share link and message of a token's details page: there are none
/// when the page is not tied to a principal.
pub fn token_info_share(root_text: &str, key_principal: Option<&PrincipalId>, symbol: &str) -> (r:
    Option<(String, String)>)
    ensures
        key_principal is None ==> r is None,
        key_principal matches Some(k) ==> (r matches Some((link, message)) && link@
            == airdrop_share_link(root_text@, k@) && message@ == share_message(
            symbol@,
            airdrop_share_link(root_text@, k@),
        )),
{
    match key_principal {
        None => None,
        Some(k) => {
            let link = crate::wallet::generate_share_link(root_text, k);
            let message = token_share_message(symbol, link.as_str());
            Some((link, message))
        },
    }
}

/// The path of a token's details page for the principal that reads
/// `key_text`.
pub open spec fn info_path_text(root_text: Seq<char>, key_text: Seq<char>) -> Seq<char> {
    "/token/info/"@ + root_text + "/"@ + key_text
}

/// The path of a token's details page for a principal (empty where there is
/// none).
pub open spec fn info_path(root_text: Seq<char>, key: Option<Seq<u8>>) -> Seq<char> {
    info_path_text(
        root_text,
        match key {
            Some(k) => principal_text(k),
            None => Seq::empty(),
        },
    )
}

/// The path of the details page of the token `root_text` for the principal
/// that reads `key_text`.
pub fn token_info_path_of_text(root_text: &str, key_text: &str) -> (r: String)
    ensures
        r@ == info_path_text(root_text@, key_text@),
{
    let mut r = owned("/token/info/");
    append_str(&mut r, root_text);
    push_char(&mut r, '/');
    append_str(&mut r, key_text);
    proof {
        reveal_strlit("/");
    }
    r
}

/// The path of the details page of the token `root_text` as `key_principal`
/// holds it.
pub fn token_info_path(root_text: &str, key_principal: Option<&PrincipalId>) -> (r: String)
    ensures
        r@ == info_path(
            root_text@,
            match key_principal {
                Some(k) => Some(k@),
                None => None,
            },
        ),
{
    match key_principal {
        Some(k) => {
            let t = k.to_text();
            token_info_path_of_text(root_text, t.as_str())
        },
        None => {
            let r = token_info_path_of_text(root_text, "");
            proof {
                reveal_strlit("");
                assert(info_path_text(root_text@, ""@) =~= info_path_text(
                    root_text@,
                    Seq::empty(),
                ));
            }
            r
        },
    }
}

/// The path of the page that sends the token `root_text`.
pub fn token_transfer_path(root_text: &str) -> (r: String)
    ensures
        r@ == "/token/transfer/"@ + root_text@,
{
    let mut r = owned("/token/transfer/");
    append_str(&mut r, root_text);
    r
}

/// Calls `str::to_lowercase`, whose result is the one `lowercase` names.
#[verifier::external_body]
fn to_lowercase(s: &str) -> (r: String)
    ensures
        r@ == lowercase(s@),
{
    s.to_lowercase()
}

/// What `str::to_lowercase` makes of a text: each character replaced by its
/// Unicode lower-case mapping.
pub uninterp spec fn lowercase(s: Seq<char>) -> Seq<char>;

/// The root a wallet card links to: the token's root principal in text, or,
/// for a token without one, its name in lower case.
pub fn wallet_card_root(root: Option<&PrincipalId>, name: &str) -> (r: String)
    ensures
        r@ == (match root {
            Some(p) => principal_text(p@),
            None => lowercase(name@),
        }),
{
    match root {
        Some(p) => p.to_text(),
        None => to_lowercase(name),
    }
}

/// Whether the airdrop button of a wallet card is disabled: the token has no
/// owner, or the airdrop has been claimed.
pub fn airdrop_disabled(has_owner: bool, claimed: bool) -> (r: bool)
    ensures
        r == (has_owner && claimed || !has_owner),
{
    has_owner && claimed || !has_owner
}

/// Whether an airdrop request stops after showing the popup: it was claimed
/// and no request is under way.
pub fn airdrop_already_claimed(claimed: bool, buffering: bool) -> (r: bool)
    ensures
        r == (claimed && !buffering),
{
    claimed && !buffering
}

/// How many e8s make one token.
pub const E8S_PER_TOKEN: u128 = 100_000_000;

/// The amount an airdrop request asks for, in e8s, for `amount` whole tokens.
pub fn airdrop_request_e8s(amount: u64) -> (r: u128)
    ensures
        r == amount * E8S_PER_TOKEN,
{
    (amount as u128) * E8S_PER_TOKEN
}

/// Whether the page shows the airdrop offer, and for how much: the link
/// carries an amount, the viewer has not claimed the airdrop, the link was
/// shared by the token's owner (both absent counts as the same), and the
/// viewer is not that principal.
pub fn airdrop_page_amount(
    airdrop_amt: Option<u64>,
    claimed: bool,
    owner: Option<&PrincipalId>,
    key_principal: Option<&PrincipalId>,
    viewer_is_key: bool,
) -> (r: Option<u64>)
    ensures
        r == (match airdrop_amt {
            Some(amt) => if !claimed && (match (owner, key_principal) {
                (Some(o), Some(k)) => o@ == k@,
                (None, None) => true,
                _ => false,
            }) && !viewer_is_key {
                Some(amt)
            } else {
                None
            },
            None => None,
        }),
{
    match airdrop_amt {
        None => None,
        Some(amt) => {
            let same_owner = match (owner, key_principal) {
                (Some(o), Some(k)) => o.same_as(k),
                (None, None) => true,
                _ => false,
            };
            if !claimed && same_owner && !viewer_is_key {
                Some(amt)
            } else {
                None
            }
        },
    }
}

/// Whether the viewer is the principal the page is for.
pub fn viewer_is_key(viewer: &PrincipalId, key_principal: Option<&PrincipalId>) -> (r: bool)
    ensures
        r == (key_principal matches Some(k) && k@ == viewer@),
{
    match key_principal {
        Some(k) => viewer.same_as(k),
        None => false,
    }
}

/// Whether the viewer has claimed the token's airdrop, as the page takes it:
/// only a user's token has an airdrop, so for the utility tokens it counts as
/// claimed; for a user's token the ledger's answer decides.
pub fn viewer_airdrop_claimed(kind: RootKind, status: bool) -> (r: bool)
    ensures
        r == (kind != RootKind::Other || status),
{
    match kind {
        RootKind::Other => status,
        _ => true,
    }
}

/// The logo's blur after a tap: a token marked not safe for work toggles it,
/// any other keeps it.
pub fn toggle_blur(is_nsfw: bool, blurred: bool) -> (r: bool)
    ensures
        r == (if is_nsfw {
            !blurred
        } else {
            blurred
        }),
{
    if is_nsfw {
        !blurred
    } else {
        blurred
    }
}

/// What the ledger says of the cents a player may withdraw.
#[derive(Clone, Copy, Debug, PartialEq, Eq, Structural)]
pub enum WithdrawalState {
    /// This many cents can be withdrawn.
    Value(u128),
    /// This many more cents must be earned first.
    NeedMoreEarnings(u128),
}

/// The note beside the withdraw button.
#[derive(Clone, Copy, Debug, PartialEq, Eq, Structural)]
pub enum WithdrawNote {
    /// "Cents you can withdraw".
    CanWithdraw,
    /// "Earn ... Cents more to unlock", with the amount in e8s.
    EarnMore { amount_e8s: u128 },
}

/// What the cents card shows of withdrawals.
#[derive(Clone, Copy, Debug, PartialEq, Eq, Structural)]
pub struct WithdrawalSummary {
    pub withdrawable: bool,
    pub note: Option<WithdrawNote>,
    /// The amount that can be withdrawn, in e8s.
    pub balance_e8s: Option<u128>,
}

/// The amount in a withdrawal state, whose cents the card shows as e8s (one
/// cent is a hundred of the ledger's units, shown with eight decimals).
pub open spec fn withdrawal_amount(state: WithdrawalState) -> u128 {
    match state {
        WithdrawalState::Value(v) => v,
        WithdrawalState::NeedMoreEarnings(v) => v,
    }
}

/// What the card shows: a withdrawable amount opens the button with its note
/// and amount; an amount still to earn keeps it closed with a note; nothing
/// known shows nothing. Amounts are held as `u128`, the widest integer type,
/// so the amount in e8s must fit in it.
pub fn withdrawal_summary(state: Option<WithdrawalState>) -> (r: WithdrawalSummary)
    requires
        state matches Some(s) ==> withdrawal_amount(s) * 100 <= u128::MAX,
    ensures
        r == (match state {
            Some(WithdrawalState::Value(v)) => WithdrawalSummary {
                withdrawable: true,
                note: Some(WithdrawNote::CanWithdraw),
                balance_e8s: Some((v * 100) as u128),
            },
            Some(WithdrawalState::NeedMoreEarnings(v)) => WithdrawalSummary {
                withdrawable: false,
                note: Some(WithdrawNote::EarnMore { amount_e8s: (v * 100) as u128 }),
                balance_e8s: None,
            },
            None => WithdrawalSummary { withdrawable: false, note: None, balance_e8s: None },
        }),
{
    match state {
        Some(WithdrawalState::Value(v)) => WithdrawalSummary {
            withdrawable: true,
            note: Some(WithdrawNote::CanWithdraw),
            balance_e8s: Some(v * 100),
        },
        Some(WithdrawalState::NeedMoreEarnings(v)) => WithdrawalSummary {
            withdrawable: false,
            note: Some(WithdrawNote::EarnMore { amount_e8s: v * 100 }),
            balance_e8s: None,
        },
        None => WithdrawalSummary { withdrawable: false, note: None, balance_e8s: None },
    }
}

/// The text of a withdrawal note, with the amount as the card formats it.
pub fn withdraw_note_text(note: WithdrawNote, amount_text: &str) -> (r: String)
    ensures
        r@ == (match note {
            WithdrawNote::CanWithdraw => "Cents you can withdraw"@,
            WithdrawNote::EarnMore { .. } => "Earn "@ + amount_text@ + " Cents more to unlock"@,
        }),
{
    match note {
        WithdrawNote::CanWithdraw => owned("Cents you can withdraw"),
        WithdrawNote::EarnMore { .. } => {
            let mut r = owned("Earn ");
            append_str(&mut r, amount_text);
            append_str(&mut r, " Cents more to unlock");
            r
        },
    }
}

/// What a tap on the withdraw button does.
#[derive(Clone, Copy, Debug, PartialEq, Eq, Structural)]
pub enum WithdrawAction {
    ShowLogin,
    OpenWithdrawPage,
}

/// A signed-out player is asked to sign in; a signed-in one goes to the
/// withdrawal page.
pub fn withdraw_action(connected: bool) -> (r: WithdrawAction)
    ensures
        r == (if connected {
            WithdrawAction::OpenWithdrawPage
        } else {
            WithdrawAction::ShowLogin
        }),
{
    if connected {
        WithdrawAction::OpenWithdrawPage
    } else {
        WithdrawAction::ShowLogin
    }
}

/// The path of the withdrawal page.
pub fn withdraw_path() -> (r: &'static str)
    ensures
        r@ == "/pnd/withdraw"@,
{
    "/pnd/withdraw"
}

/// The heading of a profile's token list when it is empty: an invitation on
/// one's own profile, a remark on someone else's; none when tokens are listed.
pub fn profile_tokens_heading(empty: bool, own_profile: bool) -> (r: Option<&'static str>)
    ensures
        r matches Some(t) ==> empty && t@ == (if own_profile {
            "Create your own"@
        } else {
            "They have not created any"@
        }),
        r is None <==> !empty,
{
    if !empty {
        None
    } else if own_profile {
        Some("Create your own")
    } else {
        Some("They have not created any")
    }
}

/// Whether a token's airdrop counts as claimed on a profile: an unknown
/// status (a token without owner or root) counts as claimed.
pub fn profile_airdrop_claimed(status: Option<bool>) -> (r: bool)
    ensures
        r == (match status {
            Some(b) => b,
            None => true,
        }),
{
    match status {
        Some(b) => b,
        None => true,
    }
}

/// The tokens of a profile, each with whether its airdrop has been claimed
/// (`None` where that could not be told), in order.
pub fn pair_airdrop_status<T>(tokens: Vec<T>, statuses: Vec<Option<bool>>) -> (r: Vec<(T, Option<bool>)>)
    requires
        tokens@.len() == statuses@.len(),
    ensures
        r@.len() == tokens@.len(),
        forall|i: int| 0 <= i < r@.len() ==> #[trigger] r@[i] == (tokens@[i], statuses@[i]),
{
    let ghost orig = tokens@;
    let mut rest = tokens;
    let mut out: Vec<(T, Option<bool>)> = Vec::new();
    while rest.len() > 0
        invariant
            orig.len() == statuses@.len(),
            out@.len() + rest@.len() == orig.len(),
            rest@ == orig.skip(out@.len() as int),
            forall|i: int| 0 <= i < out@.len() ==> #[trigger] out@[i] == (orig[i], statuses@[i]),
        decreases rest@.len(),
    {
        let k = out.len();
        let t = rest.remove(0);
        assert(t == orig[k as int]);
        let st = statuses[k];
        out.push((t, st));
        assert(rest@ =~= orig.skip(out@.len() as int));
    }
    out
}

} // verus!
