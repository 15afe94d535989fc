//! The server-side steps after a token is created: whether the server can
//! fund the swap, which neuron's tokens to claim for the creator, how many
//! to pass on to the creator's canister, and when to retry a claim.
use vstd::prelude::*;
use crate::principal::PrincipalId;
use crate::text::{append_str, contains_text, text_contains};
use crate::upload::owned;

verus! {

/// The ICP the server puts into a new token's swap, in e8s.
pub const SWAP_PARTICIPATION_E8S: u128 = 1_000_000;

/// The ICP ledger's transaction fee, in e8s.
pub const ICP_TX_FEE: u128 = 10_000;

/// Whether the server's ICP balance covers its swap participation and the fee.
pub fn server_has_funds(balance_e8s: u128) -> (r: bool)
    ensures
        r == (balance_e8s >= 1_000_000 + 10_000),
{
    balance_e8s >= SWAP_PARTICIPATION_E8S + ICP_TX_FEE
}

/// A neuron of the creator, as the claim reads it.
#[derive(Clone, Copy, Debug, PartialEq, Eq, Structural)]
pub struct NeuronSummary {
    pub cached_neuron_stake_e8s: u64,
    /// Whether the neuron's dissolve delay is set to zero seconds.
    pub dissolves_now: bool,
}

pub open spec fn claim_neuron_spec(neurons: Seq<NeuronSummary>) -> Option<nat> {
    if neurons.len() < 2 || neurons[1].cached_neuron_stake_e8s == 0 {
        None
    } else if neurons[1].dissolves_now {
        Some(1)
    } else {
        Some(0)
    }
}

/// With at least two neurons and a staked second one, the second neuron is
/// claimed exactly when it dissolves at once, else the first; the first
/// neuron's dissolve state plays no part.
pub proof fn lemma_claim_neuron_choice(neurons: Seq<NeuronSummary>, first_dissolves_now: bool)
    requires
        neurons.len() >= 2,
        neurons[1].cached_neuron_stake_e8s > 0,
    ensures
        claim_neuron_spec(neurons) == Some(if neurons[1].dissolves_now { 1nat } else { 0nat }),
        claim_neuron_spec(neurons.update(
            0,
            NeuronSummary { dissolves_now: first_dissolves_now, ..neurons[0] },
        )) == claim_neuron_spec(neurons),
{
}

/// The neuron whose stake is claimed: nothing to claim unless the creator has
/// at least two neurons and the second holds a stake; then the second if it
/// dissolves at once, else the first.
pub fn select_claim_neuron(neurons: &Vec<NeuronSummary>) -> (r: Option<usize>)
    ensures
        match r {
            Some(i) => claim_neuron_spec(neurons@) == Some(i as nat),
            None => claim_neuron_spec(neurons@) is None,
        },
{
    if neurons.len() < 2 || neurons[1].cached_neuron_stake_e8s == 0 {
        return None;
    }
    if neurons[1].dissolves_now {
        Some(1)
    } else {
        Some(0)
    }
}

/// The part of a claimed stake passed on to the creator's canister: a fifth,
/// rounded down.
pub fn claim_distribution_amount(stake_e8s: u64) -> (r: u128)
    ensures
        r == stake_e8s * 20 / 100,
{
    stake_e8s as u128 * 20 / 100
}

/// How many times a claim is tried before it is given up.
pub const MAX_CLAIM_TRIES: u32 = 10;

/// Whether another try is allowed after `tries` tries.
pub fn may_try_claim(tries: u32) -> (r: bool)
    ensures
        r == (tries <= 10),
{
    tries <= MAX_CLAIM_TRIES
}

/// The governance canister's answer to a disburse request.
pub enum DisburseReply {
    Disbursed,
    Refused { message: String },
    Unexpected,
}

/// What the claim does next.
#[derive(Clone, Copy, Debug, PartialEq, Eq, Structural)]
pub enum ClaimAction {
    /// The stake was paid out.
    Finish,
    /// The token is not ready yet: wait, then try again.
    Retry,
    /// Give up with an error.
    Fail,
}

pub open spec fn claim_action_spec(reply: &DisburseReply) -> ClaimAction {
    match reply {
        DisburseReply::Disbursed => ClaimAction::Finish,
        DisburseReply::Refused { message } => if contains_text(message@, "PreInitializationSwap"@) {
            ClaimAction::Retry
        } else {
            ClaimAction::Fail
        },
        DisburseReply::Unexpected => ClaimAction::Fail,
    }
}

/// The next step of a claim after the governance canister answered `reply`:
/// done when paid out, retry when the swap has not initialised yet, else fail.
pub fn next_claim_action(reply: &DisburseReply) -> (r: ClaimAction)
    ensures
        r == claim_action_spec(reply),
{
    match reply {
        DisburseReply::Disbursed => ClaimAction::Finish,
        DisburseReply::Refused { message } => {
            let s = crate::text::chars_of(message.as_str());
            let pat = crate::text::chars_of("PreInitializationSwap");
            if text_contains(&s, &pat) {
                ClaimAction::Retry
            } else {
                ClaimAction::Fail
            }
        },
        DisburseReply::Unexpected => ClaimAction::Fail,
    }
}

/// The next step of the claim loop.
#[derive(Clone, Copy, Debug, PartialEq, Eq, Structural)]
pub enum ClaimStep {
    /// The stake was paid out.
    Finish,
    /// Give up with the governance canister's error.
    Fail,
    /// Wait, then make another try.
    RetryAfterWait,
    /// Give up: the claim was tried more than ten times.
    GiveUp,
}

/// The claim loop's next step after its `tries`-th try was answered with
/// `reply`: a retry is allowed only while no more than ten tries were made,
/// else the claim gives up.
pub fn claim_step(tries: u32, reply: &DisburseReply) -> (r: ClaimStep)
    ensures
        r == (match claim_action_spec(reply) {
            ClaimAction::Finish => ClaimStep::Finish,
            ClaimAction::Fail => ClaimStep::Fail,
            ClaimAction::Retry => if tries <= MAX_CLAIM_TRIES {
                ClaimStep::RetryAfterWait
            } else {
                ClaimStep::GiveUp
            },
        }),
{
    match next_claim_action(reply) {
        ClaimAction::Finish => ClaimStep::Finish,
        ClaimAction::Fail => ClaimStep::Fail,
        ClaimAction::Retry => if may_try_claim(tries) {
            ClaimStep::RetryAfterWait
        } else {
            ClaimStep::GiveUp
        },
    }
}

/// The ICP put into a new token's sale ticket, in e8s.
pub const SALE_TICKET_E8S: u64 = 100_000;

/// The account a ledger transfer goes to.
pub struct Recipient {
    pub owner: PrincipalId,
    pub subaccount: Option<Vec<u8>>,
}

/// A ledger transfer, as the ICP ledger's `icrc1_transfer` takes it.
pub struct Transaction {
    pub to: Recipient,
    pub fee: Option<u128>,
    pub memo: Option<Vec<u8>>,
    pub from_subaccount: Option<Vec<u8>>,
    pub created_at_time: Option<u64>,
    pub amount: u128,
}

/// The server's transfer into a new token's swap: the participation amount,
/// memo `[0]`, the ledger's default fee, to the swap canister under the
/// server's own subaccount there.
pub fn swap_participation_transfer(swap_canister: PrincipalId, buyer_subaccount: Vec<u8>) -> (r:
    Transaction)
    ensures
        r.to.owner@ == swap_canister@,
        r.to.subaccount matches Some(s) && s@ == buyer_subaccount@,
        r.fee is None,
        r.memo matches Some(m) && m@ == seq![0u8],
        r.from_subaccount is None,
        r.created_at_time is None,
        r.amount == SWAP_PARTICIPATION_E8S,
{
    let mut memo: Vec<u8> = Vec::new();
    memo.push(0u8);
    Transaction {
        to: Recipient { owner: swap_canister, subaccount: Some(buyer_subaccount) },
        fee: None,
        memo: Some(memo),
        from_subaccount: None,
        created_at_time: None,
        amount: SWAP_PARTICIPATION_E8S,
    }
}

/// What the swap answered to the sale ticket request, checked: no answer is
/// the error "failed to perform swap new_sale_ticket"; a refusal adds its
/// description (`detail`) after a space.
pub fn check_sale_ticket(result: Option<Result<(), String>>) -> (r: Result<(), String>)
    ensures
        match result {
            Some(Ok(())) => r is Ok,
            None => r matches Err(e) && e@ == "failed to perform swap new_sale_ticket"@,
            Some(Err(detail)) => r matches Err(e) && e@ == "failed to perform swap new_sale_ticket "@
                + detail@,
        },
{
    match result {
        Some(Ok(())) => Ok(()),
        None => Err(owned("failed to perform swap new_sale_ticket")),
        Some(Err(detail)) => {
            let mut e = owned("failed to perform swap new_sale_ticket ");
            append_str(&mut e, detail.as_str());
            Err(e)
        },
    }
}

/// What the ledger answered to the swap transfer, checked: a refusal is the
/// error "failed to perform swap icrc1_transfer" followed by its description.
pub fn check_swap_transfer(result: Result<u128, String>) -> (r: Result<(), String>)
    ensures
        match result {
            Ok(_) => r is Ok,
            Err(detail) => r matches Err(e) && e@ == "failed to perform swap icrc1_transfer "@
                + detail@,
        },
{
    match result {
        Ok(_) => Ok(()),
        Err(detail) => {
            let mut e = owned("failed to perform swap icrc1_transfer ");
            append_str(&mut e, detail.as_str());
            Err(e)
        },
    }
}

/// What the token's ledger answered to the transfer of the creator's share to
/// the creator's canister, checked: any failure, refused or not delivered,
/// leaves the token in a state that cannot be repaired.
pub fn check_claim_transfer(result: Result<Result<u128, ()>, ()>) -> (r: Result<(), String>)
    ensures
        match result {
            Ok(Ok(_)) => r is Ok,
            _ => r matches Err(e) && e@ == "Token is in invalid state"@,
        },
{
    match result {
        Ok(Ok(_)) => Ok(()),
        _ => Err(owned("Token is in invalid state")),
    }
}

/// The error when a claim has been tried too often.
pub fn claim_give_up_error() -> (r: String)
    ensures
        r@ == "failed to claim tokens after more than 10 tries"@,
{
    owned("failed to claim tokens after more than 10 tries")
}

} // verus!
