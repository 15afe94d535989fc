//! Wallet helpers: transaction kinds and their display, the checks of the
//! token transfer form, token swap approvals, and share links.
use vstd::prelude::*;
use crate::principal::{PrincipalId, principal_text};
use crate::text::{append_str, push_char};
use crate::upload::owned;
use crate::token_txn::PageEntry;
use rand::rngs::SmallRng;
use rand::{RngCore, SeedableRng};

verus! {

/// How a transaction moves tokens for the wallet's owner.
#[derive(Clone, Copy, Debug, PartialEq, Eq, Structural)]
pub enum TxnDirection {
    Transaction,
    Added,
    Deducted,
}

/// The icon shown beside a transaction.
#[derive(Clone, Copy, Debug, PartialEq, Eq, Structural)]
pub enum TxnIcon {
    /// Arrows left and right.
    ArrowLeftRight,
    /// An arrow down.
    ArrowDown,
    /// An arrow up.
    ArrowUp,
}

/// The icon of a transaction in `direction`.
pub fn direction_to_icon(direction: TxnDirection) -> (r: TxnIcon)
    ensures
        r == (match direction {
            TxnDirection::Transaction => TxnIcon::ArrowLeftRight,
            TxnDirection::Added => TxnIcon::ArrowDown,
            TxnDirection::Deducted => TxnIcon::ArrowUp,
        }),
{
    match direction {
        TxnDirection::Transaction => TxnIcon::ArrowLeftRight,
        TxnDirection::Added => TxnIcon::ArrowDown,
        TxnDirection::Deducted => TxnIcon::ArrowUp,
    }
}

/// The sign put before a transaction's amount.
pub fn amount_sign(direction: TxnDirection) -> (r: &'static str)
    ensures
        r@ == (match direction {
            TxnDirection::Added => "+"@,
            TxnDirection::Deducted => "-"@,
            TxnDirection::Transaction => ""@,
        }),
{
    match direction {
        TxnDirection::Added => "+",
        TxnDirection::Deducted => "-",
        TxnDirection::Transaction => "",
    }
}

/// Whether a transaction's amount is shown in green: only when tokens were
/// added.
pub fn amount_is_green(direction: TxnDirection) -> (r: bool)
    ensures
        r == (direction == TxnDirection::Added),
{
    match direction {
        TxnDirection::Added => true,
        _ => false,
    }
}

/// What a transaction did, with the principals it names.
pub enum TxnInfoType {
    Mint { to: PrincipalId },
    Burn { from: PrincipalId },
    Received { from: PrincipalId },
    Sent { to: PrincipalId },
    Transfer { from: PrincipalId, to: PrincipalId },
}

/// The kind of a transaction, without its principals.
#[derive(Clone, Copy, Debug, PartialEq, Eq, Structural)]
pub enum TxnKind {
    Mint,
    Burn,
    Received,
    Sent,
    Transfer,
}

impl TxnInfoType {
    pub open spec fn kind(&self) -> TxnKind {
        match self {
            TxnInfoType::Mint { .. } => TxnKind::Mint,
            TxnInfoType::Burn { .. } => TxnKind::Burn,
            TxnInfoType::Received { .. } => TxnKind::Received,
            TxnInfoType::Sent { .. } => TxnKind::Sent,
            TxnInfoType::Transfer { .. } => TxnKind::Transfer,
        }
    }

    /// The principals the transaction names, in the order they are shown.
    pub open spec fn principals(&self) -> Seq<Seq<u8>> {
        match self {
            TxnInfoType::Mint { to } => seq![to@],
            TxnInfoType::Burn { from } => seq![from@],
            TxnInfoType::Received { from } => seq![from@],
            TxnInfoType::Sent { to } => seq![to@],
            TxnInfoType::Transfer { from, to } => seq![from@, to@],
        }
    }
}

/// Which side of a transaction a shown principal is on.
#[derive(Clone, Copy, Debug, PartialEq, Eq, Structural)]
pub enum PartyRole {
    From,
    To,
}

/// The label shown above a principal of a transaction.
pub fn party_label(role: PartyRole) -> (r: &'static str)
    ensures
        r@ == (match role {
            PartyRole::From => "From"@,
            PartyRole::To => "To"@,
        }),
{
    match role {
        PartyRole::From => "From",
        PartyRole::To => "To",
    }
}

/// The principals a transaction view shows, with their sides: on a page
/// opened for a principal, mints and burns show none (they concern that
/// principal); otherwise each principal the transaction names, sender first.
pub open spec fn shown_parties(info: TxnInfoType, on_principal_page: bool) -> Seq<
    (PartyRole, Seq<u8>),
> {
    match info {
        TxnInfoType::Mint { to } => if on_principal_page {
            seq![]
        } else {
            seq![(PartyRole::To, to@)]
        },
        TxnInfoType::Burn { from } => if on_principal_page {
            seq![]
        } else {
            seq![(PartyRole::From, from@)]
        },
        TxnInfoType::Received { from } => seq![(PartyRole::From, from@)],
        TxnInfoType::Sent { to } => seq![(PartyRole::To, to@)],
        TxnInfoType::Transfer { from, to } => seq![(PartyRole::From, from@), (PartyRole::To, to@)],
    }
}

/// A sent transaction shows exactly its recipient, as the receiving side, and
/// a received one exactly its sender, as the sending side, whether or not the
/// page is opened for a principal.
pub proof fn lemma_sent_and_received_parties(p: PrincipalId, on_principal_page: bool)
    ensures
        shown_parties(TxnInfoType::Sent { to: p }, on_principal_page) == seq![(PartyRole::To, p@)],
        shown_parties(TxnInfoType::Received { from: p }, on_principal_page) == seq![(PartyRole::From, p@)],
{
}

/// The principals to show for a transaction, each with its side.
pub fn transaction_parties(info: &TxnInfoType, on_principal_page: bool) -> (r: Vec<
    (PartyRole, PrincipalId),
>)
    ensures
        r@.len() == shown_parties(*info, on_principal_page).len(),
        forall|i: int|
            0 <= i < r@.len() ==> (#[trigger] r@[i]).0 == shown_parties(*info, on_principal_page)[i].0
                && r@[i].1@ == shown_parties(*info, on_principal_page)[i].1,
{
    let mut r: Vec<(PartyRole, PrincipalId)> = Vec::new();
    match info {
        TxnInfoType::Mint { to } => {
            if !on_principal_page {
                r.push((PartyRole::To, to.duplicate()));
            }
        },
        TxnInfoType::Burn { from } => {
            if !on_principal_page {
                r.push((PartyRole::From, from.duplicate()));
            }
        },
        TxnInfoType::Received { from } => {
            r.push((PartyRole::From, from.duplicate()));
        },
        TxnInfoType::Sent { to } => {
            r.push((PartyRole::To, to.duplicate()));
        },
        TxnInfoType::Transfer { from, to } => {
            r.push((PartyRole::From, from.duplicate()));
            r.push((PartyRole::To, to.duplicate()));
        },
    }
    r
}

/// The kind `tag_from_u32` picks: the remainder by four.
pub open spec fn tag_from_u32_kind(v: u32) -> TxnKind {
    if v % 4 == 0 {
        TxnKind::Mint
    } else if v % 4 == 1 {
        TxnKind::Burn
    } else if v % 4 == 2 {
        TxnKind::Received
    } else {
        TxnKind::Sent
    }
}

/// A made-up transaction tag for the history mock: the remainder of `v` by
/// four picks mint, burn, received or sent, each naming the anonymous
/// principal.
pub fn tag_from_u32(v: u32) -> (r: TxnInfoType)
    ensures
        r.kind() == tag_from_u32_kind(v),
        forall|i: int| 0 <= i < r.principals().len() ==> r.principals()[i] == seq![4u8],
{
    let m = v % 4;
    if m == 0 {
        TxnInfoType::Mint { to: PrincipalId::anonymous() }
    } else if m == 1 {
        TxnInfoType::Burn { from: PrincipalId::anonymous() }
    } else if m == 2 {
        TxnInfoType::Received { from: PrincipalId::anonymous() }
    } else {
        TxnInfoType::Sent { to: PrincipalId::anonymous() }
    }
}

#[verifier::external_type_specification]
#[verifier::external_body]
pub struct ExSmallRng(SmallRng);

/// Calls `SmallRng::seed_from_u64`. Nothing is stated of the generator.
#[verifier::external_body]
fn small_rng_from_seed(seed: u64) -> (r: SmallRng) {
    SmallRng::seed_from_u64(seed)
}

/// Calls `RngCore::next_u64` on a `SmallRng`: any `u64` may come out.
#[verifier::external_body]
fn small_rng_next_u64(rng: &mut SmallRng) -> (r: u64) {
    rng.next_u64()
}

/// Calls `RngCore::next_u32` on a `SmallRng`: any `u32` may come out.
#[verifier::external_body]
fn small_rng_next_u32(rng: &mut SmallRng) -> (r: u32) {
    rng.next_u32()
}

/// A made-up wallet transaction.
pub struct MockTxn {
    /// The amount, in e8s.
    pub amount_e8s: u64,
    pub timestamp: u64,
    pub tag: TxnInfoType,
    pub id: u64,
}

/// The largest amount a made-up transaction moves, in e8s.
pub const MOCK_MAX_AMOUNT: u64 = 3000;

/// The made-up entry built from four draws of the generator: the amount is the
/// first draw modulo 3001, then the timestamp, the tag (by `tag_from_u32`)
/// and the id.
pub fn mock_txn(amount_draw: u64, timestamp: u64, tag_draw: u32, id: u64) -> (r: MockTxn)
    ensures
        r.amount_e8s == amount_draw % 3001,
        r.timestamp == timestamp,
        r.id == id,
        r.tag.kind() == tag_from_u32_kind(tag_draw),
        forall|i: int| 0 <= i < r.tag.principals().len() ==> r.tag.principals()[i] == seq![4u8],
{
    MockTxn { amount_e8s: amount_draw % (MOCK_MAX_AMOUNT + 1), timestamp, tag: tag_from_u32(tag_draw), id }
}

/// Made-up history entries `from..end`, drawn from a generator seeded with
/// `seed`: one entry per position, each moving at most 3000 e8s and naming
/// only the anonymous principal, and each a mint, burn, receipt or sending
/// (never a transfer). The generator's draws are not stated.
pub fn mock_history_page(seed: u64, from: usize, end: usize) -> (r: Vec<MockTxn>)
    ensures
        r@.len() == if from <= end { end - from } else { 0 },
        forall|i: int| 0 <= i < r@.len() ==> #[trigger] r@[i].amount_e8s <= MOCK_MAX_AMOUNT,
        forall|i: int| 0 <= i < r@.len() ==> !((#[trigger] r@[i]).tag is Transfer),
        forall|i: int, j: int|
            0 <= i < r@.len() && 0 <= j < r@[i].tag.principals().len() ==> #[trigger] r@[i].tag.principals()[j]
                == seq![4u8],
{
    let mut rng = small_rng_from_seed(seed);
    let mut data: Vec<MockTxn> = Vec::new();
    let mut i = from;
    while i < end
        invariant
            from <= end ==> from <= i <= end,
            from > end ==> i == from,
            data@.len() == i - from,
            forall|k: int| 0 <= k < data@.len() ==> #[trigger] data@[k].amount_e8s <= MOCK_MAX_AMOUNT,
            forall|k: int| 0 <= k < data@.len() ==> !((#[trigger] data@[k]).tag is Transfer),
            forall|k: int, j: int|
                0 <= k < data@.len() && 0 <= j < data@[k].tag.principals().len() ==> #[trigger] data@[k].tag.principals()[j]
                    == seq![4u8],
        decreases end - i,
    {
        let amount_draw = small_rng_next_u64(&mut rng);
        let timestamp = small_rng_next_u64(&mut rng);
        let tag_draw = small_rng_next_u32(&mut rng);
        let id = small_rng_next_u64(&mut rng);
        data.push(mock_txn(amount_draw, timestamp, tag_draw, id));
        i = i + 1;
    }
    data
}

/// The made-up transaction history shown while the wallet runs without a
/// ledger.
pub struct MockHistoryProvider;

impl MockHistoryProvider {
    /// The page `from..end` of made-up transactions, drawn from a generator
    /// seeded with `seed`; the made-up history never ends.
    pub fn get_by_cursor(&self, seed: u64, from: usize, end: usize) -> (r: PageEntry<MockTxn>)
        ensures
            !r.end,
            r.data@.len() == if from <= end { end - from } else { 0 },
            forall|i: int| 0 <= i < r.data@.len() ==> #[trigger] r.data@[i].amount_e8s <= MOCK_MAX_AMOUNT,
            forall|i: int| 0 <= i < r.data@.len() ==> !((#[trigger] r.data@[i]).tag is Transfer),
            forall|i: int, j: int|
                0 <= i < r.data@.len() && 0 <= j < r.data@[i].tag.principals().len()
                    ==> #[trigger] r.data@[i].tag.principals()[j] == seq![4u8],
    {
        PageEntry { data: mock_history_page(seed, from, end), end: false }
    }
}

/// The most that can be sent: the balance less the fee, or nothing when the
/// balance does not exceed the fee.
pub fn max_transfer_amount(balance: u128, fees: u128) -> (r: u128)
    ensures
        r == if balance > fees { balance - fees } else { 0 },
{
    if balance > fees {
        balance - fees
    } else {
        0
    }
}

/// Why an amount cannot be sent.
#[derive(Clone, Copy, Debug, PartialEq, Eq, Structural)]
pub enum TransferAmountError {
    Invalid,
    InsufficientFunds,
    Zero,
}

impl TransferAmountError {
    pub open spec fn spec_message(self) -> Seq<char> {
        match self {
            TransferAmountError::Invalid => "Invalid amount"@,
            TransferAmountError::InsufficientFunds => "Sorry, there are not enough funds in this account"@,
            TransferAmountError::Zero => "Cannot send 0 tokens"@,
        }
    }

    /// The text shown under the amount field.
    pub fn message(&self) -> (r: String)
        ensures
            r@ == self.spec_message(),
    {
        match self {
            TransferAmountError::Invalid => owned("Invalid amount"),
            TransferAmountError::InsufficientFunds => owned(
                "Sorry, there are not enough funds in this account",
            ),
            TransferAmountError::Zero => owned("Cannot send 0 tokens"),
        }
    }
}

/// Checks the amount to send, given as the value that the text of the field
/// reads as (`None` when it reads as no amount) and the most that can be sent.
pub fn validate_transfer_amount(parsed: Option<u128>, max_amount: u128) -> (r: Result<u128, TransferAmountError>)
    ensures
        r == (match parsed {
            None => Err(TransferAmountError::Invalid),
            Some(a) => if a > max_amount {
                Err(TransferAmountError::InsufficientFunds)
            } else if a == 0 {
                Err(TransferAmountError::Zero)
            } else {
                Ok(a)
            },
        }),
{
    match parsed {
        None => Err(TransferAmountError::Invalid),
        Some(a) => if a > max_amount {
            Err(TransferAmountError::InsufficientFunds)
        } else if a == 0 {
            Err(TransferAmountError::Zero)
        } else {
            Ok(a)
        },
    }
}

/// The destination from what the field's text parsed to: the principal, or
/// the error text "Invalid principal" when it spells none.
pub fn destination_from_parse(parsed: Option<PrincipalId>) -> (r: Result<PrincipalId, String>)
    ensures
        match parsed {
            Some(p) => r matches Ok(q) && q@ == p@,
            None => r matches Err(e) && e@ == "Invalid principal"@,
        },
{
    match parsed {
        Some(p) => Ok(p),
        None => Err(owned("Invalid principal")),
    }
}

/// Reads the destination field: the principal it spells, or the error text
/// "Invalid principal".
pub fn validate_destination(text: &str) -> (r: Result<PrincipalId, String>)
    ensures
        match r {
            Ok(p) => crate::principal::principal_parse(text@) == Some(p@),
            Err(e) => crate::principal::principal_parse(text@) is None && e@ == "Invalid principal"@,
        },
{
    destination_from_parse(PrincipalId::from_text(text))
}

/// Whether the transfer form may be sent: the amount and the destination
/// were both read without error, and no transfer is under way.
pub fn send_enabled(amount_ok: bool, destination_ok: bool, sending: bool) -> (r: bool)
    ensures
        r == (amount_ok && destination_ok && !sending),
{
    amount_ok && destination_ok && !sending
}

/// The root of a token the wallet can send: a token created on the platform,
/// named by its root canister, or a chain-key token named by its ledger.
pub enum SendableRoot {
    Other(PrincipalId),
    Btc { ledger: PrincipalId },
    Usdc { ledger: PrincipalId },
}

/// How a transfer is made.
pub enum TransferRoute {
    /// Through the ledger that the token's root canister lists.
    ViaRoot { root: PrincipalId },
    /// Straight through the token's own ledger.
    ViaLedger { ledger: PrincipalId },
}

/// The route of a transfer of the token with root `root`: a platform token
/// goes through its root canister's ledger; a chain-key token through its own
/// ledger.
pub fn transfer_route(root: SendableRoot) -> (r: TransferRoute)
    ensures
        match root {
            SendableRoot::Other(p) => r matches TransferRoute::ViaRoot { root: q } && q@ == p@,
            SendableRoot::Btc { ledger } => r matches TransferRoute::ViaLedger { ledger: q } && q@
                == ledger@,
            SendableRoot::Usdc { ledger } => r matches TransferRoute::ViaLedger { ledger: q } && q@
                == ledger@,
        },
{
    match root {
        SendableRoot::Other(p) => TransferRoute::ViaRoot { root: p },
        SendableRoot::Btc { ledger } => TransferRoute::ViaLedger { ledger },
        SendableRoot::Usdc { ledger } => TransferRoute::ViaLedger { ledger },
    }
}

/// How long a swap request stays open: one week, in nanoseconds.
pub const SWAP_REQUEST_EXPIRY: u64 = 7 * 24 * 60 * 60 * 1_000_000_000;

/// The allowance after a swap request: what was approved before plus the
/// amount offered.
pub open spec fn approved_allowance(previous: u128, offered: u128) -> int {
    previous + offered
}

/// The allowance after a swap request is withdrawn: what was approved less
/// the amount that was offered.
pub open spec fn cancelled_allowance(previous: u128, offered: u128) -> int {
    previous - offered
}

/// The allowance to approve for a swap: what was approved before plus the
/// amount offered. Allowances are held as `u128`, the widest integer type;
/// `None` when the sum does not fit in it.
pub fn swap_approval_amount(previous: u128, offered: u128) -> (r: Option<u128>)
    ensures
        r is None <==> previous + offered > u128::MAX,
        r matches Some(v) ==> v == approved_allowance(previous, offered),
{
    previous.checked_add(offered)
}

/// The allowance left when a swap request is withdrawn: what was approved
/// less the amount that was offered, which must not exceed it.
pub fn swap_cancel_amount(previous: u128, offered: u128) -> (r: u128)
    requires
        offered <= previous,
    ensures
        r == cancelled_allowance(previous, offered),
{
    previous - offered
}

/// Withdrawing a swap request gives back the allowance there was before the
/// request was made, for every request whose approval succeeded.
pub proof fn lemma_cancel_undoes_request(previous: u128, offered: u128, approved: u128)
    requires
        approved == approved_allowance(previous, offered),
    ensures
        offered <= approved,
        cancelled_allowance(approved, offered) == previous,
{
}

/// When a swap request made at `now_nanos` expires.
pub fn swap_expiry(now_nanos: u64) -> (r: u64)
    requires
        now_nanos + SWAP_REQUEST_EXPIRY <= u64::MAX,
    ensures
        r == now_nanos + SWAP_REQUEST_EXPIRY,
{
    now_nanos + SWAP_REQUEST_EXPIRY
}

/// The checks before a swap request, in the order they are made: a
/// requestee must be named, then both tokens must support ICRC-2, then the
/// requestee must have a canister. Each failure has its own error.
pub fn swap_request_check(
    key_principal_given: bool,
    token_a_icrc2: bool,
    token_b_icrc2: bool,
    spender_found: bool,
) -> (r: Result<(), String>)
    ensures
        match r {
            Ok(()) => key_principal_given && token_a_icrc2 && token_b_icrc2 && spender_found,
            Err(e) => if !key_principal_given {
                e@ == "Requestee Principal not provided"@
            } else if !token_a_icrc2 {
                e@ == "Token A ICRC 2 not supported"@
            } else if !token_b_icrc2 {
                e@ == "Token B ICRC 2 not supported"@
            } else {
                !spender_found && e@ == "Canister Not Found for the Principal"@
            },
        },
{
    if !key_principal_given {
        return Err(owned("Requestee Principal not provided"));
    }
    if !token_a_icrc2 {
        return Err(owned("Token A ICRC 2 not supported"));
    }
    if !token_b_icrc2 {
        return Err(owned("Token B ICRC 2 not supported"));
    }
    if !spender_found {
        return Err(owned("Canister Not Found for the Principal"));
    }
    Ok(())
}

/// Whether one of the standards is ICRC-2.
pub open spec fn lists_icrc2(v: Seq<String>) -> bool {
    exists|i: int| 0 <= i < v.len() && #[trigger] v[i]@ == "ICRC-2"@
}

/// Whether a ledger that lists `standards` supports ICRC-2; a ledger whose
/// list could not be read (`None`) is taken not to.
pub fn supports_icrc2(standards: Option<&Vec<String>>) -> (r: bool)
    ensures
        r == (match standards {
            Some(v) => lists_icrc2(v@),
            None => false,
        }),
{
    let v = match standards {
        Some(v) => v,
        None => return false,
    };
    let target = owned("ICRC-2");
    let mut i: usize = 0;
    while i < v.len()
        invariant
            standards == Some(v),
            i <= v@.len(),
            target@ == "ICRC-2"@,
            forall|k: int| 0 <= k < i ==> v@[k]@ != "ICRC-2"@,
        decreases v@.len() - i,
    {
        if v[i] == target {
            let ghost j = i as int;
            assert(v@[j]@ == "ICRC-2"@);
            assert(lists_icrc2(v@));
            return true;
        }
        i = i + 1;
    }
    false
}

/// The token roots to offer among the supported outside tokens: those whose
/// metadata could be read and whose balance is not zero, in order.
pub fn eligible_token_roots(checked: Vec<(PrincipalId, Option<u128>)>) -> (r: Vec<PrincipalId>)
    ensures
        r@.map_values(|p: PrincipalId| p@) == checked@.filter(
            |c: (PrincipalId, Option<u128>)| c.1 matches Some(b) && b > 0,
        ).map_values(|c: (PrincipalId, Option<u128>)| c.0@),
{
    let ghost spec_in = checked@;
    let mut out: Vec<PrincipalId> = Vec::new();
    let rest = checked;
    let mut i: usize = 0;
    let n = rest.len();
    while i < n
        invariant
            n == spec_in.len(),
            i <= n,
            rest@ == spec_in,
            out@.map_values(|p: PrincipalId| p@) == spec_in.subrange(0, i as int).filter(
                |c: (PrincipalId, Option<u128>)| c.1 matches Some(b) && b > 0,
            ).map_values(|c: (PrincipalId, Option<u128>)| c.0@),
        decreases n - i,
    {
        let ghost pre = spec_in.subrange(0, i as int);
        let ghost next = spec_in.subrange(0, i + 1);
        assert(next.drop_last() =~= pre);
        assert(next.last() == spec_in[i as int]);
        proof {
            reveal_with_fuel(Seq::filter, 1);
        }
        let keep = match rest[i].1 {
            Some(b) => b > 0,
            None => false,
        };
        if keep {
            let p = rest[i].0.duplicate();
            out.push(p);
            assert(out@.map_values(|p: PrincipalId| p@) =~= pre.filter(
                |c: (PrincipalId, Option<u128>)| c.1 matches Some(b) && b > 0,
            ).map_values(|c: (PrincipalId, Option<u128>)| c.0@).push(spec_in[i as int].0@));
        }
        i = i + 1;
    }
    assert(spec_in.subrange(0, n as int) =~= spec_in);
    out
}

/// The link to a token's page that credits an airdrop of 100 to visitors,
/// with the token's root and the sharer's principal in textual form.
pub open spec fn share_link_text(root_text: Seq<char>, key_text: Seq<char>) -> Seq<char> {
    "/token/info/"@ + root_text + "/"@ + key_text + "?airdrop_amt=100"@
}

/// The airdrop share link for the root `root_text` and the sharer whose
/// principal reads `key_text`.
pub fn share_link_of_text(root_text: &str, key_text: &str) -> (r: String)
    ensures
        r@ == share_link_text(root_text@, key_text@),
{
    let mut r = owned("/token/info/");
    append_str(&mut r, root_text);
    push_char(&mut r, '/');
    append_str(&mut r, key_text);
    append_str(&mut r, "?airdrop_amt=100");
    proof {
        reveal_strlit("/");
    }
    r
}

/// The link to a token's page that credits an airdrop of 100 to visitors,
/// with the token's root in its textual form and the sharer's principal.
pub fn generate_share_link(root_text: &str, key_principal: &PrincipalId) -> (r: String)
    ensures
        r@ == share_link_text(root_text@, principal_text(key_principal@)),
{
    let key = key_principal.to_text();
    share_link_of_text(root_text, key.as_str())
}

/// An upper-case hexadecimal digit.
pub open spec fn hex_upper(d: u8) -> char {
    if d < 10 {
        (('0' as u8) + d) as char
    } else {
        (('A' as u8) + d - 10) as char
    }
}

/// The bytes that URL encoding keeps: ASCII letters and digits, `-`, `.`,
/// `_` and `~`.
pub open spec fn url_unreserved(b: u8) -> bool {
    ||| 0x30 <= b <= 0x39
    ||| 0x41 <= b <= 0x5a
    ||| 0x61 <= b <= 0x7a
    ||| b == 0x2d
    ||| b == 0x2e
    ||| b == 0x5f
    ||| b == 0x7e
}

/// URL encoding of `bytes`: kept bytes as they are, every other byte as `%`
/// and its two upper-case hexadecimal digits.
pub open spec fn url_encode_bytes(bytes: Seq<u8>) -> Seq<char>
    decreases bytes.len(),
{
    if bytes.len() == 0 {
        Seq::empty()
    } else {
        let b = bytes[0];
        let piece = if url_unreserved(b) {
            seq![b as char]
        } else {
            seq!['%', hex_upper(b >> 4), hex_upper(b & 15)]
        };
        piece + url_encode_bytes(bytes.drop_first())
    }
}

/// Calls `urlencoding::encode`, which percent-encodes every UTF-8 byte of the
/// text except ASCII letters, digits, `-`, `.`, `_` and `~`, with upper-case
/// hexadecimal digits. The contract states exactly that.
#[verifier::external_body]
fn url_encode(s: &str) -> (r: String)
    ensures
        r@ == url_encode_bytes(vstd::utf8::encode_utf8(s@)),
{
    urlencoding::encode(s).into_owned()
}

pub open spec fn url_encoded(s: Seq<char>) -> Seq<char> {
    url_encode_bytes(vstd::utf8::encode_utf8(s))
}

/// The links that share a page on social networks.
pub struct SocialShareLinks {
    pub facebook: String,
    pub twitter: String,
    pub whatsapp: String,
    pub linkedin: String,
}

/// The social network links that share `share_link` with `message`.
pub fn social_share_links(share_link: &str, message: &str) -> (r: SocialShareLinks)
    ensures
        r.facebook@ == "http://www.facebook.com/share.php?u="@ + share_link@ + "&title="@
            + url_encoded("Check out this profile"@),
        r.whatsapp@ == "https://wa.me/?text="@ + url_encoded(message@),
        r.twitter@ == "https://twitter.com/intent/tweet?text="@ + url_encoded(message@),
        r.linkedin@ == "https://www.linkedin.com/shareArticle?mini=true&url="@ + share_link@
            + "&title="@ + url_encoded(message@),
{
    let encoded_message = url_encode(message);
    let title = url_encode("Check out this profile");
    let mut facebook = owned("http://www.facebook.com/share.php?u=");
    append_str(&mut facebook, share_link);
    append_str(&mut facebook, "&title=");
    append_str(&mut facebook, title.as_str());
    let mut whatsapp = owned("https://wa.me/?text=");
    append_str(&mut whatsapp, encoded_message.as_str());
    let mut twitter = owned("https://twitter.com/intent/tweet?text=");
    append_str(&mut twitter, encoded_message.as_str());
    let mut linkedin = owned("https://www.linkedin.com/shareArticle?mini=true&url=");
    append_str(&mut linkedin, share_link);
    append_str(&mut linkedin, "&title=");
    append_str(&mut linkedin, encoded_message.as_str());
    SocialShareLinks { facebook, twitter, whatsapp, linkedin }
}

/// The path of the wallet page of the principal that reads `principal_text`.
pub fn wallet_path_of_text(principal_text: &str) -> (r: String)
    ensures
        r@ == "/wallet/"@ + principal_text@,
{
    let mut r = owned("/wallet/");
    append_str(&mut r, principal_text);
    r
}

/// The path of a principal's wallet page.
pub fn wallet_path(principal: &PrincipalId) -> (r: String)
    ensures
        r@ == "/wallet/"@ + principal_text(principal@),
{
    let t = principal.to_text();
    wallet_path_of_text(t.as_str())
}

/// The message that shares a wallet link.
pub fn wallet_share_message(app_name: &str, share_link: &str) -> (r: String)
    ensures
        r@ == "Hey there 👋! Here's my wallet link on "@ + app_name@ + ": "@ + share_link@,
{
    let mut r = owned("Hey there 👋! Here's my wallet link on ");
    append_str(&mut r, app_name);
    append_str(&mut r, ": ");
    append_str(&mut r, share_link);
    r
}

/// The title of the wallet page.
pub fn wallet_page_title(app_name: &str) -> (r: String)
    ensures
        r@ == app_name@ + " - Wallet"@,
{
    let mut r = owned(app_name);
    append_str(&mut r, " - Wallet");
    r
}

/// The text of the wallet's login prompt: cents on the game's site, COYNs
/// elsewhere.
pub fn wallet_login_text(pnd_site: bool) -> (r: &'static str)
    ensures
        r@ == (if pnd_site {
            "Login to claim your Cents"@
        } else {
            "Login to claim your COYNs"@
        }),
{
    if !pnd_site {
        "Login to claim your COYNs"
    } else {
        "Login to claim your Cents"
    }
}

/// Whether the wallet shows the login prompt: on one's own wallet while
/// signed out.
pub fn wallet_shows_login(connected: bool, own_account: bool) -> (r: bool)
    ensures
        r == (!connected && own_account),
{
    !connected && own_account
}

} // verus!
