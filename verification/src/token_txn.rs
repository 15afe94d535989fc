//! The transaction history of a token as the token page lists it.
use vstd::prelude::*;
use crate::principal::PrincipalId;

verus! {

/// What a transaction moved, as seen by the user.
pub struct TrasferDetails {
    /// The amount moved, in e8s, when the transaction moved tokens.
    pub amount: Option<u128>,
    /// Whether the tokens went to the user.
    pub is_received: bool,
}

/// One entry of a token's transaction history.
pub struct TokenTxn {
    id: u128,
    pub kind: String,
    pub created_at_time: u64,
    pub transfer: TrasferDetails,
}

/// A transfer as the token's index canister reports it.
pub struct IndexTransfer {
    pub to: PrincipalId,
    pub amount: u128,
}

/// A transaction as the token's index canister reports it.
pub struct IndexTransaction {
    pub id: u128,
    pub kind: String,
    pub timestamp: u64,
    pub transfer: Option<IndexTransfer>,
}

impl TokenTxn {
    pub closed spec fn spec_id(&self) -> u128 {
        self.id
    }

    pub closed spec fn spec_kind(&self) -> Seq<char> {
        self.kind@
    }

    pub closed spec fn spec_created_at_time(&self) -> u64 {
        self.created_at_time
    }

    pub closed spec fn spec_amount(&self) -> Option<u128> {
        self.transfer.amount
    }

    pub closed spec fn spec_is_received(&self) -> bool {
        self.transfer.is_received
    }

    /// The key that tells entries apart: the transaction's id.
    pub fn key(&self) -> (r: u128)
        ensures
            r == self.spec_id(),
    {
        self.id
    }

    /// The history entry for `txn`, seen by `user_principal`: the entry is
    /// received when the transfer went to that principal.
    pub fn into_token_txn(txn: IndexTransaction, user_principal: &PrincipalId) -> (r: TokenTxn)
        requires
            txn.transfer is Some,
        ensures
            r.spec_id() == txn.id,
            r.spec_kind() == txn.kind@,
            r.spec_created_at_time() == txn.timestamp,
            r.spec_amount() == Some(txn.transfer->0.amount),
            r.spec_is_received() == (txn.transfer->0.to@ == user_principal@),
    {
        let transfer = match txn.transfer {
            Some(t) => t,
            None => {
                proof {
                    assert(false);
                }
                return TokenTxn {
                    id: txn.id,
                    kind: txn.kind,
                    created_at_time: txn.timestamp,
                    transfer: TrasferDetails { amount: None, is_received: false },
                };
            },
        };
        let is_received = transfer.to.same_as(user_principal);
        TokenTxn {
            id: txn.id,
            kind: txn.kind,
            created_at_time: txn.timestamp,
            transfer: TrasferDetails { amount: Some(transfer.amount), is_received },
        }
    }
}

/// One page of a list that is read page by page: the items, and whether the
/// list has ended.
pub struct PageEntry<T> {
    pub data: Vec<T>,
    pub end: bool,
}

/// The history page from `start` to `end` made of the transactions the index
/// sent, seen by `user_principal`, in order; the list has ended when the index
/// sent fewer than the page asked for.
pub fn token_txn_page(txns: Vec<IndexTransaction>, user_principal: &PrincipalId, start: usize, end: usize) -> (r: PageEntry<TokenTxn>)
    requires
        start <= end,
        forall|i: int| 0 <= i < txns@.len() ==> (#[trigger] txns@[i]).transfer is Some,
    ensures
        r.end == (txns@.len() < end - start),
        r.data@.len() == txns@.len(),
        forall|i: int|
            0 <= i < r.data@.len() ==> {
                let t = #[trigger] r.data@[i];
                let x = txns@[i];
                &&& t.spec_id() == x.id
                &&& t.spec_kind() == x.kind@
                &&& t.spec_created_at_time() == x.timestamp
                &&& t.spec_amount() == Some(x.transfer->0.amount)
                &&& t.spec_is_received() == (x.transfer->0.to@ == user_principal@)
            },
{
    let ghost input = txns@;
    let n = txns.len();
    let list_end = cursor_list_end(n, start, end);
    let mut rest = txns;
    let mut data: Vec<TokenTxn> = Vec::new();
    while rest.len() > 0
        invariant
            data@.len() + rest@.len() == input.len(),
            rest@ == input.skip(data@.len() as int),
            forall|i: int| 0 <= i < input.len() ==> (#[trigger] input[i]).transfer is Some,
            forall|i: int|
                0 <= i < data@.len() ==> {
                    let t = #[trigger] data@[i];
                    let x = input[i];
                    &&& t.spec_id() == x.id
                    &&& t.spec_kind() == x.kind@
                    &&& t.spec_created_at_time() == x.timestamp
                    &&& t.spec_amount() == Some(x.transfer->0.amount)
                    &&& t.spec_is_received() == (x.transfer->0.to@ == user_principal@)
                },
        decreases rest@.len(),
    {
        let ghost k = data@.len() as int;
        let x = rest.remove(0);
        assert(x == input[k]);
        data.push(TokenTxn::into_token_txn(x, user_principal));
        assert(rest@ =~= input.skip(data@.len() as int));
    }
    PageEntry { data, end: list_end }
}

/// How many transactions a page from `start` to `end` asks the index for:
/// the page's length, kept to its lowest eight bits as the request carries it.
pub fn cursor_max_results(start: usize, end: usize) -> (r: u8)
    requires
        start <= end,
    ensures
        r == (end - start) % 256,
{
    ((end - start) % 256) as u8
}

/// Whether a page from `start` to `end` that brought `received` transactions
/// ends the list: it brought fewer than it asked for.
pub fn cursor_list_end(received: usize, start: usize, end: usize) -> (r: bool)
    requires
        start <= end,
    ensures
        r == (received < end - start),
{
    received < end - start
}

} // verus!
