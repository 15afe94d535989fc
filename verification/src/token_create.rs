//! The token creation form: field validators, the amount reader, and the
//! assembly of the token's configuration from the filled-in form.
use vstd::prelude::*;
use crate::number::{parse_u64, parse_u64_spec, ParseIntError};
use crate::principal::{principal_text, PrincipalId};
use crate::text::{append_str, chars_of, remove_char};
use crate::upload::{owned, remove_char_vec};

verus! {

/// An amount of tokens in e8s, as the configuration carries it.
#[derive(Clone, Copy, Debug, PartialEq, Eq, Structural)]
pub struct Tokens {
    pub e8s: Option<u64>,
}

/// Accepts any text that is not empty.
pub fn non_empty_string_validator(s: String) -> (r: Option<String>)
    ensures
        r matches Some(t) ==> t@ == s@,
        r is None <==> s@.len() == 0,
{
    if s.as_str().is_empty() {
        None
    } else {
        Some(s)
    }
}

/// Accepts text that reads as a `u64`, and gives the number.
pub fn non_empty_string_validator_for_u64(s: String) -> (r: Option<u64>)
    ensures
        r == (match parse_u64_spec(s@) {
            Ok(v) => Some(v),
            Err(_) => None,
        }),
{
    if s.as_str().is_empty() {
        return None;
    }
    let chars = chars_of(s.as_str());
    match parse_u64(&chars) {
        Ok(v) => Some(v),
        Err(_) => None,
    }
}

pub open spec fn token_e8s_spec(s: Seq<char>) -> Result<Tokens, Seq<char>> {
    match parse_u64_spec(remove_char(s, '_')) {
        Ok(v) => Ok(Tokens { e8s: Some(v) }),
        Err(e) => Err(e.spec_message()),
    }
}

/// Reads an amount of e8s from text, ignoring `_` separators; on failure,
/// gives the text of the parse error.
pub fn parse_token_e8s(s: &str) -> (r: Result<Tokens, String>)
    ensures
        match r {
            Ok(t) => token_e8s_spec(s@) == Ok::<Tokens, Seq<char>>(t),
            Err(e) => token_e8s_spec(s@) == Err::<Tokens, Seq<char>>(e@),
        },
{
    let chars = chars_of(s);
    let digits = remove_char_vec(&chars, '_');
    match parse_u64(&digits) {
        Ok(v) => Ok(Tokens { e8s: Some(v) }),
        Err(e) => Err(e.message()),
    }
}

/// A neuron of the initial distribution as the form holds it: its terms
/// (stake, memo, dissolve delay, vesting period) without an owner.
pub struct NeuronForm<T> {
    pub terms: T,
}

/// A neuron of the token's configuration: its owner's principal in textual
/// form and its terms.
pub struct Neuron<T> {
    pub principal: String,
    pub terms: T,
}

impl<T> NeuronForm<T> {
    /// The neuron, owned by the principal that reads `owner_text`.
    pub fn owned_by(self, owner_text: &str) -> (r: Neuron<T>)
        ensures
            r.principal@ == owner_text@,
            r.terms == self.terms,
    {
        Neuron { principal: owned(owner_text), terms: self.terms }
    }

    /// The neuron, owned by `user_canister`.
    pub fn into_neuron(self, user_canister: &PrincipalId) -> (r: Neuron<T>)
        ensures
            r.principal@ == principal_text(user_canister@),
            r.terms == self.terms,
    {
        let t = user_canister.to_text();
        self.owned_by(t.as_str())
    }
}

/// The initial distribution as the form holds it: its neurons, and the rest
/// (total and initial balances), which the configuration takes as it is.
pub struct DistributionForm<T, D> {
    pub neurons: Vec<NeuronForm<T>>,
    pub rest: D,
}

/// The initial distribution of the configuration.
pub struct Distribution<T, D> {
    pub neurons: Vec<Neuron<T>>,
    pub rest: D,
}

impl<T, D> DistributionForm<T, D> {
    /// The distribution, every neuron owned by the principal that reads
    /// `owner_text`, in order.
    pub fn owned_by(self, owner_text: &str) -> (r: Distribution<T, D>)
        ensures
            r.rest == self.rest,
            r.neurons@.len() == self.neurons@.len(),
            forall|i: int|
                0 <= i < r.neurons@.len() ==> (#[trigger] r.neurons@[i]).terms == self.neurons@[i].terms
                    && r.neurons@[i].principal@ == owner_text@,
    {
        let DistributionForm { neurons, rest } = self;
        let ghost orig = neurons@;
        let mut pending = neurons;
        let mut out: Vec<Neuron<T>> = Vec::new();
        while pending.len() > 0
            invariant
                out@.len() + pending@.len() == orig.len(),
                pending@ == orig.skip(out@.len() as int),
                forall|i: int|
                    0 <= i < out@.len() ==> (#[trigger] out@[i]).terms == orig[i].terms
                        && out@[i].principal@ == owner_text@,
            decreases pending@.len(),
        {
            let ghost k = out@.len() as int;
            let n = pending.remove(0);
            assert(n == orig[k]);
            out.push(n.owned_by(owner_text));
            assert(pending@ =~= orig.skip(out@.len() as int));
        }
        Distribution { neurons: out, rest }
    }

    /// The distribution, every neuron owned by `user_canister`, in order.
    pub fn into_distribution(self, user_canister: &PrincipalId) -> (r: Distribution<T, D>)
        ensures
            r.rest == self.rest,
            r.neurons@.len() == self.neurons@.len(),
            forall|i: int|
                0 <= i < r.neurons@.len() ==> (#[trigger] r.neurons@[i]).terms == self.neurons@[i].terms
                    && r.neurons@[i].principal@ == principal_text(user_canister@),
    {
        let t = user_canister.to_text();
        self.owned_by(t.as_str())
    }
}

/// The token creation form: the fields the user fills in, the transaction
/// fee, the initial distribution, and the remaining settings (proposals,
/// neurons, voting, swap, proposal text), which pass into the configuration
/// unchanged.
pub struct SnsFormState<S, T, D> {
    pub name: Option<String>,
    pub description: Option<String>,
    pub logo_b64: Option<String>,
    pub symbol: Option<String>,
    pub transaction_fee: Tokens,
    pub distribution: DistributionForm<T, D>,
    pub settings: S,
}

/// The token's own part of the configuration.
pub struct TokenConfig {
    pub name: String,
    pub symbol: String,
    pub transaction_fee: Tokens,
    pub logo_b64: String,
}

/// The configuration of a new token.
pub struct SnsConfig<S, T, D> {
    pub name: String,
    pub description: String,
    pub logo_b64: String,
    pub url: String,
    pub principals: Vec<String>,
    pub fallback_controller_principals: Vec<String>,
    pub dapp_canisters: Vec<String>,
    pub token: TokenConfig,
    pub distribution: Distribution<T, D>,
    pub settings: S,
}

/// The first field the form lacks, as the message that reports it.
pub open spec fn missing_field<S, T, D>(f: SnsFormState<S, T, D>) -> Option<Seq<char>> {
    if f.name is None {
        Some("Name is required"@)
    } else if f.description is None {
        Some("Description is required"@)
    } else if f.logo_b64 is None {
        Some("Logo is required"@)
    } else if f.symbol is None {
        Some("Symbol is required"@)
    } else {
        None
    }
}

/// Whether `c` is the configuration made from the form `f` for the user whose
/// principal reads `user_text` and whose canister reads `canister_text`: the
/// form's fields, the profile link, the two fallback controllers (user, then
/// canister), the canister as the one dapp canister, and every neuron owned
/// by the canister.
pub open spec fn config_of<S, T, D>(
    c: SnsConfig<S, T, D>,
    f: SnsFormState<S, T, D>,
    user_text: Seq<char>,
    canister_text: Seq<char>,
) -> bool {
    &&& c.name@ == f.name->0@
    &&& c.description@ == f.description->0@
    &&& c.logo_b64@ == f.logo_b64->0@
    &&& c.url@ == "https://yral.com/profile/"@ + user_text
    &&& c.principals@.len() == 0
    &&& c.fallback_controller_principals@.len() == 2
    &&& c.fallback_controller_principals@[0]@ == user_text
    &&& c.fallback_controller_principals@[1]@ == canister_text
    &&& c.dapp_canisters@.len() == 1
    &&& c.dapp_canisters@[0]@ == canister_text
    &&& c.token.name@ == f.name->0@
    &&& c.token.symbol@ == f.symbol->0@
    &&& c.token.transaction_fee == f.transaction_fee
    &&& c.token.logo_b64@ == f.logo_b64->0@
    &&& c.distribution.rest == f.distribution.rest
    &&& c.distribution.neurons@.len() == f.distribution.neurons@.len()
    &&& forall|i: int|
        0 <= i < c.distribution.neurons@.len() ==> (#[trigger] c.distribution.neurons@[i]).terms
            == f.distribution.neurons@[i].terms && c.distribution.neurons@[i].principal@
            == canister_text
    &&& c.settings == f.settings
}

impl<S, T, D> SnsFormState<S, T, D> {
    /// The token's configuration for the user whose principal reads
    /// `user_text` and whose canister reads `canister_text`: fails with the
    /// message of the first missing field among name, description, logo and
    /// symbol.
    pub fn try_into_config_with_texts(self, user_text: &str, canister_text: &str) -> (r: Result<
        SnsConfig<S, T, D>,
        String,
    >)
        ensures
            match r {
                Err(e) => missing_field(self) == Some(e@),
                Ok(c) => missing_field(self) is None && config_of(c, self, user_text@, canister_text@),
            },
    {
        let SnsFormState { name, description, logo_b64, symbol, transaction_fee, distribution, settings } = self;
        let name = match name {
            Some(n) => n,
            None => return Err(owned("Name is required")),
        };
        let description = match description {
            Some(d) => d,
            None => return Err(owned("Description is required")),
        };
        let logo_b64 = match logo_b64 {
            Some(l) => l,
            None => return Err(owned("Logo is required")),
        };
        let symbol = match symbol {
            Some(s) => s,
            None => return Err(owned("Symbol is required")),
        };
        let mut url = owned("https://yral.com/profile/");
        append_str(&mut url, user_text);
        let mut fallback_controller_principals: Vec<String> = Vec::new();
        fallback_controller_principals.push(owned(user_text));
        fallback_controller_principals.push(owned(canister_text));
        let mut dapp_canisters: Vec<String> = Vec::new();
        dapp_canisters.push(owned(canister_text));
        let token = TokenConfig {
            name: name.clone(),
            symbol,
            transaction_fee,
            logo_b64: logo_b64.clone(),
        };
        let distribution = distribution.owned_by(canister_text);
        Ok(SnsConfig {
            name,
            description,
            logo_b64,
            url,
            principals: Vec::new(),
            fallback_controller_principals,
            dapp_canisters,
            token,
            distribution,
            settings,
        })
    }

    /// The token's configuration for the user with principal `user_principal`
    /// and canister `user_canister`: fails with the message of the first
    /// missing field among name, description, logo and symbol.
    pub fn try_into_config(self, user_principal: &PrincipalId, user_canister: &PrincipalId) -> (r:
        Result<SnsConfig<S, T, D>, String>)
        ensures
            match r {
                Err(e) => missing_field(self) == Some(e@),
                Ok(c) => missing_field(self) is None && config_of(
                    c,
                    self,
                    principal_text(user_principal@),
                    principal_text(user_canister@),
                ),
            },
    {
        let user_text = user_principal.to_text();
        let canister_text = user_canister.to_text();
        self.try_into_config_with_texts(user_text.as_str(), canister_text.as_str())
    }
}

} // verus!
