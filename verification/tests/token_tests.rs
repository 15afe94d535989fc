use page::principal::PrincipalId;
use page::token_claim::{
    check_claim_transfer, check_sale_ticket, check_swap_transfer, claim_distribution_amount,
    claim_give_up_error, may_try_claim, next_claim_action, select_claim_neuron, server_has_funds,
    swap_participation_transfer, claim_step, ClaimAction, ClaimStep, DisburseReply, NeuronSummary,
};
use page::token_create::{
    non_empty_string_validator, non_empty_string_validator_for_u64, parse_token_e8s,
    DistributionForm, NeuronForm, SnsFormState, Tokens,
};
use page::token_form;
use page::token_txn::{
    cursor_list_end, cursor_max_results, token_txn_page, IndexTransaction, IndexTransfer, TokenTxn,
};

#[test]
fn string_validators() {
    assert_eq!(non_empty_string_validator(String::new()), None);
    assert_eq!(non_empty_string_validator("x".to_string()), Some("x".to_string()));
    assert_eq!(non_empty_string_validator_for_u64("123".to_string()), Some(123));
    assert_eq!(non_empty_string_validator_for_u64(String::new()), None);
    assert_eq!(non_empty_string_validator_for_u64("12x".to_string()), None);
    assert_eq!(non_empty_string_validator_for_u64("-3".to_string()), None);
    assert_eq!(token_form::non_empty_string_validator_for_u64("77".to_string()), Some("77".to_string()));
    assert_eq!(token_form::non_empty_string_validator_for_u64("7.5".to_string()), None);
    assert_eq!(token_form::non_empty_string_validator_for_u64(String::new()), None);
}

#[test]
fn token_amounts() {
    assert_eq!(parse_token_e8s("1_000_000"), Ok(Tokens { e8s: Some(1_000_000) }));
    assert_eq!(parse_token_e8s("42"), Ok(Tokens { e8s: Some(42) }));
    assert_eq!(parse_token_e8s("1.5"), Err("invalid digit found in string".to_string()));
    assert_eq!(parse_token_e8s("___"), Err("cannot parse integer from empty string".to_string()));
    assert_eq!(
        parse_token_e8s("99999999999999999999"),
        Err("number too large to fit in target type".to_string())
    );
}

fn form(name: Option<&str>, desc: Option<&str>, logo: Option<&str>, symbol: Option<&str>) -> SnsFormState<u8, u32, i16> {
    SnsFormState {
        name: name.map(|s| s.to_string()),
        description: desc.map(|s| s.to_string()),
        logo_b64: logo.map(|s| s.to_string()),
        symbol: symbol.map(|s| s.to_string()),
        transaction_fee: Tokens { e8s: Some(1) },
        distribution: DistributionForm {
            neurons: vec![NeuronForm { terms: 10u32 }, NeuronForm { terms: 20u32 }],
            rest: -3i16,
        },
        settings: 9u8,
    }
}

#[test]
fn config_needs_every_field() {
    let user = PrincipalId::anonymous();
    let can = PrincipalId::from_bytes(vec![]).unwrap();
    let e = |f: SnsFormState<u8, u32, i16>| f.try_into_config(&user, &can).err();
    assert_eq!(e(form(None, Some("d"), Some("l"), Some("S"))), Some("Name is required".to_string()));
    assert_eq!(e(form(Some("n"), None, Some("l"), Some("S"))), Some("Description is required".to_string()));
    assert_eq!(e(form(Some("n"), Some("d"), None, Some("S"))), Some("Logo is required".to_string()));
    assert_eq!(e(form(Some("n"), Some("d"), Some("l"), None)), Some("Symbol is required".to_string()));
    assert_eq!(e(form(None, None, None, None)), Some("Name is required".to_string()));
}

#[test]
fn config_from_a_full_form() {
    let user = PrincipalId::anonymous();
    let can = PrincipalId::from_bytes(vec![]).unwrap();
    let c = form(Some("Name"), Some("Desc"), Some("data:logo"), Some("SYM"))
        .try_into_config(&user, &can)
        .ok()
        .unwrap();
    assert_eq!(c.name, "Name");
    assert_eq!(c.description, "Desc");
    assert_eq!(c.logo_b64, "data:logo");
    assert_eq!(c.url, "https://yral.com/profile/2vxsx-fae");
    assert!(c.principals.is_empty());
    assert_eq!(c.fallback_controller_principals, vec!["2vxsx-fae".to_string(), "aaaaa-aa".to_string()]);
    assert_eq!(c.dapp_canisters, vec!["aaaaa-aa".to_string()]);
    assert_eq!(c.token.name, "Name");
    assert_eq!(c.token.symbol, "SYM");
    assert_eq!(c.token.transaction_fee, Tokens { e8s: Some(1) });
    assert_eq!(c.token.logo_b64, "data:logo");
    assert_eq!(c.distribution.rest, -3);
    assert_eq!(c.distribution.neurons.len(), 2);
    assert_eq!(c.distribution.neurons[0].terms, 10);
    assert_eq!(c.distribution.neurons[1].terms, 20);
    assert!(c.distribution.neurons.iter().all(|n| n.principal == "aaaaa-aa"));
    assert_eq!(c.settings, 9);
}

#[test]
fn claim_steps() {
    assert!(server_has_funds(1_010_000));
    assert!(!server_has_funds(1_009_999));
    let n = |stake: u64, now: bool| NeuronSummary { cached_neuron_stake_e8s: stake, dissolves_now: now };
    assert_eq!(select_claim_neuron(&vec![n(5, true)]), None);
    assert_eq!(select_claim_neuron(&vec![n(5, false), n(0, true)]), None);
    assert_eq!(select_claim_neuron(&vec![n(5, false), n(7, true)]), Some(1));
    assert_eq!(select_claim_neuron(&vec![n(5, true), n(7, false)]), Some(0));
    assert_eq!(claim_distribution_amount(1000), 200);
    assert_eq!(claim_distribution_amount(9), 1);
    assert_eq!(claim_distribution_amount(u64::MAX), (u64::MAX as u128) * 20 / 100);
    assert!(may_try_claim(10));
    assert!(!may_try_claim(11));
}

#[test]
fn claim_replies() {
    assert_eq!(next_claim_action(&DisburseReply::Disbursed), ClaimAction::Finish);
    assert_eq!(
        next_claim_action(&DisburseReply::Refused { message: "state PreInitializationSwap".to_string() }),
        ClaimAction::Retry
    );
    assert_eq!(
        next_claim_action(&DisburseReply::Refused { message: "no".to_string() }),
        ClaimAction::Fail
    );
    assert_eq!(next_claim_action(&DisburseReply::Unexpected), ClaimAction::Fail);
}

#[test]
fn transaction_entries() {
    let me = PrincipalId::anonymous();
    let txn = IndexTransaction {
        id: 77,
        kind: "transfer".to_string(),
        timestamp: 123,
        transfer: Some(IndexTransfer { to: PrincipalId::anonymous(), amount: 500 }),
    };
    let t = TokenTxn::into_token_txn(txn, &me);
    assert_eq!(t.key(), 77);
    assert_eq!(t.kind, "transfer");
    assert_eq!(t.created_at_time, 123);
    assert_eq!(t.transfer.amount, Some(500));
    assert!(t.transfer.is_received);
    let other = IndexTransaction {
        id: 78,
        kind: "transfer".to_string(),
        timestamp: 124,
        transfer: Some(IndexTransfer { to: PrincipalId::from_bytes(vec![]).unwrap(), amount: 1 }),
    };
    assert!(!TokenTxn::into_token_txn(other, &me).transfer.is_received);
}

#[test]
fn transaction_pages() {
    assert_eq!(cursor_max_results(0, 10), 10);
    assert_eq!(cursor_max_results(5, 5 + 300), 44);
    assert!(cursor_list_end(3, 0, 10));
    assert!(!cursor_list_end(10, 0, 10));
}

#[test]
fn config_from_texts() {
    let c = form(Some("N"), Some("D"), Some("L"), Some("S"))
        .try_into_config_with_texts("user-text", "can-text")
        .ok()
        .unwrap();
    assert_eq!(c.url, "https://yral.com/profile/user-text");
    assert_eq!(c.fallback_controller_principals, vec!["user-text".to_string(), "can-text".to_string()]);
    assert_eq!(c.dapp_canisters, vec!["can-text".to_string()]);
    assert!(c.distribution.neurons.iter().all(|n| n.principal == "can-text"));
    let e = form(Some("N"), Some("D"), None, None).try_into_config_with_texts("u", "c").err();
    assert_eq!(e, Some("Logo is required".to_string()));
    let n = NeuronForm { terms: 5u8 }.owned_by("owner");
    assert_eq!((n.principal.as_str(), n.terms), ("owner", 5));
    let d = DistributionForm { neurons: vec![NeuronForm { terms: 1u8 }], rest: () }.owned_by("o");
    assert_eq!(d.neurons[0].principal, "o");
    let n = NeuronForm { terms: 6u8 }.into_neuron(&PrincipalId::anonymous());
    assert_eq!(n.principal, "2vxsx-fae");
}

#[test]
fn transaction_history_page() {
    let me = PrincipalId::anonymous();
    let txn = |id: u128, to: PrincipalId| IndexTransaction {
        id,
        kind: "transfer".to_string(),
        timestamp: id as u64,
        transfer: Some(IndexTransfer { to, amount: 10 }),
    };
    let page = token_txn_page(
        vec![txn(1, PrincipalId::anonymous()), txn(2, PrincipalId::from_bytes(vec![]).unwrap())],
        &me,
        0,
        5,
    );
    assert!(page.end);
    assert_eq!(page.data.len(), 2);
    assert_eq!(page.data[0].key(), 1);
    assert!(page.data[0].transfer.is_received);
    assert_eq!(page.data[1].key(), 2);
    assert!(!page.data[1].transfer.is_received);
    let full = token_txn_page(vec![txn(3, PrincipalId::anonymous())], &me, 4, 5);
    assert!(!full.end);
}

#[test]
fn swap_participation() {
    let t = swap_participation_transfer(PrincipalId::anonymous(), vec![9, 8]);
    assert_eq!(t.to.owner.as_bytes(), &vec![4u8]);
    assert_eq!(t.to.subaccount, Some(vec![9, 8]));
    assert_eq!(t.fee, None);
    assert_eq!(t.memo, Some(vec![0]));
    assert_eq!(t.from_subaccount, None);
    assert_eq!(t.created_at_time, None);
    assert_eq!(t.amount, 1_000_000);
    assert_eq!(check_sale_ticket(Some(Ok(()))), Ok(()));
    assert_eq!(check_sale_ticket(None), Err("failed to perform swap new_sale_ticket".to_string()));
    assert_eq!(
        check_sale_ticket(Some(Err("Closed".to_string()))),
        Err("failed to perform swap new_sale_ticket Closed".to_string())
    );
    assert_eq!(check_swap_transfer(Ok(5)), Ok(()));
    assert_eq!(
        check_swap_transfer(Err("TooOld".to_string())),
        Err("failed to perform swap icrc1_transfer TooOld".to_string())
    );
    assert_eq!(check_claim_transfer(Ok(Ok(1))), Ok(()));
    assert_eq!(check_claim_transfer(Ok(Err(()))), Err("Token is in invalid state".to_string()));
    assert_eq!(check_claim_transfer(Err(())), Err("Token is in invalid state".to_string()));
    assert_eq!(claim_give_up_error(), "failed to claim tokens after more than 10 tries");
}

#[test]
fn claim_loop_gives_up_after_ten_tries() {
    let not_ready = DisburseReply::Refused { message: "PreInitializationSwap".to_string() };
    assert_eq!(claim_step(1, &not_ready), ClaimStep::RetryAfterWait);
    assert_eq!(claim_step(10, &not_ready), ClaimStep::RetryAfterWait);
    assert_eq!(claim_step(11, &not_ready), ClaimStep::GiveUp);
    assert_eq!(claim_step(11, &DisburseReply::Disbursed), ClaimStep::Finish);
    assert_eq!(claim_step(3, &DisburseReply::Unexpected), ClaimStep::Fail);
}
