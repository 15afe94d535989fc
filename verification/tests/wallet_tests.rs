use page::principal::PrincipalId;
use page::wallet::{
    amount_is_green, amount_sign, destination_from_parse, direction_to_icon, share_link_of_text, wallet_path_of_text, eligible_token_roots, generate_share_link,
    max_transfer_amount, mock_history_page, mock_txn, MockHistoryProvider, party_label, social_share_links, supports_icrc2,
    swap_approval_amount, swap_cancel_amount, swap_expiry, swap_request_check, tag_from_u32, transaction_parties,
    send_enabled, transfer_route, SendableRoot, TransferRoute, validate_destination,
    validate_transfer_amount, wallet_login_text, wallet_page_title,
    wallet_path, wallet_share_message, wallet_shows_login, PartyRole, TransferAmountError,
    TxnDirection, TxnIcon, TxnInfoType, MOCK_MAX_AMOUNT, SWAP_REQUEST_EXPIRY,
};

fn anon() -> PrincipalId {
    PrincipalId::anonymous()
}

fn management() -> PrincipalId {
    PrincipalId::from_bytes(vec![]).unwrap()
}

#[test]
fn icons_and_signs() {
    assert_eq!(direction_to_icon(TxnDirection::Transaction), TxnIcon::ArrowLeftRight);
    assert_eq!(direction_to_icon(TxnDirection::Added), TxnIcon::ArrowDown);
    assert_eq!(direction_to_icon(TxnDirection::Deducted), TxnIcon::ArrowUp);
    assert_eq!(amount_sign(TxnDirection::Added), "+");
    assert_eq!(amount_sign(TxnDirection::Deducted), "-");
    assert_eq!(amount_sign(TxnDirection::Transaction), "");
}

#[test]
fn mock_tags_cycle_by_four() {
    assert!(matches!(tag_from_u32(0), TxnInfoType::Mint { .. }));
    assert!(matches!(tag_from_u32(5), TxnInfoType::Burn { .. }));
    assert!(matches!(tag_from_u32(6), TxnInfoType::Received { .. }));
    assert!(matches!(tag_from_u32(u32::MAX), TxnInfoType::Sent { .. }));
    match tag_from_u32(0) {
        TxnInfoType::Mint { to } => assert_eq!(to.as_bytes(), &vec![4u8]),
        _ => unreachable!(),
    }
}

#[test]
fn mock_history_has_the_page_length() {
    let page = mock_history_page(42, 10, 25);
    assert_eq!(page.len(), 15);
    assert!(page.iter().all(|t| t.amount_e8s <= MOCK_MAX_AMOUNT));
    assert!(page.iter().all(|t| match &t.tag {
        TxnInfoType::Mint { to } | TxnInfoType::Sent { to } => to.as_bytes() == &vec![4u8],
        TxnInfoType::Burn { from } | TxnInfoType::Received { from } => from.as_bytes() == &vec![4u8],
        TxnInfoType::Transfer { .. } => false,
    }));
    assert!(mock_history_page(42, 5, 5).is_empty());
    assert!(mock_history_page(1, 7, 3).is_empty());
}

#[test]
fn parties_shown() {
    let mint = TxnInfoType::Mint { to: anon() };
    assert!(transaction_parties(&mint, true).is_empty());
    let shown = transaction_parties(&mint, false);
    assert_eq!(shown.len(), 1);
    assert_eq!(shown[0].0, PartyRole::To);
    let burn = TxnInfoType::Burn { from: anon() };
    assert!(transaction_parties(&burn, true).is_empty());
    assert_eq!(transaction_parties(&burn, false)[0].0, PartyRole::From);
    let received = TxnInfoType::Received { from: anon() };
    assert_eq!(transaction_parties(&received, true)[0].0, PartyRole::From);
    let sent = TxnInfoType::Sent { to: anon() };
    assert_eq!(transaction_parties(&sent, true)[0].0, PartyRole::To);
    let transfer = TxnInfoType::Transfer { from: anon(), to: management() };
    let shown = transaction_parties(&transfer, true);
    assert_eq!(shown.len(), 2);
    assert_eq!(shown[0].0, PartyRole::From);
    assert_eq!(shown[0].1.as_bytes(), &vec![4u8]);
    assert_eq!(shown[1].0, PartyRole::To);
    assert!(shown[1].1.as_bytes().is_empty());
    assert_eq!(party_label(PartyRole::From), "From");
    assert_eq!(party_label(PartyRole::To), "To");
}

#[test]
fn transfer_amount_checks() {
    assert_eq!(max_transfer_amount(100, 10), 90);
    assert_eq!(max_transfer_amount(10, 10), 0);
    assert_eq!(max_transfer_amount(5, 10), 0);
    assert_eq!(validate_transfer_amount(None, 90), Err(TransferAmountError::Invalid));
    assert_eq!(validate_transfer_amount(Some(91), 90), Err(TransferAmountError::InsufficientFunds));
    assert_eq!(validate_transfer_amount(Some(0), 90), Err(TransferAmountError::Zero));
    assert_eq!(validate_transfer_amount(Some(90), 90), Ok(90));
    assert_eq!(TransferAmountError::Invalid.message(), "Invalid amount");
    assert_eq!(
        TransferAmountError::InsufficientFunds.message(),
        "Sorry, there are not enough funds in this account"
    );
    assert_eq!(TransferAmountError::Zero.message(), "Cannot send 0 tokens");
}

#[test]
fn destination_checks() {
    let p = validate_destination("2vxsx-fae").unwrap();
    assert_eq!(p.as_bytes(), &vec![4u8]);
    assert_eq!(validate_destination("not a principal").err(), Some("Invalid principal".to_string()));
    assert_eq!(validate_destination("").err(), Some("Invalid principal".to_string()));
}

#[test]
fn swap_amounts() {
    assert_eq!(swap_approval_amount(5, 7), Some(12));
    assert_eq!(swap_approval_amount(u128::MAX, 1), None);
    assert_eq!(swap_approval_amount(u128::MAX - 1, 1), Some(u128::MAX));
    assert_eq!(swap_cancel_amount(12, 7), 5);
    assert_eq!(SWAP_REQUEST_EXPIRY, 604_800_000_000_000);
    assert_eq!(swap_expiry(1), 604_800_000_000_001);
}

#[test]
fn icrc2_support() {
    assert!(!supports_icrc2(None));
    assert!(!supports_icrc2(Some(&vec!["ICRC-1".to_string()])));
    assert!(supports_icrc2(Some(&vec!["ICRC-1".to_string(), "ICRC-2".to_string()])));
    assert!(!supports_icrc2(Some(&vec![])));
}

#[test]
fn eligible_roots_keep_funded_tokens_in_order() {
    let r = eligible_token_roots(vec![
        (anon(), Some(5)),
        (management(), Some(0)),
        (management(), None),
        (management(), Some(1)),
    ]);
    assert_eq!(r.len(), 2);
    assert_eq!(r[0].as_bytes(), &vec![4u8]);
    assert!(r[1].as_bytes().is_empty());
}

#[test]
fn share_link_of_a_token() {
    assert_eq!(generate_share_link("ROOT", &anon()), "/token/info/ROOT/2vxsx-fae?airdrop_amt=100");
}

#[test]
fn social_links_encode_the_message() {
    let links = social_share_links("https://yral.com/x", "hi there & more/é");
    assert_eq!(links.whatsapp, "https://wa.me/?text=hi%20there%20%26%20more%2F%C3%A9");
    assert_eq!(links.twitter, "https://twitter.com/intent/tweet?text=hi%20there%20%26%20more%2F%C3%A9");
    assert_eq!(
        links.facebook,
        "http://www.facebook.com/share.php?u=https://yral.com/x&title=Check%20out%20this%20profile"
    );
    assert_eq!(
        links.linkedin,
        "https://www.linkedin.com/shareArticle?mini=true&url=https://yral.com/x&title=hi%20there%20%26%20more%2F%C3%A9"
    );
    let kept = social_share_links("l", "AZaz09-._~");
    assert_eq!(kept.whatsapp, "https://wa.me/?text=AZaz09-._~");
    assert_eq!(
        kept.whatsapp,
        format!("https://wa.me/?text={}", urlencoding::encode("AZaz09-._~"))
    );
}

#[test]
fn wallet_page_texts() {
    assert_eq!(wallet_path(&anon()), "/wallet/2vxsx-fae");
    assert_eq!(
        wallet_share_message("YRAL", "/wallet/2vxsx-fae"),
        "Hey there 👋! Here's my wallet link on YRAL: /wallet/2vxsx-fae"
    );
    assert_eq!(wallet_page_title("YRAL"), "YRAL - Wallet");
    assert_eq!(wallet_login_text(false), "Login to claim your COYNs");
    assert_eq!(wallet_login_text(true), "Login to claim your Cents");
    assert!(wallet_shows_login(false, true));
    assert!(!wallet_shows_login(true, true));
    assert!(!wallet_shows_login(false, false));
}

#[test]
fn mock_entry_from_draws() {
    let t = mock_txn(3001 * 7 + 12, 55, 6, 99);
    assert_eq!(t.amount_e8s, 12);
    assert_eq!(t.timestamp, 55);
    assert_eq!(t.id, 99);
    assert!(matches!(t.tag, TxnInfoType::Received { .. }));
    assert_eq!(mock_txn(u64::MAX, 0, 0, 0).amount_e8s, u64::MAX % 3001);
}

#[test]
fn texts_after_principal_conversion() {
    assert_eq!(share_link_of_text("R", "k-ey"), "/token/info/R/k-ey?airdrop_amt=100");
    assert_eq!(wallet_path_of_text("abc"), "/wallet/abc");
    assert_eq!(destination_from_parse(None).err(), Some("Invalid principal".to_string()));
    let p = destination_from_parse(Some(anon())).unwrap();
    assert_eq!(p.as_bytes(), &vec![4u8]);
}

#[test]
fn sending_a_token() {
    assert!(send_enabled(true, true, false));
    assert!(!send_enabled(true, true, true));
    assert!(!send_enabled(false, true, false));
    assert!(!send_enabled(true, false, false));
    match transfer_route(SendableRoot::Other(anon())) {
        TransferRoute::ViaRoot { root } => assert_eq!(root.as_bytes(), &vec![4u8]),
        _ => panic!("a platform token goes through its root"),
    }
    match transfer_route(SendableRoot::Btc { ledger: management() }) {
        TransferRoute::ViaLedger { ledger } => assert!(ledger.as_bytes().is_empty()),
        _ => panic!("a chain-key token goes through its ledger"),
    }
    match transfer_route(SendableRoot::Usdc { ledger: anon() }) {
        TransferRoute::ViaLedger { ledger } => assert_eq!(ledger.as_bytes(), &vec![4u8]),
        _ => panic!("a chain-key token goes through its ledger"),
    }
}

#[test]
fn mock_provider_pages_never_end() {
    let page = MockHistoryProvider.get_by_cursor(7, 0, 12);
    assert!(!page.end);
    assert_eq!(page.data.len(), 12);
    assert!(page.data.iter().all(|t| t.amount_e8s <= 3000));
}

#[test]
fn swap_request_checks_in_order() {
    assert_eq!(swap_request_check(true, true, true, true), Ok(()));
    assert_eq!(swap_request_check(false, false, false, false), Err("Requestee Principal not provided".to_string()));
    assert_eq!(swap_request_check(true, false, false, true), Err("Token A ICRC 2 not supported".to_string()));
    assert_eq!(swap_request_check(true, true, false, false), Err("Token B ICRC 2 not supported".to_string()));
    assert_eq!(swap_request_check(true, true, true, false), Err("Canister Not Found for the Principal".to_string()));
}

#[test]
fn amounts_and_allowances() {
    assert!(amount_is_green(TxnDirection::Added));
    assert!(!amount_is_green(TxnDirection::Deducted));
    assert!(!amount_is_green(TxnDirection::Transaction));
    let approved = swap_approval_amount(40, 15).unwrap();
    assert_eq!(swap_cancel_amount(approved, 15), 40);
}

#[test]
fn mock_history_has_no_transfers() {
    let page = mock_history_page(3, 0, 40);
    assert!(page.iter().all(|t| !matches!(t.tag, TxnInfoType::Transfer { .. })));
}
