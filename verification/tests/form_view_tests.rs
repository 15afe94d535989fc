use page::airdrop::{airdrop_button, airdrop_followup_label, airdrop_headline, popup_can_close, AirdropButton};
use page::create_form::{create_button_text, create_disabled, InputState, CreateTokenCtx};
use page::principal::PrincipalId;
use page::token_view::{
    airdrop_already_claimed, airdrop_disabled, pair_airdrop_status, airdrop_page_amount, airdrop_request_e8s,
    is_utility_token, profile_airdrop_claimed, profile_tokens_heading, toggle_blur,
    token_info_path, token_info_path_of_text, token_info_share, token_share_message, token_transfer_path,
    viewer_airdrop_claimed, viewer_is_key, wallet_card_root, withdraw_action, withdraw_note_text,
    withdraw_path, withdrawal_summary, RootKind, WithdrawAction, WithdrawNote,
    WithdrawalState, WithdrawalSummary,
};

#[test]
fn inputs_without_value_start_invalid() {
    let mut f = CreateTokenCtx::new();
    assert_eq!(f.invalid_cnt(), 0);
    let a = f.add_input(false);
    let b = f.add_input(true);
    assert_eq!((a, b), (0, 1));
    assert_eq!(f.len(), 2);
    assert_eq!(f.invalid_cnt(), 1);
    assert_eq!(f.input(a), InputState { error: true, show_error: false });
    assert!(!f.input(a).shows_error());
}

#[test]
fn typing_keeps_the_count_exact() {
    let mut f = CreateTokenCtx::new();
    let a = f.add_input(false);
    let b = f.add_input(true);
    f.on_input(a, true);
    assert_eq!(f.invalid_cnt(), 0);
    f.on_input(b, false);
    assert_eq!(f.invalid_cnt(), 1);
    assert!(f.input(b).shows_error());
    // a second invalid value counts the input only once
    f.on_input(b, false);
    assert_eq!(f.invalid_cnt(), 1);
    f.on_input(a, false);
    assert_eq!(f.invalid_cnt(), 2);
    f.on_input(b, true);
    f.on_input(a, true);
    assert_eq!(f.invalid_cnt(), 0);
    assert!(f.input(a).show_error);
    assert!(!f.input(a).shows_error());
}

#[test]
fn form_reset_keeps_hidden_errors_hidden() {
    let mut f = CreateTokenCtx::new();
    let a = f.add_input(true);
    let b = f.add_input(true);
    f.on_form_reset(a, false);
    assert_eq!(f.input(a), InputState { error: true, show_error: false });
    assert_eq!(f.invalid_cnt(), 1);
    f.on_input(b, false);
    f.on_form_reset(b, false);
    assert_eq!(f.input(b), InputState { error: true, show_error: true });
    assert_eq!(f.invalid_cnt(), 2);
    f.on_form_reset(a, true);
    assert_eq!(f.invalid_cnt(), 1);
    f.reset();
    assert_eq!(f.len(), 0);
    assert_eq!(f.invalid_cnt(), 0);
}

#[test]
fn create_button() {
    assert!(!create_disabled(false, true, true, true, true, true, 0));
    assert!(create_disabled(true, true, true, true, true, true, 0));
    assert!(create_disabled(false, false, true, true, true, true, 0));
    assert!(create_disabled(false, true, false, true, true, true, 0));
    assert!(create_disabled(false, true, true, false, true, true, 0));
    assert!(create_disabled(false, true, true, true, false, true, 0));
    assert!(create_disabled(false, true, true, true, true, false, 0));
    assert!(create_disabled(false, true, true, true, true, true, 1));
    assert_eq!(create_button_text(true), "Creating...");
    assert_eq!(create_button_text(false), "Create");
}

#[test]
fn token_sharing() {
    assert_eq!(
        token_share_message("SYM", "/l"),
        "Hey! Check out the token: SYM I created on YRAL 👇 /l. I just minted my own token—come see and create yours! 🚀 #YRAL #TokenMinter"
    );
    let anon = PrincipalId::anonymous();
    assert!(token_info_share("R", None, "SYM").is_none());
    let (link, message) = token_info_share("R", Some(&anon), "SYM").unwrap();
    assert_eq!(link, "/token/info/R/2vxsx-fae?airdrop_amt=100");
    assert_eq!(message, token_share_message("SYM", &link));
    assert_eq!(token_info_path("R", Some(&anon)), "/token/info/R/2vxsx-fae");
    assert_eq!(token_info_path("R", None), "/token/info/R/");
    assert_eq!(token_transfer_path("R"), "/token/transfer/R");
    assert_eq!(token_info_path_of_text("R", "k"), "/token/info/R/k");
}

#[test]
fn wallet_cards() {
    let anon = PrincipalId::anonymous();
    assert_eq!(wallet_card_root(Some(&anon), "Name"), "2vxsx-fae");
    assert_eq!(wallet_card_root(None, "My Token ÀB"), "my token àb");
    assert!(is_utility_token(RootKind::Coyns));
    assert!(is_utility_token(RootKind::Cents));
    assert!(!is_utility_token(RootKind::Other));
    assert!(airdrop_disabled(false, false));
    assert!(airdrop_disabled(true, true));
    assert!(!airdrop_disabled(true, false));
    assert!(airdrop_already_claimed(true, false));
    assert!(!airdrop_already_claimed(true, true));
    assert!(!airdrop_already_claimed(false, false));
    assert_eq!(airdrop_request_e8s(100), 10_000_000_000);
    assert_eq!(airdrop_request_e8s(u64::MAX), u64::MAX as u128 * 100_000_000);
}

#[test]
fn airdrop_offer_on_token_page() {
    let owner = PrincipalId::anonymous();
    let other = PrincipalId::from_bytes(vec![]).unwrap();
    assert_eq!(airdrop_page_amount(Some(100), false, Some(&owner), Some(&owner), false), Some(100));
    assert_eq!(airdrop_page_amount(None, false, Some(&owner), Some(&owner), false), None);
    assert_eq!(airdrop_page_amount(Some(100), true, Some(&owner), Some(&owner), false), None);
    assert_eq!(airdrop_page_amount(Some(100), false, Some(&owner), Some(&other), false), None);
    assert_eq!(airdrop_page_amount(Some(100), false, Some(&owner), Some(&owner), true), None);
    assert_eq!(airdrop_page_amount(Some(5), false, None, None, false), Some(5));
    assert_eq!(airdrop_page_amount(Some(5), false, None, Some(&owner), false), None);
    assert!(viewer_is_key(&owner, Some(&owner)));
    assert!(!viewer_is_key(&owner, Some(&other)));
    assert!(!viewer_is_key(&owner, None));
    assert!(viewer_airdrop_claimed(RootKind::Cents, false));
    assert!(!viewer_airdrop_claimed(RootKind::Other, false));
    assert!(viewer_airdrop_claimed(RootKind::Other, true));
}

#[test]
fn blur_and_profile_tokens() {
    assert!(!toggle_blur(true, true));
    assert!(toggle_blur(true, false));
    assert!(toggle_blur(false, true));
    assert_eq!(profile_tokens_heading(true, true), Some("Create your own"));
    assert_eq!(profile_tokens_heading(true, false), Some("They have not created any"));
    assert_eq!(profile_tokens_heading(false, true), None);
    assert!(profile_airdrop_claimed(None));
    assert!(!profile_airdrop_claimed(Some(false)));
}

#[test]
fn withdrawals() {
    assert_eq!(
        withdrawal_summary(Some(WithdrawalState::Value(7))),
        WithdrawalSummary { withdrawable: true, note: Some(WithdrawNote::CanWithdraw), balance_e8s: Some(700) }
    );
    assert_eq!(
        withdrawal_summary(Some(WithdrawalState::NeedMoreEarnings(3))),
        WithdrawalSummary {
            withdrawable: false,
            note: Some(WithdrawNote::EarnMore { amount_e8s: 300 }),
            balance_e8s: None
        }
    );
    assert_eq!(
        withdrawal_summary(None),
        WithdrawalSummary { withdrawable: false, note: None, balance_e8s: None }
    );
    assert_eq!(withdraw_note_text(WithdrawNote::CanWithdraw, "1.00"), "Cents you can withdraw");
    assert_eq!(
        withdraw_note_text(WithdrawNote::EarnMore { amount_e8s: 300 }, "0.03"),
        "Earn 0.03 Cents more to unlock"
    );
    assert_eq!(withdraw_action(false), WithdrawAction::ShowLogin);
    assert_eq!(withdraw_action(true), WithdrawAction::OpenWithdrawPage);
    assert_eq!(withdraw_path(), "/pnd/withdraw");
}

#[test]
fn airdrop_popup() {
    assert_eq!(airdrop_button(true, true), AirdropButton::Waiting);
    assert_eq!(airdrop_button(false, true), AirdropButton::GoToWallet);
    assert_eq!(airdrop_button(false, false), AirdropButton::ClaimNow);
    assert_eq!(airdrop_headline(100, "COYNS", false), "100 COYNS Airdrop received");
    assert_eq!(airdrop_headline(5, "X", true), "5 X added to wallet");
    assert_eq!(airdrop_followup_label("icpump.fun", "/wallet"), "Explore more Tokens");
    assert_eq!(airdrop_followup_label("icpump.fun", "/profile/x"), "Explore more Tokens");
    assert_eq!(airdrop_followup_label("icpump.fun", "/board"), "View Wallet");
    assert_eq!(airdrop_followup_label("pumpdump.wtf", "/wallet"), "Continue Playing");
    assert_eq!(airdrop_followup_label("yral.com", "/"), "Watch more Videos");
    assert_eq!(airdrop_followup_label("localhost", "/"), "View Wallet");
    assert!(popup_can_close(false));
    assert!(!popup_can_close(true));
}

#[test]
fn profile_tokens_pair_with_status() {
    let r = pair_airdrop_status(vec!["a", "b"], vec![Some(true), None]);
    assert_eq!(r, vec![("a", Some(true)), ("b", None)]);
    assert!(pair_airdrop_status::<u8>(vec![], vec![]).is_empty());
}
