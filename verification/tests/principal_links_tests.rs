use page::links::{
    chain_history_error, first_post, history_card_href, history_card_href_of_text, home_redirect,
    post_url, post_url_of_text, root_choice, uncommitted_games_path, uses_nsfw_feed, RootChoice,
};
use page::principal::PrincipalId;
use page::pumpdump::{GameResult, GameState};

#[test]
fn principal_text_round_trip() {
    let anon = PrincipalId::anonymous();
    assert_eq!(anon.to_text(), "2vxsx-fae");
    assert_eq!(anon.to_text(), candid::Principal::anonymous().to_text());
    let back = PrincipalId::from_text(&anon.to_text()).unwrap();
    assert!(back.same_as(&anon));
    let management = PrincipalId::from_bytes(vec![]).unwrap();
    assert_eq!(management.to_text(), "aaaaa-aa");
    assert!(PrincipalId::from_text("aaaaa-aa").unwrap().as_bytes().is_empty());
}

#[test]
fn principal_text_is_case_insensitive() {
    let p = PrincipalId::from_text("2VXSX-FAE").unwrap();
    assert_eq!(p.as_bytes(), &vec![4u8]);
    assert_eq!(p.to_text(), "2vxsx-fae");
}

#[test]
fn principal_text_refusals() {
    assert!(PrincipalId::from_text("").is_none());
    assert!(PrincipalId::from_text("not-a-principal").is_none());
    assert!(PrincipalId::from_text("2vxsx-fa").is_none());
}

#[test]
fn principal_bytes_limit() {
    assert!(PrincipalId::from_bytes(vec![1u8; 29]).is_some());
    assert!(PrincipalId::from_bytes(vec![1u8; 30]).is_none());
    let p = PrincipalId::from_bytes(vec![1, 2, 3]).unwrap();
    let q = p.duplicate();
    assert!(p.same_as(&q));
    assert!(!p.same_as(&PrincipalId::anonymous()));
    let text = p.to_text();
    assert_eq!(text, candid::Principal::from_slice(&[1, 2, 3]).to_text());
    assert!(PrincipalId::from_text(&text).unwrap().same_as(&p));
}

#[test]
fn post_links() {
    let anon = PrincipalId::anonymous();
    assert_eq!(post_url(&anon, 17), "/hot-or-not/2vxsx-fae/17");
    assert_eq!(home_redirect(Ok(Some((anon.duplicate(), 0)))), "/hot-or-not/2vxsx-fae/0");
    assert_eq!(home_redirect(Ok(None)), "/error?err=No Posts Found");
    assert_eq!(home_redirect(Err("boom".to_string())), "/error?err=boom");
}

#[test]
fn first_post_of_a_list() {
    assert_eq!(first_post(vec![3, 4]), Some(3));
    assert_eq!(first_post::<u8>(vec![]), None);
}

#[test]
fn history_card_links() {
    let anon = PrincipalId::anonymous();
    assert_eq!(history_card_href(&anon, GameState::Playing), "/?root=2vxsx-fae&state=pending");
    assert_eq!(
        history_card_href(&anon, GameState::ResultDeclared(GameResult::Win { amount: 120 })),
        "/?root=2vxsx-fae&state=win&amount=120"
    );
    assert_eq!(
        history_card_href(&anon, GameState::ResultDeclared(GameResult::Loss { amount: 0 })),
        "/?root=2vxsx-fae&state=loss&amount=0"
    );
}

#[test]
fn chain_history_errors() {
    assert_eq!(chain_history_error("ReachedEndOfItemsList"), None);
    assert_eq!(
        chain_history_error("timeout"),
        Some("Couldn't load played games: timeout".to_string())
    );
}

#[test]
fn root_page_choice() {
    assert_eq!(root_choice(true, true), RootChoice::PumpNDump);
    assert_eq!(root_choice(false, true), RootChoice::CreatorDao);
    assert_eq!(root_choice(false, false), RootChoice::Feed);
    assert!(uses_nsfw_feed(Some(true), false));
    assert!(!uses_nsfw_feed(Some(false), false));
    assert!(!uses_nsfw_feed(None, false));
    assert!(uses_nsfw_feed(None, true));
}

#[test]
fn links_from_texts() {
    assert_eq!(post_url_of_text("abc-de", 0), "/hot-or-not/abc-de/0");
    assert_eq!(uncommitted_games_path("can"), "/uncommitted_games/can");
    assert_eq!(post_url_of_text("", 18446744073709551615), "/hot-or-not//18446744073709551615");
    assert_eq!(
        history_card_href_of_text("r", GameState::ResultDeclared(GameResult::Loss { amount: 3 })),
        "/?root=r&state=loss&amount=3"
    );
}
