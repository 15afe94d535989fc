//! The in-app links that pages build: a post's page, the home page's
//! redirect, and a finished game's card.
use vstd::prelude::*;
use crate::number::{decimal, push_decimal};
use crate::principal::{principal_text, PrincipalId};
use crate::pumpdump::{GameResult, GameState};
use crate::text::{append_str, push_char};
use crate::upload::owned;

verus! {

/// The page of post `post_id` of the canister whose principal reads
/// `canister_text`.
pub open spec fn post_path_text(canister_text: Seq<char>, post_id: u64) -> Seq<char> {
    "/hot-or-not/"@ + canister_text + "/"@ + decimal(post_id as nat)
}

/// The page of post `post_id` of canister `canister`.
pub open spec fn post_path(canister: Seq<u8>, post_id: u64) -> Seq<char> {
    post_path_text(principal_text(canister), post_id)
}

/// The page of post `post_id` of the canister whose principal reads
/// `canister_text`.
pub fn post_url_of_text(canister_text: &str, post_id: u64) -> (r: String)
    ensures
        r@ == post_path_text(canister_text@, post_id),
{
    let mut r = owned("/hot-or-not/");
    append_str(&mut r, canister_text);
    push_char(&mut r, '/');
    push_decimal(&mut r, post_id as u128);
    proof {
        reveal_strlit("/");
    }
    r
}

/// The page of post `post_id` of canister `canister`.
pub fn post_url(canister: &PrincipalId, post_id: u64) -> (r: String)
    ensures
        r@ == post_path(canister@, post_id),
{
    let text = canister.to_text();
    post_url_of_text(text.as_str(), post_id)
}

/// The first of the posts, if there is one.
pub fn first_post<T>(posts: Vec<T>) -> (r: Option<T>)
    ensures
        posts@.len() == 0 ==> r is None,
        posts@.len() > 0 ==> r == Some(posts@[0]),
{
    let mut posts = posts;
    if posts.len() == 0 {
        None
    } else {
        Some(posts.remove(0))
    }
}

/// Where the home page sends the visitor: to the top post of the feed, to an
/// error page saying that no posts were found, or to an error page with the
/// error's text.
pub fn home_redirect(top: Result<Option<(PrincipalId, u64)>, String>) -> (r: String)
    ensures
        r@ == (match top {
            Ok(Some((canister, post_id))) => post_path(canister@, post_id),
            Ok(None) => "/error?err=No Posts Found"@,
            Err(e) => "/error?err="@ + e@,
        }),
{
    match top {
        Ok(Some((canister, post_id))) => post_url(&canister, post_id),
        Ok(None) => owned("/error?err=No Posts Found"),
        Err(e) => {
            let mut r = owned("/error?err=");
            append_str(&mut r, e.as_str());
            r
        },
    }
}

/// The label and amount that a game card's link carries.
pub open spec fn card_state(state: GameState) -> (Seq<char>, Option<u128>) {
    match state {
        GameState::ResultDeclared(GameResult::Win { amount }) => ("win"@, Some(amount)),
        GameState::ResultDeclared(GameResult::Loss { amount }) => ("loss"@, Some(amount)),
        GameState::Playing => ("pending"@, None),
    }
}

/// The link of a card in the gameplay history, for the token whose root
/// reads `root_text`.
pub open spec fn history_card_href_spec(root_text: Seq<char>, state: GameState) -> Seq<char> {
    "/?root="@ + root_text + "&state="@ + card_state(state).0 + (match card_state(state).1 {
        Some(amount) => "&amount="@ + decimal(amount as nat),
        None => Seq::<char>::empty(),
    })
}

/// The link of a card in the gameplay history: the token's root as text, the
/// game's state, and the amount won or lost once the result is known.
pub fn history_card_href_of_text(root_text: &str, state: GameState) -> (r: String)
    ensures
        r@ == history_card_href_spec(root_text@, state),
{
    let (label, amount) = match state {
        GameState::ResultDeclared(GameResult::Win { amount }) => ("win", Some(amount)),
        GameState::ResultDeclared(GameResult::Loss { amount }) => ("loss", Some(amount)),
        GameState::Playing => ("pending", None),
    };
    let mut r = owned("/?root=");
    append_str(&mut r, root_text);
    append_str(&mut r, "&state=");
    append_str(&mut r, label);
    let ghost base = r@;
    match amount {
        Some(a) => {
            append_str(&mut r, "&amount=");
            push_decimal(&mut r, a);
        },
        None => {
            assert(r@ =~= base + Seq::<char>::empty());
        },
    }
    r
}

/// The link of a card in the gameplay history: the token's root, the game's
/// state, and the amount won or lost once the result is known.
pub fn history_card_href(root: &PrincipalId, state: GameState) -> (r: String)
    ensures
        r@ == history_card_href_spec(principal_text(root@), state),
{
    let text = root.to_text();
    history_card_href_of_text(text.as_str(), state)
}

/// What a failed read of the played games on chain means: the end of the
/// list, which is no error (`None`), or the error to report.
pub fn chain_history_error(err: &str) -> (r: Option<String>)
    ensures
        err@ == "ReachedEndOfItemsList"@ ==> r is None,
        err@ != "ReachedEndOfItemsList"@ ==> (r matches Some(m) && m@ == "Couldn't load played games: "@
            + err@),
{
    let e = owned(err);
    let end = owned("ReachedEndOfItemsList");
    if e == end {
        None
    } else {
        let mut m = owned("Couldn't load played games: ");
        append_str(&mut m, err);
        Some(m)
    }
}

/// The page that the site's root shows.
#[derive(Clone, Copy, Debug, PartialEq, Eq, Structural)]
pub enum RootChoice {
    /// The pump-and-dump game.
    PumpNDump,
    /// A redirect to the token board.
    CreatorDao,
    /// A redirect to the top post of the feed.
    Feed,
}

/// The root page: the game on the game's site, the token board on the token
/// site, the feed elsewhere.
pub fn root_choice(pnd_site: bool, cdao_site: bool) -> (r: RootChoice)
    ensures
        r == (if pnd_site {
            RootChoice::PumpNDump
        } else if cdao_site {
            RootChoice::CreatorDao
        } else {
            RootChoice::Feed
        }),
{
    if pnd_site {
        RootChoice::PumpNDump
    } else if cdao_site {
        RootChoice::CreatorDao
    } else {
        RootChoice::Feed
    }
}

/// Whether the root takes its top post from the feed that includes content
/// not safe for work: when the link asks for it or the site shows it.
pub fn uses_nsfw_feed(nsfw_param: Option<bool>, show_nsfw_content: bool) -> (r: bool)
    ensures
        r == ((nsfw_param matches Some(b) && b) || show_nsfw_content),
{
    let asked = match nsfw_param {
        Some(b) => b,
        None => false,
    };
    asked || show_nsfw_content
}

/// The game server's path that lists a player's games not yet on chain, for
/// the player's canister whose principal reads `user_canister_text`.
pub fn uncommitted_games_path(user_canister_text: &str) -> (r: String)
    ensures
        r@ == "/uncommitted_games/"@ + user_canister_text@,
{
    let mut r = owned("/uncommitted_games/");
    append_str(&mut r, user_canister_text);
    r
}

} // verus!
