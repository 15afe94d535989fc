//! The pump-and-dump game: how a round's outcome is scored for the player,
//! how the running bet counts follow the player's bets and the server's
//! messages, and how the player's own record is updated.
use vstd::prelude::*;
use crate::number::{decimal, push_decimal};
use crate::upload::owned;
use crate::principal::PrincipalId;

verus! {

/// Which side of a round a bet is on.
#[derive(Clone, Copy, Debug, PartialEq, Eq, Structural)]
pub enum GameDirection {
    Pump,
    Dump,
}

/// The outcome of a round for the player, in cents.
#[derive(Clone, Copy, Debug, PartialEq, Eq, Structural)]
pub enum GameResult {
    Win { amount: u128 },
    Loss { amount: u128 },
}

/// Whether a card is still being played or has its result.
#[derive(Clone, Copy, Debug, PartialEq, Eq, Structural)]
pub enum GameState {
    Playing,
    ResultDeclared(GameResult),
}

/// The state of the round that the player takes part in.
#[derive(Clone, Copy, Debug, PartialEq, Eq, Structural)]
pub struct GameRunningData {
    pub pumps: u64,
    pub dumps: u64,
    pub player_count: u64,
    pub winning_pot: Option<u64>,
}

/// What the server announces when a round ends.
#[derive(Clone, Copy, Debug, PartialEq, Eq, Structural)]
pub struct RoundOutcome {
    pub direction: GameDirection,
    /// The pool shared among the winners, in e8s.
    pub reward_pool: u64,
    /// The number of bets on the winning side.
    pub bet_count: u64,
    pub new_round: u64,
}

/// A game that has been settled, as the history records it.
#[derive(Clone, Copy, Debug, PartialEq, Eq, Structural)]
pub struct CompletedGameInfo {
    pub pumps: u64,
    pub dumps: u64,
    /// The player's reward, in e8s.
    pub reward: u128,
}

/// The player's own record.
#[derive(Clone, Copy, Debug, PartialEq, Eq, Structural)]
pub struct PlayerData {
    pub games_count: u64,
    pub wallet_balance: u128,
}

/// A change to the player's record.
#[derive(Clone, Copy, Debug, PartialEq, Eq, Structural)]
pub enum PlayerDataUpdate {
    IncrementGameCount { increase_wallet_amount_by: Option<u128> },
    DecrementWalletBalance,
}

/// How many e8s make one cent: a token is 10^8 e8s and 100 cents.
pub const E8S_PER_CENT: u128 = 1_000_000;

pub open spec fn spec_convert_e8s_to_cents(e8s: u128) -> u128 {
    (e8s / E8S_PER_CENT) as u128
}

/// Converts an amount in e8s to whole cents, rounding down.
pub fn convert_e8s_to_cents(e8s: u128) -> (r: u128)
    ensures
        r == spec_convert_e8s_to_cents(e8s),
{
    e8s / E8S_PER_CENT
}

/// The side the player bet on more, if the player's bets are not balanced.
pub open spec fn leading_direction(running: GameRunningData) -> Option<GameDirection> {
    if running.pumps > running.dumps {
        Some(GameDirection::Pump)
    } else if running.dumps > running.pumps {
        Some(GameDirection::Dump)
    } else {
        None
    }
}

/// The result a player with `running` bets gets when a round ends with `raw`:
/// balanced bets win nothing; bets mostly on the losing side lose every bet
/// placed; otherwise the player wins the share of the pool that the bets on
/// the leading side make of all winning bets, in cents.
pub open spec fn game_result(running: GameRunningData, raw: RoundOutcome) -> GameResult {
    match leading_direction(running) {
        None => GameResult::Win { amount: 0 },
        Some(dir) => if dir != raw.direction {
            GameResult::Loss { amount: (running.pumps + running.dumps) as u128 }
        } else {
            let count = if dir == GameDirection::Pump {
                running.pumps
            } else {
                running.dumps
            };
            GameResult::Win {
                amount: spec_convert_e8s_to_cents(((count * raw.reward_pool) / (raw.bet_count as int)) as u128),
            }
        },
    }
}

/// Whether scoring `running` against `raw` divides by the winning bet count.
pub open spec fn result_needs_bet_count(running: GameRunningData, raw: RoundOutcome) -> bool {
    match leading_direction(running) {
        Some(dir) => dir == raw.direction,
        None => false,
    }
}

/// Scores the player's bets against the announced outcome of the round.
pub fn compute_game_result(running: GameRunningData, raw: RoundOutcome) -> (r: GameResult)
    requires
        result_needs_bet_count(running, raw) ==> raw.bet_count > 0,
    ensures
        r == game_result(running, raw),
{
    if running.pumps == running.dumps {
        return GameResult::Win { amount: 0 };
    }
    let (user_direction, user_bet_count) = if running.pumps > running.dumps {
        (GameDirection::Pump, running.pumps)
    } else {
        (GameDirection::Dump, running.dumps)
    };
    if user_direction != raw.direction {
        GameResult::Loss { amount: running.pumps as u128 + running.dumps as u128 }
    } else {
        let a = user_bet_count as u128;
        let b = raw.reward_pool as u128;
        assert(a * b <= u64::MAX * u64::MAX) by (nonlinear_arith)
            requires
                a <= u64::MAX,
                b <= u64::MAX,
        ;
        let product = a * b;
        let amount = product / raw.bet_count as u128;
        GameResult::Win { amount: convert_e8s_to_cents(amount) }
    }
}

/// The net result of a settled game: the reward in cents against the cents
/// spent, one per bet.
pub open spec fn settled_result(info: CompletedGameInfo) -> GameResult {
    let reward = spec_convert_e8s_to_cents(info.reward);
    let spent = info.pumps + info.dumps;
    if spent > reward {
        GameResult::Loss { amount: (spent - reward) as u128 }
    } else {
        GameResult::Win { amount: (reward - spent) as u128 }
    }
}

/// Scores a settled game from the history.
pub fn compute_result(info: CompletedGameInfo) -> (r: GameResult)
    ensures
        r == settled_result(info),
{
    let reward = convert_e8s_to_cents(info.reward);
    let spent = info.pumps as u128 + info.dumps as u128;
    if spent > reward {
        GameResult::Loss { amount: spent - reward }
    } else {
        GameResult::Win { amount: reward - spent }
    }
}

impl GameState {
    /// Whether the round is still being played.
    pub fn is_running(&self) -> (r: bool)
        ensures
            r == (*self == GameState::Playing),
    {
        match self {
            GameState::Playing => true,
            GameState::ResultDeclared(_) => false,
        }
    }

    /// Whether the round ended in a win.
    pub fn has_won(&self) -> (r: bool)
        ensures
            r == (*self matches GameState::ResultDeclared(GameResult::Win { .. })),
    {
        match self {
            GameState::ResultDeclared(GameResult::Win { .. }) => true,
            _ => false,
        }
    }

    /// Whether the round ended in a loss.
    pub fn has_lost(&self) -> (r: bool)
        ensures
            r == (*self matches GameState::ResultDeclared(GameResult::Loss { .. })),
    {
        match self {
            GameState::ResultDeclared(GameResult::Loss { .. }) => true,
            _ => false,
        }
    }

    /// The amount won, if the round ended in a win.
    pub fn winnings(&self) -> (r: Option<u128>)
        ensures
            r == (match *self {
                GameState::ResultDeclared(GameResult::Win { amount }) => Some(amount),
                _ => None,
            }),
    {
        match self {
            GameState::ResultDeclared(GameResult::Win { amount }) => Some(*amount),
            _ => None,
        }
    }

    /// The amount lost, if the round ended in a loss.
    pub fn lossings(&self) -> (r: Option<u128>)
        ensures
            r == (match *self {
                GameState::ResultDeclared(GameResult::Loss { amount }) => Some(amount),
                _ => None,
            }),
    {
        match self {
            GameState::ResultDeclared(GameResult::Loss { amount }) => Some(*amount),
            _ => None,
        }
    }
}

/// Whether applying `update` to `data` stays within the counters' range.
pub open spec fn update_fits(data: PlayerData, update: PlayerDataUpdate) -> bool {
    match update {
        PlayerDataUpdate::IncrementGameCount { increase_wallet_amount_by } => {
            &&& data.games_count < u64::MAX
            &&& increase_wallet_amount_by matches Some(amt) ==> data.wallet_balance + amt
                <= u128::MAX
        },
        PlayerDataUpdate::DecrementWalletBalance => true,
    }
}

/// The player's record after `update`: a finished game counts one more game
/// and adds any winnings to the wallet; a bet takes one cent from the wallet,
/// never going below zero.
pub open spec fn updated_player_data(data: PlayerData, update: PlayerDataUpdate) -> PlayerData {
    match update {
        PlayerDataUpdate::IncrementGameCount { increase_wallet_amount_by } => PlayerData {
            games_count: (data.games_count + 1) as u64,
            wallet_balance: match increase_wallet_amount_by {
                Some(amt) => (data.wallet_balance + amt) as u128,
                None => data.wallet_balance,
            },
        },
        PlayerDataUpdate::DecrementWalletBalance => PlayerData {
            games_count: data.games_count,
            wallet_balance: if data.wallet_balance > 0 {
                (data.wallet_balance - 1) as u128
            } else {
                0
            },
        },
    }
}

impl PlayerData {
    /// Applies `update` to the record.
    pub fn apply(&mut self, update: PlayerDataUpdate)
        requires
            update_fits(*old(self), update),
        ensures
            *final(self) == updated_player_data(*old(self), update),
    {
        match update {
            PlayerDataUpdate::IncrementGameCount { increase_wallet_amount_by } => {
                self.games_count = self.games_count + 1;
                if let Some(amt) = increase_wallet_amount_by {
                    self.wallet_balance = self.wallet_balance + amt;
                }
            },
            PlayerDataUpdate::DecrementWalletBalance => {
                self.wallet_balance = self.wallet_balance.saturating_sub(1);
            },
        }
    }
}

/// The player's record as the page holds it: `None` while it could not be
/// loaded.
#[derive(Clone, Copy, Debug, PartialEq, Eq, Structural)]
pub struct PlayerDataRes {
    pub read: Option<PlayerData>,
}

/// The record after `update`: a record that could not be loaded stays so;
/// a loaded one is updated.
pub open spec fn record_after(read: Option<PlayerData>, update: PlayerDataUpdate) -> Option<PlayerData> {
    match read {
        Some(d) => Some(updated_player_data(d, update)),
        None => None,
    }
}

impl PlayerDataRes {
    /// Applies `update` to the record, if it was loaded.
    pub fn update(&mut self, update: PlayerDataUpdate)
        requires
            old(self).read matches Some(d) ==> update_fits(d, update),
        ensures
            final(self).read == record_after(old(self).read, update),
    {
        if let Some(d) = &mut self.read {
            d.apply(update);
        }
    }
}

/// What each update does to a loaded record: a finished game counts one more
/// game and adds the winnings, if any; a bet takes one cent, and an empty
/// wallet stays empty. A record that could not be loaded is left as it is.
pub proof fn lemma_player_updates(read: Option<PlayerData>, update: PlayerDataUpdate)
    ensures
        read is None ==> record_after(read, update) is None,
        read matches Some(d) ==> (match update {
            PlayerDataUpdate::IncrementGameCount { increase_wallet_amount_by } => update_fits(d, update)
                ==> record_after(read, update) == Some(PlayerData {
                games_count: (d.games_count + 1) as u64,
                wallet_balance: (d.wallet_balance + match increase_wallet_amount_by {
                    Some(a) => a,
                    None => 0,
                }) as u128,
            }),
            PlayerDataUpdate::DecrementWalletBalance => record_after(read, update) == Some(
                PlayerData {
                    games_count: d.games_count,
                    wallet_balance: if d.wallet_balance > 0 {
                        (d.wallet_balance - 1) as u128
                    } else {
                        0
                    },
                },
            ),
        }),
{
}

/// The update that a declared result makes to the player's record.
pub open spec fn result_update(result: GameResult) -> PlayerDataUpdate {
    match result {
        GameResult::Win { amount } => PlayerDataUpdate::IncrementGameCount {
            increase_wallet_amount_by: Some(amount),
        },
        GameResult::Loss { .. } => PlayerDataUpdate::IncrementGameCount {
            increase_wallet_amount_by: None,
        },
    }
}

/// An error that the game server reports.
#[derive(Clone, Copy, Debug, PartialEq, Eq, Structural)]
pub enum WsError {
    /// A bet in `direction` was refused.
    BetFailure { direction: GameDirection },
    /// Any other error.
    Other,
}

/// A message from the game server.
#[derive(Clone, Copy, Debug, PartialEq, Eq, Structural)]
pub enum WsResp {
    /// Sent on connecting: the current round, its pool, its players and the
    /// player's bets in it.
    WelcomeEvent { round: u64, pool: u64, player_count: u64, pumps: u64, dumps: u64 },
    BetSuccesful,
    Error(WsError),
    GameResultEvent(RoundOutcome),
    WinningPoolEvent { new_pool: u64 },
}

/// What the page does in answer to a server message.
#[derive(Clone, Copy, Debug, PartialEq, Eq, Structural)]
pub enum WsEffect {
    Nothing,
    /// Report the error.
    ReportError,
    /// Show `result` and apply `update` to the player's record.
    Declare { result: GameResult, update: PlayerDataUpdate },
}

/// The player's view of the round being played.
#[derive(Clone, Copy, Debug, PartialEq, Eq, Structural)]
pub struct RunningGameCtx {
    pub running: Option<GameRunningData>,
    pub current_round: Option<u64>,
}

/// A bet to send to the server.
#[derive(Clone, Copy, Debug, PartialEq, Eq, Structural)]
pub struct BetRequest {
    pub direction: GameDirection,
    pub round: u64,
}

/// `running` with one more bet in `dir`.
pub open spec fn add_bet(running: GameRunningData, dir: GameDirection) -> GameRunningData {
    match dir {
        GameDirection::Pump => GameRunningData { pumps: (running.pumps + 1) as u64, ..running },
        GameDirection::Dump => GameRunningData { dumps: (running.dumps + 1) as u64, ..running },
    }
}

/// `running` with one bet in `dir` taken back.
pub open spec fn remove_bet(running: GameRunningData, dir: GameDirection) -> GameRunningData {
    match dir {
        GameDirection::Pump => GameRunningData { pumps: (running.pumps - 1) as u64, ..running },
        GameDirection::Dump => GameRunningData { dumps: (running.dumps - 1) as u64, ..running },
    }
}

pub open spec fn bet_count_in(running: GameRunningData, dir: GameDirection) -> u64 {
    match dir {
        GameDirection::Pump => running.pumps,
        GameDirection::Dump => running.dumps,
    }
}

/// The session after the player bets in `dir`: nothing happens before the
/// round is known; otherwise the bet is counted.
pub open spec fn session_after_bet(s: RunningGameCtx, dir: GameDirection) -> RunningGameCtx {
    match s.current_round {
        None => s,
        Some(_) => RunningGameCtx {
            running: match s.running {
                Some(r) => Some(add_bet(r, dir)),
                None => None,
            },
            ..s
        },
    }
}

/// The session after the server sends `resp`.
pub open spec fn session_after_response(s: RunningGameCtx, resp: WsResp) -> RunningGameCtx {
    match resp {
        WsResp::WelcomeEvent { round, pool, player_count, pumps, dumps } => RunningGameCtx {
            running: Some(
                GameRunningData { pumps, dumps, player_count, winning_pot: Some(pool) },
            ),
            current_round: Some(round),
        },
        WsResp::BetSuccesful => s,
        WsResp::Error(WsError::BetFailure { direction }) => RunningGameCtx {
            running: match s.running {
                Some(r) => Some(remove_bet(r, direction)),
                None => None,
            },
            ..s
        },
        WsResp::Error(WsError::Other) => s,
        WsResp::GameResultEvent(res) => match s.running {
            None => s,
            Some(_) => RunningGameCtx { current_round: Some(res.new_round), ..s },
        },
        WsResp::WinningPoolEvent { new_pool } => RunningGameCtx {
            running: match s.running {
                Some(r) => Some(GameRunningData { winning_pot: Some(new_pool), ..r }),
                None => None,
            },
            ..s
        },
    }
}

/// What the page does in answer to `resp` in session `s`.
pub open spec fn response_effect(s: RunningGameCtx, resp: WsResp) -> WsEffect {
    match resp {
        WsResp::Error(_) => WsEffect::ReportError,
        WsResp::GameResultEvent(res) => match s.running {
            None => WsEffect::Nothing,
            Some(r) => WsEffect::Declare {
                result: game_result(r, res),
                update: result_update(game_result(r, res)),
            },
        },
        _ => WsEffect::Nothing,
    }
}

/// Whether `resp` can be handled in session `s` without a counter leaving its
/// range or a division by zero.
pub open spec fn response_ok(s: RunningGameCtx, resp: WsResp) -> bool {
    match resp {
        WsResp::Error(WsError::BetFailure { direction }) => s.running matches Some(r)
            ==> bet_count_in(r, direction) > 0,
        WsResp::GameResultEvent(res) => s.running matches Some(r) ==> (result_needs_bet_count(
            r,
            res,
        ) ==> res.bet_count > 0),
        _ => true,
    }
}

impl RunningGameCtx {
    /// A session before the server has said anything.
    pub fn new() -> (s: RunningGameCtx)
        ensures
            s.running is None,
            s.current_round is None,
    {
        RunningGameCtx { running: None, current_round: None }
    }

    /// Applies `f` to the running round's data, if a round is known.
    pub fn with_running_data<T, F: FnOnce(&GameRunningData) -> T>(&self, f: F) -> (r: Option<T>)
        requires
            self.running matches Some(d) ==> f.requires((&d,)),
        ensures
            match self.running {
                Some(d) => r matches Some(v) && f.ensures((&d,), v),
                None => r is None,
            },
    {
        match &self.running {
            Some(d) => Some(f(d)),
            None => None,
        }
    }

    /// Places a bet in `dir`: returns the request to send, or `None` when the
    /// round is not known yet, in which case nothing changes. A placed bet is
    /// counted at once and takes one cent from the player's wallet.
    pub fn send_bet(&mut self, dir: GameDirection, player_data: &mut PlayerDataRes) -> (r: Option<
        BetRequest,
    >)
        requires
            old(self).current_round is Some ==> (old(self).running matches Some(run)
                ==> bet_count_in(run, dir) < u64::MAX),
        ensures
            *final(self) == session_after_bet(*old(self), dir),
            r == (match old(self).current_round {
                Some(round) => Some(BetRequest { direction: dir, round }),
                None => None,
            }),
            final(player_data).read == (match old(self).current_round {
                Some(_) => record_after(old(player_data).read, PlayerDataUpdate::DecrementWalletBalance),
                None => old(player_data).read,
            }),
    {
        let round = match self.current_round {
            Some(round) => round,
            None => return None,
        };
        player_data.update(PlayerDataUpdate::DecrementWalletBalance);
        if let Some(run) = self.running {
            let mut next = run;
            match dir {
                GameDirection::Dump => next.dumps = next.dumps + 1,
                GameDirection::Pump => next.pumps = next.pumps + 1,
            }
            self.running = Some(next);
        }
        Some(BetRequest { direction: dir, round })
    }

    /// Handles a message from the game server: a declared result is also
    /// applied to the player's record.
    pub fn on_response(&mut self, resp: WsResp, player_data: &mut PlayerDataRes) -> (e: WsEffect)
        requires
            response_ok(*old(self), resp),
            response_effect(*old(self), resp) matches WsEffect::Declare { update, .. } ==> (old(
                player_data,
            ).read matches Some(d) ==> update_fits(d, update)),
        ensures
            *final(self) == session_after_response(*old(self), resp),
            e == response_effect(*old(self), resp),
            final(player_data).read == (match e {
                WsEffect::Declare { update, .. } => record_after(old(player_data).read, update),
                _ => old(player_data).read,
            }),
    {
        let e = self.respond(resp);
        if let WsEffect::Declare { update, .. } = e {
            player_data.update(update);
        }
        e
    }

    /// The session's part of handling a server message.
    fn respond(&mut self, resp: WsResp) -> (e: WsEffect)
        requires
            response_ok(*old(self), resp),
        ensures
            *final(self) == session_after_response(*old(self), resp),
            e == response_effect(*old(self), resp),
    {
        match resp {
            WsResp::WelcomeEvent { round, pool, player_count, pumps, dumps } => {
                self.running = Some(
                    GameRunningData { pumps, dumps, player_count, winning_pot: Some(pool) },
                );
                self.current_round = Some(round);
                WsEffect::Nothing
            },
            WsResp::BetSuccesful => WsEffect::Nothing,
            WsResp::Error(err) => {
                if let WsError::BetFailure { direction } = err {
                    if let Some(run) = self.running {
                        let mut next = run;
                        match direction {
                            GameDirection::Pump => next.pumps = next.pumps - 1,
                            GameDirection::Dump => next.dumps = next.dumps - 1,
                        }
                        self.running = Some(next);
                    }
                }
                WsEffect::ReportError
            },
            WsResp::GameResultEvent(res) => {
                let run = match self.running {
                    Some(run) => run,
                    None => return WsEffect::Nothing,
                };
                self.current_round = Some(res.new_round);
                let result = compute_game_result(run, res);
                let update = match result {
                    GameResult::Win { amount } => PlayerDataUpdate::IncrementGameCount {
                        increase_wallet_amount_by: Some(amount),
                    },
                    GameResult::Loss { .. } => PlayerDataUpdate::IncrementGameCount {
                        increase_wallet_amount_by: None,
                    },
                };
                WsEffect::Declare { result, update }
            },
            WsResp::WinningPoolEvent { new_pool } => {
                if let Some(run) = self.running {
                    let mut next = run;
                    next.winning_pot = Some(new_pool);
                    self.running = Some(next);
                }
                WsEffect::Nothing
            },
        }
    }
}

/// Which animal the slider shows attacking, and the bet counts it last saw.
#[derive(Clone, Copy, Debug, PartialEq, Eq, Structural)]
pub struct AttackState {
    /// `Some(true)` when the bear (dump) attacks, `Some(false)` when the bull
    /// (pump) attacks, `None` when neither.
    pub bear_attacking: Option<bool>,
    pub dumps: u64,
    pub pumps: u64,
}

pub open spec fn no_attack() -> AttackState {
    AttackState { bear_attacking: None, dumps: 0, pumps: 0 }
}

/// The slider's next attack state: a new dump bet makes the bear attack, else
/// a new pump bet makes the bull attack, else nothing changes; without a round,
/// or when the round's counts are back at zero, nobody attacks.
pub open spec fn next_attack(prev: Option<AttackState>, counts: Option<(u64, u64)>) -> AttackState {
    match counts {
        None => no_attack(),
        Some((new_dumps, new_pumps)) => if new_dumps == 0 && new_pumps == 0 {
            no_attack()
        } else {
            let p = match prev {
                Some(p) => p,
                None => no_attack(),
            };
            if new_dumps > p.dumps {
                AttackState { bear_attacking: Some(true), dumps: new_dumps, pumps: new_pumps }
            } else if new_pumps > p.pumps {
                AttackState { bear_attacking: Some(false), dumps: new_dumps, pumps: new_pumps }
            } else {
                p
            }
        },
    }
}

/// Computes the slider's next attack state from the previous one and the
/// round's `(dumps, pumps)` counts, if a round is running.
pub fn next_attack_state(prev: Option<AttackState>, counts: Option<(u64, u64)>) -> (r: AttackState)
    ensures
        r == next_attack(prev, counts),
{
    let (new_dumps, new_pumps) = match counts {
        None => return AttackState { bear_attacking: None, dumps: 0, pumps: 0 },
        Some(c) => c,
    };
    if new_dumps == 0 && new_pumps == 0 {
        return AttackState { bear_attacking: None, dumps: 0, pumps: 0 };
    }
    let p = match prev {
        Some(p) => p,
        None => AttackState { bear_attacking: None, dumps: 0, pumps: 0 },
    };
    if new_dumps > p.dumps {
        AttackState { bear_attacking: Some(true), dumps: new_dumps, pumps: new_pumps }
    } else if new_pumps > p.pumps {
        AttackState { bear_attacking: Some(false), dumps: new_dumps, pumps: new_pumps }
    } else {
        p
    }
}

/// The animation classes of the bear and the bull.
pub fn attack_classes(state: AttackState) -> (r: (&'static str, &'static str))
    ensures
        r.0@ == (match state.bear_attacking {
            Some(true) => "animate-push-right"@,
            Some(false) => "animate-shake"@,
            None => ""@,
        }),
        r.1@ == (match state.bear_attacking {
            Some(true) => "animate-shake"@,
            Some(false) => "animate-push-left"@,
            None => ""@,
        }),
{
    match state.bear_attacking {
        Some(true) => ("animate-push-right", "animate-shake"),
        Some(false) => ("animate-shake", "animate-push-left"),
        None => ("", ""),
    }
}

/// Where a page of the gameplay history comes from.
#[derive(Clone, Copy, Debug, PartialEq, Eq, Structural)]
pub enum HistorySource {
    /// The games not yet written on chain, from the game server.
    Uncommitted,
    /// Played games on chain, `limit` of them from `start_index`.
    Chain { start_index: u64, limit: u64 },
}

/// How many settled games one history page holds.
pub const HISTORY_PAGE_LIMIT: u64 = 10;

pub open spec fn history_source(page: u64) -> HistorySource {
    if page == 0 {
        HistorySource::Uncommitted
    } else {
        HistorySource::Chain {
            start_index: ((page - 1) * HISTORY_PAGE_LIMIT) as u64,
            limit: HISTORY_PAGE_LIMIT,
        }
    }
}

/// The source of history page `page`: page 0 holds the uncommitted games, and
/// page `n + 1` the `n`-th run of ten games on chain.
pub fn history_page_source(page: u64) -> (r: HistorySource)
    requires
        page == 0 || (page - 1) * HISTORY_PAGE_LIMIT <= u64::MAX,
    ensures
        r == history_source(page),
{
    if page == 0 {
        HistorySource::Uncommitted
    } else {
        HistorySource::Chain { start_index: (page - 1) * HISTORY_PAGE_LIMIT, limit: HISTORY_PAGE_LIMIT }
    }
}

/// Consecutive chain pages of the history follow one another without gap or
/// overlap: each starts where the one before ended.
pub proof fn lemma_history_pages_adjoin(page: u64)
    requires
        page >= 1,
        page * HISTORY_PAGE_LIMIT <= u64::MAX,
    ensures
        history_source(page) matches HistorySource::Chain { start_index: s1, limit: l1 }
            && history_source((page + 1) as u64) matches HistorySource::Chain { start_index: s2, limit: l2 }
            && s2 == s1 + l1 && l1 == l2,
{
}

/// Whether the history may hold more after a page from `source` with
/// `item_count` items: always after the uncommitted games, and after a chain
/// page while it was not empty.
pub fn history_has_more(source: HistorySource, item_count: usize) -> (r: bool)
    ensures
        r == (source is Uncommitted || item_count > 0),
{
    match source {
        HistorySource::Uncommitted => true,
        HistorySource::Chain { .. } => item_count > 0,
    }
}

/// The next page of tokens to fetch, if any: none while a fetch runs, none
/// after a failed fetch or once the list has ended, else the page that the
/// last fetch named, or page 1 before the first fetch.
pub open spec fn next_token_page_spec(fetching: bool, prev: Option<Result<(u32, bool), ()>>) -> Option<
    u32,
> {
    if fetching {
        None
    } else {
        match prev {
            None => Some(1),
            Some(Err(())) => None,
            Some(Ok((next, list_end))) => if list_end {
                None
            } else {
                Some(next)
            },
        }
    }
}

/// Decides whether, and which, token page to fetch next.
pub fn next_token_page(fetching: bool, prev: Option<Result<(u32, bool), ()>>) -> (r: Option<u32>)
    ensures
        r == next_token_page_spec(fetching, prev),
{
    if fetching {
        return None;
    }
    let (next_page, list_end) = match prev {
        None => (1, false),
        Some(Ok(p)) => p,
        Some(Err(())) => return None,
    };
    if list_end {
        return None;
    }
    Some(next_page)
}

/// The outcome of fetching token page `page` that returned `fetched` tokens:
/// the page to fetch next and whether the list has ended.
pub fn token_page_outcome(page: u32, fetched: usize) -> (r: (u32, bool))
    requires
        page < u32::MAX,
    ensures
        r == ((page + 1) as u32, fetched == 0),
{
    (page + 1, fetched == 0)
}

/// How many tokens one page of the game list holds.
pub const TOKEN_PAGE_LIMIT: u64 = 5;

/// The state in which a card opens: a card named by the link, whose result the
/// link carries, opens on that result the first time; every other card opens
/// in play. The second value says whether the link's card has now been shown.
pub fn initial_card_state(
    show_selected: bool,
    linked: Option<(bool, Option<GameResult>)>,
) -> (r: (GameState, bool))
    ensures
        r == (match (show_selected, linked) {
            (true, Some((true, Some(result)))) => (GameState::ResultDeclared(result), true),
            _ => (GameState::Playing, false),
        }),
{
    match (show_selected, linked) {
        (true, Some((true, Some(result)))) => (GameState::ResultDeclared(result), true),
        _ => (GameState::Playing, false),
    }
}

/// The text on a bet button: the number of the player's bets on that side in
/// the running round, or `-` while no round is known.
pub fn bet_counter_text(running: Option<GameRunningData>, dir: GameDirection) -> (r: String)
    ensures
        r@ == (match running {
            Some(data) => decimal(bet_count_in(data, dir) as nat),
            None => "-"@,
        }),
{
    match running {
        Some(data) => {
            let count = match dir {
                GameDirection::Pump => data.pumps,
                GameDirection::Dump => data.dumps,
            };
            let mut r = String::new();
            push_decimal(&mut r, count as u128);
            assert(r@ =~= decimal(count as nat));
            r
        },
        None => {
            proof {
                reveal_strlit("-");
            }
            owned("-")
        },
    }
}

/// Whether the bet buttons are disabled: the player's record is known and
/// the wallet is empty.
pub fn has_no_balance(player: Option<PlayerData>) -> (r: bool)
    ensures
        r == (player matches Some(d) && d.wallet_balance == 0),
{
    match player {
        Some(d) => d.wallet_balance == 0,
        None => false,
    }
}

/// Whether the game's onboarding is shown, kept as an optional flag: shown
/// until the player has been through it.
#[derive(Clone, Copy, Debug, PartialEq, Eq, Structural)]
pub struct ShowOnboarding {
    pub stored: Option<bool>,
}

impl ShowOnboarding {
    /// Asks for the onboarding to be shown.
    pub fn show(&mut self)
        ensures
            final(self).stored == Some(true),
    {
        self.stored = Some(true);
    }

    /// Marks the onboarding as seen.
    pub fn hide_onboarding(&mut self)
        ensures
            final(self).stored == Some(false),
    {
        self.stored = Some(false);
    }

    /// Whether to show it: yes unless it was marked as seen (no flag stored
    /// counts as not seen).
    pub fn should_show(&self) -> (r: bool)
        ensures
            r == (match self.stored {
                Some(b) => b,
                None => true,
            }),
    {
        match self.stored {
            Some(b) => b,
            None => true,
        }
    }
}

/// A game of the player's history, settled or still waiting for its result.
#[derive(Clone, Copy, Debug, PartialEq, Eq, Structural)]
pub enum UncommittedGameInfo {
    Completed(CompletedGameInfo),
    Pending,
}

/// The state a history card shows: the result of a settled game, play for
/// one still pending.
pub fn history_item_state(item: UncommittedGameInfo) -> (r: GameState)
    ensures
        r == (match item {
            UncommittedGameInfo::Completed(info) => GameState::ResultDeclared(settled_result(info)),
            UncommittedGameInfo::Pending => GameState::Playing,
        }),
{
    match item {
        UncommittedGameInfo::Completed(info) => GameState::ResultDeclared(compute_result(info)),
        UncommittedGameInfo::Pending => GameState::Playing,
    }
}

/// A page of played games read from chain: the games as settled history
/// items; the error "ReachedEndOfItemsList" is the end of the list, an empty
/// page; any other error becomes the message "Couldn't load played games: "
/// with the error.
pub fn chain_history_page(res: Result<Vec<CompletedGameInfo>, String>) -> (r: Result<
    Vec<UncommittedGameInfo>,
    String,
>)
    ensures
        match res {
            Ok(games) => r matches Ok(items) && items@.len() == games@.len() && forall|i: int|
                0 <= i < items@.len() ==> #[trigger] items@[i] == UncommittedGameInfo::Completed(
                    games@[i],
                ),
            Err(e) => if e@ == "ReachedEndOfItemsList"@ {
                r matches Ok(items) && items@.len() == 0
            } else {
                r matches Err(m) && m@ == "Couldn't load played games: "@ + e@
            },
        },
{
    match res {
        Ok(games) => {
            let mut items: Vec<UncommittedGameInfo> = Vec::new();
            let mut i: usize = 0;
            while i < games.len()
                invariant
                    i <= games@.len(),
                    items@.len() == i,
                    forall|k: int| 0 <= k < i ==> #[trigger] items@[k] == UncommittedGameInfo::Completed(
                        games@[k],
                    ),
                decreases games@.len() - i,
            {
                items.push(UncommittedGameInfo::Completed(games[i]));
                i = i + 1;
            }
            Ok(items)
        },
        Err(e) => match crate::links::chain_history_error(e.as_str()) {
            None => Ok(Vec::new()),
            Some(m) => Err(m),
        },
    }
}

/// A value of a token ledger's metadata, as far as the history reads it.
pub enum MetadataValue {
    Text(String),
    Other,
}

/// The first text stored under the key `icrc1:logo`, if any.
pub open spec fn logo_in(metadata: Seq<(String, MetadataValue)>) -> Option<Seq<char>>
    decreases metadata.len(),
{
    if metadata.len() == 0 {
        None
    } else if metadata[0].0@ == "icrc1:logo"@ && metadata[0].1 is Text {
        Some(metadata[0].1->Text_0@)
    } else {
        logo_in(metadata.drop_first())
    }
}

/// The token's logo from its ledger's metadata: the first entry under the
/// key `icrc1:logo` that holds text.
pub fn find_logo(metadata: &Vec<(String, MetadataValue)>) -> (r: Option<String>)
    ensures
        match r {
            Some(l) => logo_in(metadata@) == Some(l@),
            None => logo_in(metadata@) is None,
        },
{
    let key = crate::text::chars_of("icrc1:logo");
    let mut i: usize = 0;
    assert(metadata@.skip(0) =~= metadata@);
    while i < metadata.len()
        invariant
            i <= metadata@.len(),
            key@ == "icrc1:logo"@,
            logo_in(metadata@) == logo_in(metadata@.skip(i as int)),
        decreases metadata@.len() - i,
    {
        let ghost rest = metadata@.skip(i as int);
        assert(rest[0] == metadata@[i as int]);
        assert(rest.drop_first() =~= metadata@.skip(i + 1));
        let k = crate::text::chars_of(metadata[i].0.as_str());
        if crate::text::text_equals(&k, &key) {
            if let MetadataValue::Text(logo) = &metadata[i].1 {
                return Some(logo.clone());
            }
        }
        i = i + 1;
    }
    assert(metadata@.skip(i as int).len() == 0);
    None
}

/// A token of the game's list, with the principal of its owner if it has one.
pub struct ListedToken<T> {
    pub data: T,
    pub owner: Option<PrincipalId>,
}

/// The tokens of `s` that have an owner, in order.
pub open spec fn owned_tokens<T>(s: Seq<ListedToken<T>>) -> Seq<ListedToken<T>> {
    s.filter(|t: ListedToken<T>| t.owner is Some)
}

/// The value of an option as a sequence of zero or one element.
pub open spec fn option_seq<X>(o: Option<X>) -> Seq<X> {
    match o {
        Some(x) => seq![x],
        None => Seq::empty(),
    }
}

/// Grows the game's token list by a fetched page: the card selected by the
/// link first, if it was loaded, then the fetched tokens, in order, keeping
/// only those that have an owner.
pub fn append_token_page<T>(
    tokens: &mut Vec<ListedToken<T>>,
    selected: Option<ListedToken<T>>,
    fetched: Vec<ListedToken<T>>,
)
    ensures
        final(tokens)@ == old(tokens)@ + owned_tokens(option_seq(selected) + fetched@),
{
    let ghost all = option_seq(selected) + fetched@;
    let mut rest: Vec<ListedToken<T>> = Vec::new();
    match selected {
        Some(t) => rest.push(t),
        None => {},
    }
    let mut more = fetched;
    rest.append(&mut more);
    assert(rest@ =~= all);
    let ghost start = tokens@;
    let total: usize = rest.len();
    let mut taken: usize = 0;
    while rest.len() > 0
        invariant
            total == all.len(),
            taken + rest@.len() == all.len(),
            rest@ == all.skip(taken as int),
            tokens@ == start + owned_tokens(all.take(taken as int)),
        decreases rest@.len(),
    {
        let t = rest.remove(0);
        proof {
            assert(t == all[taken as int]);
            assert(all.take(taken + 1).drop_last() =~= all.take(taken as int));
            assert(all.take(taken + 1).last() == t);
            reveal_with_fuel(Seq::filter, 1);
        }
        let keep = t.owner.is_some();
        if keep {
            tokens.push(t);
            assert(tokens@ =~= start + owned_tokens(all.take(taken + 1)));
        } else {
            assert(tokens@ =~= start + owned_tokens(all.take(taken + 1)));
        }
        taken = taken + 1;
        assert(rest@ =~= all.skip(taken as int));
    }
    assert(all.take(all.len() as int) =~= all);
}

/// A card of the gameplay history.
pub struct GameplayHistoryItem {
    pub logo: String,
    pub root: PrincipalId,
    pub owner_principal: PrincipalId,
    pub owner_pfp: String,
    pub state: GameState,
}

/// What was fetched for one game of the history: the game, its token's
/// root, the token's owner if it could be read, the owner's profile picture
/// if it could be read, the token ledger's metadata (empty when the ledger or
/// its metadata could not be read), and the pictures that stand in for a
/// missing profile picture and a missing logo.
pub struct HistoryItemInfo {
    pub game: UncommittedGameInfo,
    pub root: PrincipalId,
    pub owner: Option<PrincipalId>,
    pub owner_pfp: Option<String>,
    pub fallback_pfp: String,
    pub metadata: Vec<(String, MetadataValue)>,
    pub fallback_logo: String,
}

/// Whether `item` is the history card made from `info`: the token's logo, or
/// the stand-in; the token's root; the owner, or the anonymous principal; the
/// owner's picture, or the stand-in; the game's state.
pub open spec fn history_card_of(item: GameplayHistoryItem, info: HistoryItemInfo) -> bool {
    &&& item.logo@ == (match logo_in(info.metadata@) {
        Some(l) => l,
        None => info.fallback_logo@,
    })
    &&& item.root@ == info.root@
    &&& item.owner_principal@ == (match info.owner {
        Some(o) => o@,
        None => seq![4u8],
    })
    &&& item.owner_pfp@ == (match info.owner_pfp {
        Some(p) => p@,
        None => info.fallback_pfp@,
    })
    &&& item.state == (match info.game {
        UncommittedGameInfo::Completed(g) => GameState::ResultDeclared(settled_result(g)),
        UncommittedGameInfo::Pending => GameState::Playing,
    })
}

/// The history card of one fetched game.
pub fn history_card(info: HistoryItemInfo) -> (r: GameplayHistoryItem)
    ensures
        history_card_of(r, info),
{
    let logo = match find_logo(&info.metadata) {
        Some(l) => l,
        None => info.fallback_logo,
    };
    let owner_principal = match info.owner {
        Some(o) => o,
        None => PrincipalId::anonymous(),
    };
    let owner_pfp = match info.owner_pfp {
        Some(p) => p,
        None => info.fallback_pfp,
    };
    let state = history_item_state(info.game);
    GameplayHistoryItem { logo, root: info.root, owner_principal, owner_pfp, state }
}

/// A page of the gameplay history: one card per fetched game, in order.
pub fn history_cards(infos: Vec<HistoryItemInfo>) -> (r: Vec<GameplayHistoryItem>)
    ensures
        r@.len() == infos@.len(),
        forall|i: int| 0 <= i < r@.len() ==> history_card_of(#[trigger] r@[i], infos@[i]),
{
    let ghost orig = infos@;
    let mut rest = infos;
    let mut out: Vec<GameplayHistoryItem> = Vec::new();
    while rest.len() > 0
        invariant
            out@.len() + rest@.len() == orig.len(),
            rest@ == orig.skip(out@.len() as int),
            forall|i: int| 0 <= i < out@.len() ==> history_card_of(#[trigger] out@[i], orig[i]),
        decreases rest@.len(),
    {
        let ghost k = out@.len() as int;
        let info = rest.remove(0);
        assert(info == orig[k]);
        out.push(history_card(info));
        assert(rest@ =~= orig.skip(out@.len() as int));
    }
    out
}

/// A bet that the server refuses leaves the round's counts as they were
/// before the bet was placed.
pub proof fn lemma_refused_bet_is_undone(s: RunningGameCtx, dir: GameDirection)
    requires
        s.current_round is Some,
        s.running matches Some(r) ==> bet_count_in(r, dir) < u64::MAX,
    ensures
        session_after_response(
            session_after_bet(s, dir),
            WsResp::Error(WsError::BetFailure { direction: dir }),
        ) == s,
{
}

/// A bet counts exactly one more bet on its side and leaves the other side
/// and the round unchanged.
pub proof fn lemma_bet_counts_once(s: RunningGameCtx, dir: GameDirection)
    requires
        s.current_round is Some,
        s.running matches Some(r) ==> bet_count_in(r, dir) < u64::MAX,
    ensures
        session_after_bet(s, dir).current_round == s.current_round,
        s.running matches Some(r) ==> {
            let r2 = session_after_bet(s, dir).running->0;
            &&& bet_count_in(r2, dir) == bet_count_in(r, dir) + 1
            &&& (dir == GameDirection::Pump ==> r2.dumps == r.dumps)
            &&& (dir == GameDirection::Dump ==> r2.pumps == r.pumps)
        },
{
}

/// A declared result counts one more game for the player and adds exactly the
/// winnings, if any, to the wallet; a loss leaves the wallet as it was.
pub proof fn lemma_declared_result_updates_record(data: PlayerData, result: GameResult)
    requires
        update_fits(data, result_update(result)),
    ensures
        updated_player_data(data, result_update(result)).games_count == data.games_count + 1,
        updated_player_data(data, result_update(result)).wallet_balance == data.wallet_balance + (
        match result {
            GameResult::Win { amount } => amount,
            GameResult::Loss { .. } => 0,
        }),
{
}

/// A player who bet on the announced side never loses, and one who bet on
/// the other side loses exactly the cents spent.
pub proof fn lemma_result_follows_side(running: GameRunningData, raw: RoundOutcome)
    ensures
        leading_direction(running) == Some(raw.direction) ==> (game_result(running, raw) is Win),
        (leading_direction(running) matches Some(d) && d != raw.direction) ==> game_result(
            running,
            raw,
        ) == (GameResult::Loss { amount: (running.pumps + running.dumps) as u128 }),
        leading_direction(running) is None ==> game_result(running, raw) == (GameResult::Win {
            amount: 0,
        }),
{
}

/// A player whose bets lean to the announced side wins exactly their bets'
/// share of the pool: the number of their bets on that side times the pool,
/// divided by all winning bets, in e8s, then in whole cents.
pub proof fn lemma_win_is_own_share(running: GameRunningData, raw: RoundOutcome)
    requires
        (running.pumps > running.dumps && raw.direction == GameDirection::Pump) || (running.dumps
            > running.pumps && raw.direction == GameDirection::Dump),
        raw.bet_count > 0,
    ensures
        game_result(running, raw) == (GameResult::Win {
            amount: ((((if running.pumps > running.dumps {
                running.pumps
            } else {
                running.dumps
            }) * raw.reward_pool) / (raw.bet_count as int)) / 1_000_000) as u128,
        }),
{
    let c = (if running.pumps > running.dumps { running.pumps } else { running.dumps }) as int;
    let p = raw.reward_pool as int;
    let b = raw.bet_count as int;
    assert(0 <= (c * p) / b <= c * p) by (nonlinear_arith)
        requires
            0 <= c,
            0 <= p,
            0 < b,
    ;
    assert(c * p <= u64::MAX * u64::MAX) by (nonlinear_arith)
        requires
            0 <= c <= u64::MAX,
            0 <= p <= u64::MAX,
    ;
}

/// More of one's own bets on the winning side never wins less: with the same
/// announced outcome, a player with more bets on the announced side (and
/// leaning to it) wins at least as much as one with fewer.
pub proof fn lemma_win_grows_with_own_bets(r1: GameRunningData, r2: GameRunningData, raw: RoundOutcome)
    requires
        raw.bet_count > 0,
        leading_direction(r1) == Some(raw.direction),
        leading_direction(r2) == Some(raw.direction),
        bet_count_in(r1, raw.direction) <= bet_count_in(r2, raw.direction),
    ensures
        game_result(r1, raw) matches GameResult::Win { amount: a1 } && game_result(r2, raw) matches GameResult::Win { amount: a2 }
            && a1 <= a2,
{
    let c1 = bet_count_in(r1, raw.direction) as int;
    let c2 = bet_count_in(r2, raw.direction) as int;
    let p = raw.reward_pool as int;
    let b = raw.bet_count as int;
    assert(c1 * p <= c2 * p) by (nonlinear_arith)
        requires
            0 <= c1 <= c2,
            0 <= p,
    ;
    vstd::arithmetic::div_mod::lemma_div_is_ordered(c1 * p, c2 * p, b);
    vstd::arithmetic::div_mod::lemma_div_is_ordered((c1 * p) / b, (c2 * p) / b, 1_000_000);
    assert(0 <= (c1 * p) / b) by (nonlinear_arith)
        requires
            0 <= c1,
            0 <= p,
            0 < b,
    ;
    assert((c2 * p) / b <= c2 * p) by (nonlinear_arith)
        requires
            0 <= c2,
            0 <= p,
            0 < b,
    ;
    assert(c2 * p <= u64::MAX * u64::MAX) by (nonlinear_arith)
        requires
            0 <= c2 <= u64::MAX,
            0 <= p <= u64::MAX,
    ;
    let q1 = (c1 * p) / b;
    let q2 = (c2 * p) / b;
    assert(0 <= q1 <= q2 <= u128::MAX);
    assert(game_result(r1, raw) == GameResult::Win { amount: spec_convert_e8s_to_cents(q1 as u128) });
    assert(game_result(r2, raw) == GameResult::Win { amount: spec_convert_e8s_to_cents(q2 as u128) });
    assert(q1 / 1_000_000 <= q2 / 1_000_000);
}

/// A declared result moves the session on to the round the server names,
/// whether the player won or lost, and leaves the bet counts as they were.
pub proof fn lemma_result_moves_to_new_round(s: RunningGameCtx, res: RoundOutcome)
    requires
        s.running is Some,
    ensures
        session_after_response(s, WsResp::GameResultEvent(res)).current_round == Some(res.new_round),
        session_after_response(s, WsResp::GameResultEvent(res)).running == s.running,
{
}

} // verus!
