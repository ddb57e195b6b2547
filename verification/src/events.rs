//! What happens at the table, as far as the decisions here look at it.

use vstd::prelude::*;

verus! {

/// The game client that is being played.
#[derive(Clone, Copy, Debug, PartialEq, Eq, Structural)]
pub enum Platform {
    Majsoul,
    Tenhou,
    RiichiCity,
    Other,
}

/// Why a game ended: with a result the server confirmed, or in any other way.
#[derive(Clone, Copy, Debug, PartialEq, Eq, Structural)]
pub enum GameEndReason {
    Confirmed,
    Other,
}

/// One event of the mjai protocol. Tiles are mjai strings such as `"3m"`.
#[allow(inconsistent_fields)]
#[derive(Debug)]
pub enum MjaiEvent {
    /// A bot declining to act (`none` in the protocol).
    NoAction,
    StartGame {
        names: Vec<String>,
        kyoku_first: Option<u8>,
        aka_flag: Option<bool>,
        /// Our seat; absent when the game is only watched.
        id: Option<u8>,
        num_players: u8,
    },
    StartKyoku {
        bakaze: String,
        dora_marker: String,
        kyoku: u8,
        honba: u8,
        kyotaku: u8,
        oya: u8,
        scores: Vec<i32>,
        tehais: Vec<Vec<String>>,
        num_players: u8,
    },
    Tsumo { actor: u8, pai: String },
    Dahai { actor: u8, pai: String, tsumogiri: bool },
    Chi { actor: u8, target: u8, pai: String, consumed: [String; 2] },
    Pon { actor: u8, target: u8, pai: String, consumed: [String; 2] },
    Daiminkan { actor: u8, target: u8, pai: String, consumed: [String; 3] },
    Ankan { actor: u8, consumed: [String; 4] },
    Kakan { actor: u8, pai: String, consumed: [String; 3] },
    Dora { dora_marker: String },
    /// A riichi declaration, with the tile that declares it once it is known.
    Reach { actor: u8, pai: Option<String> },
    ReachAccepted { actor: u8 },
    Kita { actor: u8 },
    Hora { actor: u8, target: u8 },
    Ryukyoku { deltas: Option<Vec<i32>> },
    EndKyoku,
    EndGame { reason: GameEndReason },
}

} // verus!
