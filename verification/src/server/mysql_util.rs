//! What the handlers make of the database's answers.
use vstd::prelude::*;
use crate::ser_config::{Player, Players};

verus! {

/// A failure reported by the database (no connection, a failed statement).
#[derive(Debug, Clone, Copy, PartialEq, Eq)]
pub struct DbError;

/// The first row of a single-row query, where a failed query reads as an
/// absent row: only a failure to reach the database is an error.
pub fn first_row_or_none<T>(res: Result<Option<T>, DbError>) -> (r: Option<T>)
    ensures
        r == (match res {
            Ok(Some(x)) => Some(x),
            _ => None,
        }),
{
    match res {
        Ok(Some(x)) => Some(x),
        _ => None,
    }
}

/// The list of all players, or nothing when there is none.
pub fn collect_players(players: Vec<Player>) -> (r: Option<Players>)
    ensures
        players@.len() == 0 ==> r is None,
        players@.len() > 0 ==> (r matches Some(all) && all.players@ == players@),
{
    if players.len() == 0 {
        None
    } else {
        Some(Players { players })
    }
}

} // verus!
