//! Saving a finished game for the player who is logged in.

use vstd::prelude::*;
use crate::api::user::auth::UserClaims;
use crate::api::{store_reply, ApiResult, AppError, MessageResponse};
use crate::infra::dto::{GameDate, InsertSave};
use crate::models::Difficulty;

verus! {

/// A finished game as the client reports it.
#[derive(Debug)]
pub struct SaveRequest {
    pub game_date: GameDate,
    pub failed: i32,
    pub difficulty: Difficulty,
    pub completed: i32,
    pub time_taken: i32,
}

/// The record to store for a reported game: the report as it is, under the
/// id of the player whose session the request belongs to.
pub fn save(claims: &UserClaims, request: SaveRequest) -> (r: InsertSave)
    ensures
        r.user_id == claims.id,
        r.game_date == request.game_date,
        r.failed == request.failed,
        r.difficulty == request.difficulty,
        r.completed == request.completed,
        r.time_taken == request.time_taken,
{
    InsertSave {
        user_id: claims.id,
        game_date: request.game_date,
        failed: request.failed,
        difficulty: request.difficulty,
        completed: request.completed,
        time_taken: request.time_taken,
    }
}

/// The answer to a save request once the store has been asked to write.
pub fn save_reply(stored: Result<(), String>) -> (r: ApiResult<MessageResponse>)
    ensures
        match stored {
            Ok(_) => r matches Ok(body) && body.0@ == "Game data saved successfully"@,
            Err(cause) => r matches Err(AppError::IO(text)) && text@ == cause@,
        },
{
    store_reply(stored, "Game data saved successfully")
}

} // verus!
