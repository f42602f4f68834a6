use vstd::prelude::*;
use crate::address::Address;
use crate::types::{GameError, Params};

verus! {

/// Largest fee, in basis points (the whole pot).
pub const MAX_FEE_BPS: u16 = 10000;

/// Every bound pair is ordered and the fee is at most 10000 basis points.
pub open spec fn config_valid(c: Params) -> bool {
    &&& c.fee <= 10000
    &&& c.min_pot <= c.max_pot
    &&& c.min_grid <= c.max_grid
    &&& c.min_speed <= c.max_speed
    &&& c.min_trail <= c.max_trail
    &&& c.min_trail_cooldown <= c.max_trail_cooldown
}

/// Checks that every bound pair is ordered and the fee is in range.
pub fn check_config(c: &Params) -> (r: bool)
    ensures
        r == config_valid(*c),
{
    c.fee <= MAX_FEE_BPS && c.min_pot <= c.max_pot && c.min_grid <= c.max_grid && c.min_speed
        <= c.max_speed && c.min_trail <= c.max_trail && c.min_trail_cooldown
        <= c.max_trail_cooldown
}

/// Creates the configuration record, with the game counter at 0.
pub fn init_config(proposed: Params) -> (r: Result<Params, GameError>)
    ensures
        config_valid(proposed) <==> r.is_ok(),
        !config_valid(proposed) ==> r == Err::<Params, GameError>(GameError::InvalidConfig),
        r.is_ok() ==> r.unwrap() == (Params { next_game_id: 0, ..proposed }),
{
    if !check_config(&proposed) {
        return Err(GameError::InvalidConfig);
    }
    Ok(Params { next_game_id: 0, ..proposed })
}

impl Params {
    /// Replaces every value but the game counter; admin only, and only with a
    /// valid configuration.
    pub fn update(&mut self, caller: &Address, new_values: Params) -> (r: Result<(), GameError>)
        ensures
            old(self).admin@ != caller@ ==> r == Err::<(), GameError>(GameError::Unauthorized),
            old(self).admin@ == caller@ && !config_valid(new_values) ==> r == Err::<(), GameError>(
                GameError::InvalidConfig,
            ),
            old(self).admin@ == caller@ && config_valid(new_values) ==> r is Ok,
            r is Ok ==> *final(self) == (Params { next_game_id: old(self).next_game_id, ..new_values }),
            r is Err ==> *final(self) == *old(self),
    {
        if !self.admin.same_as(caller) {
            return Err(GameError::Unauthorized);
        }
        if !check_config(&new_values) {
            return Err(GameError::InvalidConfig);
        }
        *self = Params { next_game_id: self.next_game_id, ..new_values };
        Ok(())
    }

    /// Sets or clears the global pause flag; admin only.
    pub fn set_paused(&mut self, caller: &Address, paused: bool) -> (r: Result<(), GameError>)
        ensures
            old(self).admin@ != caller@ <==> r == Err::<(), GameError>(GameError::Unauthorized),
            r is Ok ==> *final(self) == (Params { paused, ..*old(self) }),
            r is Err ==> *final(self) == *old(self),
    {
        if !self.admin.same_as(caller) {
            return Err(GameError::Unauthorized);
        }
        self.paused = paused;
        Ok(())
    }
}

} // verus!
