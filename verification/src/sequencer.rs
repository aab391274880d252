//! The round sequencer: thin orchestration that opens the next round once the
//! previous one has detonated.

use crate::address::Address;
use crate::errors::BoomError;
use crate::events::{NextRoundStarted, PresaleStarted, RoundSequencerUpdated};
use crate::state::{PresaleExplosion, PresaleRound, RoundSequencer};
use vstd::prelude::*;

verus! {

/// The defaults that an authority may replace, each left as it is where `None`.
#[derive(Clone, Copy, Debug, PartialEq, Eq)]
pub struct RoundDefaults {
    pub default_cooldown: Option<i64>,
    pub default_lottery_spots: Option<u32>,
    pub default_min_deposit: Option<u64>,
    pub default_max_deposit: Option<u64>,
    pub auto_advance_enabled: Option<bool>,
}

/// A new sequencer: no round started yet, automatic advance switched on.
pub fn init_round_sequencer(
    authority: Address,
    default_cooldown: i64,
    default_lottery_spots: u32,
    default_min_deposit: u64,
    default_max_deposit: u64,
    bump: u8,
) -> (s: RoundSequencer)
    ensures
        s == (RoundSequencer {
            authority,
            current_round: 0,
            last_explosion_round: 0,
            auto_advance_enabled: true,
            default_cooldown,
            default_lottery_spots,
            default_min_deposit,
            default_max_deposit,
            bump,
        }),
{
    RoundSequencer {
        authority,
        current_round: 0,
        last_explosion_round: 0,
        auto_advance_enabled: true,
        default_cooldown,
        default_lottery_spots,
        default_min_deposit,
        default_max_deposit,
        bump,
    }
}

/// The sequencer with the given defaults replaced.
pub open spec fn with_defaults(
    sequencer: RoundSequencer,
    changes: RoundDefaults,
) -> RoundSequencer {
    RoundSequencer {
        default_cooldown: match changes.default_cooldown {
            Some(v) => v,
            None => sequencer.default_cooldown,
        },
        default_lottery_spots: match changes.default_lottery_spots {
            Some(v) => v,
            None => sequencer.default_lottery_spots,
        },
        default_min_deposit: match changes.default_min_deposit {
            Some(v) => v,
            None => sequencer.default_min_deposit,
        },
        default_max_deposit: match changes.default_max_deposit {
            Some(v) => v,
            None => sequencer.default_max_deposit,
        },
        auto_advance_enabled: match changes.auto_advance_enabled {
            Some(v) => v,
            None => sequencer.auto_advance_enabled,
        },
        ..sequencer
    }
}

/// Replaces the defaults for the rounds to come. Only the sequencer's
/// authority may.
pub fn update_round_defaults(
    sequencer: &mut RoundSequencer,
    authority: &Address,
    changes: RoundDefaults,
) -> (r: Result<RoundSequencerUpdated, BoomError>)
    ensures
        *authority != old(sequencer).authority ==> r == Err::<RoundSequencerUpdated, BoomError>(
            BoomError::Unauthorized,
        ) && *final(sequencer) == *old(sequencer),
        *authority == old(sequencer).authority ==> r == Ok::<RoundSequencerUpdated, BoomError>(
            RoundSequencerUpdated {
                current_round: old(sequencer).current_round,
                last_explosion_round: old(sequencer).last_explosion_round,
            },
        ) && *final(sequencer) == with_defaults(*old(sequencer), changes),
{
    if !authority.same(&sequencer.authority) {
        return Err(BoomError::Unauthorized);
    }
    if let Some(cooldown) = changes.default_cooldown {
        sequencer.default_cooldown = cooldown;
    }
    if let Some(spots) = changes.default_lottery_spots {
        sequencer.default_lottery_spots = spots;
    }
    if let Some(min) = changes.default_min_deposit {
        sequencer.default_min_deposit = min;
    }
    if let Some(max) = changes.default_max_deposit {
        sequencer.default_max_deposit = max;
    }
    if let Some(enabled) = changes.auto_advance_enabled {
        sequencer.auto_advance_enabled = enabled;
    }
    Ok(
        RoundSequencerUpdated {
            current_round: sequencer.current_round,
            last_explosion_round: sequencer.last_explosion_round,
        },
    )
}

/// What `auto_start_next_round` does.
pub open spec fn next_round_outcome(
    sequencer: RoundSequencer,
    previous_explosion: PresaleExplosion,
    round_slot: Option<PresaleRound>,
    new_round_id: u64,
    now: i64,
    bump: u8,
) -> Result<(RoundSequencer, PresaleRound, NextRoundStarted, PresaleStarted), BoomError> {
    if round_slot is Some {
        Err(BoomError::RoundAlreadyStarted)
    } else if !previous_explosion.is_exploded {
        Err(BoomError::NotExploded)
    } else if !sequencer.auto_advance_enabled {
        Err(BoomError::AutoAdvanceDisabled)
    } else if previous_explosion.round_id == u64::MAX {
        Err(BoomError::Overflow)
    } else if new_round_id != previous_explosion.round_id + 1 {
        Err(BoomError::InvalidRoundSequence)
    } else if now + sequencer.default_cooldown > i64::MAX || now + sequencer.default_cooldown
        < i64::MIN {
        Err(BoomError::Overflow)
    } else {
        let end_time = (now + sequencer.default_cooldown) as i64;
        Ok(
            (
                RoundSequencer {
                    last_explosion_round: previous_explosion.round_id,
                    current_round: new_round_id,
                    ..sequencer
                },
                PresaleRound {
                    authority: sequencer.authority,
                    round_id: new_round_id,
                    start_time: now,
                    end_time,
                    lottery_spots: sequencer.default_lottery_spots,
                    min_deposit: sequencer.default_min_deposit,
                    max_deposit: sequencer.default_max_deposit,
                    total_deposited: 0,
                    total_depositors: 0,
                    is_finalized: false,
                    bump,
                },
                NextRoundStarted {
                    previous_round: previous_explosion.round_id,
                    new_round: new_round_id,
                    auto_advanced: true,
                },
                PresaleStarted {
                    round_id: new_round_id,
                    end_time,
                    lottery_spots: sequencer.default_lottery_spots,
                    min_deposit: sequencer.default_min_deposit,
                    max_deposit: sequencer.default_max_deposit,
                },
            ),
        )
    }
}

/// Opens the round that follows a detonated one, with the sequencer's
/// defaults, once: the round is created in `round_slot`, which must be empty.
/// Whoever calls is authorized once the previous round has detonated; the new
/// round must carry the next number.
pub fn auto_start_next_round(
    sequencer: &mut RoundSequencer,
    previous_explosion: &PresaleExplosion,
    round_slot: &mut Option<PresaleRound>,
    new_round_id: u64,
    now: i64,
    bump: u8,
) -> (r: Result<(NextRoundStarted, PresaleStarted), BoomError>)
    ensures
        match next_round_outcome(
            *old(sequencer),
            *previous_explosion,
            *old(round_slot),
            new_round_id,
            now,
            bump,
        ) {
            Ok((next, round, advanced, started)) => r == Ok::<
                (NextRoundStarted, PresaleStarted),
                BoomError,
            >((advanced, started)) && *final(sequencer) == next && *final(round_slot) == Some(
                round,
            ),
            Err(e) => r == Err::<(NextRoundStarted, PresaleStarted), BoomError>(e)
                && *final(sequencer) == *old(sequencer) && *final(round_slot) == *old(round_slot),
        },
{
    if round_slot.is_some() {
        return Err(BoomError::RoundAlreadyStarted);
    }
    if !previous_explosion.is_exploded {
        return Err(BoomError::NotExploded);
    }
    if !sequencer.auto_advance_enabled {
        return Err(BoomError::AutoAdvanceDisabled);
    }
    let expected: u64 = match previous_explosion.round_id.checked_add(1) {
        Some(n) => n,
        None => {
            return Err(BoomError::Overflow);
        },
    };
    if new_round_id != expected {
        return Err(BoomError::InvalidRoundSequence);
    }
    let end_time: i64 = match now.checked_add(sequencer.default_cooldown) {
        Some(t) => t,
        None => {
            return Err(BoomError::Overflow);
        },
    };
    let round = PresaleRound {
        authority: sequencer.authority,
        round_id: new_round_id,
        start_time: now,
        end_time,
        lottery_spots: sequencer.default_lottery_spots,
        min_deposit: sequencer.default_min_deposit,
        max_deposit: sequencer.default_max_deposit,
        total_deposited: 0,
        total_depositors: 0,
        is_finalized: false,
        bump,
    };
    sequencer.last_explosion_round = previous_explosion.round_id;
    sequencer.current_round = new_round_id;
    *round_slot = Some(round);
    Ok(
        (
            NextRoundStarted {
                previous_round: previous_explosion.round_id,
                new_round: new_round_id,
                auto_advanced: true,
            },
            PresaleStarted {
                round_id: new_round_id,
                end_time,
                lottery_spots: sequencer.default_lottery_spots,
                min_deposit: sequencer.default_min_deposit,
                max_deposit: sequencer.default_max_deposit,
            },
        ),
    )
}

/// Whether the next round is opened, said outright: with an empty slot, a
/// detonated previous round and advance switched on, the round is opened
/// exactly when it carries the next number and its window fits the clock.
pub proof fn lemma_next_round_is_opened(
    sequencer: RoundSequencer,
    previous_explosion: PresaleExplosion,
    new_round_id: u64,
    now: i64,
    bump: u8,
)
    requires
        previous_explosion.is_exploded,
        sequencer.auto_advance_enabled,
    ensures
        next_round_outcome(sequencer, previous_explosion, None, new_round_id, now, bump) is Ok
            <==> new_round_id == previous_explosion.round_id + 1 && i64::MIN <= now
            + sequencer.default_cooldown <= i64::MAX,
        next_round_outcome(sequencer, previous_explosion, None, new_round_id, now, bump) matches Ok(
            (next, round, _, _),
        ) ==> next.current_round == new_round_id && next.last_explosion_round
            == previous_explosion.round_id && round.round_id == new_round_id
            && round.total_deposited == 0 && round.total_depositors == 0 && !round.is_finalized
            && round.end_time == now + sequencer.default_cooldown,
{
}

/// A round is opened once: after the sequencer has opened one, any further
/// attempt on the filled slot fails with `RoundAlreadyStarted`, a state error.
pub proof fn lemma_round_is_opened_once(
    sequencer: RoundSequencer,
    previous_explosion: PresaleExplosion,
    round_slot: Option<PresaleRound>,
    new_round_id: u64,
    now: i64,
    bump: u8,
    other_sequencer: RoundSequencer,
    other_explosion: PresaleExplosion,
    other_round_id: u64,
    later: i64,
)
    requires
        next_round_outcome(sequencer, previous_explosion, round_slot, new_round_id, now, bump)
            is Ok,
    ensures
        next_round_outcome(
            other_sequencer,
            other_explosion,
            Some(
                next_round_outcome(
                    sequencer,
                    previous_explosion,
                    round_slot,
                    new_round_id,
                    now,
                    bump,
                )->Ok_0.1,
            ),
            other_round_id,
            later,
            bump,
        ) == Err::<(RoundSequencer, PresaleRound, NextRoundStarted, PresaleStarted), BoomError>(
            BoomError::RoundAlreadyStarted,
        ),
        BoomError::RoundAlreadyStarted.spec_class() == crate::errors::ErrorClass::State,
{
}

} // verus!
