//! The presale held between two launches: deposits are collected while the
//! presale is open, a lottery seed picks the winners once it is closed, winners
//! claim their allocation and the others are refunded when it is finalized.

use crate::address::Address;
use crate::errors::BoomError;
use crate::state::Protocol;
use vstd::prelude::*;

verus! {

/// Where a presale stands.
#[derive(Clone, Copy, Debug, PartialEq, Eq, Structural)]
pub enum PresaleStatus {
    /// Accepting deposits.
    Open,
    /// Deposits closed, awaiting the lottery.
    Closed,
    /// The lottery is drawn and winners can claim.
    LotteryComplete,
    /// The round is over and refunds are available.
    Finalized,
}

/// One presale.
#[derive(Clone, Copy, Debug, PartialEq, Eq)]
pub struct Presale {
    pub protocol: Address,
    pub round: u64,
    pub total_deposited: u64,
    pub depositor_count: u32,
    pub status: PresaleStatus,
    pub opened_at: i64,
    pub closes_at: i64,
    pub lottery_seed: [u8; 32],
    pub winner_count: u32,
    pub winner_allocation: u64,
    pub token_mint: Address,
    pub bump: u8,
}

/// One deposit into a presale.
#[derive(Clone, Copy, Debug, PartialEq, Eq)]
pub struct PresaleDeposit {
    pub presale: Address,
    pub depositor: Address,
    pub amount: u64,
    /// The place in the order of deposits, by which the lottery is drawn.
    pub position: u32,
    pub is_winner: bool,
    pub claimed_allocation: bool,
    pub claimed_refund: bool,
    pub deposited_at: i64,
    pub bump: u8,
}

impl PresaleDeposit {
    /// A deposit is never both refunded and claimed.
    pub open spec fn wf(&self) -> bool {
        !(self.claimed_allocation && self.claimed_refund)
    }
}

#[derive(Clone, Copy, Debug, PartialEq, Eq)]
pub struct PresaleOpened {
    pub round: u64,
    pub closes_at: i64,
    pub winner_count: u32,
    pub winner_allocation: u64,
}

#[derive(Clone, Copy, Debug, PartialEq, Eq)]
pub struct PresaleDeposited {
    pub round: u64,
    pub depositor: Address,
    pub amount: u64,
    pub position: u32,
    pub total_deposited: u64,
}

#[derive(Clone, Copy, Debug, PartialEq, Eq)]
pub struct PresaleClosed {
    pub round: u64,
    pub total_deposited: u64,
    pub depositor_count: u32,
}

#[derive(Clone, Copy, Debug, PartialEq, Eq)]
pub struct AllocationClaimed {
    pub round: u64,
    pub depositor: Address,
    pub allocation: u64,
}

#[derive(Clone, Copy, Debug, PartialEq, Eq)]
pub struct RefundClaimed {
    pub round: u64,
    pub depositor: Address,
    pub amount: u64,
}

/// Opens the presale for the launch after the last one counted: it closes at
/// `now + cooldown_seconds`. `Overflow` where the round number or the closing
/// time does not fit.
pub fn open_presale(
    protocol: &Protocol,
    protocol_key: Address,
    cooldown_seconds: i64,
    winner_count: u32,
    winner_allocation: u64,
    now: i64,
    bump: u8,
) -> (r: Result<(Presale, PresaleOpened), BoomError>)
    ensures
        r is Ok <==> protocol.total_launches < u64::MAX && i64::MIN <= now + cooldown_seconds
            <= i64::MAX,
        r matches Err(e) ==> e == BoomError::Overflow,
        r matches Ok((presale, event)) ==> {
            &&& presale.protocol == protocol_key
            &&& presale.round == protocol.total_launches + 1
            &&& presale.total_deposited == 0
            &&& presale.depositor_count == 0
            &&& presale.status == PresaleStatus::Open
            &&& presale.opened_at == now
            &&& presale.closes_at == now + cooldown_seconds
            &&& presale.lottery_seed@ == Address::zero()
            &&& presale.winner_count == winner_count
            &&& presale.winner_allocation == winner_allocation
            &&& presale.token_mint.is_zero()
            &&& presale.bump == bump
            &&& event == (PresaleOpened {
                round: presale.round,
                closes_at: presale.closes_at,
                winner_count,
                winner_allocation,
            })
        },
{
    let round: u64 = match protocol.total_launches.checked_add(1) {
        Some(n) => n,
        None => {
            return Err(BoomError::Overflow);
        },
    };
    let closes_at: i64 = match now.checked_add(cooldown_seconds) {
        Some(t) => t,
        None => {
            return Err(BoomError::Overflow);
        },
    };
    let presale = Presale {
        protocol: protocol_key,
        round,
        total_deposited: 0,
        depositor_count: 0,
        status: PresaleStatus::Open,
        opened_at: now,
        closes_at,
        lottery_seed: [0u8; 32],
        winner_count,
        winner_allocation,
        token_mint: Address::default(),
        bump,
    };
    assert(presale.lottery_seed@ =~= Address::zero());
    Ok((presale, PresaleOpened { round, closes_at, winner_count, winner_allocation }))
}

/// What `deposit_presale` does.
pub open spec fn presale_deposit_outcome(
    presale: Presale,
    presale_key: Address,
    depositor: Address,
    amount: u64,
    now: i64,
    bump: u8,
) -> Result<(Presale, PresaleDeposit, PresaleDeposited), BoomError> {
    if presale.status != PresaleStatus::Open {
        Err(BoomError::PresaleNotOpen)
    } else if now >= presale.closes_at {
        Err(BoomError::PresaleClosed)
    } else if presale.total_deposited + amount > u64::MAX || presale.depositor_count == u32::MAX {
        Err(BoomError::Overflow)
    } else {
        let total = (presale.total_deposited + amount) as u64;
        Ok(
            (
                Presale {
                    total_deposited: total,
                    depositor_count: (presale.depositor_count + 1) as u32,
                    ..presale
                },
                PresaleDeposit {
                    presale: presale_key,
                    depositor,
                    amount,
                    position: presale.depositor_count,
                    is_winner: false,
                    claimed_allocation: false,
                    claimed_refund: false,
                    deposited_at: now,
                    bump,
                },
                PresaleDeposited {
                    round: presale.round,
                    depositor,
                    amount,
                    position: presale.depositor_count,
                    total_deposited: total,
                },
            ),
        )
    }
}

/// Takes the one deposit of a depositor into an open presale and gives it the
/// next position. On success the caller moves `amount` into the vault.
pub fn deposit_presale(
    presale: &mut Presale,
    presale_key: Address,
    depositor: Address,
    amount: u64,
    now: i64,
    bump: u8,
) -> (r: Result<(PresaleDeposit, PresaleDeposited), BoomError>)
    ensures
        match presale_deposit_outcome(*old(presale), presale_key, depositor, amount, now, bump) {
            Ok((next, deposit, event)) => r == Ok::<(PresaleDeposit, PresaleDeposited), BoomError>(
                (deposit, event),
            ) && *final(presale) == next,
            Err(e) => r == Err::<(PresaleDeposit, PresaleDeposited), BoomError>(e)
                && *final(presale)
                == *old(presale),
        },
        r matches Ok((deposit, _)) ==> deposit.wf(),
{
    if presale.status != PresaleStatus::Open {
        return Err(BoomError::PresaleNotOpen);
    }
    if now >= presale.closes_at {
        return Err(BoomError::PresaleClosed);
    }
    let total: u64 = match presale.total_deposited.checked_add(amount) {
        Some(t) => t,
        None => {
            return Err(BoomError::Overflow);
        },
    };
    let position: u32 = presale.depositor_count;
    let count: u32 = match position.checked_add(1) {
        Some(n) => n,
        None => {
            return Err(BoomError::Overflow);
        },
    };
    presale.total_deposited = total;
    presale.depositor_count = count;
    Ok(
        (
            PresaleDeposit {
                presale: presale_key,
                depositor,
                amount,
                position,
                is_winner: false,
                claimed_allocation: false,
                claimed_refund: false,
                deposited_at: now,
                bump,
            },
            PresaleDeposited {
                round: presale.round,
                depositor,
                amount,
                position,
                total_deposited: total,
            },
        ),
    )
}

/// What `close_presale` does.
pub open spec fn close_presale_outcome(presale: Presale, now: i64) -> Result<
    (Presale, PresaleClosed),
    BoomError,
> {
    if presale.status != PresaleStatus::Open {
        Err(BoomError::PresaleNotOpen)
    } else if now < presale.closes_at {
        Err(BoomError::PresaleNotEnded)
    } else {
        Ok(
            (
                Presale { status: PresaleStatus::Closed, ..presale },
                PresaleClosed {
                    round: presale.round,
                    total_deposited: presale.total_deposited,
                    depositor_count: presale.depositor_count,
                },
            ),
        )
    }
}

/// Closes an open presale once its closing time has come.
pub fn close_presale(presale: &mut Presale, now: i64) -> (r: Result<PresaleClosed, BoomError>)
    ensures
        match close_presale_outcome(*old(presale), now) {
            Ok((next, event)) => r == Ok::<PresaleClosed, BoomError>(event) && *final(presale)
                == next,
            Err(e) => r == Err::<PresaleClosed, BoomError>(e) && *final(presale) == *old(presale),
        },
{
    if presale.status != PresaleStatus::Open {
        return Err(BoomError::PresaleNotOpen);
    }
    if now < presale.closes_at {
        return Err(BoomError::PresaleNotEnded);
    }
    presale.status = PresaleStatus::Closed;
    Ok(
        PresaleClosed {
            round: presale.round,
            total_deposited: presale.total_deposited,
            depositor_count: presale.depositor_count,
        },
    )
}

/// What `claim_allocation` does.
pub open spec fn claim_allocation_outcome(
    presale: Presale,
    presale_key: Address,
    deposit: PresaleDeposit,
    depositor: Address,
) -> Result<(PresaleDeposit, AllocationClaimed), BoomError> {
    if deposit.claimed_allocation || deposit.claimed_refund {
        Err(BoomError::AlreadyClaimed)
    } else if deposit.presale != presale_key || deposit.depositor != depositor {
        Err(BoomError::Unauthorized)
    } else if presale.status != PresaleStatus::LotteryComplete {
        Err(BoomError::LotteryNotComplete)
    } else if !deposit.is_winner {
        Err(BoomError::NotWinner)
    } else {
        Ok(
            (
                PresaleDeposit { claimed_allocation: true, ..deposit },
                AllocationClaimed {
                    round: presale.round,
                    depositor: deposit.depositor,
                    allocation: presale.winner_allocation,
                },
            ),
        )
    }
}

/// Settles the allocation of a winning deposit, once the lottery is drawn.
pub fn claim_allocation(
    presale: &Presale,
    presale_key: &Address,
    deposit: &mut PresaleDeposit,
    depositor: &Address,
) -> (r: Result<AllocationClaimed, BoomError>)
    ensures
        match claim_allocation_outcome(*presale, *presale_key, *old(deposit), *depositor) {
            Ok((next, event)) => r == Ok::<AllocationClaimed, BoomError>(event) && *final(deposit)
                == next,
            Err(e) => r == Err::<AllocationClaimed, BoomError>(e)
                && *final(deposit) == *old(deposit),
        },
        old(deposit).wf() ==> final(deposit).wf(),
{
    if deposit.claimed_allocation || deposit.claimed_refund {
        return Err(BoomError::AlreadyClaimed);
    }
    if !deposit.presale.same(presale_key) || !deposit.depositor.same(depositor) {
        return Err(BoomError::Unauthorized);
    }
    if presale.status != PresaleStatus::LotteryComplete {
        return Err(BoomError::LotteryNotComplete);
    }
    if !deposit.is_winner {
        return Err(BoomError::NotWinner);
    }
    deposit.claimed_allocation = true;
    Ok(
        AllocationClaimed {
            round: presale.round,
            depositor: deposit.depositor,
            allocation: presale.winner_allocation,
        },
    )
}

/// What `claim_refund` does.
pub open spec fn presale_refund_outcome(
    presale: Presale,
    presale_key: Address,
    deposit: PresaleDeposit,
    depositor: Address,
) -> Result<(PresaleDeposit, RefundClaimed), BoomError> {
    if deposit.claimed_refund || deposit.claimed_allocation {
        Err(BoomError::AlreadyClaimed)
    } else if deposit.presale != presale_key || deposit.depositor != depositor {
        Err(BoomError::Unauthorized)
    } else if presale.status != PresaleStatus::Finalized {
        Err(BoomError::PresaleNotFinalized)
    } else if deposit.is_winner {
        Err(BoomError::WinnerCannotRefund)
    } else {
        Ok(
            (
                PresaleDeposit { claimed_refund: true, ..deposit },
                RefundClaimed {
                    round: presale.round,
                    depositor: deposit.depositor,
                    amount: deposit.amount,
                },
            ),
        )
    }
}

/// Refunds a deposit that did not win, once the presale is finalized. On
/// success the caller returns `amount` from the vault to the depositor.
pub fn claim_refund(
    presale: &Presale,
    presale_key: &Address,
    deposit: &mut PresaleDeposit,
    depositor: &Address,
) -> (r: Result<RefundClaimed, BoomError>)
    ensures
        match presale_refund_outcome(*presale, *presale_key, *old(deposit), *depositor) {
            Ok((next, event)) => r == Ok::<RefundClaimed, BoomError>(event) && *final(deposit)
                == next,
            Err(e) => r == Err::<RefundClaimed, BoomError>(e) && *final(deposit) == *old(deposit),
        },
        old(deposit).wf() ==> final(deposit).wf(),
{
    if deposit.claimed_refund || deposit.claimed_allocation {
        return Err(BoomError::AlreadyClaimed);
    }
    if !deposit.presale.same(presale_key) || !deposit.depositor.same(depositor) {
        return Err(BoomError::Unauthorized);
    }
    if presale.status != PresaleStatus::Finalized {
        return Err(BoomError::PresaleNotFinalized);
    }
    if deposit.is_winner {
        return Err(BoomError::WinnerCannotRefund);
    }
    deposit.claimed_refund = true;
    Ok(
        RefundClaimed {
            round: presale.round,
            depositor: deposit.depositor,
            amount: deposit.amount,
        },
    )
}

} // verus!
