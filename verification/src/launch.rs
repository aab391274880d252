//! The protocol record and the launches counted in it. A launch carries its
//! own commitment slot, deadline and detonation flag; the rules are those of
//! the detonation lifecycle, kept on the launch itself.

use crate::address::{bytes32_equal, bytes32_is_zero, Address};
use crate::digest::{cap_commitment, commit_cap};
use crate::errors::{BoomError, ErrorClass};
use crate::events::{TimeLimitSet, TokenExploded};
use crate::state::{BoomToken, ExplosionReason, Protocol, ProtocolConfig};
use vstd::prelude::*;

verus! {

/// The protocol record as it is first set up: nothing launched, nothing
/// detonated.
pub fn initialize(authority: Address, treasury: Address, config: ProtocolConfig, bump: u8) -> (p:
    Protocol)
    ensures
        p == (Protocol {
            authority,
            treasury,
            min_cap: config.min_cap,
            max_cap: config.max_cap,
            fee_bps: config.fee_bps,
            total_launches: 0,
            total_explosions: 0,
            bump,
        }),
{
    Protocol {
        authority,
        treasury,
        min_cap: config.min_cap,
        max_cap: config.max_cap,
        fee_bps: config.fee_bps,
        total_launches: 0,
        total_explosions: 0,
        bump,
    }
}

/// Records a launch of `mint` and counts it. The commitment slot starts empty.
pub fn create_boom_token(
    protocol: &mut Protocol,
    mint: Address,
    creator: Address,
    name: [u8; 32],
    symbol: [u8; 8],
    now: i64,
    bump: u8,
) -> (r: Result<BoomToken, BoomError>)
    ensures
        old(protocol).total_launches == u64::MAX ==> r is Err && r->Err_0 == BoomError::Overflow
            && *final(protocol) == *old(protocol),
        old(protocol).total_launches < u64::MAX ==> (r matches Ok(token) && token.mint == mint
            && token.creator == creator && token.name == name && token.symbol == symbol
            && token.created_at == now && token.bump == bump && !token.has_commitment()
            && token.revealed_cap == 0 && !token.is_exploded && token.explosion_time == 0
            && token.explosion_deadline == 0 && token.explosion_reason
            == ExplosionReason::Unexploded && token.total_payout == 0
                && token.wf()) && *final(protocol) == (Protocol {
            total_launches: (old(protocol).total_launches + 1) as u64,
            ..*old(protocol)
        }),
{
    let launches: u64 = match protocol.total_launches.checked_add(1) {
        Some(n) => n,
        None => {
            return Err(BoomError::Overflow);
        },
    };
    protocol.total_launches = launches;
    let token = BoomToken {
        mint,
        name,
        symbol,
        creator,
        created_at: now,
        cap_hash: [0u8; 32],
        revealed_cap: 0,
        is_exploded: false,
        explosion_time: 0,
        explosion_deadline: 0,
        explosion_reason: ExplosionReason::Unexploded,
        total_payout: 0,
        bump,
    };
    assert(token.cap_hash@ =~= Seq::new(32, |i: int| 0u8));
    Ok(token)
}

/// What `set_secret_cap` does.
pub open spec fn set_secret_cap_outcome(token: BoomToken, cap_hash: [u8; 32]) -> Result<
    BoomToken,
    BoomError,
> {
    if token.is_exploded {
        Err(BoomError::AlreadyExploded)
    } else if token.has_commitment() {
        Err(BoomError::CapAlreadySet)
    } else if cap_hash@ == Address::zero() {
        Err(BoomError::EmptyCommitment)
    } else {
        Ok(BoomToken { cap_hash, ..token })
    }
}

/// Stores the commitment of a launch. The slot must be empty: a commitment is
/// set once and never replaced. The all-zero digest is what an empty slot
/// holds, so it is no commitment and is refused.
pub fn set_secret_cap(token: &mut BoomToken, cap_hash: [u8; 32]) -> (r: Result<(), BoomError>)
    ensures
        match set_secret_cap_outcome(*old(token), cap_hash) {
            Ok(next) => r is Ok && *final(token) == next,
            Err(e) => r == Err::<(), BoomError>(e) && *final(token) == *old(token),
        },
        r is Ok ==> final(token).has_commitment(),
        old(token).wf() ==> final(token).wf(),
{
    if token.is_exploded {
        return Err(BoomError::AlreadyExploded);
    }
    if !bytes32_is_zero(&token.cap_hash) {
        return Err(BoomError::CapAlreadySet);
    }
    if bytes32_is_zero(&cap_hash) {
        return Err(BoomError::EmptyCommitment);
    }
    token.cap_hash = cap_hash;
    Ok(())
}

/// A commitment is set at most once: after any digest has been stored, any
/// further attempt fails with `CapAlreadySet`, a state error, and the stored
/// digest stays.
pub proof fn lemma_commitment_is_set_once(token: BoomToken, cap_hash: [u8; 32], other: [u8; 32])
    requires
        set_secret_cap_outcome(token, cap_hash) is Ok,
    ensures
        set_secret_cap_outcome(token, cap_hash)->Ok_0.has_commitment(),
        set_secret_cap_outcome(token, cap_hash)->Ok_0.cap_hash == cap_hash,
        set_secret_cap_outcome(set_secret_cap_outcome(token, cap_hash)->Ok_0, other) == Err::<
            BoomToken,
            BoomError,
        >(BoomError::CapAlreadySet),
        BoomError::CapAlreadySet.spec_class() == ErrorClass::State,
{
}

/// What a reveal does to a launch and to the protocol's count, given the
/// digest of the revealed value.
pub open spec fn launch_reveal_outcome(
    token: BoomToken,
    protocol: Protocol,
    revealed_cap: u64,
    digest: Seq<u8>,
    now: i64,
) -> Result<(BoomToken, Protocol, TokenExploded), BoomError> {
    if token.is_exploded {
        Err(BoomError::AlreadyExploded)
    } else if !token.has_commitment() || digest != token.cap_hash@ {
        Err(BoomError::InvalidCapReveal)
    } else if protocol.total_explosions == u64::MAX {
        Err(BoomError::Overflow)
    } else {
        Ok(
            (
                BoomToken {
                    is_exploded: true,
                    explosion_time: now,
                    revealed_cap,
                    explosion_reason: ExplosionReason::CapHit,
                    ..token
                },
                Protocol {
                    total_explosions: (protocol.total_explosions + 1) as u64,
                    ..protocol
                },
                TokenExploded {
                    mint: token.mint,
                    reason: ExplosionReason::CapHit,
                    revealed_cap: Some(revealed_cap),
                    explosion_time: now,
                },
            ),
        )
    }
}

/// Detonates a launch by reveal, given the digest that the caller computed of
/// `revealed_cap`: the digest must equal the stored commitment, and an empty
/// slot is matched by nothing.
pub fn launch_reveal_with_digest(
    token: &mut BoomToken,
    protocol: &mut Protocol,
    revealed_cap: u64,
    digest: &[u8; 32],
    now: i64,
) -> (r: Result<TokenExploded, BoomError>)
    ensures
        match launch_reveal_outcome(*old(token), *old(protocol), revealed_cap, digest@, now) {
            Ok((next, counted, event)) => r == Ok::<TokenExploded, BoomError>(event)
                && *final(token)
                == next && *final(protocol) == counted,
            Err(e) => r == Err::<TokenExploded, BoomError>(e) && *final(token) == *old(token)
                && *final(protocol) == *old(protocol),
        },
        old(token).wf() ==> final(token).wf(),
{
    if token.is_exploded {
        return Err(BoomError::AlreadyExploded);
    }
    if bytes32_is_zero(&token.cap_hash) || !bytes32_equal(digest, &token.cap_hash) {
        return Err(BoomError::InvalidCapReveal);
    }
    let explosions: u64 = match protocol.total_explosions.checked_add(1) {
        Some(n) => n,
        None => {
            return Err(BoomError::Overflow);
        },
    };
    token.is_exploded = true;
    token.explosion_time = now;
    token.revealed_cap = revealed_cap;
    token.explosion_reason = ExplosionReason::CapHit;
    protocol.total_explosions = explosions;
    Ok(
        TokenExploded {
            mint: token.mint,
            reason: ExplosionReason::CapHit,
            revealed_cap: Some(revealed_cap),
            explosion_time: now,
        },
    )
}

/// Detonates a launch by revealing its hidden threshold: the digest of
/// `revealed_cap` must equal the stored commitment.
pub fn trigger_explosion(
    token: &mut BoomToken,
    protocol: &mut Protocol,
    revealed_cap: u64,
    now: i64,
) -> (r: Result<TokenExploded, BoomError>)
    ensures
        match launch_reveal_outcome(
            *old(token),
            *old(protocol),
            revealed_cap,
            cap_commitment(revealed_cap),
            now,
        ) {
            Ok((next, counted, event)) => r == Ok::<TokenExploded, BoomError>(event)
                && *final(token)
                == next && *final(protocol) == counted,
            Err(e) => r == Err::<TokenExploded, BoomError>(e) && *final(token) == *old(token)
                && *final(protocol) == *old(protocol),
        },
        old(token).wf() ==> final(token).wf(),
{
    if token.is_exploded {
        return Err(BoomError::AlreadyExploded);
    }
    let digest = commit_cap(revealed_cap);
    launch_reveal_with_digest(token, protocol, revealed_cap, &digest, now)
}

/// What `set_time_limit` does.
pub open spec fn set_time_limit_outcome(token: BoomToken, deadline: i64, now: i64) -> Result<
    (BoomToken, TimeLimitSet),
    BoomError,
> {
    if token.is_exploded {
        Err(BoomError::AlreadyExploded)
    } else if token.explosion_deadline != 0 {
        Err(BoomError::DeadlineAlreadySet)
    } else if deadline <= now || deadline <= 0 {
        Err(BoomError::DeadlineInPast)
    } else {
        Ok(
            (
                BoomToken { explosion_deadline: deadline, ..token },
                TimeLimitSet { mint: token.mint, deadline },
            ),
        )
    }
}

/// Sets the deadline of a launch, once. It must lie in the future and be a
/// positive time: a deadline of zero is what a launch without a deadline holds.
pub fn set_time_limit(token: &mut BoomToken, deadline: i64, now: i64) -> (r: Result<
    TimeLimitSet,
    BoomError,
>)
    ensures
        match set_time_limit_outcome(*old(token), deadline, now) {
            Ok((next, event)) => r == Ok::<TimeLimitSet, BoomError>(event) && *final(token) == next,
            Err(e) => r == Err::<TimeLimitSet, BoomError>(e) && *final(token) == *old(token),
        },
        r is Ok ==> final(token).explosion_deadline > 0,
        old(token).wf() ==> final(token).wf(),
{
    if token.is_exploded {
        return Err(BoomError::AlreadyExploded);
    }
    if token.explosion_deadline != 0 {
        return Err(BoomError::DeadlineAlreadySet);
    }
    if deadline <= now || deadline <= 0 {
        return Err(BoomError::DeadlineInPast);
    }
    token.explosion_deadline = deadline;
    Ok(TimeLimitSet { mint: token.mint, deadline })
}

/// A deadline is set at most once: after one has been set, any further attempt
/// fails with `DeadlineAlreadySet`, a state error, and the deadline stays.
pub proof fn lemma_deadline_is_set_once(
    token: BoomToken,
    deadline: i64,
    now: i64,
    other: i64,
    later: i64,
)
    requires
        set_time_limit_outcome(token, deadline, now) is Ok,
    ensures
        set_time_limit_outcome(token, deadline, now)->Ok_0.0.explosion_deadline == deadline,
        set_time_limit_outcome(set_time_limit_outcome(token, deadline, now)->Ok_0.0, other, later)
            == Err::<(BoomToken, TimeLimitSet), BoomError>(BoomError::DeadlineAlreadySet),
        BoomError::DeadlineAlreadySet.spec_class() == ErrorClass::State,
{
}

/// What the deadline trigger does to a launch and to the protocol's count.
pub open spec fn launch_deadline_outcome(token: BoomToken, protocol: Protocol, now: i64) -> Result<
    (BoomToken, Protocol, TokenExploded),
    BoomError,
> {
    if token.is_exploded {
        Err(BoomError::AlreadyExploded)
    } else if token.explosion_deadline <= 0 {
        Err(BoomError::NoDeadlineSet)
    } else if now < token.explosion_deadline {
        Err(BoomError::DeadlineNotReached)
    } else if protocol.total_explosions == u64::MAX {
        Err(BoomError::Overflow)
    } else {
        Ok(
            (
                BoomToken {
                    is_exploded: true,
                    explosion_time: now,
                    explosion_reason: ExplosionReason::TimeLimit,
                    ..token
                },
                Protocol {
                    total_explosions: (protocol.total_explosions + 1) as u64,
                    ..protocol
                },
                TokenExploded {
                    mint: token.mint,
                    reason: ExplosionReason::TimeLimit,
                    revealed_cap: None,
                    explosion_time: now,
                },
            ),
        )
    }
}

/// Detonates a launch whose deadline has passed. Whoever calls is authorized.
pub fn trigger_time_explosion(token: &mut BoomToken, protocol: &mut Protocol, now: i64) -> (r:
    Result<TokenExploded, BoomError>)
    ensures
        match launch_deadline_outcome(*old(token), *old(protocol), now) {
            Ok((next, counted, event)) => r == Ok::<TokenExploded, BoomError>(event)
                && *final(token)
                == next && *final(protocol) == counted,
            Err(e) => r == Err::<TokenExploded, BoomError>(e) && *final(token) == *old(token)
                && *final(protocol) == *old(protocol),
        },
        old(token).wf() ==> final(token).wf(),
{
    if token.is_exploded {
        return Err(BoomError::AlreadyExploded);
    }
    if token.explosion_deadline <= 0 {
        return Err(BoomError::NoDeadlineSet);
    }
    if now < token.explosion_deadline {
        return Err(BoomError::DeadlineNotReached);
    }
    let explosions: u64 = match protocol.total_explosions.checked_add(1) {
        Some(n) => n,
        None => {
            return Err(BoomError::Overflow);
        },
    };
    token.is_exploded = true;
    token.explosion_time = now;
    token.explosion_reason = ExplosionReason::TimeLimit;
    protocol.total_explosions = explosions;
    Ok(
        TokenExploded {
            mint: token.mint,
            reason: ExplosionReason::TimeLimit,
            revealed_cap: None,
            explosion_time: now,
        },
    )
}

/// A launch's commitment is immutable: neither the deadline nor a detonation
/// changes the digest that was stored.
pub proof fn lemma_commitment_is_immutable(
    token: BoomToken,
    protocol: Protocol,
    deadline: i64,
    revealed_cap: u64,
    digest: Seq<u8>,
    now: i64,
)
    ensures
        set_time_limit_outcome(token, deadline, now) matches Ok((next, _)) ==> next.cap_hash
            == token.cap_hash,
        launch_reveal_outcome(token, protocol, revealed_cap, digest, now) matches Ok(
            (next, _, _),
        ) ==> next.cap_hash == token.cap_hash,
        launch_deadline_outcome(token, protocol, now) matches Ok((next, _, _)) ==> next.cap_hash
            == token.cap_hash,
{
}

/// A launch detonates once. After either trigger has succeeded, each of the
/// two fails on the resulting launch with `AlreadyExploded`, a state error.
pub proof fn lemma_launch_detonates_once(
    token: BoomToken,
    protocol: Protocol,
    revealed_cap: u64,
    digest: Seq<u8>,
    now: i64,
    later: i64,
    other_cap: u64,
    other_digest: Seq<u8>,
)
    ensures
        launch_reveal_outcome(token, protocol, revealed_cap, digest, now) matches Ok(
            (exploded, counted, _),
        ) ==> launch_deadline_outcome(exploded, counted, later) == Err::<
            (BoomToken, Protocol, TokenExploded),
            BoomError,
        >(BoomError::AlreadyExploded) && launch_reveal_outcome(
            exploded,
            counted,
            other_cap,
            other_digest,
            later,
        ) == Err::<(BoomToken, Protocol, TokenExploded), BoomError>(BoomError::AlreadyExploded),
        launch_deadline_outcome(token, protocol, now) matches Ok((exploded, counted, _))
            ==> launch_deadline_outcome(exploded, counted, later) == Err::<
            (BoomToken, Protocol, TokenExploded),
            BoomError,
        >(BoomError::AlreadyExploded) && launch_reveal_outcome(
            exploded,
            counted,
            other_cap,
            other_digest,
            later,
        ) == Err::<(BoomToken, Protocol, TokenExploded), BoomError>(BoomError::AlreadyExploded),
        BoomError::AlreadyExploded.spec_class() == ErrorClass::State,
{
}

} // verus!
