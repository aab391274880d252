//! What is done with verifiable randomness: a hidden threshold is derived from
//! it for a launch, and the winners of a presale lottery are drawn from it.
//! Asking the randomness service and waiting for its answer is the caller's
//! part; here are the records of a request and the rules applied to an answer.

use crate::address::{bytes32_is_zero, Address};
use crate::digest::{cap_commitment, commit_cap, hash_bytes, sha256};
use crate::errors::BoomError;
use crate::launch::set_secret_cap_outcome;
use crate::presale::{Presale, PresaleStatus};
use crate::state::{BoomToken, Protocol};
use vstd::bytes::{
    spec_u32_to_le_bytes, spec_u64_from_le_bytes, u32_to_le_bytes, u64_from_le_bytes,
};
use vstd::prelude::*;
use vstd::slice::slice_subrange;

verus! {

/// Where a request for randomness stands.
#[derive(Clone, Copy, Debug, PartialEq, Eq, Structural)]
pub enum VrfRequestStatus {
    /// Submitted, awaiting the answer.
    Pending,
    /// Answered: the randomness is available.
    Fulfilled,
    /// Failed or timed out.
    Failed,
}

/// A request for the randomness from which a launch's threshold is derived.
#[derive(Clone, Copy, Debug, PartialEq, Eq)]
pub struct VrfCapRequest {
    pub boom_token: Address,
    pub vrf_account: Address,
    pub status: VrfRequestStatus,
    pub requested_at: i64,
    pub result: [u8; 32],
    /// Left at zero: the threshold drawn from the answer is committed to, not
    /// recorded.
    pub derived_cap: u64,
    pub bump: u8,
}

/// A request for the randomness that seeds a presale lottery.
#[derive(Clone, Copy, Debug, PartialEq, Eq)]
pub struct VrfLotteryRequest {
    pub presale: Address,
    pub vrf_account: Address,
    pub status: VrfRequestStatus,
    pub requested_at: i64,
    pub result: [u8; 32],
    pub bump: u8,
}

/// The account on whose authority requests are made.
#[derive(Clone, Copy, Debug, PartialEq, Eq)]
pub struct VrfClient {
    pub protocol: Address,
    pub vrf: Address,
    pub oracle_queue: Address,
    pub escrow: Address,
    pub request_count: u64,
    pub bump: u8,
}

#[derive(Clone, Copy, Debug, PartialEq, Eq)]
pub struct VrfClientInitialized {
    pub protocol: Address,
    pub vrf: Address,
    pub oracle_queue: Address,
}

#[derive(Clone, Copy, Debug, PartialEq, Eq)]
pub struct CapVrfRequested {
    pub boom_token: Address,
    pub vrf_account: Address,
    pub requested_at: i64,
}

#[derive(Clone, Copy, Debug, PartialEq, Eq)]
pub struct CapVrfConsumed {
    pub boom_token: Address,
    pub cap_hash: [u8; 32],
}

#[derive(Clone, Copy, Debug, PartialEq, Eq)]
pub struct LotteryVrfRequested {
    pub presale: Address,
    pub vrf_account: Address,
    pub requested_at: i64,
}

#[derive(Clone, Copy, Debug, PartialEq, Eq)]
pub struct LotteryVrfConsumed {
    pub presale: Address,
    pub lottery_seed: [u8; 32],
    pub depositor_count: u32,
    pub winner_count: u32,
}

// ---------------------------------------------------------------------------
// Derivations
// ---------------------------------------------------------------------------

/// The number that the first eight bytes of a 32-byte string spell,
/// little-endian.
pub open spec fn leading_u64(bytes: Seq<u8>) -> u64 {
    spec_u64_from_le_bytes(bytes.subrange(0, 8))
}

/// The threshold derived from randomness: `min_cap` plus the randomness
/// reduced to the width of the range.
pub open spec fn derived_cap(result: Seq<u8>, min_cap: u64, max_cap: u64) -> int {
    min_cap + leading_u64(result) as int % (max_cap - min_cap)
}

/// Reads the first eight bytes of a 32-byte string as a number.
pub fn read_leading_u64(bytes: &[u8; 32]) -> (x: u64)
    ensures
        x == leading_u64(bytes@),
{
    let head = slice_subrange(bytes.as_slice(), 0, 8);
    u64_from_le_bytes(head)
}

/// The threshold derived from `result`, within `[min_cap, max_cap)`; or
/// `Overflow` where that range is empty.
pub fn derive_cap_from_vrf(result: [u8; 32], min_cap: u64, max_cap: u64) -> (r: Result<
    u64,
    BoomError,
>)
    ensures
        r is Ok <==> min_cap < max_cap,
        r matches Ok(cap) ==> cap == derived_cap(result@, min_cap, max_cap) && min_cap <= cap
            < max_cap,
        r matches Err(e) ==> e == BoomError::Overflow,
{
    if max_cap <= min_cap {
        return Err(BoomError::Overflow);
    }
    let range: u64 = max_cap - min_cap;
    let random: u64 = read_leading_u64(&result);
    let offset: u64 = random % range;
    Ok(min_cap + offset)
}

/// The share of all tickets that wins, as a bound on the ticket's number:
/// `floor(winner_count * (2^64 - 1) / depositor_count)`.
pub open spec fn lottery_threshold(depositor_count: u32, winner_count: u32) -> int {
    winner_count as int * 0xffff_ffff_ffff_ffff / depositor_count as int
}

/// Whether the ticket with this digest wins. Nobody wins a lottery without
/// depositors or without winners; everybody wins where there are at least as
/// many winners as depositors; otherwise a ticket wins when the number in its
/// first eight bytes lies below the threshold.
pub open spec fn winning(ticket_digest: Seq<u8>, depositor_count: u32, winner_count: u32) -> bool {
    if depositor_count == 0 || winner_count == 0 {
        false
    } else if winner_count >= depositor_count {
        true
    } else {
        leading_u64(ticket_digest) < lottery_threshold(depositor_count, winner_count)
    }
}

/// Whether the ticket with this digest wins.
pub fn is_winning_ticket(ticket_digest: &[u8; 32], depositor_count: u32, winner_count: u32) -> (r:
    bool)
    ensures
        r == winning(ticket_digest@, depositor_count, winner_count),
{
    if depositor_count == 0 || winner_count == 0 {
        return false;
    }
    if winner_count >= depositor_count {
        return true;
    }
    let ticket: u64 = read_leading_u64(ticket_digest);
    assert(winner_count * 0xffff_ffff_ffff_ffff <= u128::MAX && winner_count
        * 0xffff_ffff_ffff_ffff >= 0) by (nonlinear_arith)
        requires
            0 <= winner_count <= u32::MAX,
    ;
    let scaled: u128 = (winner_count as u128) * 0xffff_ffff_ffff_ffffu128;
    let threshold: u128 = scaled / (depositor_count as u128);
    (ticket as u128) < threshold
}

/// What is hashed into the ticket of a position: the seed, then the position
/// in four little-endian bytes.
pub open spec fn ticket_preimage(lottery_seed: Seq<u8>, position: u32) -> Seq<u8> {
    lottery_seed + spec_u32_to_le_bytes(position)
}

/// Whether the deposit at `position` wins the lottery drawn from
/// `lottery_seed`.
pub fn is_lottery_winner(
    lottery_seed: [u8; 32],
    position: u32,
    depositor_count: u32,
    winner_count: u32,
) -> (r: bool)
    ensures
        r == winning(
            sha256(ticket_preimage(lottery_seed@, position)),
            depositor_count,
            winner_count,
        ),
{
    if depositor_count == 0 || winner_count == 0 {
        return false;
    }
    if winner_count >= depositor_count {
        return true;
    }
    let mut data: Vec<u8> = Vec::new();
    let mut i: usize = 0;
    while i < 32
        invariant
            i <= 32,
            data@ == lottery_seed@.subrange(0, i as int),
        decreases 32 - i,
    {
        data.push(lottery_seed[i]);
        i += 1;
        assert(data@ =~= lottery_seed@.subrange(0, i as int));
    }
    assert(data@ =~= lottery_seed@);
    let tail = u32_to_le_bytes(position);
    data.extend_from_slice(tail.as_slice());
    assert(data@ =~= ticket_preimage(lottery_seed@, position));
    let ticket_digest = hash_bytes(data.as_slice());
    is_winning_ticket(&ticket_digest, depositor_count, winner_count)
}

// ---------------------------------------------------------------------------
// Requests and answers
// ---------------------------------------------------------------------------

/// The client record of a protocol.
pub fn initialize_vrf(
    protocol_key: Address,
    vrf: Address,
    oracle_queue: Address,
    escrow: Address,
    bump: u8,
) -> (r: (VrfClient, VrfClientInitialized))
    ensures
        r.0 == (VrfClient {
            protocol: protocol_key,
            vrf,
            oracle_queue,
            escrow,
            request_count: 0,
            bump,
        }),
        r.1 == (VrfClientInitialized { protocol: protocol_key, vrf, oracle_queue }),
{
    (
        VrfClient { protocol: protocol_key, vrf, oracle_queue, escrow, request_count: 0, bump },
        VrfClientInitialized { protocol: protocol_key, vrf, oracle_queue },
    )
}

/// Opens a request for the randomness of a launch's threshold. The launch must
/// be live and not have a commitment yet and the randomness account must be the client's.
/// On success the caller submits the request to the service.
pub fn request_cap_vrf(
    boom_token: &BoomToken,
    boom_token_key: Address,
    vrf_client: &VrfClient,
    vrf_key: Address,
    now: i64,
    bump: u8,
) -> (r: Result<(VrfCapRequest, CapVrfRequested), BoomError>)
    ensures
        boom_token.is_exploded ==> r == Err::<(VrfCapRequest, CapVrfRequested), BoomError>(
            BoomError::AlreadyExploded,
        ),
        !boom_token.is_exploded && boom_token.has_commitment() ==> r == Err::<
            (VrfCapRequest, CapVrfRequested),
            BoomError,
        >(BoomError::CapAlreadySet),
        !boom_token.is_exploded && !boom_token.has_commitment() && vrf_key != vrf_client.vrf ==> r
            == Err::<(VrfCapRequest, CapVrfRequested), BoomError>(BoomError::Unauthorized),
        !boom_token.is_exploded && !boom_token.has_commitment() && vrf_key == vrf_client.vrf ==> (r
            matches Ok(
            (request, event),
        ) && request.boom_token == boom_token_key && request.vrf_account == vrf_key
            && request.status == VrfRequestStatus::Pending && request.requested_at == now
            && request.result@ == Address::zero() && request.derived_cap == 0 && request.bump
            == bump && event == (CapVrfRequested {
            boom_token: boom_token_key,
            vrf_account: vrf_key,
            requested_at: now,
        })),
{
    if boom_token.is_exploded {
        return Err(BoomError::AlreadyExploded);
    }
    if !bytes32_is_zero(&boom_token.cap_hash) {
        return Err(BoomError::CapAlreadySet);
    }
    if !vrf_key.same(&vrf_client.vrf) {
        return Err(BoomError::Unauthorized);
    }
    let request = VrfCapRequest {
        boom_token: boom_token_key,
        vrf_account: vrf_key,
        status: VrfRequestStatus::Pending,
        requested_at: now,
        result: [0u8; 32],
        derived_cap: 0,
        bump,
    };
    assert(request.result@ =~= Address::zero());
    Ok(
        (
            request,
            CapVrfRequested { boom_token: boom_token_key, vrf_account: vrf_key, requested_at: now },
        ),
    )
}

/// The digest that commits to the threshold drawn from `result` within the
/// protocol's bounds.
pub open spec fn drawn_commitment(result: Seq<u8>, protocol: Protocol) -> Seq<u8> {
    cap_commitment(derived_cap(result, protocol.min_cap, protocol.max_cap) as u64)
}

/// Whether the answer to a threshold request is taken, given the digest that
/// commits to the drawn threshold, and what becomes of the request. The launch
/// must be live and its commitment slot still empty: a commitment stored since
/// the request was made is not replaced. An answer of zeros is no answer; the
/// request must be pending and be the one made for this launch and this
/// randomness account. The all-zero digest is no commitment. The threshold
/// itself is not recorded.
pub open spec fn cap_answer_outcome(
    request: VrfCapRequest,
    boom_token: BoomToken,
    boom_token_key: Address,
    protocol: Protocol,
    vrf_key: Address,
    result: [u8; 32],
    digest: Seq<u8>,
) -> Result<VrfCapRequest, BoomError> {
    if boom_token.is_exploded {
        Err(BoomError::AlreadyExploded)
    } else if boom_token.has_commitment() {
        Err(BoomError::CapAlreadySet)
    } else if request.status != VrfRequestStatus::Pending || vrf_key != request.vrf_account
        || request.boom_token != boom_token_key || result@ == Address::zero() {
        Err(BoomError::Unauthorized)
    } else if protocol.max_cap <= protocol.min_cap {
        Err(BoomError::Overflow)
    } else if digest == Address::zero() {
        Err(BoomError::EmptyCommitment)
    } else {
        Ok(VrfCapRequest { result, status: VrfRequestStatus::Fulfilled, ..request })
    }
}

/// Takes the answer to a threshold request, given the digest that the caller
/// computed of the threshold drawn from it: the answer is recorded on the
/// request and the digest stored on the launch as its commitment.
pub fn consume_cap_with_digest(
    request: &mut VrfCapRequest,
    boom_token: &mut BoomToken,
    boom_token_key: Address,
    protocol: &Protocol,
    vrf_key: &Address,
    result: [u8; 32],
    digest: [u8; 32],
) -> (r: Result<CapVrfConsumed, BoomError>)
    ensures
        match cap_answer_outcome(
            *old(request),
            *old(boom_token),
            boom_token_key,
            *protocol,
            *vrf_key,
            result,
            digest@,
        ) {
            Ok(answered) => r == Ok::<CapVrfConsumed, BoomError>(
                CapVrfConsumed { boom_token: boom_token_key, cap_hash: digest },
            ) && *final(request) == answered && *final(boom_token) == (BoomToken {
                cap_hash: digest,
                ..*old(boom_token)
            }),
            Err(e) => r == Err::<CapVrfConsumed, BoomError>(e) && *final(request) == *old(request)
                && *final(boom_token) == *old(boom_token),
        },
        r is Ok ==> final(boom_token).has_commitment(),
        old(boom_token).wf() ==> final(boom_token).wf(),
{
    if boom_token.is_exploded {
        return Err(BoomError::AlreadyExploded);
    }
    if !bytes32_is_zero(&boom_token.cap_hash) {
        return Err(BoomError::CapAlreadySet);
    }
    if request.status != VrfRequestStatus::Pending || !vrf_key.same(&request.vrf_account)
        || !request.boom_token.same(&boom_token_key) || bytes32_is_zero(&result) {
        return Err(BoomError::Unauthorized);
    }
    if protocol.max_cap <= protocol.min_cap {
        return Err(BoomError::Overflow);
    }
    if bytes32_is_zero(&digest) {
        return Err(BoomError::EmptyCommitment);
    }
    request.result = result;
    request.status = VrfRequestStatus::Fulfilled;
    boom_token.cap_hash = digest;
    Ok(CapVrfConsumed { boom_token: boom_token_key, cap_hash: digest })
}

/// Takes the answer to a threshold request: draws the threshold from it within
/// the protocol's bounds and stores on the launch the digest that commits to
/// it. The digest alone is stored and published; the threshold is dropped.
pub fn consume_cap_vrf(
    request: &mut VrfCapRequest,
    boom_token: &mut BoomToken,
    boom_token_key: Address,
    protocol: &Protocol,
    vrf_key: &Address,
    result: [u8; 32],
) -> (r: Result<CapVrfConsumed, BoomError>)
    ensures
        match cap_answer_outcome(
            *old(request),
            *old(boom_token),
            boom_token_key,
            *protocol,
            *vrf_key,
            result,
            drawn_commitment(result@, *protocol),
        ) {
            Ok(answered) => r matches Ok(event) && event == (CapVrfConsumed {
                boom_token: boom_token_key,
                cap_hash: final(boom_token).cap_hash,
            }) && *final(request) == answered && final(boom_token).cap_hash@ == drawn_commitment(
                result@,
                *protocol,
            ) && *final(boom_token) == (BoomToken {
                cap_hash: final(boom_token).cap_hash,
                ..*old(boom_token)
            }),
            Err(e) => r == Err::<CapVrfConsumed, BoomError>(e) && *final(request) == *old(request)
                && *final(boom_token) == *old(boom_token),
        },
        r is Ok ==> final(boom_token).has_commitment(),
        old(boom_token).wf() ==> final(boom_token).wf(),
{
    if boom_token.is_exploded {
        return Err(BoomError::AlreadyExploded);
    }
    if !bytes32_is_zero(&boom_token.cap_hash) {
        return Err(BoomError::CapAlreadySet);
    }
    if request.status != VrfRequestStatus::Pending || !vrf_key.same(&request.vrf_account)
        || !request.boom_token.same(&boom_token_key) || bytes32_is_zero(&result) {
        return Err(BoomError::Unauthorized);
    }
    let cap: u64 = derive_cap_from_vrf(result, protocol.min_cap, protocol.max_cap)?;
    let digest = commit_cap(cap);
    consume_cap_with_digest(request, boom_token, boom_token_key, protocol, vrf_key, result, digest)
}

/// An answer commits a launch once: after one has been taken, the launch has
/// the digest as its commitment, and neither a second answer nor
/// `set_secret_cap` replaces it.
pub proof fn lemma_answer_commits_once(
    request: VrfCapRequest,
    boom_token: BoomToken,
    boom_token_key: Address,
    protocol: Protocol,
    vrf_key: Address,
    result: [u8; 32],
    digest: [u8; 32],
    other_request: VrfCapRequest,
    other_result: [u8; 32],
    other_digest: [u8; 32],
)
    requires
        cap_answer_outcome(
            request,
            boom_token,
            boom_token_key,
            protocol,
            vrf_key,
            result,
            digest@,
        ) is Ok,
    ensures
        ({
            let committed = BoomToken { cap_hash: digest, ..boom_token };
            &&& committed.has_commitment()
            &&& cap_answer_outcome(
                other_request,
                committed,
                boom_token_key,
                protocol,
                vrf_key,
                other_result,
                other_digest@,
            ) == Err::<VrfCapRequest, BoomError>(BoomError::CapAlreadySet)
            &&& set_secret_cap_outcome(committed, other_digest) == Err::<BoomToken, BoomError>(
                BoomError::CapAlreadySet,
            )
        }),
{
}

/// Opens a request for the randomness of a presale's lottery. The presale must
/// be closed and the randomness account must be the client's. On success the
/// caller submits the request to the service.
pub fn request_lottery_vrf(
    presale: &Presale,
    presale_key: Address,
    vrf_client: &VrfClient,
    vrf_key: Address,
    now: i64,
    bump: u8,
) -> (r: Result<(VrfLotteryRequest, LotteryVrfRequested), BoomError>)
    ensures
        presale.status != PresaleStatus::Closed ==> r == Err::<
            (VrfLotteryRequest, LotteryVrfRequested),
            BoomError,
        >(BoomError::PresaleNotClosed),
        presale.status == PresaleStatus::Closed && vrf_key != vrf_client.vrf ==> r == Err::<
            (VrfLotteryRequest, LotteryVrfRequested),
            BoomError,
        >(BoomError::Unauthorized),
        presale.status == PresaleStatus::Closed && vrf_key == vrf_client.vrf ==> (r matches Ok(
            (request, event),
        ) && request.presale == presale_key && request.vrf_account == vrf_key && request.status
            == VrfRequestStatus::Pending && request.requested_at == now && request.result@
            == Address::zero() && request.bump == bump && event == (LotteryVrfRequested {
            presale: presale_key,
            vrf_account: vrf_key,
            requested_at: now,
        })),
{
    if presale.status != PresaleStatus::Closed {
        return Err(BoomError::PresaleNotClosed);
    }
    if !vrf_key.same(&vrf_client.vrf) {
        return Err(BoomError::Unauthorized);
    }
    let request = VrfLotteryRequest {
        presale: presale_key,
        vrf_account: vrf_key,
        status: VrfRequestStatus::Pending,
        requested_at: now,
        result: [0u8; 32],
        bump,
    };
    assert(request.result@ =~= Address::zero());
    Ok(
        (
            request,
            LotteryVrfRequested { presale: presale_key, vrf_account: vrf_key, requested_at: now },
        ),
    )
}

/// What the answer to a lottery request does. The presale must still be
/// closed and undrawn: a lottery that was drawn is not drawn again.
pub open spec fn lottery_answer_outcome(
    request: VrfLotteryRequest,
    presale: Presale,
    presale_key: Address,
    vrf_key: Address,
    result: [u8; 32],
) -> Result<(VrfLotteryRequest, Presale, LotteryVrfConsumed), BoomError> {
    if presale.status != PresaleStatus::Closed {
        Err(BoomError::PresaleNotClosed)
    } else if request.status != VrfRequestStatus::Pending || vrf_key != request.vrf_account
        || request.presale != presale_key || result@ == Address::zero() {
        Err(BoomError::Unauthorized)
    } else {
        Ok(
            (
                VrfLotteryRequest { result, status: VrfRequestStatus::Fulfilled, ..request },
                Presale {
                    lottery_seed: result,
                    status: PresaleStatus::LotteryComplete,
                    ..presale
                },
                LotteryVrfConsumed {
                    presale: presale_key,
                    lottery_seed: result,
                    depositor_count: presale.depositor_count,
                    winner_count: presale.winner_count,
                },
            ),
        )
    }
}

/// Takes the answer to a lottery request, once for a presale: the randomness
/// becomes the presale's lottery seed and the lottery is complete.
pub fn consume_lottery_vrf(
    request: &mut VrfLotteryRequest,
    presale: &mut Presale,
    presale_key: Address,
    vrf_key: &Address,
    result: [u8; 32],
) -> (r: Result<LotteryVrfConsumed, BoomError>)
    ensures
        match lottery_answer_outcome(*old(request), *old(presale), presale_key, *vrf_key, result) {
            Ok((answered, drawn, event)) => r == Ok::<LotteryVrfConsumed, BoomError>(event)
                && *final(request) == answered && *final(presale) == drawn,
            Err(e) => r == Err::<LotteryVrfConsumed, BoomError>(e)
                && *final(request) == *old(request) && *final(presale) == *old(presale),
        },
{
    if presale.status != PresaleStatus::Closed {
        return Err(BoomError::PresaleNotClosed);
    }
    if request.status != VrfRequestStatus::Pending || !vrf_key.same(&request.vrf_account)
        || !request.presale.same(&presale_key) || bytes32_is_zero(&result) {
        return Err(BoomError::Unauthorized);
    }
    request.result = result;
    request.status = VrfRequestStatus::Fulfilled;
    presale.lottery_seed = result;
    presale.status = PresaleStatus::LotteryComplete;
    Ok(
        LotteryVrfConsumed {
            presale: presale_key,
            lottery_seed: result,
            depositor_count: presale.depositor_count,
            winner_count: presale.winner_count,
        },
    )
}

/// A lottery is drawn once: after an answer has been taken, any further answer
/// for the same presale fails with `PresaleNotClosed`, a state error, and the
/// seed stays.
pub proof fn lemma_lottery_is_drawn_once(
    request: VrfLotteryRequest,
    presale: Presale,
    presale_key: Address,
    vrf_key: Address,
    result: [u8; 32],
    other_request: VrfLotteryRequest,
    other_key: Address,
    other_result: [u8; 32],
)
    requires
        lottery_answer_outcome(request, presale, presale_key, vrf_key, result) is Ok,
    ensures
        ({
            let drawn = lottery_answer_outcome(
                request,
                presale,
                presale_key,
                vrf_key,
                result,
            )->Ok_0.1;
            &&& drawn.lottery_seed == result
            &&& lottery_answer_outcome(other_request, drawn, presale_key, other_key, other_result)
                == Err::<(VrfLotteryRequest, Presale, LotteryVrfConsumed), BoomError>(
                BoomError::PresaleNotClosed,
            )
        }),
        BoomError::PresaleNotClosed.spec_class() == crate::errors::ErrorClass::State,
{
}

} // verus!
