//! Where the records are kept. Every record has an address that anybody can
//! recompute: the ledger derives it from a namespace tag followed by the fields
//! that identify the record. The ledger hashes the parts one after the other
//! with nothing between them, so what must differ between two records is the
//! string of all their parts: tags and field widths are chosen so that it does.

use crate::address::Address;
use crate::hook::{HOOK_CONFIG_SEED, WHITELIST_SEED};
use vstd::bytes::{
    lemma_auto_spec_u64_to_from_le_bytes, spec_u64_from_le_bytes, spec_u64_to_le_bytes,
    u64_to_le_bytes,
};
use vstd::prelude::*;
use vstd::slice::slice_to_vec;

verus! {

/// The tag `protocol`.
pub const PROTOCOL_TAG: [u8; 8] = [112, 114, 111, 116, 111, 99, 111, 108];

/// The tag `boom_token`.
pub const BOOM_TOKEN_TAG: [u8; 10] = [98, 111, 111, 109, 95, 116, 111, 107, 101, 110];

/// The tag `presale`.
pub const PRESALE_TAG: [u8; 7] = [112, 114, 101, 115, 97, 108, 101];

/// The tag `deposit`.
pub const DEPOSIT_TAG: [u8; 7] = [100, 101, 112, 111, 115, 105, 116];

/// The tag `presale_token`.
pub const PRESALE_TOKEN_TAG: [u8; 13] = [
    112, 114, 101, 115, 97, 108, 101, 95, 116, 111, 107, 101, 110,
];

/// The tag `mint_authority`.
pub const MINT_AUTHORITY_TAG: [u8; 14] = [
    109, 105, 110, 116, 95, 97, 117, 116, 104, 111, 114, 105, 116, 121,
];

/// The tag `lp_info`.
pub const LP_INFO_TAG: [u8; 7] = [108, 112, 95, 105, 110, 102, 111];

/// The tag `presale_explosion`.
pub const PRESALE_EXPLOSION_TAG: [u8; 17] = [
    112, 114, 101, 115, 97, 108, 101, 95, 101, 120, 112, 108, 111, 115, 105, 111, 110,
];

/// The tag `payout_pool`.
pub const PAYOUT_POOL_TAG: [u8; 11] = [112, 97, 121, 111, 117, 116, 95, 112, 111, 111, 108];

/// The tag `payout_vault`.
pub const PAYOUT_VAULT_TAG: [u8; 12] = [112, 97, 121, 111, 117, 116, 95, 118, 97, 117, 108, 116];

/// The tag `pool`.
pub const POOL_TAG: [u8; 4] = [112, 111, 111, 108];

/// The tag `token_vault`.
pub const TOKEN_VAULT_TAG: [u8; 11] = [116, 111, 107, 101, 110, 95, 118, 97, 117, 108, 116];

/// The tag `sol_vault`.
pub const SOL_VAULT_TAG: [u8; 9] = [115, 111, 108, 95, 118, 97, 117, 108, 116];

/// The tag `round_sequencer`.
pub const ROUND_SEQUENCER_TAG: [u8; 15] = [
    114, 111, 117, 110, 100, 95, 115, 101, 113, 117, 101, 110, 99, 101, 114,
];

/// The tag `vrf_client`.
pub const VRF_CLIENT_TAG: [u8; 10] = [118, 114, 102, 95, 99, 108, 105, 101, 110, 116];

/// The tag `vrf_cap_request`.
pub const VRF_CAP_REQUEST_TAG: [u8; 15] = [
    118, 114, 102, 95, 99, 97, 112, 95, 114, 101, 113, 117, 101, 115, 116,
];

/// The tag `vrf_lottery_request`.
pub const VRF_LOTTERY_REQUEST_TAG: [u8; 19] = [
    118, 114, 102, 95, 108, 111, 116, 116, 101, 114, 121, 95, 114, 101, 113, 117, 101, 115, 116,
];

/// The tag `extra-account-metas`.
pub const EXTRA_ACCOUNT_METAS_TAG: [u8; 19] = [
    101, 120, 116, 114, 97, 45, 97, 99, 99, 111, 117, 110, 116, 45, 109, 101, 116, 97, 115,
];

/// What identifies a record: its kind and the fields of its address.
#[derive(Clone, Copy, Debug, PartialEq, Eq)]
pub enum RecordKey {
    /// The protocol's configuration.
    Protocol,
    /// The launch of an asset.
    BoomToken { mint: Address },
    /// A funding round.
    PresaleRound { round_id: u64 },
    /// A depositor's stake in a funding round.
    UserDeposit { round_id: u64, depositor: Address },
    /// The asset of a funding round.
    PresaleToken { round_id: u64 },
    /// The authority that issues a round's asset.
    MintAuthority { round_id: u64 },
    /// The liquidity registered for a round.
    LpInfo { round_id: u64 },
    /// The detonation state of a round.
    PresaleExplosion { round_id: u64 },
    /// The payout pool of a round.
    PayoutPool { round_id: u64 },
    /// The vault that payouts are made from.
    PayoutVault { round_id: u64 },
    /// The pool of a round.
    Pool { round_id: u64 },
    /// The pool's asset vault.
    TokenVault { round_id: u64 },
    /// The pool's currency vault.
    SolVault { round_id: u64 },
    /// The round sequencer.
    RoundSequencer,
    /// A presale of the earlier kind.
    Presale { protocol: Address, round: u64 },
    /// A deposit into a presale of the earlier kind.
    PresaleDeposit { presale: Address, depositor: Address },
    /// The client on whose authority randomness is requested.
    VrfClient { protocol: Address },
    /// A request for the randomness of a launch's threshold.
    VrfCapRequest { boom_token: Address },
    /// A request for the randomness of a lottery.
    VrfLotteryRequest { presale: Address },
    /// The hook's configuration.
    HookConfig,
    /// What the hook knows of an asset.
    Whitelist { mint: Address },
    /// The list of accounts that the ledger adds to a movement of an asset.
    ExtraAccountMetas { mint: Address },
}

impl RecordKey {
    /// The namespace tag of the record's kind.
    pub open spec fn tag(self) -> Seq<u8> {
        match self {
            RecordKey::Protocol => PROTOCOL_TAG@,
            RecordKey::BoomToken { .. } => BOOM_TOKEN_TAG@,
            RecordKey::PresaleRound { .. } => PRESALE_TAG@,
            RecordKey::UserDeposit { .. } => DEPOSIT_TAG@,
            RecordKey::PresaleToken { .. } => PRESALE_TOKEN_TAG@,
            RecordKey::MintAuthority { .. } => MINT_AUTHORITY_TAG@,
            RecordKey::LpInfo { .. } => LP_INFO_TAG@,
            RecordKey::PresaleExplosion { .. } => PRESALE_EXPLOSION_TAG@,
            RecordKey::PayoutPool { .. } => PAYOUT_POOL_TAG@,
            RecordKey::PayoutVault { .. } => PAYOUT_VAULT_TAG@,
            RecordKey::Pool { .. } => POOL_TAG@,
            RecordKey::TokenVault { .. } => TOKEN_VAULT_TAG@,
            RecordKey::SolVault { .. } => SOL_VAULT_TAG@,
            RecordKey::RoundSequencer => ROUND_SEQUENCER_TAG@,
            RecordKey::Presale { .. } => PRESALE_TAG@,
            RecordKey::PresaleDeposit { .. } => DEPOSIT_TAG@,
            RecordKey::VrfClient { .. } => VRF_CLIENT_TAG@,
            RecordKey::VrfCapRequest { .. } => VRF_CAP_REQUEST_TAG@,
            RecordKey::VrfLotteryRequest { .. } => VRF_LOTTERY_REQUEST_TAG@,
            RecordKey::HookConfig => HOOK_CONFIG_SEED@,
            RecordKey::Whitelist { .. } => WHITELIST_SEED@,
            RecordKey::ExtraAccountMetas { .. } => EXTRA_ACCOUNT_METAS_TAG@,
        }
    }

    /// The identifying fields, each in its fixed width: a number in eight
    /// little-endian bytes, an address in its thirty-two.
    pub open spec fn fields(self) -> Seq<Seq<u8>> {
        match self {
            RecordKey::Protocol => Seq::empty(),
            RecordKey::BoomToken { mint } => seq![mint@],
            RecordKey::PresaleRound { round_id } => seq![spec_u64_to_le_bytes(round_id)],
            RecordKey::UserDeposit { round_id, depositor } => seq![
                spec_u64_to_le_bytes(round_id),
                depositor@,
            ],
            RecordKey::PresaleToken { round_id } => seq![spec_u64_to_le_bytes(round_id)],
            RecordKey::MintAuthority { round_id } => seq![spec_u64_to_le_bytes(round_id)],
            RecordKey::LpInfo { round_id } => seq![spec_u64_to_le_bytes(round_id)],
            RecordKey::PresaleExplosion { round_id } => seq![spec_u64_to_le_bytes(round_id)],
            RecordKey::PayoutPool { round_id } => seq![spec_u64_to_le_bytes(round_id)],
            RecordKey::PayoutVault { round_id } => seq![spec_u64_to_le_bytes(round_id)],
            RecordKey::Pool { round_id } => seq![spec_u64_to_le_bytes(round_id)],
            RecordKey::TokenVault { round_id } => seq![spec_u64_to_le_bytes(round_id)],
            RecordKey::SolVault { round_id } => seq![spec_u64_to_le_bytes(round_id)],
            RecordKey::RoundSequencer => Seq::empty(),
            RecordKey::Presale { protocol, round } => seq![protocol@, spec_u64_to_le_bytes(round)],
            RecordKey::PresaleDeposit { presale, depositor } => seq![presale@, depositor@],
            RecordKey::VrfClient { protocol } => seq![protocol@],
            RecordKey::VrfCapRequest { boom_token } => seq![boom_token@],
            RecordKey::VrfLotteryRequest { presale } => seq![presale@],
            RecordKey::HookConfig => Seq::empty(),
            RecordKey::Whitelist { mint } => seq![mint@],
            RecordKey::ExtraAccountMetas { mint } => seq![mint@],
        }
    }

    /// The identifying fields one after the other.
    pub open spec fn identity(self) -> Seq<u8> {
        match self {
            RecordKey::Protocol => Seq::empty(),
            RecordKey::BoomToken { mint } => mint@,
            RecordKey::PresaleRound { round_id } => spec_u64_to_le_bytes(round_id),
            RecordKey::UserDeposit { round_id, depositor } => spec_u64_to_le_bytes(round_id)
                + depositor@,
            RecordKey::PresaleToken { round_id } => spec_u64_to_le_bytes(round_id),
            RecordKey::MintAuthority { round_id } => spec_u64_to_le_bytes(round_id),
            RecordKey::LpInfo { round_id } => spec_u64_to_le_bytes(round_id),
            RecordKey::PresaleExplosion { round_id } => spec_u64_to_le_bytes(round_id),
            RecordKey::PayoutPool { round_id } => spec_u64_to_le_bytes(round_id),
            RecordKey::PayoutVault { round_id } => spec_u64_to_le_bytes(round_id),
            RecordKey::Pool { round_id } => spec_u64_to_le_bytes(round_id),
            RecordKey::TokenVault { round_id } => spec_u64_to_le_bytes(round_id),
            RecordKey::SolVault { round_id } => spec_u64_to_le_bytes(round_id),
            RecordKey::RoundSequencer => Seq::empty(),
            RecordKey::Presale { protocol, round } => protocol@ + spec_u64_to_le_bytes(round),
            RecordKey::PresaleDeposit { presale, depositor } => presale@ + depositor@,
            RecordKey::VrfClient { protocol } => protocol@,
            RecordKey::VrfCapRequest { boom_token } => boom_token@,
            RecordKey::VrfLotteryRequest { presale } => presale@,
            RecordKey::HookConfig => Seq::empty(),
            RecordKey::Whitelist { mint } => mint@,
            RecordKey::ExtraAccountMetas { mint } => mint@,
        }
    }

    /// The parts of the address: the tag, then the fields.
    pub open spec fn seed_list(self) -> Seq<Seq<u8>> {
        seq![self.tag()] + self.fields()
    }

    /// All parts in one string, as the ledger hashes them.
    pub open spec fn preimage(self) -> Seq<u8> {
        self.tag() + self.identity()
    }
}

/// The contents of a list of parts.
pub open spec fn seed_views(seeds: Seq<Vec<u8>>) -> Seq<Seq<u8>> {
    Seq::new(seeds.len(), |i: int| seeds[i]@)
}

/// The parts of a record's address, for the ledger to derive the address from.
pub fn record_seeds(key: &RecordKey) -> (seeds: Vec<Vec<u8>>)
    ensures
        seed_views(seeds@) == key.seed_list(),
{
    let mut seeds: Vec<Vec<u8>> = Vec::new();
    match key {
        RecordKey::Protocol => {
            seeds.push(slice_to_vec(PROTOCOL_TAG.as_slice()));
        },
        RecordKey::BoomToken { mint } => {
            seeds.push(slice_to_vec(BOOM_TOKEN_TAG.as_slice()));
            seeds.push(slice_to_vec(mint.bytes.as_slice()));
        },
        RecordKey::PresaleRound { round_id } => {
            seeds.push(slice_to_vec(PRESALE_TAG.as_slice()));
            seeds.push(u64_to_le_bytes(*round_id));
        },
        RecordKey::UserDeposit { round_id, depositor } => {
            seeds.push(slice_to_vec(DEPOSIT_TAG.as_slice()));
            seeds.push(u64_to_le_bytes(*round_id));
            seeds.push(slice_to_vec(depositor.bytes.as_slice()));
        },
        RecordKey::PresaleToken { round_id } => {
            seeds.push(slice_to_vec(PRESALE_TOKEN_TAG.as_slice()));
            seeds.push(u64_to_le_bytes(*round_id));
        },
        RecordKey::MintAuthority { round_id } => {
            seeds.push(slice_to_vec(MINT_AUTHORITY_TAG.as_slice()));
            seeds.push(u64_to_le_bytes(*round_id));
        },
        RecordKey::LpInfo { round_id } => {
            seeds.push(slice_to_vec(LP_INFO_TAG.as_slice()));
            seeds.push(u64_to_le_bytes(*round_id));
        },
        RecordKey::PresaleExplosion { round_id } => {
            seeds.push(slice_to_vec(PRESALE_EXPLOSION_TAG.as_slice()));
            seeds.push(u64_to_le_bytes(*round_id));
        },
        RecordKey::PayoutPool { round_id } => {
            seeds.push(slice_to_vec(PAYOUT_POOL_TAG.as_slice()));
            seeds.push(u64_to_le_bytes(*round_id));
        },
        RecordKey::PayoutVault { round_id } => {
            seeds.push(slice_to_vec(PAYOUT_VAULT_TAG.as_slice()));
            seeds.push(u64_to_le_bytes(*round_id));
        },
        RecordKey::Pool { round_id } => {
            seeds.push(slice_to_vec(POOL_TAG.as_slice()));
            seeds.push(u64_to_le_bytes(*round_id));
        },
        RecordKey::TokenVault { round_id } => {
            seeds.push(slice_to_vec(TOKEN_VAULT_TAG.as_slice()));
            seeds.push(u64_to_le_bytes(*round_id));
        },
        RecordKey::SolVault { round_id } => {
            seeds.push(slice_to_vec(SOL_VAULT_TAG.as_slice()));
            seeds.push(u64_to_le_bytes(*round_id));
        },
        RecordKey::RoundSequencer => {
            seeds.push(slice_to_vec(ROUND_SEQUENCER_TAG.as_slice()));
        },
        RecordKey::Presale { protocol, round } => {
            seeds.push(slice_to_vec(PRESALE_TAG.as_slice()));
            seeds.push(slice_to_vec(protocol.bytes.as_slice()));
            seeds.push(u64_to_le_bytes(*round));
        },
        RecordKey::PresaleDeposit { presale, depositor } => {
            seeds.push(slice_to_vec(DEPOSIT_TAG.as_slice()));
            seeds.push(slice_to_vec(presale.bytes.as_slice()));
            seeds.push(slice_to_vec(depositor.bytes.as_slice()));
        },
        RecordKey::VrfClient { protocol } => {
            seeds.push(slice_to_vec(VRF_CLIENT_TAG.as_slice()));
            seeds.push(slice_to_vec(protocol.bytes.as_slice()));
        },
        RecordKey::VrfCapRequest { boom_token } => {
            seeds.push(slice_to_vec(VRF_CAP_REQUEST_TAG.as_slice()));
            seeds.push(slice_to_vec(boom_token.bytes.as_slice()));
        },
        RecordKey::VrfLotteryRequest { presale } => {
            seeds.push(slice_to_vec(VRF_LOTTERY_REQUEST_TAG.as_slice()));
            seeds.push(slice_to_vec(presale.bytes.as_slice()));
        },
        RecordKey::HookConfig => {
            seeds.push(slice_to_vec(HOOK_CONFIG_SEED.as_slice()));
        },
        RecordKey::Whitelist { mint } => {
            seeds.push(slice_to_vec(WHITELIST_SEED.as_slice()));
            seeds.push(slice_to_vec(mint.bytes.as_slice()));
        },
        RecordKey::ExtraAccountMetas { mint } => {
            seeds.push(slice_to_vec(EXTRA_ACCOUNT_METAS_TAG.as_slice()));
            seeds.push(slice_to_vec(mint.bytes.as_slice()));
        },
    }
    assert(seed_views(seeds@) =~= key.seed_list());
    seeds
}

/// The length and the first byte of each tag.
proof fn lemma_tags_differ()
    ensures
        PROTOCOL_TAG@.len() == 8 && PROTOCOL_TAG@[0] == 112,
        BOOM_TOKEN_TAG@.len() == 10 && BOOM_TOKEN_TAG@[0] == 98,
        PRESALE_TAG@.len() == 7 && PRESALE_TAG@[0] == 112,
        DEPOSIT_TAG@.len() == 7 && DEPOSIT_TAG@[0] == 100,
        PRESALE_TOKEN_TAG@.len() == 13 && PRESALE_TOKEN_TAG@[0] == 112,
        MINT_AUTHORITY_TAG@.len() == 14 && MINT_AUTHORITY_TAG@[0] == 109,
        LP_INFO_TAG@.len() == 7 && LP_INFO_TAG@[0] == 108,
        PRESALE_EXPLOSION_TAG@.len() == 17 && PRESALE_EXPLOSION_TAG@[0] == 112,
        PAYOUT_POOL_TAG@.len() == 11 && PAYOUT_POOL_TAG@[0] == 112,
        PAYOUT_VAULT_TAG@.len() == 12 && PAYOUT_VAULT_TAG@[0] == 112,
        POOL_TAG@.len() == 4 && POOL_TAG@[0] == 112,
        TOKEN_VAULT_TAG@.len() == 11 && TOKEN_VAULT_TAG@[0] == 116,
        SOL_VAULT_TAG@.len() == 9 && SOL_VAULT_TAG@[0] == 115,
        ROUND_SEQUENCER_TAG@.len() == 15 && ROUND_SEQUENCER_TAG@[0] == 114,
        VRF_CLIENT_TAG@.len() == 10 && VRF_CLIENT_TAG@[0] == 118,
        VRF_CAP_REQUEST_TAG@.len() == 15 && VRF_CAP_REQUEST_TAG@[0] == 118,
        VRF_LOTTERY_REQUEST_TAG@.len() == 19 && VRF_LOTTERY_REQUEST_TAG@[0] == 118,
        HOOK_CONFIG_SEED@.len() == 11 && HOOK_CONFIG_SEED@[0] == 104,
        WHITELIST_SEED@.len() == 9 && WHITELIST_SEED@[0] == 119,
        EXTRA_ACCOUNT_METAS_TAG@.len() == 19 && EXTRA_ACCOUNT_METAS_TAG@[0] == 101,
{
}

/// How what is hashed for a record is laid out: the tag, then the fields.
proof fn lemma_preimage_shape(key: RecordKey)
    ensures
        key.preimage().len() == key.tag().len() + key.identity().len(),
        key.tag().len() > 0,
        key.preimage()[0] == key.tag()[0],
        key.preimage().subrange(key.tag().len() as int, key.preimage().len() as int)
            == key.identity(),
{
    lemma_tags_differ();
    assert(key.preimage().subrange(key.tag().len() as int, key.preimage().len() as int)
        =~= key.identity());
}

/// An address is its bytes.
proof fn lemma_address_is_its_bytes(a: Address, b: Address)
    requires
        a@ == b@,
    ensures
        a == b,
{
    assert(a.bytes =~= b.bytes);
}

/// A number is its eight bytes.
proof fn lemma_number_is_its_bytes(x: u64, y: u64)
    requires
        spec_u64_to_le_bytes(x) == spec_u64_to_le_bytes(y),
    ensures
        x == y,
{
    lemma_auto_spec_u64_to_from_le_bytes();
    assert(spec_u64_from_le_bytes(spec_u64_to_le_bytes(x)) == x);
    assert(spec_u64_from_le_bytes(spec_u64_to_le_bytes(y)) == y);
}

/// Two strings of the same length followed by two others: where the wholes
/// agree, so do the parts.
proof fn lemma_split(x: Seq<u8>, y: Seq<u8>, u: Seq<u8>, v: Seq<u8>)
    requires
        x + y == u + v,
        x.len() == u.len(),
    ensures
        x == u,
        y == v,
{
    assert(x =~= (x + y).subrange(0, x.len() as int));
    assert(u =~= (u + v).subrange(0, u.len() as int));
    assert(y =~= (x + y).subrange(x.len() as int, (x + y).len() as int));
    assert(v =~= (u + v).subrange(u.len() as int, (u + v).len() as int));
}

/// No two records share an address: where what is hashed for two records is
/// the same, they are the same record. Records of different kinds differ in
/// the length of what is hashed or in its first byte; records of one kind
/// differ in a field.
pub proof fn lemma_record_addresses_are_distinct(a: RecordKey, b: RecordKey)
    requires
        a.preimage() == b.preimage(),
    ensures
        a == b,
{
    lemma_auto_spec_u64_to_from_le_bytes();
    lemma_tags_differ();
    lemma_preimage_shape(a);
    lemma_preimage_shape(b);
    match (a, b) {
        (RecordKey::BoomToken { mint: p }, RecordKey::BoomToken { mint: q }) => {
            lemma_address_is_its_bytes(p, q);
        },
        (RecordKey::PresaleRound { round_id: p }, RecordKey::PresaleRound { round_id: q }) => {
            lemma_number_is_its_bytes(p, q);
        },
        (
            RecordKey::UserDeposit { round_id: p, depositor: s },
            RecordKey::UserDeposit { round_id: q, depositor: t },
        ) => {
            lemma_split(spec_u64_to_le_bytes(p), s@, spec_u64_to_le_bytes(q), t@);
            lemma_number_is_its_bytes(p, q);
            lemma_address_is_its_bytes(s, t);
        },
        (RecordKey::PresaleToken { round_id: p }, RecordKey::PresaleToken { round_id: q }) => {
            lemma_number_is_its_bytes(p, q);
        },
        (RecordKey::MintAuthority { round_id: p }, RecordKey::MintAuthority { round_id: q }) => {
            lemma_number_is_its_bytes(p, q);
        },
        (RecordKey::LpInfo { round_id: p }, RecordKey::LpInfo { round_id: q }) => {
            lemma_number_is_its_bytes(p, q);
        },
        (
            RecordKey::PresaleExplosion { round_id: p },
            RecordKey::PresaleExplosion { round_id: q },
        ) => {
            lemma_number_is_its_bytes(p, q);
        },
        (RecordKey::PayoutPool { round_id: p }, RecordKey::PayoutPool { round_id: q }) => {
            lemma_number_is_its_bytes(p, q);
        },
        (RecordKey::PayoutVault { round_id: p }, RecordKey::PayoutVault { round_id: q }) => {
            lemma_number_is_its_bytes(p, q);
        },
        (RecordKey::Pool { round_id: p }, RecordKey::Pool { round_id: q }) => {
            lemma_number_is_its_bytes(p, q);
        },
        (RecordKey::TokenVault { round_id: p }, RecordKey::TokenVault { round_id: q }) => {
            lemma_number_is_its_bytes(p, q);
        },
        (RecordKey::SolVault { round_id: p }, RecordKey::SolVault { round_id: q }) => {
            lemma_number_is_its_bytes(p, q);
        },
        (
            RecordKey::Presale { protocol: p, round: s },
            RecordKey::Presale { protocol: q, round: t },
        ) => {
            lemma_split(p@, spec_u64_to_le_bytes(s), q@, spec_u64_to_le_bytes(t));
            lemma_address_is_its_bytes(p, q);
            lemma_number_is_its_bytes(s, t);
        },
        (
            RecordKey::PresaleDeposit { presale: p, depositor: s },
            RecordKey::PresaleDeposit { presale: q, depositor: t },
        ) => {
            lemma_split(p@, s@, q@, t@);
            lemma_address_is_its_bytes(p, q);
            lemma_address_is_its_bytes(s, t);
        },
        (RecordKey::VrfClient { protocol: p }, RecordKey::VrfClient { protocol: q }) => {
            lemma_address_is_its_bytes(p, q);
        },
        (
            RecordKey::VrfCapRequest { boom_token: p },
            RecordKey::VrfCapRequest { boom_token: q },
        ) => {
            lemma_address_is_its_bytes(p, q);
        },
        (
            RecordKey::VrfLotteryRequest { presale: p },
            RecordKey::VrfLotteryRequest { presale: q },
        ) => {
            lemma_address_is_its_bytes(p, q);
        },
        (RecordKey::Whitelist { mint: p }, RecordKey::Whitelist { mint: q }) => {
            lemma_address_is_its_bytes(p, q);
        },
        (RecordKey::ExtraAccountMetas { mint: p }, RecordKey::ExtraAccountMetas { mint: q }) => {
            lemma_address_is_its_bytes(p, q);
        },
        _ => {},
    }
}

} // verus!
