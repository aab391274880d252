//! The transfer gate. The asset ledger asks it before every movement of a
//! gated asset, and the movement goes through only if the hook allows it.
//!
//! The hook reads two records, its configuration and the whitelist of the
//! asset, and what the ledger tells of the movement: the two holding accounts,
//! who owns what they hold, and which program keeps the destination account.
//! The first rule that applies decides.

use crate::address::Address;
use crate::errors::HookError;
use vstd::prelude::*;

verus! {

/// The program that keeps ordinary holding accounts of the first generation.
pub const TOKEN_PROGRAM_ID: [u8; 32] = [
    0x06, 0xdd, 0xf6, 0xe1, 0xd7, 0x65, 0xa1, 0x93, 0xd9, 0xcb, 0xe1, 0x46, 0xce, 0xeb, 0x79, 0xac,
    0x1c, 0xb4, 0x85, 0xed, 0x5f, 0x5b, 0x37, 0x91, 0x3a, 0x8c, 0xf5, 0x85, 0x7e, 0xff, 0x00, 0xa9,
];

/// The program that keeps ordinary holding accounts of gated assets.
pub const TOKEN_2022_PROGRAM_ID: [u8; 32] = [
    0x06, 0xdd, 0xf6, 0xe1, 0xee, 0x75, 0x8f, 0xde, 0x18, 0x42, 0x5d, 0xbc, 0xe4, 0x6c, 0xcd, 0xda,
    0xb6, 0x1a, 0xfc, 0x4d, 0x83, 0xb9, 0x0d, 0x27, 0xfe, 0xbd, 0xf9, 0x28, 0xd8, 0xa1, 0x8b, 0xfc,
];

/// The first eight bytes of a request to judge a movement.
pub const EXECUTE_DISCRIMINATOR: [u8; 8] = [105, 37, 101, 197, 75, 251, 102, 26];

/// How many accounts a request names once the hook is in force: source, asset,
/// destination, mover, the list of extra accounts, configuration, whitelist.
pub const FULL_CONTEXT_ACCOUNTS: usize = 7;

/// The least length of a stored configuration: tag, authority, switch, bump.
pub const CONFIG_MIN_LEN: usize = 42;

/// The least length of a stored whitelist that names an external venue.
pub const WHITELIST_LEGACY_LEN: usize = 72;

/// The least length of a stored whitelist that names a pool vault too.
pub const WHITELIST_FULL_LEN: usize = 136;

/// The least length of a holding account: asset, then owner.
pub const TOKEN_ACCOUNT_OWNER_END: usize = 64;

/// The hook's own configuration.
#[derive(Clone, Copy, Debug, PartialEq, Eq)]
pub struct HookConfig {
    /// Who may manage the whitelists.
    pub authority: Address,
    /// The global kill switch: nothing moves while it is off.
    pub transfers_enabled: bool,
    pub bump: u8,
}

/// What the hook knows of one asset.
#[derive(Clone, Copy, Debug, PartialEq, Eq)]
pub struct MintWhitelist {
    /// The asset.
    pub mint: Address,
    /// The owner of the approved external venue; all zero where there is none.
    pub official_lp: Address,
    /// The approved vault of the internal pool; all zero where there is none.
    pub pool_token_vault: Address,
    /// The program that moves the asset out of that vault.
    pub boom_program: Address,
    pub bump: u8,
}

/// One movement, as the ledger describes it.
#[derive(Clone, Copy, Debug, PartialEq, Eq)]
pub struct Movement {
    /// The asset being moved.
    pub mint: Address,
    /// The holding account it leaves.
    pub source: Address,
    /// Who owns what the source account holds: the mover.
    pub source_owner: Address,
    /// The holding account it enters.
    pub destination: Address,
    /// Who owns what the destination account holds.
    pub destination_owner: Address,
    /// The program that keeps the destination account.
    pub destination_program: Address,
}

/// An account as a request presents it.
#[derive(Clone, Debug, PartialEq, Eq)]
pub struct AccountRecord {
    pub key: Address,
    /// The program that keeps the account.
    pub owner: Address,
    pub data: Vec<u8>,
}

/// The hook's verdict on a movement.
#[derive(Clone, Copy, Debug, PartialEq, Eq, Structural)]
pub enum Decision {
    Allow,
    Block(HookError),
}

/// Why a request to the hook failed.
#[derive(Clone, Copy, Debug, PartialEq, Eq, Structural)]
pub enum HookFailure {
    /// The request is not one the hook understands.
    InvalidInstructionData,
    /// A record is too short to be read.
    InvalidAccountData,
    /// The caller is not the hook's authority.
    Unauthorized,
    /// The hook blocked the movement.
    Rejected(HookError),
}

/// The mathematical content of a configuration.
pub struct HookConfigView {
    pub authority: Seq<u8>,
    pub transfers_enabled: bool,
}

/// The mathematical content of a whitelist.
pub struct MintWhitelistView {
    pub mint: Seq<u8>,
    pub official_lp: Seq<u8>,
    pub pool_token_vault: Seq<u8>,
    pub boom_program: Seq<u8>,
}

/// The mathematical content of a movement.
pub struct MovementView {
    pub mint: Seq<u8>,
    pub source: Seq<u8>,
    pub source_owner: Seq<u8>,
    pub destination: Seq<u8>,
    pub destination_owner: Seq<u8>,
    pub destination_program: Seq<u8>,
}

/// The mathematical content of an account.
pub struct AccountRecordView {
    pub key: Seq<u8>,
    pub owner: Seq<u8>,
    pub data: Seq<u8>,
}

impl View for HookConfig {
    type V = HookConfigView;

    open spec fn view(&self) -> HookConfigView {
        HookConfigView { authority: self.authority@, transfers_enabled: self.transfers_enabled }
    }
}

impl View for MintWhitelist {
    type V = MintWhitelistView;

    open spec fn view(&self) -> MintWhitelistView {
        MintWhitelistView {
            mint: self.mint@,
            official_lp: self.official_lp@,
            pool_token_vault: self.pool_token_vault@,
            boom_program: self.boom_program@,
        }
    }
}

impl View for Movement {
    type V = MovementView;

    open spec fn view(&self) -> MovementView {
        MovementView {
            mint: self.mint@,
            source: self.source@,
            source_owner: self.source_owner@,
            destination: self.destination@,
            destination_owner: self.destination_owner@,
            destination_program: self.destination_program@,
        }
    }
}

impl View for AccountRecord {
    type V = AccountRecordView;

    open spec fn view(&self) -> AccountRecordView {
        AccountRecordView { key: self.key@, owner: self.owner@, data: self.data@ }
    }
}

/// The whitelist views of an optional whitelist.
pub open spec fn whitelist_view(whitelist: Option<MintWhitelist>) -> Option<MintWhitelistView> {
    match whitelist {
        Some(w) => Some(w@),
        None => None,
    }
}

// ---------------------------------------------------------------------------
// The decision
// ---------------------------------------------------------------------------

/// Whether a program keeps ordinary holding accounts, as opposed to the
/// accounts of a foreign pool.
pub open spec fn is_wallet_program(program: Seq<u8>) -> bool {
    program == TOKEN_2022_PROGRAM_ID@ || program == TOKEN_PROGRAM_ID@
}

/// The verdict on a movement for which configuration and whitelist were
/// supplied. `whitelist` is `None` where the whitelist record holds nothing
/// yet. The first rule that applies decides:
///
/// 1. the kill switch is off: blocked, whoever moves;
/// 2. the mover is the authority: allowed;
/// 3. neither a venue nor a pool vault is registered for the asset: blocked,
///    trading is not enabled;
/// 4. a venue is registered and owns the destination: allowed;
/// 5. the destination is the registered pool vault: allowed;
/// 6. the source is the registered pool vault: allowed;
/// 7. the destination is an ordinary holding account: allowed;
/// 8. otherwise: blocked, the destination is a pool that is not approved.
pub open spec fn decide(
    config: HookConfigView,
    whitelist: Option<MintWhitelistView>,
    movement: MovementView,
) -> Decision {
    if !config.transfers_enabled {
        Decision::Block(HookError::TransfersDisabled)
    } else if movement.source_owner == config.authority {
        Decision::Allow
    } else {
        match whitelist {
            None => Decision::Block(HookError::TradingNotEnabled),
            Some(w) => {
                let has_venue = w.official_lp != Address::zero();
                let has_vault = w.pool_token_vault != Address::zero();
                if !has_venue && !has_vault {
                    Decision::Block(HookError::TradingNotEnabled)
                } else if has_venue && movement.destination_owner == w.official_lp {
                    Decision::Allow
                } else if has_vault && movement.destination == w.pool_token_vault {
                    Decision::Allow
                } else if has_vault && movement.source == w.pool_token_vault {
                    Decision::Allow
                } else if is_wallet_program(movement.destination_program) {
                    Decision::Allow
                } else {
                    Decision::Block(HookError::TransferToPoolBlocked)
                }
            },
        }
    }
}

/// Judges a movement for which configuration and whitelist were supplied.
pub fn gate_decision(
    config: &HookConfig,
    whitelist: Option<&MintWhitelist>,
    movement: &Movement,
) -> (d: Decision)
    ensures
        d == decide(
            config@,
            match whitelist {
                Some(w) => Some(w@),
                None => None,
            },
            movement@,
        ),
{
    if !config.transfers_enabled {
        return Decision::Block(HookError::TransfersDisabled);
    }
    if movement.source_owner.same(&config.authority) {
        return Decision::Allow;
    }
    let w: &MintWhitelist = match whitelist {
        Some(w) => w,
        None => {
            return Decision::Block(HookError::TradingNotEnabled);
        },
    };
    let has_venue: bool = !w.official_lp.is_default();
    let has_vault: bool = !w.pool_token_vault.is_default();
    if !has_venue && !has_vault {
        return Decision::Block(HookError::TradingNotEnabled);
    }
    if has_venue && movement.destination_owner.same(&w.official_lp) {
        return Decision::Allow;
    }
    if has_vault && movement.destination.same(&w.pool_token_vault) {
        return Decision::Allow;
    }
    if has_vault && movement.source.same(&w.pool_token_vault) {
        return Decision::Allow;
    }
    let token_2022 = Address { bytes: TOKEN_2022_PROGRAM_ID };
    let token = Address { bytes: TOKEN_PROGRAM_ID };
    if movement.destination_program.same(&token_2022) || movement.destination_program.same(&token) {
        return Decision::Allow;
    }
    Decision::Block(HookError::TransferToPoolBlocked)
}

/// With the kill switch off every movement is blocked, whoever moves and
/// whatever is registered, once configuration and whitelist are supplied.
pub proof fn lemma_kill_switch_blocks_everything(
    config: HookConfigView,
    whitelist: Option<MintWhitelistView>,
    movement: MovementView,
)
    requires
        !config.transfers_enabled,
    ensures
        decide(config, whitelist, movement) == Decision::Block(HookError::TransfersDisabled),
{
}

/// With the switch on the authority's own movements are allowed, whatever is
/// registered: the asset can be set up before it trades.
pub proof fn lemma_authority_is_let_through(
    config: HookConfigView,
    whitelist: Option<MintWhitelistView>,
    movement: MovementView,
)
    requires
        config.transfers_enabled,
        movement.source_owner == config.authority,
    ensures
        decide(config, whitelist, movement) == Decision::Allow,
{
}

/// With the switch on but neither a venue nor a pool vault registered, every
/// movement is blocked except those of the authority itself.
pub proof fn lemma_nothing_registered_blocks_everything(
    config: HookConfigView,
    whitelist: Option<MintWhitelistView>,
    movement: MovementView,
)
    requires
        config.transfers_enabled,
        movement.source_owner != config.authority,
        whitelist matches Some(w) ==> w.official_lp == Address::zero() && w.pool_token_vault
            == Address::zero(),
    ensures
        decide(config, whitelist, movement) == Decision::Block(HookError::TradingNotEnabled),
{
}

/// Once a venue is registered, a movement to an account that the venue owns is
/// allowed, whoever moves.
pub proof fn lemma_registered_venue_is_allowed(
    config: HookConfigView,
    whitelist: MintWhitelistView,
    movement: MovementView,
)
    requires
        config.transfers_enabled,
        whitelist.official_lp != Address::zero(),
        movement.destination_owner == whitelist.official_lp,
    ensures
        decide(config, Some(whitelist), movement) == Decision::Allow,
{
}

/// Once a venue or a vault is registered, a movement by anyone but the
/// authority into the account of an unrelated pool is blocked: an account that
/// the venue does not own, that is not the pool vault, that is not paid from
/// the pool vault, and that a foreign program keeps.
pub proof fn lemma_unrelated_pool_is_blocked(
    config: HookConfigView,
    whitelist: MintWhitelistView,
    movement: MovementView,
)
    requires
        config.transfers_enabled,
        whitelist.official_lp != Address::zero() || whitelist.pool_token_vault != Address::zero(),
        movement.source_owner != config.authority,
        movement.destination_owner != whitelist.official_lp,
        movement.destination != whitelist.pool_token_vault,
        movement.source != whitelist.pool_token_vault,
        !is_wallet_program(movement.destination_program),
    ensures
        decide(config, Some(whitelist), movement) == Decision::Block(
            HookError::TransferToPoolBlocked,
        ),
{
}

// ---------------------------------------------------------------------------
// Stored records
// ---------------------------------------------------------------------------

/// The configuration stored in `data`: eight bytes of tag, the authority, the
/// switch (on when the byte is one), the bump.
pub open spec fn stored_config(data: Seq<u8>) -> Option<HookConfigView> {
    if data.len() < CONFIG_MIN_LEN {
        None
    } else {
        Some(HookConfigView { authority: data.subrange(8, 40), transfers_enabled: data[40] == 1 })
    }
}

/// The whitelist stored in `data`: eight bytes of tag, then the asset, the
/// venue, the pool vault and the pool's program. A record of the older layout
/// ends after the venue and registers no pool vault. Anything shorter holds
/// nothing.
pub open spec fn stored_whitelist(data: Seq<u8>) -> Option<MintWhitelistView> {
    if data.len() >= WHITELIST_FULL_LEN {
        Some(
            MintWhitelistView {
                mint: data.subrange(8, 40),
                official_lp: data.subrange(40, 72),
                pool_token_vault: data.subrange(72, 104),
                boom_program: data.subrange(104, 136),
            },
        )
    } else if data.len() >= WHITELIST_LEGACY_LEN {
        Some(
            MintWhitelistView {
                mint: data.subrange(8, 40),
                official_lp: data.subrange(40, 72),
                pool_token_vault: Address::zero(),
                boom_program: Address::zero(),
            },
        )
    } else {
        None
    }
}

/// The owner recorded in a holding account: bytes 32 to 64.
pub open spec fn stored_token_owner(data: Seq<u8>) -> Option<Seq<u8>> {
    if data.len() < TOKEN_ACCOUNT_OWNER_END {
        None
    } else {
        Some(data.subrange(32, 64))
    }
}

/// Reads the 32 bytes at `offset` as an identity.
pub fn read_address(data: &Vec<u8>, offset: usize) -> (a: Address)
    requires
        offset + 32 <= data.len(),
    ensures
        a@ == data@.subrange(offset as int, offset + 32),
{
    let mut bytes: [u8; 32] = [0u8; 32];
    let mut i: usize = 0;
    while i < 32
        invariant
            i <= 32,
            offset + 32 <= data.len(),
            forall|j: int| 0 <= j < i ==> bytes[j] == data[offset + j],
        decreases 32 - i,
    {
        bytes[i] = data[offset + i];
        i += 1;
    }
    let a = Address { bytes };
    assert(a@ =~= data@.subrange(offset as int, offset + 32));
    a
}

/// Reads a stored configuration.
pub fn read_config(data: &Vec<u8>) -> (r: Option<HookConfig>)
    ensures
        match r {
            Some(c) => stored_config(data@) == Some(c@) && c.bump == data[41],
            None => stored_config(data@) is None,
        },
{
    if data.len() < CONFIG_MIN_LEN {
        return None;
    }
    Some(
        HookConfig {
            authority: read_address(data, 8),
            transfers_enabled: data[40] == 1,
            bump: data[41],
        },
    )
}

/// Reads a stored whitelist of either layout.
pub fn read_whitelist(data: &Vec<u8>) -> (r: Option<MintWhitelist>)
    ensures
        whitelist_view(r) == stored_whitelist(data@),
{
    if data.len() >= WHITELIST_FULL_LEN {
        let bump: u8 = if data.len() > WHITELIST_FULL_LEN {
            data[WHITELIST_FULL_LEN]
        } else {
            0
        };
        Some(
            MintWhitelist {
                mint: read_address(data, 8),
                official_lp: read_address(data, 40),
                pool_token_vault: read_address(data, 72),
                boom_program: read_address(data, 104),
                bump,
            },
        )
    } else if data.len() >= WHITELIST_LEGACY_LEN {
        let bump: u8 = if data.len() > WHITELIST_LEGACY_LEN {
            data[WHITELIST_LEGACY_LEN]
        } else {
            0
        };
        Some(
            MintWhitelist {
                mint: read_address(data, 8),
                official_lp: read_address(data, 40),
                pool_token_vault: Address::default(),
                boom_program: Address::default(),
                bump,
            },
        )
    } else {
        None
    }
}

// ---------------------------------------------------------------------------
// Requests
// ---------------------------------------------------------------------------

/// The answer to a request that names `accounts`.
///
/// A request with fewer than seven accounts comes from an asset whose list of
/// extra accounts is still empty: the hook is not in force yet and the
/// movement is allowed. Otherwise the configuration is account 5 and the
/// whitelist account 6; the movement goes from account 0 to account 2 and
/// account 1 is the asset.
pub open spec fn hook_outcome(accounts: Seq<AccountRecordView>) -> Result<(), HookFailure> {
    if accounts.len() < FULL_CONTEXT_ACCOUNTS {
        Ok(())
    } else {
        let source = accounts[0];
        let mint = accounts[1];
        let destination = accounts[2];
        match stored_config(accounts[5].data) {
            None => Err(HookFailure::InvalidAccountData),
            Some(config) => if !config.transfers_enabled {
                Err(HookFailure::Rejected(HookError::TransfersDisabled))
            } else {
                match (stored_token_owner(destination.data), stored_token_owner(source.data)) {
                    (Some(destination_owner), Some(source_owner)) => match decide(
                        config,
                        stored_whitelist(accounts[6].data),
                        MovementView {
                            mint: mint.key,
                            source: source.key,
                            source_owner,
                            destination: destination.key,
                            destination_owner,
                            destination_program: destination.owner,
                        },
                    ) {
                        Decision::Allow => Ok(()),
                        Decision::Block(reason) => Err(HookFailure::Rejected(reason)),
                    },
                    _ => Err(HookFailure::InvalidAccountData),
                }
            },
        }
    }
}

/// With the kill switch off a complete request is rejected, whatever else the
/// accounts hold: whoever moves, whatever is registered, wherever it goes.
pub proof fn lemma_switched_off_request_is_rejected(accounts: Seq<AccountRecordView>)
    requires
        accounts.len() >= FULL_CONTEXT_ACCOUNTS,
        stored_config(accounts[5].data) matches Some(config) && !config.transfers_enabled,
    ensures
        hook_outcome(accounts) == Err::<(), HookFailure>(
            HookFailure::Rejected(HookError::TransfersDisabled),
        ),
{
}

/// Once a venue is registered, a complete request to move the asset into an
/// account that the venue owns is answered with success while the switch is
/// on, whoever moves.
pub proof fn lemma_request_to_venue_is_allowed(accounts: Seq<AccountRecordView>)
    requires
        accounts.len() >= FULL_CONTEXT_ACCOUNTS,
        stored_config(accounts[5].data) matches Some(config) && config.transfers_enabled,
        stored_token_owner(accounts[0].data) is Some,
        stored_token_owner(accounts[2].data) is Some,
        stored_whitelist(accounts[6].data) matches Some(w) && w.official_lp != Address::zero()
            && stored_token_owner(accounts[2].data) == Some(w.official_lp),
    ensures
        hook_outcome(accounts) == Ok::<(), HookFailure>(()),
{
}

/// The views of a list of accounts.
pub open spec fn account_views(accounts: Seq<AccountRecord>) -> Seq<AccountRecordView> {
    Seq::new(accounts.len(), |i: int| accounts[i]@)
}

/// Judges the movement that a request describes. The amount plays no part.
pub fn execute_transfer_hook(
    program_id: &Address,
    accounts: &Vec<AccountRecord>,
    amount: u64,
) -> (r: Result<(), HookFailure>)
    ensures
        r == hook_outcome(account_views(accounts@)),
{
    if accounts.len() < FULL_CONTEXT_ACCOUNTS {
        return Ok(());
    }
    let source: &AccountRecord = &accounts[0];
    let mint: &AccountRecord = &accounts[1];
    let destination: &AccountRecord = &accounts[2];
    let config: HookConfig = match read_config(&accounts[5].data) {
        Some(c) => c,
        None => {
            return Err(HookFailure::InvalidAccountData);
        },
    };
    if !config.transfers_enabled {
        return Err(HookFailure::Rejected(HookError::TransfersDisabled));
    }
    if destination.data.len() < TOKEN_ACCOUNT_OWNER_END || source.data.len()
        < TOKEN_ACCOUNT_OWNER_END {
        return Err(HookFailure::InvalidAccountData);
    }
    let destination_owner = read_address(&destination.data, 32);
    let source_owner = read_address(&source.data, 32);
    let whitelist: Option<MintWhitelist> = read_whitelist(&accounts[6].data);
    let movement = Movement {
        mint: mint.key,
        source: source.key,
        source_owner,
        destination: destination.key,
        destination_owner,
        destination_program: destination.owner,
    };
    let decision = gate_decision(&config, whitelist.as_ref(), &movement);
    match decision {
        Decision::Allow => Ok(()),
        Decision::Block(reason) => Err(HookFailure::Rejected(reason)),
    }
}

/// The amount that a request carries: the eight little-endian bytes after the
/// discriminator, or zero where there are fewer.
pub open spec fn request_amount(data: Seq<u8>) -> u64 {
    if data.len() >= 16 {
        vstd::bytes::spec_u64_from_le_bytes(data.subrange(8, 16))
    } else {
        0
    }
}

/// The answer to the raw request `data` that names `accounts`: a request is
/// understood when it starts with `EXECUTE_DISCRIMINATOR`.
pub open spec fn fallback_outcome(accounts: Seq<AccountRecordView>, data: Seq<u8>) -> Result<
    (),
    HookFailure,
> {
    if data.len() < 8 || data.subrange(0, 8) != EXECUTE_DISCRIMINATOR@ {
        Err(HookFailure::InvalidInstructionData)
    } else {
        hook_outcome(accounts)
    }
}

/// The entry point that the asset ledger calls on every movement.
pub fn fallback(program_id: &Address, accounts: &Vec<AccountRecord>, data: &[u8]) -> (r: Result<
    (),
    HookFailure,
>)
    ensures
        r == fallback_outcome(account_views(accounts@), data@),
{
    if data.len() < 8 {
        return Err(HookFailure::InvalidInstructionData);
    }
    let mut i: usize = 0;
    while i < 8
        invariant
            i <= 8,
            data.len() >= 8,
            forall|j: int| 0 <= j < i ==> data[j] == EXECUTE_DISCRIMINATOR[j],
        decreases 8 - i,
    {
        if data[i] != EXECUTE_DISCRIMINATOR[i] {
            assert(data@.subrange(0, 8)[i as int] != EXECUTE_DISCRIMINATOR@[i as int]);
            return Err(HookFailure::InvalidInstructionData);
        }
        i += 1;
    }
    assert(data@.subrange(0, 8) =~= EXECUTE_DISCRIMINATOR@);
    let amount: u64 = parse_amount(data);
    execute_transfer_hook(program_id, accounts, amount)
}

/// Reads the amount of a request.
pub fn parse_amount(data: &[u8]) -> (amount: u64)
    ensures
        amount == request_amount(data@),
{
    if data.len() >= 16 {
        let field = vstd::slice::slice_subrange(data, 8, 16);
        vstd::bytes::u64_from_le_bytes(field)
    } else {
        0
    }
}

// ---------------------------------------------------------------------------
// Where the records are kept
// ---------------------------------------------------------------------------

/// The seed under which the configuration is kept.
pub const HOOK_CONFIG_SEED: [u8; 11] = [104, 111, 111, 107, 95, 99, 111, 110, 102, 105, 103];

/// The seed under which whitelists are kept, each followed by its asset.
pub const WHITELIST_SEED: [u8; 9] = [119, 104, 105, 116, 101, 108, 105, 115, 116];

/// The place of the asset among the accounts of a request.
pub const MINT_ACCOUNT_INDEX: u8 = 1;

// ---------------------------------------------------------------------------
// Administration
// ---------------------------------------------------------------------------

/// The configuration of a new hook: `authority` manages it and the switch is on.
pub fn initialize(authority: Address, bump: u8) -> (config: HookConfig)
    ensures
        config == (HookConfig { authority, transfers_enabled: true, bump }),
{
    HookConfig { authority, transfers_enabled: true, bump }
}

/// Registers an external venue for `mint`. Only the authority may.
pub fn add_whitelist(
    config: &HookConfig,
    authority: &Address,
    mint: Address,
    official_lp: Address,
    bump: u8,
) -> (r: Result<MintWhitelist, HookFailure>)
    ensures
        *authority != config.authority ==> r == Err::<MintWhitelist, HookFailure>(
            HookFailure::Unauthorized,
        ),
        *authority == config.authority ==> (r matches Ok(w) && w.mint == mint && w.official_lp
            == official_lp && w.pool_token_vault.is_zero() && w.boom_program.is_zero() && w.bump
            == bump),
{
    if !authority.same(&config.authority) {
        return Err(HookFailure::Unauthorized);
    }
    Ok(
        MintWhitelist {
            mint,
            official_lp,
            pool_token_vault: Address::default(),
            boom_program: Address::default(),
            bump,
        },
    )
}

/// Registers the internal pool for `mint`, with no external venue. Only the
/// authority may.
pub fn add_whitelist_with_pool(
    config: &HookConfig,
    authority: &Address,
    mint: Address,
    pool_token_vault: Address,
    boom_program: Address,
    bump: u8,
) -> (r: Result<MintWhitelist, HookFailure>)
    ensures
        *authority != config.authority ==> r == Err::<MintWhitelist, HookFailure>(
            HookFailure::Unauthorized,
        ),
        *authority == config.authority ==> (r matches Ok(w) && w.mint == mint
            && w.official_lp.is_zero() && w.pool_token_vault == pool_token_vault && w.boom_program
            == boom_program && w.bump == bump),
{
    if !authority.same(&config.authority) {
        return Err(HookFailure::Unauthorized);
    }
    Ok(
        MintWhitelist {
            mint,
            official_lp: Address::default(),
            pool_token_vault,
            boom_program,
            bump,
        },
    )
}

/// Replaces the external venue of a whitelist. Only the authority may.
pub fn update_whitelist(
    config: &HookConfig,
    authority: &Address,
    whitelist: &mut MintWhitelist,
    new_lp: Address,
) -> (r: Result<(), HookFailure>)
    ensures
        *authority != config.authority ==> r == Err::<(), HookFailure>(HookFailure::Unauthorized)
            && *final(whitelist) == *old(whitelist),
        *authority == config.authority ==> r is Ok && *final(whitelist) == (MintWhitelist {
            official_lp: new_lp,
            ..*old(whitelist)
        }),
{
    if !authority.same(&config.authority) {
        return Err(HookFailure::Unauthorized);
    }
    whitelist.official_lp = new_lp;
    Ok(())
}

/// Registers the internal pool's vault in a whitelist. Only the authority may.
pub fn set_pool_vault(
    config: &HookConfig,
    authority: &Address,
    whitelist: &mut MintWhitelist,
    pool_token_vault: Address,
    boom_program: Address,
) -> (r: Result<(), HookFailure>)
    ensures
        *authority != config.authority ==> r == Err::<(), HookFailure>(HookFailure::Unauthorized)
            && *final(whitelist) == *old(whitelist),
        *authority == config.authority ==> r is Ok && *final(whitelist) == (MintWhitelist {
            pool_token_vault,
            boom_program,
            ..*old(whitelist)
        }),
{
    if !authority.same(&config.authority) {
        return Err(HookFailure::Unauthorized);
    }
    whitelist.pool_token_vault = pool_token_vault;
    whitelist.boom_program = boom_program;
    Ok(())
}

/// Turns the global kill switch. Only the authority may.
pub fn set_transfers_enabled(config: &mut HookConfig, authority: &Address, enabled: bool) -> (r:
    Result<(), HookFailure>)
    ensures
        *authority != old(config).authority ==> r == Err::<(), HookFailure>(
            HookFailure::Unauthorized,
        ) && *final(config) == *old(config),
        *authority == old(config).authority ==> r is Ok && *final(config) == (HookConfig {
            transfers_enabled: enabled,
            ..*old(config)
        }),
{
    if !authority.same(&config.authority) {
        return Err(HookFailure::Unauthorized);
    }
    config.transfers_enabled = enabled;
    Ok(())
}

} // verus!
