//! The extra accounts of a request. The ledger passes the hook only the
//! accounts that an asset's stored list names. While that list is empty every
//! request is incomplete and every movement allowed; once it names the
//! configuration and the whitelist, the hook is in force.
//!
//! What the list names is decided here. How a list is laid out in storage is
//! the account-resolution library's business: its functions are called for
//! that. How an address is packed, how much room a list takes and how a list
//! is laid out is stated as that library documents it.

use crate::address::Address;
use crate::hook::{
    HookConfig, HookFailure, EXECUTE_DISCRIMINATOR, HOOK_CONFIG_SEED, MINT_ACCOUNT_INDEX,
    WHITELIST_SEED,
};
use spl_tlv_account_resolution::account::ExtraAccountMeta;
use spl_tlv_account_resolution::seeds::Seed;
use spl_tlv_account_resolution::state::ExtraAccountMetaList;
use spl_transfer_hook_interface::instruction::ExecuteInstruction;
use vstd::bytes::spec_u32_to_le_bytes;
use vstd::prelude::*;
use vstd::slice::slice_to_vec;

verus! {

/// The length of the tag that marks a stored list of extra accounts.
pub const LIST_TAG_LEN: usize = 8;

/// The widest literal that a part of an address may be.
pub const MAX_SEED_LEN: usize = 32;

/// One part of the address of an extra account.
#[derive(Clone, Debug, PartialEq, Eq)]
pub enum SeedConfig {
    /// Fixed bytes.
    Literal { bytes: Vec<u8> },
    /// The address of the account at `index` in the request.
    AccountKey { index: u8 },
}

/// An account that the ledger has to add to every request, given by the parts
/// of its address.
#[derive(Clone, Debug, PartialEq, Eq)]
pub struct ExtraAccount {
    pub seeds: Vec<SeedConfig>,
    pub is_signer: bool,
    pub is_writable: bool,
}

/// An extra account as a stored list holds it.
#[derive(Clone, Copy, Debug, PartialEq, Eq)]
pub struct PackedAccount {
    /// How the address is given: `1` for an address derived from parts.
    pub discriminator: u8,
    /// The parts, packed.
    pub address_config: [u8; 32],
    pub is_signer: bool,
    pub is_writable: bool,
}

/// The mathematical content of a seed.
pub enum SeedConfigView {
    Literal { bytes: Seq<u8> },
    AccountKey { index: u8 },
}

/// The mathematical content of an extra account.
pub struct ExtraAccountView {
    pub seeds: Seq<SeedConfigView>,
    pub is_signer: bool,
    pub is_writable: bool,
}

/// The mathematical content of a packed account.
pub struct PackedAccountView {
    pub discriminator: u8,
    pub address_config: Seq<u8>,
    pub is_signer: bool,
    pub is_writable: bool,
}

impl View for SeedConfig {
    type V = SeedConfigView;

    open spec fn view(&self) -> SeedConfigView {
        match self {
            SeedConfig::Literal { bytes } => SeedConfigView::Literal { bytes: bytes@ },
            SeedConfig::AccountKey { index } => SeedConfigView::AccountKey { index: *index },
        }
    }
}

impl View for ExtraAccount {
    type V = ExtraAccountView;

    open spec fn view(&self) -> ExtraAccountView {
        ExtraAccountView {
            seeds: Seq::new(self.seeds.len() as nat, |i: int| self.seeds[i]@),
            is_signer: self.is_signer,
            is_writable: self.is_writable,
        }
    }
}

impl View for PackedAccount {
    type V = PackedAccountView;

    open spec fn view(&self) -> PackedAccountView {
        PackedAccountView {
            discriminator: self.discriminator,
            address_config: self.address_config@,
            is_signer: self.is_signer,
            is_writable: self.is_writable,
        }
    }
}

/// The views of a list of extra accounts.
pub open spec fn extra_account_views(accounts: Seq<ExtraAccount>) -> Seq<ExtraAccountView> {
    Seq::new(accounts.len(), |i: int| accounts[i]@)
}

/// The views of a list of packed accounts.
pub open spec fn packed_account_views(accounts: Seq<PackedAccount>) -> Seq<PackedAccountView> {
    Seq::new(accounts.len(), |i: int| accounts[i]@)
}

// ---------------------------------------------------------------------------
// What the lists name
// ---------------------------------------------------------------------------

/// The extra accounts of a hook in force: the configuration, and the whitelist
/// of the asset being moved. Neither signs, neither is written.
pub open spec fn lockdown_accounts() -> Seq<ExtraAccountView> {
    seq![
        ExtraAccountView {
            seeds: seq![SeedConfigView::Literal { bytes: HOOK_CONFIG_SEED@ }],
            is_signer: false,
            is_writable: false,
        },
        ExtraAccountView {
            seeds: seq![
                SeedConfigView::Literal { bytes: WHITELIST_SEED@ },
                SeedConfigView::AccountKey { index: MINT_ACCOUNT_INDEX },
            ],
            is_signer: false,
            is_writable: false,
        },
    ]
}

/// The list of a hook in force.
pub fn lockdown_account_list() -> (list: Vec<ExtraAccount>)
    ensures
        extra_account_views(list@) == lockdown_accounts(),
{
    let mut config_seeds: Vec<SeedConfig> = Vec::new();
    config_seeds.push(SeedConfig::Literal { bytes: slice_to_vec(HOOK_CONFIG_SEED.as_slice()) });
    let mut whitelist_seeds: Vec<SeedConfig> = Vec::new();
    whitelist_seeds.push(SeedConfig::Literal { bytes: slice_to_vec(WHITELIST_SEED.as_slice()) });
    whitelist_seeds.push(SeedConfig::AccountKey { index: MINT_ACCOUNT_INDEX });
    let mut list: Vec<ExtraAccount> = Vec::new();
    list.push(ExtraAccount { seeds: config_seeds, is_signer: false, is_writable: false });
    list.push(ExtraAccount { seeds: whitelist_seeds, is_signer: false, is_writable: false });
    proof {
        assert(list@[0]@.seeds =~= lockdown_accounts()[0].seeds);
        assert(list@[1]@.seeds =~= lockdown_accounts()[1].seeds);
        assert(extra_account_views(list@) =~= lockdown_accounts());
    }
    list
}

// ---------------------------------------------------------------------------
// Packing
// ---------------------------------------------------------------------------

/// The width of a packed address.
pub const ADDRESS_CONFIG_LEN: usize = 32;

/// One part as the account-resolution library packs it: `1`, the length and
/// the bytes of a literal; `3` and the index of an account key.
pub open spec fn seed_bytes(seed: SeedConfigView) -> Seq<u8> {
    match seed {
        SeedConfigView::Literal { bytes } => seq![1u8, bytes.len() as u8] + bytes,
        SeedConfigView::AccountKey { index } => seq![3u8, index],
    }
}

/// The parts of an address, packed one after the other.
pub open spec fn seeds_bytes(seeds: Seq<SeedConfigView>) -> Seq<u8>
    decreases seeds.len(),
{
    if seeds.len() == 0 {
        Seq::empty()
    } else {
        seeds_bytes(seeds.drop_last()) + seed_bytes(seeds.last())
    }
}

/// The thirty-two bytes into which the account-resolution library packs the
/// parts of an address: the parts one after the other, then zeros. Parts that
/// take more than thirty-two bytes together are refused.
pub open spec fn packed_seeds(seeds: Seq<SeedConfigView>) -> Option<Seq<u8>> {
    let bytes = seeds_bytes(seeds);
    if bytes.len() > ADDRESS_CONFIG_LEN {
        None
    } else {
        Some(bytes + Seq::new((ADDRESS_CONFIG_LEN - bytes.len()) as nat, |i: int| 0u8))
    }
}

/// Whether a part is narrow enough to be one part of an address.
pub open spec fn seed_fits(seed: SeedConfigView) -> bool {
    match seed {
        SeedConfigView::Literal { bytes } => bytes.len() <= MAX_SEED_LEN,
        SeedConfigView::AccountKey { .. } => true,
    }
}

/// Whether every part is narrow enough.
pub open spec fn seeds_fit(seeds: Seq<SeedConfigView>) -> bool {
    forall|i: int| 0 <= i < seeds.len() ==> seed_fits(#[trigger] seeds[i])
}

/// `spl_tlv_account_resolution::account::ExtraAccountMeta::new_with_seeds`, on
/// the parts of `account` turned into that crate's `Seed`s one for one. The
/// function marks the result as derived from parts (`1`), takes the two flags
/// over as they are, and packs the parts into thirty-two bytes as that crate
/// documents it and `packed_seeds` restates, or fails where they take more.
/// Literals wider than an address part are kept out: the function is not
/// written for them.
#[verifier::external_body]
fn pack_account(account: &ExtraAccount) -> (r: Option<PackedAccount>)
    requires
        seeds_fit(account@.seeds),
    ensures
        match packed_seeds(account@.seeds) {
            Some(config) => r matches Some(p) && p@ == (PackedAccountView {
                discriminator: 1,
                address_config: config,
                is_signer: account.is_signer,
                is_writable: account.is_writable,
            }),
            None => r is None,
        },
{
    let seeds: Vec<Seed> = account.seeds.iter().map(|seed| match seed {
        SeedConfig::Literal { bytes } => Seed::Literal { bytes: bytes.clone() },
        SeedConfig::AccountKey { index } => Seed::AccountKey { index: *index },
    }).collect();
    let meta = ExtraAccountMeta::new_with_seeds(&seeds, account.is_signer, account.is_writable)
        .ok()?;
    Some(PackedAccount {
        discriminator: meta.discriminator,
        address_config: meta.address_config,
        is_signer: meta.is_signer.into(),
        is_writable: meta.is_writable.into(),
    })
}

/// What packing makes of an account: nothing where a literal is too wide or
/// the parts are refused.
pub open spec fn packed_account(account: ExtraAccountView) -> Option<PackedAccountView> {
    if !seeds_fit(account.seeds) {
        None
    } else {
        match packed_seeds(account.seeds) {
            Some(config) => Some(
                PackedAccountView {
                    discriminator: 1,
                    address_config: config,
                    is_signer: account.is_signer,
                    is_writable: account.is_writable,
                },
            ),
            None => None,
        }
    }
}

/// Packs an account for a stored list.
pub fn pack_extra_account(account: &ExtraAccount) -> (r: Option<PackedAccount>)
    ensures
        match packed_account(account@) {
            Some(p) => r matches Some(q) && q@ == p,
            None => r is None,
        },
{
    let mut i: usize = 0;
    while i < account.seeds.len()
        invariant
            i <= account.seeds.len(),
            forall|j: int| 0 <= j < i ==> seed_fits(#[trigger] account@.seeds[j]),
        decreases account.seeds.len() - i,
    {
        match &account.seeds[i] {
            SeedConfig::Literal { bytes } => {
                if bytes.len() > MAX_SEED_LEN {
                    assert(!seed_fits(account@.seeds[i as int]));
                    return None;
                }
            },
            SeedConfig::AccountKey { .. } => {},
        }
        i += 1;
    }
    pack_account(account)
}

/// Whether every account of a list can be packed.
pub open spec fn all_pack(accounts: Seq<ExtraAccountView>) -> bool {
    forall|i: int| 0 <= i < accounts.len() ==> (#[trigger] packed_account(accounts[i])) is Some
}

/// The accounts of a list, packed.
pub open spec fn packed_list(accounts: Seq<ExtraAccountView>) -> Seq<PackedAccountView> {
    Seq::new(accounts.len(), |i: int| packed_account(accounts[i])->Some_0)
}

/// Packs a list, or nothing where one of its accounts cannot be packed.
pub fn pack_extra_accounts(list: &Vec<ExtraAccount>) -> (r: Option<Vec<PackedAccount>>)
    ensures
        r is Some <==> all_pack(extra_account_views(list@)),
        r matches Some(packed) ==> packed_account_views(packed@) == packed_list(
            extra_account_views(list@),
        ),
{
    let ghost accounts = extra_account_views(list@);
    let mut packed: Vec<PackedAccount> = Vec::new();
    let mut i: usize = 0;
    while i < list.len()
        invariant
            i <= list.len(),
            accounts == extra_account_views(list@),
            packed@.len() == i,
            forall|j: int| 0 <= j < i ==> (#[trigger] packed_account(accounts[j])) is Some,
            forall|j: int|
                0 <= j < i ==> (#[trigger] packed@[j])@ == packed_account(accounts[j])->Some_0,
        decreases list.len() - i,
    {
        assert(accounts[i as int] == list@[i as int]@);
        match pack_extra_account(&list[i]) {
            Some(p) => {
                packed.push(p);
            },
            None => {
                assert(!(packed_account(accounts[i as int]) is Some));
                return None;
            },
        }
        i += 1;
    }
    assert(packed_account_views(packed@) =~= packed_list(accounts));
    Some(packed)
}

// ---------------------------------------------------------------------------
// Storing
// ---------------------------------------------------------------------------

/// Whether a stored list is still blank: its tag is all zero.
pub open spec fn tag_is_empty(data: Seq<u8>) -> bool {
    data.len() >= LIST_TAG_LEN && forall|i: int| 0 <= i < LIST_TAG_LEN ==> data[i] == 0
}

/// The bytes that a stored list spends before its first account: the tag,
/// the length of what follows, the number of accounts.
pub const LIST_HEADER_LEN: usize = 16;

/// The bytes that a stored list spends on each account.
pub const LIST_ENTRY_LEN: usize = 35;

/// Whether storage of `len` bytes has room for a list of `count` accounts.
pub open spec fn has_room(len: nat, count: nat) -> bool {
    len >= LIST_HEADER_LEN + LIST_ENTRY_LEN * count && 4 + LIST_ENTRY_LEN * count <= u32::MAX
}

/// One account as a stored list holds it: how the address is given, the
/// packed address, then one byte for each flag.
pub open spec fn entry_bytes(account: PackedAccountView) -> Seq<u8> {
    seq![account.discriminator] + account.address_config + seq![
        if account.is_signer {
            1u8
        } else {
            0u8
        },
        if account.is_writable {
            1u8
        } else {
            0u8
        },
    ]
}

/// The accounts of a list, one after the other.
pub open spec fn entries_bytes(accounts: Seq<PackedAccountView>) -> Seq<u8>
    decreases accounts.len(),
{
    if accounts.len() == 0 {
        Seq::empty()
    } else {
        entries_bytes(accounts.drop_last()) + entry_bytes(accounts.last())
    }
}

/// A list as the account-resolution library lays it out for requests to judge
/// a movement: the tag of such requests, the length of what follows and the
/// number of accounts, each in four little-endian bytes, then the accounts.
pub open spec fn stored_list(accounts: Seq<PackedAccountView>) -> Seq<u8> {
    EXECUTE_DISCRIMINATOR@ + spec_u32_to_le_bytes((4 + LIST_ENTRY_LEN * accounts.len()) as u32)
        + spec_u32_to_le_bytes(accounts.len() as u32) + entries_bytes(accounts)
}

/// What storage `data` holds once a list has been written into it: the list,
/// then what the storage held behind it.
pub open spec fn list_written(data: Seq<u8>, accounts: Seq<PackedAccountView>) -> Seq<u8> {
    stored_list(accounts) + data.subrange(
        LIST_HEADER_LEN + LIST_ENTRY_LEN * accounts.len(),
        data.len() as int,
    )
}

/// `spl_tlv_account_resolution::state::ExtraAccountMetaList::init`, for
/// `spl_transfer_hook_interface::instruction::ExecuteInstruction`, on `data`
/// and on `accounts` turned into that crate's `ExtraAccountMeta`s field for
/// field. The function writes in place, so the storage keeps its length. On
/// blank storage it succeeds exactly where there is room: eight bytes of tag,
/// four of length and four of count, thirty-five for each account, and a
/// length that fits in 32 bits. Where it succeeds the storage holds the list
/// in that layout and, behind it, what it held before. Where it fails it may
/// have written a part, of which the contract says nothing. Storage whose tag
/// is not blank is kept out: the function gives up on storage that it cannot
/// read.
#[verifier::external_body]
fn write_list(data: &mut Vec<u8>, accounts: &Vec<PackedAccount>) -> (ok: bool)
    requires
        tag_is_empty(old(data)@),
    ensures
        ok == has_room(old(data)@.len(), accounts@.len()),
        ok ==> final(data)@ == list_written(old(data)@, packed_account_views(accounts@)),
        final(data)@.len() == old(data)@.len(),
{
    let metas: Vec<ExtraAccountMeta> = accounts.iter().map(|account| ExtraAccountMeta {
        discriminator: account.discriminator,
        address_config: account.address_config,
        is_signer: account.is_signer.into(),
        is_writable: account.is_writable.into(),
    }).collect();
    ExtraAccountMetaList::init::<ExecuteInstruction>(data.as_mut_slice(), &metas).is_ok()
}

/// Whether `data` is blank storage.
pub fn is_blank(data: &Vec<u8>) -> (r: bool)
    ensures
        r == tag_is_empty(data@),
{
    if data.len() < LIST_TAG_LEN {
        return false;
    }
    let mut i: usize = 0;
    while i < LIST_TAG_LEN
        invariant
            i <= LIST_TAG_LEN,
            data.len() >= LIST_TAG_LEN,
            forall|j: int| 0 <= j < i ==> data@[j] == 0,
        decreases LIST_TAG_LEN - i,
    {
        if data[i] != 0 {
            return false;
        }
        i += 1;
    }
    true
}

/// What the attempt to write a list leaves: the storage as written where the
/// attempt succeeded, the storage as it was where it did not.
pub fn keep_or_restore(data: &mut Vec<u8>, before: Vec<u8>, written: bool) -> (r: Result<
    (),
    HookFailure,
>)
    ensures
        written ==> r is Ok && final(data)@ == old(data)@,
        !written ==> r == Err::<(), HookFailure>(HookFailure::InvalidAccountData) && final(data)@
            == before@,
{
    if written {
        Ok(())
    } else {
        *data = before;
        Err(HookFailure::InvalidAccountData)
    }
}

/// What storing a list in `data` gives: the storage as written, or
/// `InvalidAccountData` where the storage is not blank, an account cannot be
/// packed, or there is no room.
pub open spec fn store_outcome(data: Seq<u8>, accounts: Seq<ExtraAccountView>) -> Result<
    Seq<u8>,
    HookFailure,
> {
    if !tag_is_empty(data) || !all_pack(accounts) || !has_room(data.len(), accounts.len()) {
        Err(HookFailure::InvalidAccountData)
    } else {
        Ok(list_written(data, packed_list(accounts)))
    }
}

/// The bytes of storage that the list of a hook in force takes.
pub const LOCKDOWN_LIST_LEN: usize = 86;

/// The list of a hook in force can be packed: each of its two addresses takes
/// thirteen bytes of the thirty-two.
pub proof fn lemma_list_in_force_packs()
    ensures
        all_pack(lockdown_accounts()),
        seeds_bytes(lockdown_accounts()[0].seeds) == seq![1u8, 11u8] + HOOK_CONFIG_SEED@,
        seeds_bytes(lockdown_accounts()[1].seeds) == seq![1u8, 9u8] + WHITELIST_SEED@ + seq![
            3u8,
            MINT_ACCOUNT_INDEX,
        ],
{
    reveal_with_fuel(seeds_bytes, 3);
    let config = lockdown_accounts()[0].seeds;
    let whitelist = lockdown_accounts()[1].seeds;
    assert(config.drop_last() =~= Seq::<SeedConfigView>::empty());
    assert(seeds_bytes(config) =~= seq![1u8, 11u8] + HOOK_CONFIG_SEED@);
    assert(whitelist.drop_last() =~= seq![SeedConfigView::Literal { bytes: WHITELIST_SEED@ }]);
    assert(whitelist.drop_last().drop_last() =~= Seq::<SeedConfigView>::empty());
    assert(seeds_bytes(whitelist.drop_last()) =~= seq![1u8, 9u8] + WHITELIST_SEED@);
    assert(seeds_bytes(whitelist) =~= seq![1u8, 9u8] + WHITELIST_SEED@ + seq![
        3u8,
        MINT_ACCOUNT_INDEX,
    ]);
    assert(seeds_fit(config));
    assert(seeds_fit(whitelist));
    assert(packed_account(lockdown_accounts()[0]) is Some);
    assert(packed_account(lockdown_accounts()[1]) is Some);
}

/// Blank storage takes a list exactly where it has room: sixteen bytes for the
/// empty list, eighty-six for the list of a hook in force.
pub proof fn lemma_blank_storage_with_room_is_written(data: Seq<u8>)
    requires
        tag_is_empty(data),
    ensures
        store_outcome(data, Seq::<ExtraAccountView>::empty()) is Ok <==> data.len()
            >= LIST_HEADER_LEN,
        store_outcome(data, lockdown_accounts()) is Ok <==> data.len() >= LOCKDOWN_LIST_LEN,
{
    lemma_list_in_force_packs();
}

/// Stores a list of extra accounts in blank storage. When it fails the storage
/// is as it was.
pub fn store_extra_accounts(data: &mut Vec<u8>, list: &Vec<ExtraAccount>) -> (r: Result<
    (),
    HookFailure,
>)
    ensures
        match store_outcome(old(data)@, extra_account_views(list@)) {
            Ok(stored) => r is Ok && final(data)@ == stored,
            Err(e) => r == Err::<(), HookFailure>(e) && final(data)@ == old(data)@,
        },
        final(data)@.len() == old(data)@.len(),
{
    if !is_blank(data) {
        return Err(HookFailure::InvalidAccountData);
    }
    let packed: Vec<PackedAccount> = match pack_extra_accounts(list) {
        Some(p) => p,
        None => {
            return Err(HookFailure::InvalidAccountData);
        },
    };
    assert(packed@.len() == list@.len()) by {
        assert(packed_account_views(packed@).len() == packed_list(
            extra_account_views(list@),
        ).len());
    }
    let before: Vec<u8> = slice_to_vec(data.as_slice());
    let written: bool = write_list(data, &packed);
    keep_or_restore(data, before, written)
}

/// Stores the empty list for an asset whose hook is not in force yet: with no
/// extra account every request is incomplete and every movement allowed. It
/// succeeds on blank storage of `LIST_HEADER_LEN` bytes or more; the storage
/// should have room for the list that puts the hook in force.
pub fn initialize_extra_account_meta_list_empty(data: &mut Vec<u8>) -> (r: Result<(), HookFailure>)
    ensures
        match store_outcome(old(data)@, Seq::<ExtraAccountView>::empty()) {
            Ok(stored) => r is Ok && final(data)@ == stored,
            Err(e) => r == Err::<(), HookFailure>(e) && final(data)@ == old(data)@,
        },
        r is Ok <==> tag_is_empty(old(data)@) && old(data)@.len() >= LIST_HEADER_LEN,
        final(data)@.len() == old(data)@.len(),
{
    let list: Vec<ExtraAccount> = Vec::new();
    assert(extra_account_views(list@) =~= Seq::<ExtraAccountView>::empty());
    proof {
        if tag_is_empty(data@) {
            lemma_blank_storage_with_room_is_written(data@);
        }
    }
    store_extra_accounts(data, &list)
}

/// Stores the list that puts an asset's hook in force. It succeeds on blank
/// storage of `LOCKDOWN_LIST_LEN` bytes or more.
pub fn initialize_extra_account_meta_list(data: &mut Vec<u8>) -> (r: Result<(), HookFailure>)
    ensures
        match store_outcome(old(data)@, lockdown_accounts()) {
            Ok(stored) => r is Ok && final(data)@ == stored,
            Err(e) => r == Err::<(), HookFailure>(e) && final(data)@ == old(data)@,
        },
        r is Ok <==> tag_is_empty(old(data)@) && old(data)@.len() >= LOCKDOWN_LIST_LEN,
        final(data)@.len() == old(data)@.len(),
{
    let list = lockdown_account_list();
    proof {
        if tag_is_empty(data@) {
            lemma_blank_storage_with_room_is_written(data@);
        }
    }
    store_extra_accounts(data, &list)
}

/// Storage with its tag cleared and the rest as it was.
pub open spec fn cleared(data: Seq<u8>) -> Seq<u8> {
    Seq::new(
        data.len(),
        |i: int|
            if i < LIST_TAG_LEN {
                0u8
            } else {
                data[i]
            },
    )
}

/// What `upgrade_extra_account_meta_list` makes of the storage.
pub open spec fn upgrade_outcome(config: HookConfig, authority: Address, data: Seq<u8>) -> Result<
    Seq<u8>,
    HookFailure,
> {
    if authority != config.authority {
        Err(HookFailure::Unauthorized)
    } else if data.len() < LIST_TAG_LEN {
        Err(HookFailure::InvalidAccountData)
    } else {
        store_outcome(cleared(data), lockdown_accounts())
    }
}

/// Puts an asset's hook in force where the empty list was stored before: the
/// stored tag is cleared and the list of a hook in force is written in its
/// place. Only the authority may. When it fails the storage is as it was.
pub fn upgrade_extra_account_meta_list(
    config: &HookConfig,
    authority: &Address,
    data: &mut Vec<u8>,
) -> (r: Result<(), HookFailure>)
    ensures
        match upgrade_outcome(*config, *authority, old(data)@) {
            Ok(stored) => r is Ok && final(data)@ == stored,
            Err(e) => r == Err::<(), HookFailure>(e) && final(data)@ == old(data)@,
        },
        r is Ok <==> *authority == config.authority && old(data)@.len() >= LOCKDOWN_LIST_LEN,
        final(data)@.len() == old(data)@.len(),
{
    if !authority.same(&config.authority) {
        return Err(HookFailure::Unauthorized);
    }
    if data.len() < LIST_TAG_LEN {
        return Err(HookFailure::InvalidAccountData);
    }
    let before: Vec<u8> = slice_to_vec(data.as_slice());
    let mut i: usize = 0;
    while i < LIST_TAG_LEN
        invariant
            i <= LIST_TAG_LEN,
            data@.len() == before@.len(),
            before@.len() >= LIST_TAG_LEN,
            forall|j: int| 0 <= j < i ==> data@[j] == 0,
            forall|j: int| i <= j < before@.len() ==> data@[j] == before@[j],
        decreases LIST_TAG_LEN - i,
    {
        data[i] = 0;
        i += 1;
    }
    assert(data@ =~= cleared(before@));
    match initialize_extra_account_meta_list(data) {
        Ok(()) => Ok(()),
        Err(e) => {
            *data = before;
            Err(e)
        },
    }
}

} // verus!
