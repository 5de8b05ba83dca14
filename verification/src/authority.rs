use vstd::prelude::*;
use vstd::bytes::{spec_u64_to_le_bytes, u64_to_le_bytes};
use vstd::slice::slice_to_vec;
use vstd::utf8::encode_utf8;
use crate::errors::VestingErrorCode;
use crate::pubkey::{is_key, Pubkey};
use crate::vesting_accounts::{
    Account, BackendAccountData, ChangeEscrowMetadataAccounts, CreateVestingSession, Exchange,
    InitEscrowToken, InitVaultTokenAccounts, ProgramData, SessionCancelation, SessionWithdraw,
    VaultAccount, VestingSession, VestingSessionsAccount,
};

verus! {

/// Domain tag in the address of the backend record: the ASCII text `davincij15_seed`.
pub const BACKEND_SEED: [u8; 15] = [
    100, 97, 118, 105, 110, 99, 105, 106, 49, 53, 95, 115, 101, 101, 100,
];

/// Domain tag in the address of a vault: the ASCII text `token_vault`.
pub const VAULT_SEED: [u8; 11] = [
    116, 111, 107, 101, 110, 95, 118, 97, 117, 108, 116,
];

/// Domain tag in the address of an escrow mint: the ASCII text `escrow_mint`.
pub const ESCROW_MINT_SEED: [u8; 11] = [
    101, 115, 99, 114, 111, 119, 95, 109, 105, 110, 116,
];

/// Domain tag in the address of a user's collection of sessions: the ASCII text `user_vesting_session_collection`.
pub const SESSION_COLLECTION_SEED: [u8; 31] = [
    117, 115, 101, 114, 95, 118, 101, 115, 116, 105, 110, 103, 95, 115, 101, 115, 115, 105, 111,
    110, 95, 99, 111, 108, 108, 101, 99, 116, 105, 111, 110,
];

/// Domain tag in the address of a vesting session: the ASCII text `user_vesting_session`.
pub const SESSION_SEED: [u8; 20] = [
    117, 115, 101, 114, 95, 118, 101, 115, 116, 105, 110, 103, 95, 115, 101, 115, 115, 105, 111,
    110,
];

/// What `Pubkey::try_find_program_address` yields for the given seeds and program:
/// the derived address with its bump seed, or nothing where there is none.
pub uninterp spec fn program_address(seeds: Seq<Seq<u8>>, program_id: Seq<u8>) -> Option<
    (Seq<u8>, u8),
>;

/// A derived address and its bump seed as plain values.
pub open spec fn address_view(found: Option<(Pubkey, u8)>) -> Option<(Seq<u8>, u8)> {
    match found {
        Some((address, bump)) => Some((address@, bump)),
        None => None,
    }
}

/// Calls `Pubkey::try_find_program_address` of the Solana SDK, which hashes the
/// seeds, a bump seed and the program id and looks for the highest bump seed
/// whose hash is no point of the curve. The result is a function of the seeds
/// and the program id alone; the contract gives it the name `program_address`
/// and claims nothing else of it.
#[verifier::external_body]
fn try_find_program_address(seeds: &Vec<Vec<u8>>, program_id: &Pubkey) -> (found: Option<
    (Pubkey, u8),
>)
    ensures
        address_view(found) == program_address(seeds.deep_view(), program_id@),
{
    let parts: Vec<&[u8]> = seeds.iter().map(|seed| seed.as_slice()).collect();
    let program = anchor_lang::prelude::Pubkey::new_from_array(program_id.bytes);
    match anchor_lang::prelude::Pubkey::try_find_program_address(&parts, &program) {
        Some((address, bump)) => Some((Pubkey { bytes: address.to_bytes() }, bump)),
        None => None,
    }
}

/// The seeds of the backend record's address.
pub open spec fn spec_backend_seeds() -> Seq<Seq<u8>> {
    seq![BACKEND_SEED@]
}

/// The seeds of a vault's address: the tag and the two mints it pairs.
pub open spec fn spec_vault_seeds(valued_token_mint: Pubkey, escrow_token_mint: Pubkey) -> Seq<
    Seq<u8>,
> {
    seq![VAULT_SEED@, valued_token_mint@, escrow_token_mint@]
}

/// The seeds with which a vault signs: those of its address and its bump seed.
pub open spec fn spec_vault_signer_seeds(
    valued_token_mint: Pubkey,
    escrow_token_mint: Pubkey,
    bump: u8,
) -> Seq<Seq<u8>> {
    seq![VAULT_SEED@, valued_token_mint@, escrow_token_mint@, seq![bump]]
}

/// The seeds of an escrow mint's address: the tag, the valued mint and the
/// application tag in UTF-8.
pub open spec fn spec_escrow_mint_seeds(valued_token_mint: Pubkey, app_id: Seq<char>) -> Seq<
    Seq<u8>,
> {
    seq![ESCROW_MINT_SEED@, valued_token_mint@, encode_utf8(app_id)]
}

/// The seeds of the address of a user's collection of sessions in a vault.
pub open spec fn spec_session_collection_seeds(vault: Pubkey, user: Pubkey) -> Seq<Seq<u8>> {
    seq![SESSION_COLLECTION_SEED@, vault@, user@]
}

/// The seeds of a session's address: the tag, its collection and its id in
/// little-endian bytes.
pub open spec fn spec_session_seeds(collection: Pubkey, id: u64) -> Seq<Seq<u8>> {
    seq![SESSION_SEED@, collection@, spec_u64_to_le_bytes(id)]
}

/// The seeds of the backend record's address.
pub fn backend_seeds() -> (seeds: Vec<Vec<u8>>)
    ensures
        seeds.deep_view() == spec_backend_seeds(),
{
    let mut seeds: Vec<Vec<u8>> = Vec::new();
    seeds.push(slice_to_vec(BACKEND_SEED.as_slice()));
    assert(seeds.deep_view() =~~= spec_backend_seeds());
    seeds
}

/// The seeds of the address of the vault that pairs the two mints.
pub fn vault_seeds(valued_token_mint: &Pubkey, escrow_token_mint: &Pubkey) -> (seeds: Vec<Vec<u8>>)
    ensures
        seeds.deep_view() == spec_vault_seeds(*valued_token_mint, *escrow_token_mint),
{
    let mut seeds: Vec<Vec<u8>> = Vec::new();
    seeds.push(slice_to_vec(VAULT_SEED.as_slice()));
    seeds.push(slice_to_vec(valued_token_mint.bytes.as_slice()));
    seeds.push(slice_to_vec(escrow_token_mint.bytes.as_slice()));
    assert(seeds.deep_view() =~~= spec_vault_seeds(*valued_token_mint, *escrow_token_mint));
    seeds
}

/// The seeds of the address of the escrow mint made for a valued mint and an
/// application tag.
pub fn escrow_mint_seeds(valued_token_mint: &Pubkey, app_id: &String) -> (seeds: Vec<Vec<u8>>)
    ensures
        seeds.deep_view() == spec_escrow_mint_seeds(*valued_token_mint, app_id@),
{
    let mut seeds: Vec<Vec<u8>> = Vec::new();
    seeds.push(slice_to_vec(ESCROW_MINT_SEED.as_slice()));
    seeds.push(slice_to_vec(valued_token_mint.bytes.as_slice()));
    seeds.push(slice_to_vec(app_id.as_str().as_bytes()));
    assert(seeds.deep_view() =~~= spec_escrow_mint_seeds(*valued_token_mint, app_id@));
    seeds
}

/// The seeds of the address of a user's collection of sessions in a vault.
pub fn session_collection_seeds(vault: &Pubkey, user: &Pubkey) -> (seeds: Vec<Vec<u8>>)
    ensures
        seeds.deep_view() == spec_session_collection_seeds(*vault, *user),
{
    let mut seeds: Vec<Vec<u8>> = Vec::new();
    seeds.push(slice_to_vec(SESSION_COLLECTION_SEED.as_slice()));
    seeds.push(slice_to_vec(vault.bytes.as_slice()));
    seeds.push(slice_to_vec(user.bytes.as_slice()));
    assert(seeds.deep_view() =~~= spec_session_collection_seeds(*vault, *user));
    seeds
}

/// The seeds of the address of the session with this id in a collection.
pub fn session_seeds(collection: &Pubkey, id: u64) -> (seeds: Vec<Vec<u8>>)
    ensures
        seeds.deep_view() == spec_session_seeds(*collection, id),
{
    let mut seeds: Vec<Vec<u8>> = Vec::new();
    seeds.push(slice_to_vec(SESSION_SEED.as_slice()));
    seeds.push(slice_to_vec(collection.bytes.as_slice()));
    seeds.push(u64_to_le_bytes(id));
    assert(seeds.deep_view() =~~= spec_session_seeds(*collection, id));
    seeds
}

/// The address that `program_id` derives from `seeds`, with its bump seed.
pub fn find_program_address(seeds: &Vec<Vec<u8>>, program_id: &Pubkey) -> (found: Option<
    (Pubkey, u8),
>)
    ensures
        address_view(found) == program_address(seeds.deep_view(), program_id@),
{
    try_find_program_address(seeds, program_id)
}

/// The address of the vault that pairs the two mints.
pub fn find_vault_address(
    valued_token_mint: &Pubkey,
    escrow_token_mint: &Pubkey,
    program_id: &Pubkey,
) -> (found: Option<(Pubkey, u8)>)
    ensures
        address_view(found) == program_address(
            spec_vault_seeds(*valued_token_mint, *escrow_token_mint),
            program_id@,
        ),
{
    let seeds = vault_seeds(valued_token_mint, escrow_token_mint);
    try_find_program_address(&seeds, program_id)
}

/// The capability to move a vault's funds: the inputs from which the vault's
/// address is derived, which only the program itself can sign with.
#[derive(Clone, Copy, Debug, PartialEq, Eq)]
pub struct VaultAuthority {
    vault: Pubkey,
    valued_token_mint: Pubkey,
    escrow_token_mint: Pubkey,
    bump: u8,
}

impl VaultAuthority {
    /// The vault whose funds the capability moves.
    pub closed spec fn spec_vault(&self) -> Pubkey {
        self.vault
    }

    /// The valued mint that the vault pairs.
    pub closed spec fn spec_valued_token_mint(&self) -> Pubkey {
        self.valued_token_mint
    }

    /// The escrow mint that the vault pairs.
    pub closed spec fn spec_escrow_token_mint(&self) -> Pubkey {
        self.escrow_token_mint
    }

    /// The bump seed of the vault's address.
    pub closed spec fn spec_bump(&self) -> u8 {
        self.bump
    }

    /// The capability is the one of `vault` pairing the two mints.
    pub open spec fn controls(
        self,
        vault: Pubkey,
        valued_token_mint: Pubkey,
        escrow_token_mint: Pubkey,
    ) -> bool {
        &&& self.spec_vault() == vault
        &&& self.spec_valued_token_mint() == valued_token_mint
        &&& self.spec_escrow_token_mint() == escrow_token_mint
    }

    /// The vault whose funds the capability moves.
    #[verifier::when_used_as_spec(spec_vault)]
    pub fn vault(&self) -> (key: Pubkey)
        ensures
            key == self.spec_vault(),
    {
        self.vault
    }

    /// The valued mint that the vault pairs.
    #[verifier::when_used_as_spec(spec_valued_token_mint)]
    pub fn valued_token_mint(&self) -> (key: Pubkey)
        ensures
            key == self.spec_valued_token_mint(),
    {
        self.valued_token_mint
    }

    /// The escrow mint that the vault pairs.
    #[verifier::when_used_as_spec(spec_escrow_token_mint)]
    pub fn escrow_token_mint(&self) -> (key: Pubkey)
        ensures
            key == self.spec_escrow_token_mint(),
    {
        self.escrow_token_mint
    }

    /// The bump seed of the vault's address.
    #[verifier::when_used_as_spec(spec_bump)]
    pub fn bump(&self) -> (bump: u8)
        ensures
            bump == self.spec_bump(),
    {
        self.bump
    }

    /// Grants the capability for `vault` where `derived` is the address derived
    /// from the two mints and equals `vault`; refuses otherwise.
    pub fn from_derivation(
        derived: Option<(Pubkey, u8)>,
        vault: &Pubkey,
        valued_token_mint: &Pubkey,
        escrow_token_mint: &Pubkey,
    ) -> (granted: Result<VaultAuthority, VestingErrorCode>)
        ensures
            match granted {
                Ok(authority) => {
                    &&& derived == Some((*vault, authority.spec_bump()))
                    &&& authority.controls(*vault, *valued_token_mint, *escrow_token_mint)
                },
                Err(e) => {
                    &&& e == VestingErrorCode::UnathorizedToExecute
                    &&& derived matches Some((address, _)) ==> address != *vault
                },
            },
    {
        match derived {
            Some((address, bump)) => {
                if address == *vault {
                    Ok(
                        VaultAuthority {
                            vault: *vault,
                            valued_token_mint: *valued_token_mint,
                            escrow_token_mint: *escrow_token_mint,
                            bump,
                        },
                    )
                } else {
                    Err(VestingErrorCode::UnathorizedToExecute)
                }
            },
            None => Err(VestingErrorCode::UnathorizedToExecute),
        }
    }

    /// Grants the capability for `vault` where `vault` is the address that
    /// `program_id` derives from the two mints; refuses otherwise.
    pub fn derive(
        vault: &Pubkey,
        valued_token_mint: &Pubkey,
        escrow_token_mint: &Pubkey,
        program_id: &Pubkey,
    ) -> (granted: Result<VaultAuthority, VestingErrorCode>)
        ensures
            match granted {
                Ok(authority) => {
                    &&& program_address(
                        spec_vault_seeds(*valued_token_mint, *escrow_token_mint),
                        program_id@,
                    ) == Some((vault@, authority.spec_bump()))
                    &&& authority.controls(*vault, *valued_token_mint, *escrow_token_mint)
                },
                Err(e) => {
                    &&& e == VestingErrorCode::UnathorizedToExecute
                    &&& program_address(
                        spec_vault_seeds(*valued_token_mint, *escrow_token_mint),
                        program_id@,
                    ) matches Some((address, _)) ==> address != vault@
                },
            },
    {
        let derived = find_vault_address(valued_token_mint, escrow_token_mint, program_id);
        proof {
            if let Some((address, _)) = derived {
                if address@ == vault@ {
                    Pubkey::view_is_injective(address, *vault);
                }
            }
        }
        VaultAuthority::from_derivation(derived, vault, valued_token_mint, escrow_token_mint)
    }

    /// Whether the capability is the one of `vault` pairing the two mints.
    pub fn check(&self, vault: &Pubkey, valued_token_mint: &Pubkey, escrow_token_mint: &Pubkey) -> (r:
        Result<(), VestingErrorCode>)
        ensures
            r is Ok <==> self.controls(*vault, *valued_token_mint, *escrow_token_mint),
            r matches Err(e) ==> e == VestingErrorCode::UnathorizedToExecute,
    {
        if self.vault == *vault && self.valued_token_mint == *valued_token_mint
            && self.escrow_token_mint == *escrow_token_mint {
            Ok(())
        } else {
            Err(VestingErrorCode::UnathorizedToExecute)
        }
    }

    /// The seeds with which the vault signs.
    pub fn signer_seeds(&self) -> (seeds: Vec<Vec<u8>>)
        ensures
            seeds.deep_view() == spec_vault_signer_seeds(
                self.spec_valued_token_mint(),
                self.spec_escrow_token_mint(),
                self.spec_bump(),
            ),
    {
        let mut bump: Vec<u8> = Vec::new();
        bump.push(self.bump);
        let mut seeds: Vec<Vec<u8>> = Vec::new();
        seeds.push(slice_to_vec(VAULT_SEED.as_slice()));
        seeds.push(slice_to_vec(self.valued_token_mint.bytes.as_slice()));
        seeds.push(slice_to_vec(self.escrow_token_mint.bytes.as_slice()));
        seeds.push(bump);
        assert(seeds.deep_view() =~~= spec_vault_signer_seeds(
            self.valued_token_mint,
            self.escrow_token_mint,
            self.bump,
        ));
        seeds
    }
}

/// Whether `signer` is the registered backend operator.
pub open spec fn is_backend(backend_data: BackendAccountData, signer: Pubkey) -> bool {
    signer == backend_data.backend_account
}

/// Whether `signer` may replace the backend operator: it is the program's
/// upgrade authority or the registered change authority.
pub open spec fn may_change_backend(
    program_data: ProgramData,
    backend_data: BackendAccountData,
    signer: Pubkey,
) -> bool {
    program_data.upgrade_authority_address == Some(signer) || backend_data.change_authority
        == Some(signer)
}

/// Passes where `signer` is the registered backend operator.
pub fn authorize_backend(backend_data: &BackendAccountData, signer: &Pubkey) -> (r: Result<
    (),
    VestingErrorCode,
>)
    ensures
        r is Ok <==> is_backend(*backend_data, *signer),
        r matches Err(e) ==> e == VestingErrorCode::UnathorizedToExecute,
{
    if *signer == backend_data.backend_account {
        Ok(())
    } else {
        Err(VestingErrorCode::UnathorizedToExecute)
    }
}

/// Passes where `signer` may replace the backend operator.
pub fn authorize_governance(
    program_data: &ProgramData,
    backend_data: &BackendAccountData,
    signer: &Pubkey,
) -> (r: Result<(), VestingErrorCode>)
    ensures
        r is Ok <==> may_change_backend(*program_data, *backend_data, *signer),
        r matches Err(e) ==> e == VestingErrorCode::UnathorizedToExecute,
{
    let is_program_authority = is_key(&program_data.upgrade_authority_address, signer);
    let is_backend_change_authority = is_key(&backend_data.change_authority, signer);
    if is_program_authority || is_backend_change_authority {
        Ok(())
    } else {
        Err(VestingErrorCode::UnathorizedToExecute)
    }
}

/// Whether the vault record pairs the two mints.
pub open spec fn vault_pairs(
    vault: VaultAccount,
    valued_token_mint: Pubkey,
    escrow_token_mint: Pubkey,
) -> bool {
    vault.valued_token_mint == valued_token_mint && vault.escrow_token_mint == escrow_token_mint
}

/// Whether the session is one of `user` in the collection, and the collection
/// the one of `user`.
pub open spec fn session_belongs(
    collection: Account<VestingSessionsAccount>,
    session: VestingSession,
    user: Pubkey,
) -> bool {
    &&& collection.data.user == user
    &&& session.user == user
    &&& session.vesting_sessions_account == collection.key
}

/// Passes where the vault record pairs the two mints.
pub fn check_vault_pairs(
    vault: &VaultAccount,
    valued_token_mint: &Pubkey,
    escrow_token_mint: &Pubkey,
) -> (r: Result<(), VestingErrorCode>)
    ensures
        r is Ok <==> vault_pairs(*vault, *valued_token_mint, *escrow_token_mint),
        r matches Err(e) ==> e == VestingErrorCode::UnathorizedToExecute,
{
    if vault.valued_token_mint == *valued_token_mint && vault.escrow_token_mint
        == *escrow_token_mint {
        Ok(())
    } else {
        Err(VestingErrorCode::UnathorizedToExecute)
    }
}

/// Passes where the session is one of `user` in the collection.
pub fn check_session_belongs(
    collection: &Account<VestingSessionsAccount>,
    session: &VestingSession,
    user: &Pubkey,
) -> (r: Result<(), VestingErrorCode>)
    ensures
        r is Ok <==> session_belongs(*collection, *session, *user),
        r matches Err(e) ==> e == VestingErrorCode::UnathorizedToExecute,
{
    if collection.data.user == *user && session.user == *user && session.vesting_sessions_account
        == collection.key {
        Ok(())
    } else {
        Err(VestingErrorCode::UnathorizedToExecute)
    }
}

impl InitEscrowToken {
    /// The backend operator signed, and the capability is the one of the vault
    /// to be created.
    pub open spec fn authorized(self, authority: VaultAuthority) -> bool {
        &&& is_backend(self.backend_data, self.backend)
        &&& authority.controls(
            self.vault_account.key,
            self.valued_token_mint.key,
            self.escrow_token_mint.key,
        )
    }

    /// Passes where the operation is authorized, and refuses it otherwise.
    pub fn authorize(&self, authority: &VaultAuthority) -> (r: Result<(), VestingErrorCode>)
        ensures
            r is Ok <==> self.authorized(*authority),
            r matches Err(e) ==> e == VestingErrorCode::UnathorizedToExecute,
    {
        match authorize_backend(&self.backend_data, &self.backend) {
            Ok(()) => {},
            Err(e) => return Err(e),
        }
        authority.check(
            &self.vault_account.key,
            &self.valued_token_mint.key,
            &self.escrow_token_mint.key,
        )
    }
}

impl InitVaultTokenAccounts {
    /// The backend operator signed, and the vault pairs the two mints.
    pub open spec fn authorized(self) -> bool {
        &&& is_backend(self.backend_data, self.backend)
        &&& vault_pairs(
            self.vault_account.data,
            self.valued_token_mint.key,
            self.escrow_token_mint.key,
        )
    }

    /// Passes where the operation is authorized, and refuses it otherwise.
    pub fn authorize(&self) -> (r: Result<(), VestingErrorCode>)
        ensures
            r is Ok <==> self.authorized(),
            r matches Err(e) ==> e == VestingErrorCode::UnathorizedToExecute,
    {
        match authorize_backend(&self.backend_data, &self.backend) {
            Ok(()) => {},
            Err(e) => return Err(e),
        }
        check_vault_pairs(
            &self.vault_account.data,
            &self.valued_token_mint.key,
            &self.escrow_token_mint.key,
        )
    }
}

impl ChangeEscrowMetadataAccounts {
    /// The backend operator signed, the vault pairs the two mints, and the
    /// capability is the vault's.
    pub open spec fn authorized(self, authority: VaultAuthority) -> bool {
        &&& is_backend(self.backend_data, self.backend)
        &&& vault_pairs(
            self.vault_account.data,
            self.valued_token_mint.key,
            self.escrow_token_mint.key,
        )
        &&& authority.controls(
            self.vault_account.key,
            self.valued_token_mint.key,
            self.escrow_token_mint.key,
        )
    }

    /// Passes where the operation is authorized, and refuses it otherwise.
    pub fn authorize(&self, authority: &VaultAuthority) -> (r: Result<(), VestingErrorCode>)
        ensures
            r is Ok <==> self.authorized(*authority),
            r matches Err(e) ==> e == VestingErrorCode::UnathorizedToExecute,
    {
        match authorize_backend(&self.backend_data, &self.backend) {
            Ok(()) => {},
            Err(e) => return Err(e),
        }
        match check_vault_pairs(
            &self.vault_account.data,
            &self.valued_token_mint.key,
            &self.escrow_token_mint.key,
        ) {
            Ok(()) => {},
            Err(e) => return Err(e),
        }
        authority.check(
            &self.vault_account.key,
            &self.valued_token_mint.key,
            &self.escrow_token_mint.key,
        )
    }
}

impl Exchange {
    /// The backend operator signed, the vault pairs the two mints, and the
    /// capability is the vault's.
    pub open spec fn authorized(self, authority: VaultAuthority) -> bool {
        &&& is_backend(self.backend_data, self.backend)
        &&& vault_pairs(
            self.vault_account.data,
            self.valued_token_mint.key,
            self.escrow_token_mint.key,
        )
        &&& authority.controls(
            self.vault_account.key,
            self.valued_token_mint.key,
            self.escrow_token_mint.key,
        )
    }

    /// Passes where the operation is authorized, and refuses it otherwise.
    pub fn authorize(&self, authority: &VaultAuthority) -> (r: Result<(), VestingErrorCode>)
        ensures
            r is Ok <==> self.authorized(*authority),
            r matches Err(e) ==> e == VestingErrorCode::UnathorizedToExecute,
    {
        match authorize_backend(&self.backend_data, &self.backend) {
            Ok(()) => {},
            Err(e) => return Err(e),
        }
        match check_vault_pairs(
            &self.vault_account.data,
            &self.valued_token_mint.key,
            &self.escrow_token_mint.key,
        ) {
            Ok(()) => {},
            Err(e) => return Err(e),
        }
        authority.check(
            &self.vault_account.key,
            &self.valued_token_mint.key,
            &self.escrow_token_mint.key,
        )
    }
}

impl CreateVestingSession {
    /// The backend operator signed, and the vault pairs the two mints.
    pub open spec fn authorized(self) -> bool {
        &&& is_backend(self.backend_data, self.backend)
        &&& vault_pairs(
            self.vault_account.data,
            self.valued_token_mint.key,
            self.escrow_token_mint.key,
        )
    }

    /// Passes where the operation is authorized, and refuses it otherwise.
    pub fn authorize(&self) -> (r: Result<(), VestingErrorCode>)
        ensures
            r is Ok <==> self.authorized(),
            r matches Err(e) ==> e == VestingErrorCode::UnathorizedToExecute,
    {
        match authorize_backend(&self.backend_data, &self.backend) {
            Ok(()) => {},
            Err(e) => return Err(e),
        }
        check_vault_pairs(
            &self.vault_account.data,
            &self.valued_token_mint.key,
            &self.escrow_token_mint.key,
        )
    }
}

impl SessionWithdraw {
    /// The backend operator signed, the vault pairs the two mints, the
    /// capability is the vault's, and the session is the user's.
    pub open spec fn authorized(self, authority: VaultAuthority) -> bool {
        &&& is_backend(self.backend_data, self.backend)
        &&& vault_pairs(
            self.vault_account.data,
            self.valued_token_mint.key,
            self.escrow_token_mint.key,
        )
        &&& authority.controls(
            self.vault_account.key,
            self.valued_token_mint.key,
            self.escrow_token_mint.key,
        )
        &&& session_belongs(
            self.vesting_sessions_account,
            self.vesting_session_account.data,
            self.user,
        )
    }

    /// Passes where the operation is authorized, and refuses it otherwise.
    pub fn authorize(&self, authority: &VaultAuthority) -> (r: Result<(), VestingErrorCode>)
        ensures
            r is Ok <==> self.authorized(*authority),
            r matches Err(e) ==> e == VestingErrorCode::UnathorizedToExecute,
    {
        match authorize_backend(&self.backend_data, &self.backend) {
            Ok(()) => {},
            Err(e) => return Err(e),
        }
        match check_vault_pairs(
            &self.vault_account.data,
            &self.valued_token_mint.key,
            &self.escrow_token_mint.key,
        ) {
            Ok(()) => {},
            Err(e) => return Err(e),
        }
        match authority.check(
            &self.vault_account.key,
            &self.valued_token_mint.key,
            &self.escrow_token_mint.key,
        ) {
            Ok(()) => {},
            Err(e) => return Err(e),
        }
        check_session_belongs(
            &self.vesting_sessions_account,
            &self.vesting_session_account.data,
            &self.user,
        )
    }
}

impl SessionCancelation {
    /// The backend operator signed, the vault pairs the two mints, the
    /// capability is the vault's, and the session is the user's.
    pub open spec fn authorized(self, authority: VaultAuthority) -> bool {
        &&& is_backend(self.backend_data, self.backend)
        &&& vault_pairs(
            self.vault_account.data,
            self.valued_token_mint.key,
            self.escrow_token_mint.key,
        )
        &&& authority.controls(
            self.vault_account.key,
            self.valued_token_mint.key,
            self.escrow_token_mint.key,
        )
        &&& session_belongs(
            self.vesting_sessions_account,
            self.vesting_session_account.data,
            self.user,
        )
    }

    /// Passes where the operation is authorized, and refuses it otherwise.
    pub fn authorize(&self, authority: &VaultAuthority) -> (r: Result<(), VestingErrorCode>)
        ensures
            r is Ok <==> self.authorized(*authority),
            r matches Err(e) ==> e == VestingErrorCode::UnathorizedToExecute,
    {
        match authorize_backend(&self.backend_data, &self.backend) {
            Ok(()) => {},
            Err(e) => return Err(e),
        }
        match check_vault_pairs(
            &self.vault_account.data,
            &self.valued_token_mint.key,
            &self.escrow_token_mint.key,
        ) {
            Ok(()) => {},
            Err(e) => return Err(e),
        }
        match authority.check(
            &self.vault_account.key,
            &self.valued_token_mint.key,
            &self.escrow_token_mint.key,
        ) {
            Ok(()) => {},
            Err(e) => return Err(e),
        }
        check_session_belongs(
            &self.vesting_sessions_account,
            &self.vesting_session_account.data,
            &self.user,
        )
    }
}

} // verus!
