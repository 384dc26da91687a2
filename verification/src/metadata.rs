use vstd::prelude::*;

use anchor_lang::prelude::{AccountInfo, ProgramError, Pubkey as SolanaPubkey};
use mpl_token_metadata::instruction::mint_new_edition_from_master_edition_via_token;
use mpl_token_metadata::utils::get_supply_off_master_edition;

use crate::accounts::{meta_is, AccountMeta, Instruction};
use crate::pubkey::{program_address, Pubkey};
use vstd::slice::slice_to_vec;
use vstd::string::StringSliceAdditionalSpecFns;

verus! {

/// The unsigned integer that the bytes `b` encode, least significant byte first.
pub open spec fn le_u64(b: Seq<u8>) -> int
    decreases b.len(),
{
    if b.len() == 0 {
        0
    } else {
        b[0] + 256 * le_u64(b.drop_first())
    }
}

/// The supply recorded in a master edition account's data: the eight bytes after the first.
pub open spec fn master_edition_supply(data: Seq<u8>) -> int {
    le_u64(data.subrange(1, 9))
}

/// The address of the SPL token program.
pub open spec fn token_program_id() -> Seq<u8> {
    seq![
        6u8, 221, 246, 225, 215, 101, 161, 147, 217, 203, 225, 70, 206, 235, 121, 172,
        28, 180, 133, 237, 95, 91, 55, 145, 58, 140, 245, 133, 126, 255, 0, 169,
    ]
}

/// The address of the token metadata program.
pub open spec fn token_metadata_program_id() -> Seq<u8> {
    seq![
        11u8, 112, 101, 177, 227, 209, 124, 69, 56, 157, 82, 127, 107, 4, 195, 205,
        88, 184, 108, 115, 26, 160, 253, 181, 73, 182, 209, 188, 3, 248, 41, 70,
    ]
}

/// The address of the token metadata program, the only program a mint of an edition
/// is signed for.
pub fn token_metadata_program() -> (k: Pubkey)
    ensures
        k@ == token_metadata_program_id(),
{
    let k = Pubkey {
        bytes: [
            11u8, 112, 101, 177, 227, 209, 124, 69, 56, 157, 82, 127, 107, 4, 195, 205,
            88, 184, 108, 115, 26, 160, 253, 181, 73, 182, 209, 188, 3, 248, 41, 70,
        ],
    };
    assert(k@ =~= token_metadata_program_id());
    k
}

/// The address of the system program: all zero bytes.
pub open spec fn system_program_id() -> Seq<u8> {
    Seq::new(32, |i: int| 0u8)
}

/// The first and fourth seeds of the token metadata program's edition accounts.
pub const METADATA_PREFIX: &'static str = "metadata";

pub const EDITION_SEED: &'static str = "edition";

/// The number of editions that one edition marker account records.
pub const EDITION_MARKER_BIT_SIZE: u64 = 248;

/// The decimal digits of `n`, as ASCII bytes, without leading zeros.
pub open spec fn decimal(n: nat) -> Seq<u8>
    decreases n,
{
    if n < 10 {
        seq![(48 + n) as u8]
    } else {
        decimal(n / 10).push((48 + n % 10) as u8)
    }
}

/// The seeds of the marker account of edition number `edition` of the master edition
/// minted by `metadata_mint`, under the token metadata program `program_id`:
/// `"metadata"`, the program, the mint, `"edition"` and the decimal digits of
/// `edition / 248`.
pub open spec fn edition_marker_seeds(program_id: Seq<u8>, metadata_mint: Seq<u8>, edition: u64) -> Seq<Seq<u8>> {
    seq![
        METADATA_PREFIX.spec_bytes(),
        program_id,
        metadata_mint,
        EDITION_SEED.spec_bytes(),
        decimal((edition / EDITION_MARKER_BIT_SIZE) as nat),
    ]
}

/// The marker account of edition number `edition`, with its bump seed; `None` when no
/// bump seed derives it.
pub open spec fn edition_marker(program_id: Seq<u8>, metadata_mint: Seq<u8>, edition: u64) -> Option<(Seq<u8>, u8)> {
    program_address(edition_marker_seeds(program_id, metadata_mint, edition), program_id)
}

/// Appends the decimal digits of `n` to `out`.
fn push_decimal(n: u64, out: &mut Vec<u8>)
    ensures
        final(out)@ == old(out)@ + decimal(n as nat),
    decreases n,
{
    if n >= 10 {
        push_decimal(n / 10, out);
    }
    out.push((48 + n % 10) as u8);
    assert(final(out)@ =~= old(out)@ + decimal(n as nat));
}

/// The deep view of a byte vector is its view.
pub(crate) proof fn lemma_bytes_deep_view(v: Vec<u8>)
    ensures
        v.deep_view() == v@,
{
    assert(v.deep_view() =~= v@);
}

/// The seeds of the marker account of edition number `edition`.
pub fn edition_marker_seeds_of(program_id: &Pubkey, metadata_mint: &Pubkey, edition: u64) -> (s:
    Vec<Vec<u8>>)
    ensures
        s.deep_view() == edition_marker_seeds(program_id@, metadata_mint@, edition),
{
    let mut digits: Vec<u8> = Vec::new();
    push_decimal(edition / EDITION_MARKER_BIT_SIZE, &mut digits);
    let s = vec![
        slice_to_vec(METADATA_PREFIX.as_bytes()),
        slice_to_vec(program_id.bytes.as_slice()),
        slice_to_vec(metadata_mint.bytes.as_slice()),
        slice_to_vec(EDITION_SEED.as_bytes()),
        digits,
    ];
    proof {
        lemma_bytes_deep_view(s@[0]);
        lemma_bytes_deep_view(s@[1]);
        lemma_bytes_deep_view(s@[2]);
        lemma_bytes_deep_view(s@[3]);
        lemma_bytes_deep_view(s@[4]);
    }
    assert(s.deep_view() =~= edition_marker_seeds(program_id@, metadata_mint@, edition));
    s
}

/// `ix` is the token metadata instruction that mints edition number `edition` of a
/// master edition, with its accounts in the order the program expects them and
/// `edition_marker` as the marker account of that edition.
pub open spec fn is_mint_new_edition_instruction(
    ix: Instruction,
    program_id: Seq<u8>,
    new_metadata: Seq<u8>,
    new_edition: Seq<u8>,
    master_edition: Seq<u8>,
    new_mint: Seq<u8>,
    new_mint_authority: Seq<u8>,
    payer: Seq<u8>,
    token_account_owner: Seq<u8>,
    token_account: Seq<u8>,
    new_metadata_update_authority: Seq<u8>,
    metadata: Seq<u8>,
    metadata_mint: Seq<u8>,
    edition_marker: Seq<u8>,
    edition: u64,
) -> bool {
    let a = ix.accounts@;
    &&& ix.program_id@ == program_id
    &&& a.len() == 13
    &&& meta_is(a[0], new_metadata, false, true)
    &&& meta_is(a[1], new_edition, false, true)
    &&& meta_is(a[2], master_edition, false, true)
    &&& meta_is(a[3], new_mint, false, true)
    &&& meta_is(a[4], edition_marker, false, true)
    &&& meta_is(a[5], new_mint_authority, true, false)
    &&& meta_is(a[6], payer, true, true)
    &&& meta_is(a[7], token_account_owner, true, false)
    &&& meta_is(a[8], token_account, false, false)
    &&& meta_is(a[9], new_metadata_update_authority, false, false)
    &&& meta_is(a[10], metadata, false, false)
    &&& meta_is(a[11], token_program_id(), false, false)
    &&& meta_is(a[12], system_program_id(), false, false)
    &&& ix.data@.len() == 9
    &&& ix.data@[0] == 11
    &&& le_u64(ix.data@.subrange(1, 9)) == edition
}

/// The error type of the Solana runtime's calls.
#[verifier::external_type_specification]
#[verifier::external_body]
pub struct ExProgramError(ProgramError);

/// Calls `mpl_token_metadata::utils::get_supply_off_master_edition` on an account holding
/// `data`. The function reads bytes 1 to 8 of the data as a little-endian `u64`; it panics
/// on data shorter than 9 bytes, and fails only when the data is already borrowed, which a
/// freshly built account never is.
#[verifier::external_body]
pub(crate) fn supply_off_master_edition(data: &[u8]) -> (r: Result<u64, ProgramError>)
    requires
        data@.len() >= 9,
    ensures
        r is Ok,
        r->Ok_0 == master_edition_supply(data@),
{
    let key = SolanaPubkey::default();
    let owner = mpl_token_metadata::ID;
    let mut lamports: u64 = 0;
    let mut bytes = data.to_vec();
    let info = AccountInfo::new(&key, false, false, &mut lamports, &mut bytes, &owner, false, 0);
    get_supply_off_master_edition(&info)
}

/// Calls `mpl_token_metadata::instruction::mint_new_edition_from_master_edition_via_token`.
/// The function builds the instruction of the token metadata program `program_id` with the
/// thirteen accounts listed in `is_mint_new_edition_instruction` and the data `[11]` followed
/// by `edition` in little-endian order. The fifth account is the edition marker, which it
/// derives with `Pubkey::find_program_address` from the seeds `edition_marker_seeds`; that
/// call panics when no bump seed derives the marker, and `requires` leaves those inputs out.
#[verifier::external_body]
pub(crate) fn mint_new_edition_instruction(
    program_id: Pubkey,
    new_metadata: Pubkey,
    new_edition: Pubkey,
    master_edition: Pubkey,
    new_mint: Pubkey,
    new_mint_authority: Pubkey,
    payer: Pubkey,
    token_account_owner: Pubkey,
    token_account: Pubkey,
    new_metadata_update_authority: Pubkey,
    metadata: Pubkey,
    metadata_mint: Pubkey,
    edition: u64,
) -> (ix: Instruction)
    requires
        program_address(edition_marker_seeds(program_id@, metadata_mint@, edition), program_id@) is Some,
    ensures
        is_mint_new_edition_instruction(
            ix,
            program_id@,
            new_metadata@,
            new_edition@,
            master_edition@,
            new_mint@,
            new_mint_authority@,
            payer@,
            token_account_owner@,
            token_account@,
            new_metadata_update_authority@,
            metadata@,
            metadata_mint@,
            program_address(edition_marker_seeds(program_id@, metadata_mint@, edition), program_id@).unwrap().0,
            edition,
        ),
{
    let k = |p: Pubkey| SolanaPubkey::new_from_array(p.bytes);
    let ix = mint_new_edition_from_master_edition_via_token(k(program_id), k(new_metadata),
        k(new_edition), k(master_edition), k(new_mint), k(new_mint_authority), k(payer),
        k(token_account_owner), k(token_account), k(new_metadata_update_authority), k(metadata),
        k(metadata_mint), edition);
    let meta = |m: &anchor_lang::prelude::AccountMeta| AccountMeta {
        pubkey: Pubkey { bytes: m.pubkey.to_bytes() }, is_signer: m.is_signer, is_writable: m.is_writable,
    };
    Instruction { program_id: Pubkey { bytes: ix.program_id.to_bytes() },
        accounts: ix.accounts.iter().map(meta).collect(), data: ix.data }
}

} // verus!
