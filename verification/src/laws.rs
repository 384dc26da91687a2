use vstd::prelude::*;

use crate::accounts::Instruction;
use crate::process::{EscrowMasterNft, EscrowMasterNftArgs, InitUserReputation, MintEdition, MintEditionArgs, Stake};
use crate::reputation::{attribute_point, is_known_kind, spec_nft_point, staked_reputation};
use crate::states::NftAttribute;
use vstd::seq_lib::{commutative_foldl, lemma_fold_left_permutation};

verus! {

/// One stake, as `Stake::process` applies it to a reputation point.
pub open spec fn stake_step() -> spec_fn(int, NftAttribute) -> int {
    |reputation: int, a: NftAttribute| staked_reputation(reputation, a)
}

/// The reputation point after staking the editions `staked`, in order, from `start`.
pub open spec fn reputation_after(start: int, staked: Seq<NftAttribute>) -> int {
    staked.fold_left(start, stake_step())
}

/// The sum of the points of the editions `staked`.
pub open spec fn total_points(staked: Seq<NftAttribute>) -> int
    decreases staked.len(),
{
    if staked.len() == 0 {
        0
    } else {
        attribute_point(staked[0]) + total_points(staked.drop_first())
    }
}

proof fn lemma_fold_alt_is_sum(start: int, staked: Seq<NftAttribute>)
    ensures
        staked.fold_left_alt(start, stake_step()) == start + total_points(staked),
    decreases staked.len(),
{
    if staked.len() > 0 {
        let rest = staked.subrange(1, staked.len() as int);
        assert(rest =~= staked.drop_first());
        lemma_fold_alt_is_sum(start + attribute_point(staked[0]), rest);
    }
}

/// A user's reputation point is the sum of the points of the editions the user staked:
/// from the record that `init_user_reputation` opens, staking any sequence of editions
/// one after another gives the sum of their points.
pub proof fn lemma_reputation_is_sum_of_points(
    accounts: InitUserReputation,
    bump: u8,
    staked: Seq<NftAttribute>,
)
    ensures
        reputation_after(
            accounts.opened(bump).reputation_info.reputation_point as int,
            staked,
        ) == total_points(staked),
{
    staked.lemma_fold_left_alt(0, stake_step());
    lemma_fold_alt_is_sum(0, staked);
}

/// A successful stake applies the stake step to the reputation point, and so never
/// lowers it.
pub proof fn lemma_stake_applies_step(accounts: Stake, bump: u8)
    requires
        accounts.point_fits(),
        is_known_kind(accounts.nft_attribute.nft_kind),
    ensures
        accounts.staked(bump).reputation_info.reputation_point == (stake_step())(
            accounts.reputation_info.reputation_point as int,
            accounts.nft_attribute,
        ),
        accounts.staked(bump).reputation_info.reputation_point
            >= accounts.reputation_info.reputation_point,
{
}

/// The attribute records of the editions staked by `stakes`.
pub open spec fn staked_attributes(stakes: Seq<Stake>) -> Seq<NftAttribute> {
    stakes.map_values(|s: Stake| s.nft_attribute)
}

/// `stakes` are successful stakes one after another, each on the reputation record the
/// one before left, the first on the record `init_user_reputation` opened.
pub open spec fn is_stake_sequence(
    opened: InitUserReputation,
    open_bump: u8,
    stakes: Seq<Stake>,
    bumps: Seq<u8>,
) -> bool {
    &&& stakes.len() == bumps.len()
    &&& stakes.len() > 0
    &&& stakes[0].reputation_info == opened.opened(open_bump).reputation_info
    &&& forall|i: int|
        #![trigger stakes[i]]
        0 < i < stakes.len() ==> stakes[i].reputation_info == stakes[i - 1].staked(
            bumps[i - 1],
        ).reputation_info
    &&& forall|i: int|
        #![trigger stakes[i]]
        0 <= i < stakes.len() ==> stakes[i].point_fits() && is_known_kind(
            stakes[i].nft_attribute.nft_kind,
        )
}

proof fn lemma_stake_sequence_prefix(
    opened: InitUserReputation,
    open_bump: u8,
    stakes: Seq<Stake>,
    bumps: Seq<u8>,
    k: int,
)
    requires
        is_stake_sequence(opened, open_bump, stakes, bumps),
        0 <= k < stakes.len(),
    ensures
        stakes[k].reputation_info.reputation_point == reputation_after(
            0,
            staked_attributes(stakes).take(k),
        ),
    decreases k,
{
    let attrs = staked_attributes(stakes);
    if k == 0 {
        assert(attrs.take(0) =~= Seq::<NftAttribute>::empty());
    } else {
        lemma_stake_sequence_prefix(opened, open_bump, stakes, bumps, k - 1);
        assert(stakes[k].reputation_info == stakes[k - 1].staked(bumps[k - 1]).reputation_info);
        assert(stakes[k - 1].point_fits());
        assert(attrs.take(k).drop_last() =~= attrs.take(k - 1));
        assert(attrs.take(k).last() == stakes[k - 1].nft_attribute);
    }
}

/// A user's reputation point after a sequence of successful stakes, from the record
/// `init_user_reputation` opened, is the sum of the points of the staked editions.
pub proof fn lemma_stake_calls_give_sum_of_points(
    opened: InitUserReputation,
    open_bump: u8,
    stakes: Seq<Stake>,
    bumps: Seq<u8>,
)
    requires
        is_stake_sequence(opened, open_bump, stakes, bumps),
    ensures
        stakes.last().staked(bumps.last()).reputation_info.reputation_point == total_points(
            staked_attributes(stakes),
        ),
{
    let n = stakes.len() - 1;
    let attrs = staked_attributes(stakes);
    lemma_stake_sequence_prefix(opened, open_bump, stakes, bumps, n);
    assert(stakes[n].point_fits());
    assert(attrs.drop_last() =~= attrs.take(n));
    assert(attrs.last() == stakes[n].nft_attribute);
    lemma_reputation_is_sum_of_points(opened, open_bump, attrs);
}

/// The order in which editions are staked does not change the reputation point they give.
pub proof fn lemma_staking_order_is_irrelevant(
    start: int,
    staked: Seq<NftAttribute>,
    reordered: Seq<NftAttribute>,
)
    requires
        staked.to_multiset() == reordered.to_multiset(),
    ensures
        reputation_after(start, staked) == reputation_after(start, reordered),
{
    assert(commutative_foldl(stake_step()));
    lemma_fold_left_permutation(staked, reordered, stake_step(), start);
}

/// An edition is worth its attributes' sum with one of them counted twice: the point of
/// an edition of a known kind lies between the sum of its attributes and twice that sum,
/// so staking never lowers a reputation.
pub proof fn lemma_point_bounds(kind: u8, health: u32, mana: u32, power: u32)
    requires
        is_known_kind(kind),
    ensures
        health + mana + power <= spec_nft_point(kind, health, mana, power),
        spec_nft_point(kind, health, mana, power) <= 2 * (health + mana + power),
{
}

/// Only the owner of an edition can stake it, and only into the owner's own reputation:
/// the accounts of a stake that passes its constraints name the staker as the holder of
/// the edition's token, the owner of its attribute record and the owner of the
/// reputation record it raises, and the edition's token moves to the escrow's account.
pub proof fn lemma_stake_credits_only_the_owner(accounts: Stake)
    requires
        accounts.constraint_error() is None,
    ensures
        accounts.user_token_account.owner@ == accounts.user_wallet@,
        accounts.nft_attribute.user_wallet@ == accounts.user_wallet@,
        accounts.reputation_info.user_wallet@ == accounts.user_wallet@,
        accounts.nft_authority_token_account.owner@ == accounts.nft_authority@,
        accounts.nft_authority_token_account.mint@ == accounts.user_token_account.mint@,
{
}

/// An edition always carries the kind of the master edition it was minted from, so an
/// edition of a master edition of a known kind is of a known kind.
pub proof fn lemma_edition_keeps_master_kind(accounts: MintEdition, bump: u8, args: MintEditionArgs)
    ensures
        accounts.minted(bump, args).nft_attribute.nft_kind == accounts.nft_kind.nft_kind,
        is_known_kind(accounts.nft_kind.nft_kind) ==> is_known_kind(
            accounts.minted(bump, args).nft_attribute.nft_kind,
        ),
{
}

/// The point an edition earns follows the kind its master edition was escrowed with and
/// the attributes chosen when it was minted: escrow a master edition of a known kind,
/// mint an edition of it, stake that edition, and the user's reputation grows by the
/// point of that kind and those attributes.
pub proof fn lemma_edition_point_follows_master_kind(
    escrow: EscrowMasterNft,
    kind_bump: u8,
    escrow_args: EscrowMasterNftArgs,
    mint: MintEdition,
    attribute_bump: u8,
    mint_args: MintEditionArgs,
    stake: Stake,
    stake_bump: u8,
)
    requires
        is_known_kind(escrow_args.kind),
        mint.nft_kind == escrow.escrowed(kind_bump, escrow_args).nft_type,
        stake.nft_attribute == mint.minted(attribute_bump, mint_args).nft_attribute,
        stake.point_fits(),
    ensures
        stake.nft_attribute.nft_kind == escrow_args.kind,
        stake.staked(stake_bump).reputation_info.reputation_point == stake.reputation_info.reputation_point
            + spec_nft_point(escrow_args.kind, mint_args.health, mint_args.mana, mint_args.power),
{
}

/// The README's point formulas, in plain arithmetic: a strength edition counts its
/// health twice, an agility edition its power, an intelligence edition its mana; the
/// known kinds are exactly 0, 1 and 2.
pub proof fn lemma_point_formulas(health: u32, mana: u32, power: u32, kind: u8)
    ensures
        spec_nft_point(0, health, mana, power) == 2 * health + mana + power,
        spec_nft_point(1, health, mana, power) == health + mana + 2 * power,
        spec_nft_point(2, health, mana, power) == health + 2 * mana + power,
        is_known_kind(kind) <==> kind <= 2,
{
}

/// Escrowing a master edition records that master edition's mint with the kind given,
/// and moves one token from the admin's token account to the escrow's, signed by the admin.
pub proof fn lemma_escrow_records_master_mint(
    accounts: EscrowMasterNft,
    bump: u8,
    args: EscrowMasterNftArgs,
)
    ensures
        accounts.escrowed(bump, args).nft_type.nft_mint == accounts.nft_mint,
        accounts.escrowed(bump, args).nft_type.nft_kind == args.kind,
        accounts.escrowed(bump, args).nft_type.bump == bump,
        accounts.escrowed(bump, args).admin == accounts.admin,
        accounts.escrowed(bump, args).nft_mint == accounts.nft_mint,
        accounts.spec_transfer().from == accounts.admin_token_account.key,
        accounts.spec_transfer().to == accounts.nft_authority_token_account.key,
        accounts.spec_transfer().authority == accounts.admin,
        accounts.spec_transfer().amount == 1,
{
}

/// A reputation record is opened for the signing wallet, at zero points.
pub proof fn lemma_reputation_record_belongs_to_user(accounts: InitUserReputation, bump: u8)
    ensures
        accounts.opened(bump).reputation_info.user_wallet == accounts.user_wallet,
        accounts.opened(bump).reputation_info.reputation_point == 0,
        accounts.opened(bump).reputation_info.bump == bump,
        accounts.opened(bump).user_wallet == accounts.user_wallet,
{
}

/// Staking moves one token of the edition from the staker's token account into the
/// escrow's, signed by the staker, whatever the edition's kind; it records the stake for
/// the staker and the edition's mint, and raises the staker's reputation by the sum of
/// the attributes with the kind's attribute counted twice.
pub proof fn lemma_stake_moves_edition_into_escrow(accounts: Stake, bump: u8)
    ensures
        accounts.spec_transfer().from == accounts.user_token_account.key,
        accounts.spec_transfer().to == accounts.nft_authority_token_account.key,
        accounts.spec_transfer().authority == accounts.user_wallet,
        accounts.spec_transfer().amount == 1,
        accounts.staked(bump).stake_info.user_wallet == accounts.user_wallet,
        accounts.staked(bump).stake_info.nft_mint == accounts.nft_mint,
        accounts.staked(bump).stake_info.bump == bump,
        accounts.staked(bump).nft_attribute == accounts.nft_attribute,
        accounts.staked(bump).reputation_info.user_wallet == accounts.reputation_info.user_wallet,
        accounts.point_fits() && accounts.nft_attribute.nft_kind <= 2 ==> accounts.staked(
            bump,
        ).reputation_info.reputation_point == accounts.reputation_info.reputation_point
            + accounts.nft_attribute.health + accounts.nft_attribute.mana
            + accounts.nft_attribute.power + (if accounts.nft_attribute.nft_kind == 0 {
            accounts.nft_attribute.health
        } else if accounts.nft_attribute.nft_kind == 1 {
            accounts.nft_attribute.power
        } else {
            accounts.nft_attribute.mana
        }),
{
}

/// The edition instruction of a mint goes to the mint's token metadata program and
/// mints edition number `edition` of the escrowed master edition: the user pays, holds
/// the mint authority and owns nothing else in it, while the escrow signs as the holder
/// of the master edition token in its vault.
pub proof fn lemma_edition_instruction_roles(accounts: MintEdition, ix: Instruction, edition: u64)
    requires
        accounts.is_edition_instruction(ix, edition),
    ensures
        ix.program_id@ == accounts.token_metadata_program@,
        ix.accounts@.len() == 13,
        ix.accounts@[0].pubkey@ == accounts.new_metadata@,
        ix.accounts@[1].pubkey@ == accounts.new_edition@,
        ix.accounts@[2].pubkey@ == accounts.master_edition@,
        ix.accounts@[3].pubkey@ == accounts.new_mint@,
        ix.accounts@[5].pubkey@ == accounts.user_wallet@ && ix.accounts@[5].is_signer,
        ix.accounts@[6].pubkey@ == accounts.user_wallet@ && ix.accounts@[6].is_signer,
        ix.accounts@[7].pubkey@ == accounts.nft_authority@ && ix.accounts@[7].is_signer,
        ix.accounts@[8].pubkey@ == accounts.master_edtion_nft_vault.key@,
        ix.accounts@[9].pubkey@ == accounts.user_wallet@,
        ix.accounts@[10].pubkey@ == accounts.master_edition_metadata@,
        ix.data@.len() == 9,
        ix.data@[0] == 11,
{
}

/// The edition call is handed, in order, the token metadata program, the new metadata,
/// the new edition, the master edition, the new mint, the edition marker, the user, the
/// escrow, the escrow's vault, the user, the master edition's metadata, the master
/// edition's mint, the token program and the system program.
pub proof fn lemma_edition_call_accounts(accounts: MintEdition)
    ensures
        accounts.spec_edition_accounts() == seq![
            accounts.token_metadata_program,
            accounts.new_metadata,
            accounts.new_edition,
            accounts.master_edition,
            accounts.new_mint,
            accounts.edition_marker,
            accounts.user_wallet,
            accounts.nft_authority,
            accounts.master_edtion_nft_vault.key,
            accounts.user_wallet,
            accounts.master_edition_metadata,
            accounts.master_edtion_nft_mint,
            accounts.token_program,
            accounts.system_program,
        ],
{
}

/// Minting an edition records, for the minting user and the new mint, exactly the
/// health, mana and power chosen at mint and the master edition's kind, and mints one
/// token of the new mint into the user's token account.
pub proof fn lemma_mint_records_chosen_attributes(
    accounts: MintEdition,
    bump: u8,
    args: MintEditionArgs,
)
    ensures
        accounts.minted(bump, args).nft_attribute.health == args.health,
        accounts.minted(bump, args).nft_attribute.mana == args.mana,
        accounts.minted(bump, args).nft_attribute.power == args.power,
        accounts.minted(bump, args).nft_attribute.nft_kind == accounts.nft_kind.nft_kind,
        accounts.minted(bump, args).nft_attribute.user_wallet == accounts.user_wallet,
        accounts.minted(bump, args).nft_attribute.nft_mint == accounts.new_mint,
        accounts.minted(bump, args).nft_attribute.bump == bump,
        accounts.minted(bump, args).nft_kind == accounts.nft_kind,
        accounts.spec_mint_to().mint == accounts.new_mint,
        accounts.spec_mint_to().to == accounts.user_token_account.key,
        accounts.spec_mint_to().authority == accounts.user_wallet,
        accounts.spec_mint_to().amount == 1,
{
}

} // verus!
