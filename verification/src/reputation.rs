use vstd::prelude::*;

use crate::constants::{AGILITY, INTELLIGENCE, STRENGTH};
use crate::error::Errors;
use crate::states::NftAttribute;

verus! {

/// The kinds of master edition: strength, agility and intelligence.
pub open spec fn is_known_kind(kind: u8) -> bool {
    kind == STRENGTH || kind == AGILITY || kind == INTELLIGENCE
}

/// The point an edition of a known kind is worth:
/// strength `health * 2 + mana + power`, agility `health + mana + power * 2`,
/// intelligence `health + mana * 2 + power`.
pub open spec fn spec_nft_point(kind: u8, health: u32, mana: u32, power: u32) -> int {
    if kind == STRENGTH {
        health * 2 + mana + power
    } else if kind == AGILITY {
        health + mana + power * 2
    } else {
        health + mana * 2 + power
    }
}

/// The point of the edition an attribute record describes.
pub open spec fn attribute_point(a: NftAttribute) -> int {
    spec_nft_point(a.nft_kind, a.health, a.mana, a.power)
}

/// A user's reputation after staking the edition `a`.
pub open spec fn staked_reputation(reputation: int, a: NftAttribute) -> int {
    reputation + attribute_point(a)
}

/// Computes the point of an edition of the given kind and attributes; an unknown kind is refused.
pub fn nft_point(kind: u8, health: u32, mana: u32, power: u32) -> (r: Result<u64, Errors>)
    ensures
        match r {
            Ok(p) => is_known_kind(kind) && p == spec_nft_point(kind, health, mana, power),
            Err(e) => !is_known_kind(kind) && e == Errors::InvalidNftKind,
        },
        r is Ok <==> kind <= 2,
        kind == 0 ==> r == Ok::<u64, Errors>((2 * health + mana + power) as u64),
        kind == 1 ==> r == Ok::<u64, Errors>((health + mana + 2 * power) as u64),
        kind == 2 ==> r == Ok::<u64, Errors>((health + 2 * mana + power) as u64),
        kind > 2 ==> r == Err::<u64, Errors>(Errors::InvalidNftKind),
{
    let h = health as u64;
    let m = mana as u64;
    let p = power as u64;
    if kind == STRENGTH {
        Ok(h * 2 + m + p)
    } else if kind == AGILITY {
        Ok(h + m + p * 2)
    } else if kind == INTELLIGENCE {
        Ok(h + m * 2 + p)
    } else {
        Err(Errors::InvalidNftKind)
    }
}

} // verus!
