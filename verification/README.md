# solana_challenge

A Solana program, written with Anchor, in which an admin escrows master edition NFTs of
three kinds (strength, agility, intelligence), users mint editions of them with chosen
attributes (health, mana, power), and users stake editions to earn reputation points:

    strength:     point = health * 2 + mana + power
    agility:      point = health + mana + power * 2
    intelligence: point = health + mana * 2 + power
    reputation  = sum of the points of the staked editions

## Layout

- `src/` is the verified library. Each instruction (`escrow_master_nft`, `mint_edition`,
  `init_user_reputation`, `stake`) takes the accounts it reads as plain values, checks
  their constraints, updates the account records, and returns the token or metadata
  calls still to be made. `src/laws.rs` proves the properties that span instructions
  (reputation is the sum of staked points, in any order; an edition's point follows its
  master edition's kind). `src/metadata.rs` and `src/pubkey.rs` hold the calls into
  `mpl_token_metadata` and `solana_program`.
- `app/` is the Anchor program around the library: account loading, the token and
  metadata calls, and conversions.
- `tests/` runs the library on concrete accounts.

The seeds of the program addresses are in `src/constants.rs`.
