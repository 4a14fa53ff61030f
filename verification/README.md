# solana_programs

The decision logic of five Solana programs and of a console price-guessing
game, written in Verus and proved against contracts.

- `src/amm` — constant-product pool: LP minting (square-root and proportional
  rules), swaps with a fee, pro-rata withdrawals, config updates.
- `src/escrow` — SOL-for-USDC escrow: make, take, cancel.
- `src/dungeon_vault` — elimination game: entry, door choices, VRF trap draw,
  round resolution, payout of the vault.
- `src/nft_marketplace` — listings, offers, sales and their fee split.
- `src/nft_staking` — staking of NFTs with freeze period and daily rewards.
- `src/price_oracle` — the guessing game's state machine and its hints.
- `src/decimal.rs`, `src/pubkey.rs` — number parsing and 32-byte addresses.

Each program module holds its accounts as plain values, a handler per
instruction whose `ensures` gives the resulting accounts or the error, and a
`laws.rs` with the properties that hold across instructions.

`app/` holds what the verifier does not see: the Anchor account glue (account
checks, lamport/token/NFT transfers, events, VRF and rollup calls) and the
console front end of the game.
