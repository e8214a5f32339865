# turbine-q2-26-nft-marketplace

The decisions of an NFT marketplace program, verified with Verus.

A marketplace has an admin, a fee in basis points and a treasury. Makers list assets
for a price (in lamports or in a token); takers buy them with tokens; buyers make,
withdraw and see accepted offers; the admin claims the fees. Each sale and accepted
offer also mints reward tokens to the buyer.

## Layout

- `src/` — the verified library. Each instruction is a struct holding, as plain
  values, what it reads of its accounts. Its methods check who holds which record,
  the mint a price is in, and each token account's owning program, holder and derived
  address (the seeds of program-owned accounts are left to the account loader); they
  decide whether the instruction goes through, say which records it writes,
  and return the requests (lamport and token transfers, mints, closes, asset transfers)
  that it makes of other programs, each with the seeds of the account that signs it.
  - `admin.rs`, `listing.rs`, `buy.rs`, `offer.rs` — the instructions.
  - `fees.rs` — the fee and the split of a payment.
  - `name.rs` — the check of a marketplace name.
  - `cpi.rs` — the requests and the signers' seeds.
  - `state.rs`, `address.rs`, `constants.rs`, `error.rs` — records, addresses, seeds
    and errors.
  - `laws.rs` — properties that span instructions, proved.
- `tests/` — tests of the library on concrete values.
- `app/` — the on-chain program: account loading and validation, the entry points, and
  the calls into the system, token and asset programs that the library's requests
  describe.
