# nft_pass_book

A Solana program that sells NFT passes from pass books: an authority creates a pass
book with a price, activates it, edits or deletes it, and buyers print editions of its
master edition, paying the creators, the market authority and the referrer their parts
of the price.

The logic is written in Verus and verified; the on-chain shell around it is ordinary
Rust.

- `src/` — the verified library.
  - `state/` — the accounts (pass books, stores, payouts, trade histories, memberships,
    uses) with their byte format, the proof that each reads back as written, and their
    state changes.
  - `instruction.rs` — the instructions, their encoding and the builders of their
    account lists.
  - `processor/` — what each instruction does to the accounts it is given: the checks,
    the errors, the new data, and what is left to do on chain (accounts to create,
    payments to make). `processor/buy_pass_book.rs` also proves that a purchase never
    pays out more than the price, pays only into the payout accounts listed for it and
    never takes a pass book past its maximum supply; a wallet buys a pass once.
  - `pda.rs`, `token.rs`, `pubkey.rs` — addresses, and what the program reads of the
    token and token metadata programs' accounts.
  - `utils.rs`, `codec.rs`, `text.rs`, `error.rs` — checks, share arithmetic, the byte
    format, padding of texts, errors.
  - `master_pass/` — the master pass program: its accounts, its instruction, its
    processor (the checks and writes of creating a master pass, and what is left for the
    token program) and the check of which setting each kind of pass needs.
- `app/` — the program's entry point (and the master pass program's processing): it hands the accounts to the library, performs the
  account creations, the printing of editions and the transfers, and writes the new
  data back.
- `tests/` — tests of the library on concrete accounts and values.
