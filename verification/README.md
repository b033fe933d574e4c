# humanship

The logic of the humanship membership program for Solana, verified with Verus.

A membership is a set of slots, each holding a rolling hash of its members and
a member count; members are minted and burned as compressed NFTs through the
Bubblegum program. The library states and proves how the program's accounts are
laid out and how each instruction changes them.

- `src/codec.rs`: little-endian integers, addresses, in-place writes.
- `src/config.rs`: the program's enumerations and the 157-byte membership
  configuration, with its encoding and decoding.
- `src/account.rs`: the membership account (discriminator, configuration, slot
  table) and how members join and leave slots.
- `src/group.rs`: the membership group account, its counters, and who may act
  on it.
- `src/sizing.rs`: planning a new membership and growing its account.
- `src/cnft.rs`: compressed NFT metadata and its Borsh encoding.
- `src/cpi.rs`: the Bubblegum `mint_to_collection_v1` and `burn` instructions.
- `src/membership.rs`: deletion and the steps of a registration.
- `src/seeds.rs`: the seeds of the addresses the program signs for.
- `src/hashing.rs`: the Keccak digest and Bubblegum asset ids, taken from
  `solana-program` and `mpl-bubblegum`.

`app/` holds what runs on chain around the library: reading and writing
account data, creating and reallocating accounts, invoking Bubblegum, and the
Anchor types with their Borsh derives.
