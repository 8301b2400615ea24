# sector_update

Updates of sealed sectors, written in [Verus](https://github.com/verus-lang/verus): data is encoded
into the replica of a sector that was sealed empty, can be decoded or removed again, and the update
is proved, per partition or succinctly.

* `src/` is the library. It decides what an update reads, what is handed to the steps that encode
  and prove, and how each outcome of these steps is answered. All of it is verified, except the
  items of `src/outside.rs`: these call other crates, and their contracts are trusted. What holds
  across the operations stands in `src/laws.rs`.
* `app/` runs the operations over files, with the proof crates.
* `tests/` runs the library next to the proof crates.

## How an operation runs

`encode_into`, for one, goes through these stages:

| the library asks for                  | what came of it goes to                      |
|---------------------------------------|----------------------------------------------|
| `p_aux` in the cache of the sector key | `EncodeAwaitingPAux::p_aux_read`             |
| `t_aux` in the cache of the sector key | `EncodeAwaitingTAux::t_aux_read`             |
| the encoding, with its new tree places | `EncodeAwaitingCommitments::encoded`         |
| the check of the pieces                | `EncodeAwaitingPieces::pieces_verified`      |

The last stage gives the commitments of the new replica, none of which is all zero. A stage can be
used once, and ends the operation where what it was given is a failure.
