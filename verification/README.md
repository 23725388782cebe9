# block_pipeline

The verified core of a block execution pipeline. Blocks are executed faster than
their state reaches the disk; this library holds what lies between the two, and the
part of the pipeline that talks to the system contracts.

* `cache`: the cache of merged state and trie nodes. `cache::model` is its
  mathematical state and what each operation does to it, `cache::laws` is what holds
  of the cache as a whole.
* `block_view`: views that read the cache first and the database where the cache
  does not know, and the identifiers of recent blocks.
* `onchain_config`: configuration in system contracts (`consensus_config`, `dkg`,
  `validator_set`) and system transactions (`metadata_txn`). `abi` and `api` say
  what the bytes on both sides are, `read_back` that they can be read back.
* `evm_state`, `execution`, `tx_env`, `state`, `trie_updates`, `primitives`, `u256`,
  `parallel_tx`: the values that the rest is about.

Everything under `src/` is verified with Verus. What the library takes from other
crates (the concurrent map, the contract ABI, BCS, 256-bit integers, the state map of
the virtual machine) stands behind functions marked `external_body`; the comment
above each says what is believed of it.

`app/` puts the library to work: threads, clocks, metrics, the virtual machine, the
database and the contract calls. Nothing there is verified. Where a function of the
library requires something, `app/` tests it first.
