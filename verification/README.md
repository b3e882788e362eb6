# lending_indexer

Decides what an indexer of lending offers on an Elements chain does with each
transaction: which watched outputs the transaction spends, which records change,
and which outputs are watched from then on.

- `src/` is the library, verified with Verus. It performs no I/O. Trackers hand out
  their decisions as steps, and laws state what holds of them: a restart from the
  stored records watches what was watched before, an aborted block leaves no trace,
  an offer is carried by at most one watched output, an asset is registered only with
  its verified contract. The laws stand in the modules whose names end in `_laws`,
  and at the end of `cache`, `factory_creation`, `registry` and `tx_out_scan`.
- `app/` carries the steps out against a database.
- `tests/` runs the library on concrete transactions.

Decoding of transactions, transaction ids, script classification and hexadecimal
output come from the `elements` crate; what is relied on of it stands in
`src/chain.rs`, and holds on a 64-bit machine.
