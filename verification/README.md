# fedimint_escrow

A marketplace escrow module for a federated e-cash mint, written in Verus.
A customer's input locks an amount for an order; an output later releases it,
to the supplier it names on fulfil or back to the customer on cancel.

- `src/common.rs`, `src/common/config.rs`: the types client and guardians share.
- `src/server.rs`, `src/server/db.rs`: the guardian's rules for accepting inputs
  and outputs, the audit of what the federation owes, and the module's setup.
- `src/server/laws.rs`: properties proved across calls — an escrow releases what
  it locked, to the party its resolution names, at most once; an order has at
  most one active escrow; funds are conserved over any sequence of items; the
  audit never counts an escrow as an asset.
- `src/client.rs`, `src/client/db.rs`: the client's record of its escrows and the
  inputs and outputs it builds.
- `src/dump.rs`, `src/text.rs`: which tables a database dump covers.
- `app/`: the module as the federation framework loads it — database access,
  encodings and the framework's traits — calling the library for every decision.

The stored escrow record also keeps `released_to`, the party a resolved escrow
paid; records written without that field do not decode.
