# executor

A Soroban contract that takes requests to execute a message on another chain, with its logic
verified by Verus.

A request comes with a signed quote. The contract checks that the quote is for the chain it runs on
and for the requested one and has not expired, checks the form of the request, and announces the
request by an event. It does not check the signature of the quote and moves no funds: both are left
to those who act on the event.

- `src/contract.rs`: the stored state, the entry points and the event
- `src/quote.rs`, `src/request.rs`: the two byte formats
- `src/bytes.rs`: fixed-width fields in a host byte array
- `src/error.rs`: the errors and their numbers
- `src/laws.rs`: what holds of the contract as a whole
- `src/sdk.rs`: what is relied on of `soroban_sdk`; the only part of `src/` that is not proved
- `app/`: the contract as the host sees it, with storage and event publishing, in ordinary Rust that
  Verus does not read
