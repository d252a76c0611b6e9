# eneftigo

The Eneftigo NFT marketplace on NEAR, as a library verified with Verus.

- `src/` is the verified library. Each contract method is a function from the
  contract state, the call context (`context::CallContext`) and its arguments
  to the new state and to what the runtime must do next: transfers, calls of
  the NFT contract, and the arguments of their callbacks. Storage that the
  runtime measures is passed in as a number of bytes.
  - `marketplace`: storage deposits, primary listings (collections minted on
    demand, sold at a fixed price and by bids) and secondary listings (resale
    of single tokens), with their views.
  - `fpo`: fixed-price offerings that hold price proposals in escrow.
  - `marketplace_contract`: the offering board, one offering per NFT contract.
  - `nft`, `nft_contract`: the NFT contracts (collections, minting, NEP-171
    transfers, enumeration).
  - `table`, `offer`, `paging`: a verified association list, the order of
    bids and proposals, and pagination.
  - `parsing`, `digest`: the calls into `chrono`, `url` and `near-sdk`
    that the library trusts.
  - `nft::text`: decimal numerals, verified.
- `tests/` runs the library on concrete scenarios.
- `app/` is the glue to the NEAR runtime (reading the context, sending
  transfers and calls, JSON views), the entry points of the marketplace, the
  offering board and the NFT contract, which run the library's operations
  and act on their results, and the fungible token, which is entirely
  `near-contract-standards`. Alongside the library's state, the entry points
  keep one storage record per deposit, bid, proposal and listing; the bytes
  the runtime charges or releases for them are the storage the library is
  told about.
