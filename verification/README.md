# eth_rpc_client

A client for Ethereum JSON-RPC nodes reached over a websocket, written in
Verus. The library (`src/`) holds every decision of the client, each with a
contract that Verus proves:

- `json`: the JSON model of messages (`JsonValue`, viewed as `Json`), member
  lookup and the field reading of derived struct readers (object or array
  form).
- `text`: hexadecimal and decimal text: `0x` prefixes, base-16 reading of
  `u64`/`i64`, decimal writing.
- `types`: addresses, hashes and 256-bit amounts as plain bytes and limbs, and
  their text as `ethereum_types` writes and reads it.
- `utils`: readers of the hexadecimal fields of the node's objects.
- `abi`: the parameters of a contract call as plain values, and their ABI
  encoding, which `ethabi` computes.
- `request`: the JSON-RPC request envelope and the body of a contract call.
- `response`: the messages of the node and how a document is sorted into an
  error answer, a subscription event or a successful answer.
- `operation`: the request of each node method and the reading of its answer,
  and the events of the `logs` and `newHeads` subscriptions.
- `table`: a table of values under distinct string keys, modelled as a map;
  that no key occurs twice is its type invariant.
- `client`: the routing tables of the request manager (with their laws), the
  block-number cache, and the decisions of the client and its listeners.

`app/` is the asynchronous shell: the websocket task, the listener tasks and
the `Blockchain` handle. It writes the requests as JSON text with
`serde_json` and moves messages between channels, the socket and the clock.
The decisions on messages are the library's; `app/` keeps those on timing
and plumbing: which requests get a subscription channel (by
`is_subscription`), the five-second wait for a subscription answer, the
one-second retries, the ten-second ping and the order of start-up.
