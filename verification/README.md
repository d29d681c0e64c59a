# phantom_connect

A verified core of the Phantom Connect SDK, written in Verus.

`src/` is the library. Its functions carry contracts that Verus proves; the
few without one (some private helpers, and the calls into the host's
extension detector) are still checked for panics and overflow. It covers
the encodings (base64url, standard base64, percent encoding), the network
tables and their lookups, Sign In With Ethereum messages, request
stamps, browser detection, authentication URLs and redirects, and the
decision logic of the wallet providers (listener registries, connect and
request flows, provider selection, wallet discovery, auto-confirm). Public
`law_*` proof functions state the properties that tie several functions
together, such as round trips and what a removal leaves.

Calls into outside crates (`base64`, `bs58`, `ed25519-dalek`, `rand`,
`chrono`, and a few std text functions) stand behind small trusted wrappers
whose contracts say what those crates do.

`app/` is the runtime around the library: the HTTP client of the KMS API,
file storage, the browser platform (environment, redirects), the injected
Solana and Ethereum strategies and plugins with their asynchronous loops,
the debug logger, and the serde forms of the library's values, and the event
bridge of the injected-wallet wrappers. Its own choices are only those its
outside crates force, such as leaving out a header that reqwest refuses.

`tests/` runs the library on concrete values.
