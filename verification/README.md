# nvnmos_gst

The core of a set of GStreamer elements for NMOS, verified with Verus, and the elements
around it.

- `avsyncvideotestsrc` and `avsyncaudiotestsrc` emit a bar and a tone pip that are locked to
  each other by running time alone. Every video frame carries its index as SMPTE 291
  ancillary data, and a CEA-708 caption where a pip falls in it.
- `nmossink` and `nmossrc` wrap a transport chain as an NMOS sender or receiver. A daemon
  tells them when to swap their chain.
- `nmosaudiochannelmap` routes audio channels as an IS-08 controller says.

## Layout

- `src/` is the library: what the elements compute and decide. Every function has a
  contract; laws that relate several functions stand beside them as public proof functions.
  - `signal`, `ancillary`, `captions`, `videosrc`, `audiosrc`, `clock_wait`, `analyze`: the
    test signal, and how it is recovered.
  - `caps`, `essence_caps`, `fraction`, `text`, `json`, `types`: the values that the rest is
    made of.
  - `flow_def`, `domain`, `sdp`, `network_services`, `iface`: the documents and addresses that
    describe a sender or receiver.
  - `property`, `nmossink`, `nmossrc`, `session`: the settings of the elements.
  - `chain`, `inner`, `nvdsudp`: which elements make up a chain, and how they are set.
  - `rebuild`, `activation`, `state_change`, `daemon`: how a chain is swapped, an activation
    carried out, a state changed and a session held.
  - `channel_mapping`, `channel_mapping_session`, `nmosaudiochannelmap`: channel mapping.
- `tests/` runs the library on concrete values.
- `app/` is ordinary Rust around the library: GStreamer, the daemon's RPC, files and network
  interfaces, the readers of JSON records, and what is computed in floating point.

Calls into `cdp-types`, `cea708-types`, `serde_json`, `url` and `regex` stand in `src/` behind
small functions whose contracts are trusted; each says what it claims of the call.
