# iroh_transport

A libp2p transport on iroh's QUIC stack, verified with Verus.

- `src/` is the library: what the transport decides. `identity` derives endpoint ids and peer ids,
  `transport` and `protocol` hold what is asked of whom when the transport starts, listens, dials
  and accepts, `connection` and `stream` hold the state of a connection and of its streams,
  `bandwidth` counts bytes, and `stack` lays out the layers of the transport that this one is
  combined with. Functions whose names begin with `law_` state what holds across several functions.
- `tests/` runs the library on concrete values, with iroh and libp2p linked.
- `app/` performs the input and output, and implements the traits of libp2p, iroh and futures.

An operation that asks other parties one thing after the other is a chain of values: each value says
what to ask next and takes the reply, which leads to the next value or to the error that the
operation ends with.
