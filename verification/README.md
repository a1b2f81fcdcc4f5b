# arti-bench

A simple benchmarking utility for Arti. It sets up a local TCP server and has Arti connect back to
it through a `chutney` network of Tor nodes, measuring the upload and download bandwidth.

`src/` is the library, written and proved in Verus:

- `time`: timestamps and the spans between them
- `timing`: the clocks noted during an exchange, and the summary taken from them
- `payload`: the payloads, and the check that they arrive intact
- `exchange`: the course of one exchange, for the server and for the client
- `run`: the course of a benchmark
- `order`: the total order of floating-point numbers, on their bit patterns
- `results`: the statistics of a benchmark, and the results of all benchmarks
- `report`: the summary line

`app/` is the program around it: the command line, the sockets, the clock, Arti itself, JSON, and
everything that is floating-point arithmetic. The library handles a floating-point figure as its
bit pattern, which is all it takes to order figures and to pick among them.

Of the code outside the library, the proofs take one thing for granted: that drawing a random byte
with `rand` gives some byte.
