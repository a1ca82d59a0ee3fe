# tuicr

The parts of `tuicr`, a review tool for the terminal, that decide how the diff of a large
pull request is built and where the releases of the program are found. The library is
written in Verus: every function states what it returns, and Verus proves it.

- `src/text.rs`: trimming, prefixes and suffixes, decimal numbers.
- `src/command.rs`: the work that the library asks for, the replies, and the errors.
- `src/pull_request.rs`: the details of a pull request.
- `src/local_checkout.rs`: the diff from a checkout that stands on the head.
- `src/temporary_clone.rs`: the diff from a clone of its own.
- `src/large_diff.rs`: the two routes together, one turn at a time.
- `src/run.rs`: what holds of whole runs.
- `src/isolation.rs`: the exact commands that the diff rests on.
- `src/version.rs`, `src/source.rs`: versions, and the addresses and names of releases.

`app/` runs `git` and `gh`, makes the temporary directory and answers the library. The texts
of versions come from the crate `semver`, through the one function of `src/version.rs` that
is believed and not proved.
