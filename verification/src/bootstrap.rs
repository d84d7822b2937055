//! Invocation parameters and the first bootstrap decisions: which source the
//! configuration comes from, and whether this image may emit the one-time
//! protocol handshake.

use crate::restart::{emits_handshake, has_flag};
use vstd::prelude::*;

verus! {

/// Immutable snapshot of the invocation parameters, created once per process
/// image: the configuration source identifier, the flag suppressing protocol
/// re-initialization, the flag disabling pause-on-idle behaviour, and the
/// bound on dedicated blocking worker threads.
#[derive(Debug, Clone)]
pub struct CliArgs {
    pub config: String,
    pub never_pause: bool,
    pub no_init: bool,
    pub blocking_threads: usize,
}

/// The reserved identifier that directs the resolver to standard input.
pub open spec fn stdin_sentinel() -> Seq<char> {
    "-"@
}

/// Where configuration comes from.
#[derive(Debug, Clone, Copy, PartialEq, Eq, Structural)]
pub enum ConfigSource {
    Stdin,
    File,
}

/// Decide the configuration source: the sentinel identifier selects standard
/// input, any other identifier names a file to resolve.
pub fn select_source(identifier: &str) -> (r: ConfigSource)
    ensures
        (r == ConfigSource::Stdin) <==> identifier@ == stdin_sentinel(),
{
    proof {
        reveal_strlit("-");
    }
    let n = identifier.unicode_len();
    if n == 1 && identifier.get_char(0) == '-' {
        proof {
            assert(identifier@ =~= stdin_sentinel());
        }
        ConfigSource::Stdin
    } else {
        ConfigSource::File
    }
}

/// The handshake decision: the protocol initialization call is made exactly
/// when re-initialization is not suppressed. It must come before any other
/// protocol write; a replacement image starts with the suppression flag set,
/// which is what keeps the handshake from ever running twice (see the
/// lemmas on the replacement chain).
pub fn should_emit_handshake(args: &CliArgs) -> (r: bool)
    ensures
        r == !args.no_init,
{
    !args.no_init
}

/// The runtime decision agrees with the argument-vector model: whenever the
/// suppression option mirrors the idempotency flag's presence in the image's
/// argument vector — which is what the flag is for — the handshake is
/// emitted exactly for images whose vector lacks the flag.
pub proof fn lemma_decision_matches_argv(args: CliArgs, v: Seq<Seq<char>>)
    requires
        args.no_init == has_flag(v),
    ensures
        (!args.no_init) == emits_handshake(v),
{
}

} // verus!
