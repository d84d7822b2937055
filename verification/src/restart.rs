//! The argument vector carried across an in-place process replacement.
//!
//! A restarted image has no memory of its predecessor, so the one fact it
//! must know — that the protocol handshake has already been emitted — travels
//! as a single flag appended to the argument vector. The functions here
//! compute that vector; the lemmas state that the flag, once present, is
//! stable under any number of further replacements, and that the handshake
//! can therefore run at most once across a whole restart sequence.

use vstd::prelude::*;
use vstd::string::*;

verus! {

/// The idempotency flag that suppresses the protocol handshake in a
/// replacement image.
pub open spec fn idempotency_flag() -> Seq<char> {
    "--no-init"@
}

/// The flag as a runnable value.
pub fn no_init_flag() -> (r: String)
    ensures
        r@ == idempotency_flag(),
{
    String::from_str("--no-init")
}

/// The character sequences of an argument vector.
pub open spec fn views(args: Seq<String>) -> Seq<Seq<char>> {
    args.map_values(|a: String| a@)
}

/// Whether the idempotency flag stands anywhere in an argument vector.
pub open spec fn has_flag(v: Seq<Seq<char>>) -> bool {
    exists|i: int| 0 <= i < v.len() && v[i] == idempotency_flag()
}

/// The argument vector a replacement image is started with: the original
/// vector, with the idempotency flag appended when it is not already there.
pub open spec fn replacement_of(v: Seq<Seq<char>>) -> Seq<Seq<char>> {
    if has_flag(v) {
        v
    } else {
        v.push(idempotency_flag())
    }
}

/// Whether the idempotency flag is present in the given arguments.
pub fn contains_flag(args: &Vec<String>) -> (r: bool)
    ensures
        r == has_flag(views(args@)),
{
    let flag = no_init_flag();
    let mut i: usize = 0;
    let mut found = false;
    while i < args.len()
        invariant
            i <= args.len(),
            flag@ == idempotency_flag(),
            found == exists|j: int| 0 <= j < i && args@[j]@ == idempotency_flag(),
        decreases args.len() - i,
    {
        if args[i].eq(&flag) {
            found = true;
        }
        i += 1;
    }
    assert(found == has_flag(views(args@))) by {
        assert(forall|j: int|
            0 <= j < args@.len() ==> views(args@)[j] == #[trigger] args@[j]@);
    }
    found
}

/// Turn an argument vector into the one its replacement image is started
/// with: append the idempotency flag unless it is already present.
pub fn append_idempotency_flag(args: &mut Vec<String>)
    ensures
        views(final(args)@) == replacement_of(views(old(args)@)),
        has_flag(views(final(args)@)),
{
    let present = contains_flag(args);
    if !present {
        let ghost before = args@;
        args.push(no_init_flag());
        assert(views(args@) =~= views(before).push(idempotency_flag()));
        assert(views(args@)[before.len() as int] == idempotency_flag());
    }
}

/// The argument vector after a given number of in-place replacements.
pub open spec fn replacement_chain(v: Seq<Seq<char>>, n: nat) -> Seq<Seq<char>>
    decreases n,
{
    if n == 0 {
        v
    } else {
        replacement_of(replacement_chain(v, (n - 1) as nat))
    }
}

/// Every replacement leaves the flag present in the new image's arguments.
pub proof fn lemma_replacement_has_flag(v: Seq<Seq<char>>)
    ensures
        has_flag(replacement_of(v)),
{
    if !has_flag(v) {
        assert(replacement_of(v)[v.len() as int] == idempotency_flag());
    }
}

/// The flag, once present, is stable: a vector that holds it passes through
/// any number of replacements unchanged.
pub proof fn lemma_flag_stable(v: Seq<Seq<char>>, n: nat)
    requires
        has_flag(v),
    ensures
        replacement_chain(v, n) == v,
    decreases n,
{
    if n > 0 {
        lemma_flag_stable(v, (n - 1) as nat);
    }
}

/// From the first replacement on, every image of a restart sequence carries
/// the flag, however the sequence started.
pub proof fn lemma_flag_present_after_replacement(v: Seq<Seq<char>>, n: nat)
    requires
        n >= 1,
    ensures
        has_flag(replacement_chain(v, n)),
{
    lemma_replacement_has_flag(replacement_chain(v, (n - 1) as nat));
}

/// Whether a process image started with this argument vector emits the
/// protocol handshake: only when the idempotency flag is absent.
pub open spec fn emits_handshake(v: Seq<Seq<char>>) -> bool {
    !has_flag(v)
}

/// Across any restart sequence the handshake is emitted at most once: no two
/// distinct images of one chain both emit it.
pub proof fn lemma_handshake_at_most_once(v: Seq<Seq<char>>, i: nat, j: nat)
    requires
        i < j,
    ensures
        !(emits_handshake(replacement_chain(v, i)) && emits_handshake(
            replacement_chain(v, j),
        )),
{
    lemma_flag_present_after_replacement(v, j);
}

/// A sequence whose first image already starts with the flag set never emits
/// the handshake at all.
pub proof fn lemma_handshake_never_when_flag_set(v: Seq<Seq<char>>, n: nat)
    requires
        has_flag(v),
    ensures
        !emits_handshake(replacement_chain(v, n)),
{
    lemma_flag_stable(v, n);
}

} // verus!
