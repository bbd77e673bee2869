//! Facts about character sequences: space-delimited tokens and substring
//! occurrence. Both the request line and the serialized status line are
//! split on ASCII space, and the directory listing contracts speak of
//! which fragments occur in the rendered page.

use vstd::prelude::*;

verus! {

/// The index just past the token that starts at `from`: the position of the
/// first space at or after `from`, or the end of the sequence if there is none.
pub open spec fn token_end(s: Seq<char>, from: int) -> int
    decreases s.len() - from,
{
    if from < 0 || from >= s.len() {
        s.len() as int
    } else if s[from] == ' ' {
        from
    } else {
        token_end(s, from + 1)
    }
}

/// `token_end(s, from)` is exactly the first space position at or after
/// `from`, witnessed by a space-free stretch ending at a space or at the end.
pub proof fn lemma_token_end_at(s: Seq<char>, from: int, i: int)
    requires
        0 <= from <= i <= s.len(),
        forall|j: int| from <= j < i ==> s[j] != ' ',
        i == s.len() || s[i] == ' ',
    ensures
        token_end(s, from) == i,
    decreases i - from,
{
    if from < i {
        lemma_token_end_at(s, from + 1, i);
    }
}

/// Whether `needle` occurs contiguously somewhere in `hay`.
pub open spec fn occurs_in(hay: Seq<char>, needle: Seq<char>) -> bool {
    exists|k: int|
        0 <= k && k + needle.len() <= hay.len() && #[trigger] hay.subrange(
            k,
            k + needle.len(),
        ) == needle
}

/// A sequence occurs in itself.
pub proof fn lemma_occurs_self(n: Seq<char>)
    ensures
        occurs_in(n, n),
{
    assert(n.subrange(0, 0 + n.len() as int) =~= n);
}

/// An occurrence survives appending on the right.
pub proof fn lemma_occurs_extend_right(x: Seq<char>, y: Seq<char>, n: Seq<char>)
    requires
        occurs_in(x, n),
    ensures
        occurs_in(x + y, n),
{
    let k = choose|k: int|
        0 <= k && k + n.len() <= x.len() && #[trigger] x.subrange(k, k + n.len() as int) == n;
    assert((x + y).subrange(k, k + n.len() as int) =~= x.subrange(k, k + n.len() as int));
}

/// An occurrence survives prepending on the left.
pub proof fn lemma_occurs_extend_left(x: Seq<char>, y: Seq<char>, n: Seq<char>)
    requires
        occurs_in(y, n),
    ensures
        occurs_in(x + y, n),
{
    let k = choose|k: int|
        0 <= k && k + n.len() <= y.len() && #[trigger] y.subrange(k, k + n.len() as int) == n;
    assert((x + y).subrange(x.len() + k, x.len() + k + n.len() as int) =~= y.subrange(
        k,
        k + n.len() as int,
    ));
}

} // verus!
