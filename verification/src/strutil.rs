//! Verified character-level helpers on string slices.

use vstd::prelude::*;
use vstd::string::StrSliceExecFns;

verus! {

/// Whether two string slices hold the same characters.
pub fn str_eq(a: &str, b: &str) -> (r: bool)
    ensures
        r == (a@ == b@),
{
    let n = a.unicode_len();
    let m = b.unicode_len();
    if n != m {
        proof {
            if a@ == b@ {
                assert(a@.len() == b@.len());
            }
        }
        return false;
    }
    for i in 0..n
        invariant
            n == a@.len(),
            n == b@.len(),
            forall|j: int| 0 <= j < i ==> a@[j] == b@[j],
    {
        if a.get_char(i) != b.get_char(i) {
            return false;
        }
    }
    proof {
        assert(a@ =~= b@);
    }
    true
}

/// The characters of `s` strictly before the first `stop`, or all of `s`
/// when no `stop` occurs.
pub open spec fn spec_prefix_until(s: Seq<char>, stop: char) -> Seq<char>
    decreases s.len(),
{
    if s.len() == 0 {
        s
    } else if s[0] == stop {
        Seq::empty()
    } else {
        seq![s[0]] + spec_prefix_until(s.drop_first(), stop)
    }
}

/// When the first `i` characters are not `stop`, the prefix is those
/// characters followed by the prefix of the rest.
proof fn lemma_prefix_until_skip(s: Seq<char>, stop: char, i: int)
    requires
        0 <= i <= s.len(),
        forall|j: int| 0 <= j < i ==> s[j] != stop,
    ensures
        spec_prefix_until(s, stop) == s.take(i) + spec_prefix_until(s.skip(i), stop),
    decreases i,
{
    if i == 0 {
        assert(s.take(0) + spec_prefix_until(s.skip(0), stop) =~= spec_prefix_until(s, stop)) by {
            assert(s.skip(0) =~= s);
            assert(s.take(0) =~= Seq::<char>::empty());
        }
    } else {
        lemma_prefix_until_skip(s, stop, i - 1);
        assert(s.skip(i - 1).drop_first() =~= s.skip(i));
        assert(s.skip(i - 1).len() > 0);
        assert(s.skip(i - 1)[0] == s[i - 1]);
        assert(spec_prefix_until(s.skip(i - 1), stop) == seq![s[i - 1]] + spec_prefix_until(
            s.skip(i),
            stop,
        ));
        assert(s.take(i - 1) + (seq![s[i - 1]] + spec_prefix_until(s.skip(i), stop)) =~= s.take(i)
            + spec_prefix_until(s.skip(i), stop));
    }
}

/// A stopped scan: when `s[i]` is the first `stop`, the prefix is the first
/// `i` characters.
proof fn lemma_prefix_until_found(s: Seq<char>, stop: char, i: int)
    requires
        0 <= i < s.len(),
        forall|j: int| 0 <= j < i ==> s[j] != stop,
        s[i] == stop,
    ensures
        spec_prefix_until(s, stop) == s.take(i),
{
    lemma_prefix_until_skip(s, stop, i);
    assert(s.skip(i).len() > 0);
    assert(s.skip(i)[0] == stop);
    assert(spec_prefix_until(s.skip(i), stop) =~= Seq::<char>::empty());
    assert(s.take(i) + Seq::<char>::empty() =~= s.take(i));
}

/// An exhausted scan: when no `stop` occurs, the prefix is all of `s`.
proof fn lemma_prefix_until_absent(s: Seq<char>, stop: char)
    requires
        forall|j: int| 0 <= j < s.len() ==> s[j] != stop,
    ensures
        spec_prefix_until(s, stop) == s,
    decreases s.len(),
{
    if s.len() > 0 {
        lemma_prefix_until_absent(s.drop_first(), stop);
        assert(seq![s[0]] + s.drop_first() =~= s);
    }
}

/// The characters of `s` strictly before the first `stop`, as a fresh
/// string; all of `s` when no `stop` occurs.
pub fn prefix_until(s: &str, stop: char) -> (r: String)
    ensures
        r@ == spec_prefix_until(s@, stop),
{
    let n = s.unicode_len();
    for i in 0..n
        invariant
            n == s@.len(),
            forall|j: int| 0 <= j < i ==> s@[j] != stop,
    {
        let c = s.get_char(i);
        if c == stop {
            proof {
                lemma_prefix_until_found(s@, stop, i as int);
                assert(s@.subrange(0, i as int) =~= s@.take(i as int));
            }
            let cut = s.substring_char(0, i);
            return cut.to_owned();
        }
    }
    proof {
        lemma_prefix_until_absent(s@, stop);
        assert(s@.subrange(0, n as int) =~= s@);
    }
    let whole = s.substring_char(0, n);
    whole.to_owned()
}

} // verus!
