use vstd::prelude::*;

verus! {

/// Relies on String::push: appends exactly the one character to the string.
#[verifier::external_body]
pub fn push_char(s: &mut String, c: char)
    ensures
        final(s)@ == old(s)@ + seq![c],
{
    s.push(c)
}

/// Index of the first occurrence of `c` in `s` at or after `from`, or the
/// length of `s` when there is none.
pub open spec fn spec_find<T>(s: Seq<T>, c: T, from: int) -> int
    decreases s.len() - from,
{
    if from < 0 || from >= s.len() {
        s.len() as int
    } else if s[from] == c {
        from
    } else {
        spec_find(s, c, from + 1)
    }
}

pub proof fn lemma_spec_find_range<T>(s: Seq<T>, c: T, from: int)
    requires
        0 <= from <= s.len(),
    ensures
        from <= spec_find(s, c, from) <= s.len(),
        spec_find(s, c, from) < s.len() ==> s[spec_find(s, c, from)] == c,
        forall|j: int| from <= j < spec_find(s, c, from) ==> s[j] != c,
    decreases s.len() - from,
{
    if from < s.len() && s[from] != c {
        lemma_spec_find_range(s, c, from + 1);
    }
}

/// The prefix of a zero-filled buffer before its first NUL byte: how a
/// string read back from the persistent store is delimited.
pub fn trim_at_nul(buf: &[u8]) -> (r: Vec<u8>)
    ensures
        r@ == buf@.take(spec_find(buf@, 0u8, 0)),
{
    let mut r: Vec<u8> = Vec::new();
    let mut i: usize = 0;
    while i < buf.len()
        invariant
            0 <= i <= buf@.len(),
            r@ == buf@.take(i as int),
            forall|j: int| 0 <= j < i ==> buf@[j] != 0u8,
        decreases buf@.len() - i,
    {
        let b = buf[i];
        if b == 0 {
            proof {
                lemma_spec_find_range(buf@, 0u8, 0);
                assert(spec_find(buf@, 0u8, 0) == i) by {
                    let f = spec_find(buf@, 0u8, 0);
                    if f < i {
                        assert(buf@[f] != 0u8);
                    }
                }
            }
            return r;
        }
        proof {
            assert(buf@.take(i as int + 1) =~= buf@.take(i as int) + seq![buf@[i as int]]);
        }
        r.push(b);
        i = i + 1;
    }
    proof {
        lemma_spec_find_range(buf@, 0u8, 0);
        assert(buf@.take(buf@.len() as int) =~= buf@);
        assert(spec_find(buf@, 0u8, 0) == buf@.len());
    }
    r
}

/// First occurrence of `c` in `s` at or after `from`, or `s`'s length.
pub fn find_char(s: &str, c: char, from: usize) -> (r: usize)
    requires
        from <= s@.len(),
    ensures
        r == spec_find(s@, c, from as int),
{
    let n: usize = s.unicode_len();
    let mut i: usize = from;
    while i < n
        invariant
            from <= i <= n,
            n == s@.len(),
            spec_find(s@, c, from as int) == spec_find(s@, c, i as int),
            forall|j: int| from <= j < i ==> s@[j] != c,
        decreases n - i,
    {
        if s.get_char(i) == c {
            return i;
        }
        i = i + 1;
    }
    i
}

/// True exactly when the two strings hold the same characters.
pub fn str_eq(a: &str, b: &str) -> (r: bool)
    ensures
        r == (a@ == b@),
{
    let na: usize = a.unicode_len();
    let nb: usize = b.unicode_len();
    if na != nb {
        assert(a@ != b@) by {
            assert(a@.len() != b@.len());
        }
        return false;
    }
    let mut i: usize = 0;
    while i < na
        invariant
            0 <= i <= na,
            na == a@.len(),
            na == b@.len(),
            forall|j: int| 0 <= j < i ==> a@[j] == b@[j],
        decreases na - i,
    {
        if a.get_char(i) != b.get_char(i) {
            return false;
        }
        i = i + 1;
    }
    proof {
        assert(a@ =~= b@);
    }
    true
}

} // verus!
