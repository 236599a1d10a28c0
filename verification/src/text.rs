//! Small verified helpers on strings: equality, ASCII lowercasing, and
//! path joining, all specified over `Seq<char>` views.

use vstd::prelude::*;

verus! {

/// Lowercase of a single character, restricted to ASCII letters:
/// `'A'..='Z'` map to `'a'..='z'`, everything else is unchanged.
pub open spec fn lower_char_spec(c: char) -> char {
    if 'A' <= c && c <= 'Z' {
        ((c as u8) + 32) as char
    } else {
        c
    }
}

/// ASCII lowercase of a whole character sequence.
pub open spec fn lower_seq(s: Seq<char>) -> Seq<char> {
    s.map_values(|c: char| lower_char_spec(c))
}

/// Lowercasing a character twice is the same as lowercasing it once.
pub proof fn lemma_lower_char_idempotent(c: char)
    ensures
        lower_char_spec(lower_char_spec(c)) == lower_char_spec(c),
{
}

/// Lowercasing a sequence twice is the same as lowercasing it once.
pub proof fn lemma_lower_seq_idempotent(s: Seq<char>)
    ensures
        lower_seq(lower_seq(s)) == lower_seq(s),
{
    assert forall|i: int| 0 <= i < s.len() implies lower_seq(lower_seq(s))[i] == lower_seq(s)[i] by {
        lemma_lower_char_idempotent(s[i]);
    }
    assert(lower_seq(lower_seq(s)) =~= lower_seq(s));
}

/// Executable ASCII lowercasing of one character.
pub fn lower_char(c: char) -> (r: char)
    ensures
        r == lower_char_spec(c),
{
    if 'A' <= c && c <= 'Z' {
        ((c as u8) + 32) as char
    } else {
        c
    }
}

/// Character-for-character string equality.
pub fn str_eq(a: &str, b: &str) -> (r: bool)
    ensures
        r == (a@ == b@),
{
    let a_len = a.unicode_len();
    let b_len = b.unicode_len();
    if a_len != b_len {
        proof {
            assert(a@.len() != b@.len());
        }
        return false;
    }
    let mut i: usize = 0;
    while i < a_len
        invariant
            i <= a_len,
            a_len == a@.len(),
            a_len == b@.len(),
            forall|j: int| 0 <= j < i ==> a@[j] == b@[j],
        decreases a_len - i,
    {
        if a.get_char(i) != b.get_char(i) {
            proof {
                assert(a@[i as int] != b@[i as int]);
            }
            return false;
        }
        i += 1;
    }
    proof {
        assert(a@ =~= b@);
    }
    true
}

/// Joining a path to a further component: a separator goes between the two
/// unless the left side is empty or already ends in one.
pub open spec fn path_join(a: Seq<char>, b: Seq<char>) -> Seq<char> {
    if a.len() == 0 {
        b
    } else if a.last() == '/' {
        a + b
    } else {
        a + seq!['/'] + b
    }
}

/// Executable counterpart of [`path_join`].
pub fn join_path(a: &str, b: &str) -> (r: String)
    ensures
        r@ == path_join(a@, b@),
{
    let a_len = a.unicode_len();
    if a_len == 0 {
        return b.to_owned();
    }
    let mut s = a.to_owned();
    if a.get_char(a_len - 1) != '/' {
        s.append("/");
        proof {
            reveal_strlit("/");
            assert(s@ =~= a@ + seq!['/']);
        }
    }
    s.append(b);
    proof {
        assert(s@ =~= path_join(a@, b@));
    }
    s
}

/// Compares the ASCII lowercase of `a` against `b` character for character.
pub fn str_eq_lower(a: &str, b: &str) -> (r: bool)
    ensures
        r == (lower_seq(a@) == b@),
{
    let a_len = a.unicode_len();
    let b_len = b.unicode_len();
    if a_len != b_len {
        proof {
            assert(lower_seq(a@).len() != b@.len());
        }
        return false;
    }
    let mut i: usize = 0;
    while i < a_len
        invariant
            i <= a_len,
            a_len == a@.len(),
            a_len == b@.len(),
            forall|j: int| 0 <= j < i ==> lower_seq(a@)[j] == b@[j],
        decreases a_len - i,
    {
        if lower_char(a.get_char(i)) != b.get_char(i) {
            proof {
                assert(lower_seq(a@)[i as int] != b@[i as int]);
            }
            return false;
        }
        i += 1;
    }
    proof {
        assert(lower_seq(a@) =~= b@);
    }
    true
}

} // verus!
