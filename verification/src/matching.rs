//! Process-name matching: two names refer to the same executable exactly when
//! they are equal after ASCII-lowercasing and stripping any trailing `.exe`
//! suffixes. Only exact matching is done — no fuzzy or heuristic comparison.

use vstd::prelude::*;

verus! {

/// ASCII-lowercase mapping on one character; anything but `A`..=`Z` is
/// unchanged.
pub open spec fn lower_char(c: char) -> char {
    if c == 'A' {
        'a'
    } else if c == 'B' {
        'b'
    } else if c == 'C' {
        'c'
    } else if c == 'D' {
        'd'
    } else if c == 'E' {
        'e'
    } else if c == 'F' {
        'f'
    } else if c == 'G' {
        'g'
    } else if c == 'H' {
        'h'
    } else if c == 'I' {
        'i'
    } else if c == 'J' {
        'j'
    } else if c == 'K' {
        'k'
    } else if c == 'L' {
        'l'
    } else if c == 'M' {
        'm'
    } else if c == 'N' {
        'n'
    } else if c == 'O' {
        'o'
    } else if c == 'P' {
        'p'
    } else if c == 'Q' {
        'q'
    } else if c == 'R' {
        'r'
    } else if c == 'S' {
        's'
    } else if c == 'T' {
        't'
    } else if c == 'U' {
        'u'
    } else if c == 'V' {
        'v'
    } else if c == 'W' {
        'w'
    } else if c == 'X' {
        'x'
    } else if c == 'Y' {
        'y'
    } else if c == 'Z' {
        'z'
    } else {
        c
    }
}

/// ASCII-lowercase mapping on a whole name.
pub open spec fn lower_seq(s: Seq<char>) -> Seq<char> {
    s.map_values(|c: char| lower_char(c))
}

/// The platform-specific executable suffix that matching ignores.
pub open spec fn exe_suffix() -> Seq<char> {
    seq!['.', 'e', 'x', 'e']
}

/// Whether `s` ends with the executable suffix.
pub open spec fn ends_with_exe(s: Seq<char>) -> bool {
    s.len() >= 4 && s.subrange(s.len() - 4, s.len() as int) == exe_suffix()
}

/// `s` with every trailing executable suffix removed.
pub open spec fn strip_exe(s: Seq<char>) -> Seq<char>
    decreases s.len(),
{
    if ends_with_exe(s) {
        strip_exe(s.subrange(0, s.len() - 4))
    } else {
        s
    }
}

/// The canonical form of a name: ASCII-lowercased, then stripped of trailing
/// executable suffixes.
pub open spec fn normalized(s: Seq<char>) -> Seq<char> {
    strip_exe(lower_seq(s))
}

/// Two names match exactly when their canonical forms are equal.
pub open spec fn names_match(a: Seq<char>, b: Seq<char>) -> bool {
    normalized(a) == normalized(b)
}

/// Computes the ASCII-lowercase of one character.
fn lower_char_exec(c: char) -> (r: char)
    ensures
        r == lower_char(c),
{
    if c == 'A' {
        'a'
    } else if c == 'B' {
        'b'
    } else if c == 'C' {
        'c'
    } else if c == 'D' {
        'd'
    } else if c == 'E' {
        'e'
    } else if c == 'F' {
        'f'
    } else if c == 'G' {
        'g'
    } else if c == 'H' {
        'h'
    } else if c == 'I' {
        'i'
    } else if c == 'J' {
        'j'
    } else if c == 'K' {
        'k'
    } else if c == 'L' {
        'l'
    } else if c == 'M' {
        'm'
    } else if c == 'N' {
        'n'
    } else if c == 'O' {
        'o'
    } else if c == 'P' {
        'p'
    } else if c == 'Q' {
        'q'
    } else if c == 'R' {
        'r'
    } else if c == 'S' {
        's'
    } else if c == 'T' {
        't'
    } else if c == 'U' {
        'u'
    } else if c == 'V' {
        'v'
    } else if c == 'W' {
        'w'
    } else if c == 'X' {
        'x'
    } else if c == 'Y' {
        'y'
    } else if c == 'Z' {
        'z'
    } else {
        c
    }
}

/// Computes the ASCII-lowercase of a whole name, character by character.
fn to_lower_vec(s: &str) -> (v: Vec<char>)
    ensures
        v@ == lower_seq(s@),
{
    let n = s.unicode_len();
    let mut v: Vec<char> = Vec::new();
    let mut i: usize = 0;
    while i < n
        invariant
            i <= n,
            n == s@.len(),
            v@.len() == i,
            forall|j: int| 0 <= j < i ==> v@[j] == lower_char(s@[j]),
        decreases n - i,
    {
        let c = s.get_char(i);
        v.push(lower_char_exec(c));
        i += 1;
    }
    proof {
        assert(v@ =~= lower_seq(s@));
    }
    v
}

/// Computes the length of `v` once every trailing executable suffix is
/// removed; the stripped form is the prefix of `v` of that length.
fn stripped_len(v: &Vec<char>) -> (n: usize)
    ensures
        n <= v@.len(),
        strip_exe(v@) == v@.subrange(0, n as int),
{
    let mut n: usize = v.len();
    proof {
        assert(v@.subrange(0, n as int) =~= v@);
    }
    while n >= 4 && v[n - 4] == '.' && v[n - 3] == 'e' && v[n - 2] == 'x' && v[n - 1] == 'e'
        invariant
            n <= v@.len(),
            strip_exe(v@) == strip_exe(v@.subrange(0, n as int)),
        decreases n,
    {
        proof {
            let s = v@.subrange(0, n as int);
            assert(s.subrange(n - 4, n as int) =~= exe_suffix());
            assert(s.subrange(0, n - 4) =~= v@.subrange(0, n - 4));
        }
        n = n - 4;
    }
    proof {
        let s = v@.subrange(0, n as int);
        if ends_with_exe(s) {
            assert(s.subrange(n - 4, n as int) == exe_suffix());
            assert(s[n - 4] == '.' && s[n - 3] == 'e' && s[n - 2] == 'x' && s[n - 1] == 'e');
            assert(v@[n - 4] == '.' && v@[n - 3] == 'e' && v@[n - 2] == 'x' && v@[n - 1] == 'e');
        }
    }
    n
}

/// Decides whether the names `a` and `b` refer to the same executable:
/// equality after ASCII-lowercasing and stripping trailing `.exe` suffixes
/// from both sides.
pub fn name_matches(a: &str, b: &str) -> (r: bool)
    ensures
        r == names_match(a@, b@),
{
    let la = to_lower_vec(a);
    let lb = to_lower_vec(b);
    let na = stripped_len(&la);
    let nb = stripped_len(&lb);
    if na != nb {
        proof {
            assert(normalized(a@).len() == na && normalized(b@).len() == nb);
        }
        return false;
    }
    let mut i: usize = 0;
    while i < na
        invariant
            i <= na,
            na == nb,
            na <= la@.len(),
            nb <= lb@.len(),
            la@ == lower_seq(a@),
            lb@ == lower_seq(b@),
            strip_exe(la@) == la@.subrange(0, na as int),
            strip_exe(lb@) == lb@.subrange(0, nb as int),
            forall|j: int| 0 <= j < i ==> la@[j] == lb@[j],
        decreases na - i,
    {
        if la[i] != lb[i] {
            proof {
                assert(normalized(a@)[i as int] != normalized(b@)[i as int]);
            }
            return false;
        }
        i += 1;
    }
    proof {
        assert(normalized(a@) =~= normalized(b@));
    }
    true
}

/// Matching is case-insensitive: names with the same ASCII-lowercase form are
/// interchangeable on either side of a match, and match each other.
pub proof fn lemma_match_case_insensitive(a: Seq<char>, b: Seq<char>)
    requires
        lower_seq(a) == lower_seq(b),
    ensures
        normalized(a) == normalized(b),
        names_match(a, b),
        forall|c: Seq<char>| names_match(a, c) == names_match(b, c),
{
}

/// Matching ignores a trailing executable suffix: appending `.exe` to either
/// name never changes the outcome.
pub proof fn lemma_match_ignores_exe_suffix(a: Seq<char>)
    ensures
        normalized(a + exe_suffix()) == normalized(a),
        names_match(a + exe_suffix(), a),
        forall|c: Seq<char>| names_match(a + exe_suffix(), c) == names_match(a, c),
{
    assert(lower_seq(a + exe_suffix()) =~= lower_seq(a) + exe_suffix());
    let s = lower_seq(a) + exe_suffix();
    assert(s.subrange(s.len() - 4, s.len() as int) =~= exe_suffix());
    assert(s.subrange(0, s.len() - 4) =~= lower_seq(a));
}

/// Matching is symmetric.
pub proof fn lemma_match_symmetric(a: Seq<char>, b: Seq<char>)
    ensures
        names_match(a, b) == names_match(b, a),
{
}

} // verus!
