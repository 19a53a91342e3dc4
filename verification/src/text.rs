//! Text handling shared by the rest of the library: ASCII case folding, the
//! C-string compatibility test that decides whether a string may cross the
//! engine boundary, and message assembly.
use vstd::prelude::*;
use vstd::string::*;

verus! {

/// Whether `c` is an ASCII upper-case letter.
pub open spec fn is_ascii_upper(c: char) -> bool {
    'A' <= c && c <= 'Z'
}

/// ASCII lower-casing of one character; every other character is kept.
pub open spec fn lower_char(c: char) -> char {
    if is_ascii_upper(c) {
        ((c as u32) + 32) as char
    } else {
        c
    }
}

/// ASCII lower-casing of a whole string, character by character.
pub open spec fn lower_seq(s: Seq<char>) -> Seq<char> {
    Seq::new(s.len(), |i: int| lower_char(s[i]))
}

/// Whether a string can be handed over as a C string: it holds no NUL
/// character (the only character whose UTF-8 encoding holds a zero byte).
pub open spec fn c_compatible(s: Seq<char>) -> bool {
    !s.contains('\0')
}

/// A string without upper-case letters is its own fold.
pub proof fn lemma_lower_of_lower_case(s: Seq<char>)
    requires
        forall|i: int| 0 <= i < s.len() ==> !is_ascii_upper(#[trigger] s[i]),
    ensures
        lower_seq(s) == s,
{
    assert(lower_seq(s) =~= s);
}

/// Calls `String::push` (std): trusted to leave `s` as it was with `c`
/// appended at the end, as std documents; nothing else is claimed.
#[verifier::external_body]
fn push_char(s: &mut String, c: char)
    ensures
        final(s)@ == old(s)@.push(c),
{
    s.push(c);
}

/// ASCII lower-casing of one character.
pub fn ascii_lower_char(c: char) -> (r: char)
    ensures
        r == lower_char(c),
{
    if 'A' <= c && c <= 'Z' {
        ((c as u8) + 32) as char
    } else {
        c
    }
}

/// The ASCII lower-cased copy of `s`.
pub fn ascii_lowercase(s: &str) -> (r: String)
    ensures
        r@ == lower_seq(s@),
{
    let n = s.unicode_len();
    let mut out = String::new();
    let mut i: usize = 0;
    while i < n
        invariant
            n == s@.len(),
            i <= n,
            out@ == lower_seq(s@).subrange(0, i as int),
        decreases n - i,
    {
        let c = s.get_char(i);
        let l = ascii_lower_char(c);
        push_char(&mut out, l);
        i = i + 1;
        assert(out@ =~= lower_seq(s@).subrange(0, i as int));
    }
    assert(out@ =~= lower_seq(s@));
    out
}

/// Whether `a` and `b` hold the same characters.
pub fn same_text(a: &str, b: &str) -> (r: bool)
    ensures
        r == (a@ == b@),
{
    let n = a.unicode_len();
    let m = b.unicode_len();
    if n != m {
        return false;
    }
    let mut i: usize = 0;
    while i < n
        invariant
            n == a@.len(),
            n == b@.len(),
            i <= n,
            forall|j: int| 0 <= j < i ==> a@[j] == b@[j],
        decreases n - i,
    {
        if a.get_char(i) != b.get_char(i) {
            return false;
        }
        i = i + 1;
    }
    assert(a@ =~= b@);
    true
}

/// Whether `s` can cross the engine boundary as a C string.
pub fn is_c_compatible(s: &str) -> (r: bool)
    ensures
        r == c_compatible(s@),
{
    let n = s.unicode_len();
    let mut i: usize = 0;
    while i < n
        invariant
            n == s@.len(),
            i <= n,
            forall|j: int| 0 <= j < i ==> s@[j] != '\0',
        decreases n - i,
    {
        if s.get_char(i) == '\0' {
            assert(s@[i as int] == '\0');
            return false;
        }
        i = i + 1;
    }
    true
}

/// A fresh `String` holding the characters of `s`.
pub fn owned(s: &str) -> (r: String)
    ensures
        r@ == s@,
{
    let mut r = String::new();
    r.append(s);
    r
}

/// `a` followed by `b`.
pub fn concat2(a: &str, b: &str) -> (r: String)
    ensures
        r@ == a@ + b@,
{
    let mut r = String::new();
    r.append(a);
    r.append(b);
    r
}

/// `a`, `b` and `c` in a row.
pub fn concat3(a: &str, b: &str, c: &str) -> (r: String)
    ensures
        r@ == a@ + b@ + c@,
{
    let mut r = String::new();
    r.append(a);
    r.append(b);
    r.append(c);
    r
}

/// The text the engine handed back, or `default` where it handed back none.
pub fn text_or(text: Option<String>, default: &str) -> (r: String)
    ensures
        r@ == (match text {
            Some(t) => t@,
            None => default@,
        }),
{
    match text {
        Some(t) => t,
        None => owned(default),
    }
}

/// Folding keeps the length, keeps every character that is not an ASCII
/// capital, and turns each ASCII capital into the letter 32 code points on.
pub proof fn lemma_lower_seq_folds_only_capitals(s: Seq<char>)
    ensures
        lower_seq(s).len() == s.len(),
        forall|i: int| 0 <= i < s.len() && !('A' <= s[i] && s[i] <= 'Z') ==> #[trigger] lower_seq(s)[i] == s[i],
        forall|i: int| 0 <= i < s.len() && 'A' <= s[i] && s[i] <= 'Z' ==> (#[trigger] lower_seq(s)[i]) as u32 == (s[i] as u32) + 32,
{
}

} // verus!
