//! The string operations the race log needs, from the standard library.
use vstd::prelude::*;

verus! {

/// `std::string::FromUtf16Error`, what `String::from_utf16` returns for invalid input.
#[verifier::external_type_specification]
#[verifier::external_body]
pub struct ExFromUtf16Error(std::string::FromUtf16Error);

/// The characters that the UTF-16 code units `u` encode, or `None` where a surrogate is
/// unpaired.
pub open spec fn utf16_decode(u: Seq<u16>) -> Option<Seq<char>>
    decreases u.len(),
{
    if u.len() == 0 {
        Some(seq![])
    } else if u[0] < 0xD800 || u[0] > 0xDFFF {
        match utf16_decode(u.drop_first()) {
            Some(rest) => Some(seq![u[0] as char] + rest),
            None => None,
        }
    } else if u[0] <= 0xDBFF && u.len() >= 2 && 0xDC00 <= u[1] && u[1] <= 0xDFFF {
        let c = 0x10000 + (u[0] - 0xD800) * 0x400 + (u[1] - 0xDC00);
        match utf16_decode(u.subrange(2, u.len() as int)) {
            Some(rest) => Some(seq![c as char] + rest),
            None => None,
        }
    } else {
        None
    }
}

/// `s` without its leading NUL characters.
pub open spec fn trim_nul_start(s: Seq<char>) -> Seq<char>
    decreases s.len(),
{
    if s.len() > 0 && s[0] == '\0' {
        trim_nul_start(s.drop_first())
    } else {
        s
    }
}

/// `s` without its trailing NUL characters.
pub open spec fn trim_nul_end(s: Seq<char>) -> Seq<char>
    decreases s.len(),
{
    if s.len() > 0 && s.last() == '\0' {
        trim_nul_end(s.drop_last())
    } else {
        s
    }
}

/// `s` without its leading and trailing NUL characters.
pub open spec fn trim_nul(s: Seq<char>) -> Seq<char> {
    trim_nul_end(trim_nul_start(s))
}

/// Removing leading NULs drops exactly the NULs before the first other character.
proof fn lemma_trim_nul_start(s: Seq<char>) -> (i: int)
    ensures
        0 <= i <= s.len(),
        trim_nul_start(s) == s.subrange(i, s.len() as int),
        forall|k: int| 0 <= k < i ==> s[k] == '\0',
        i < s.len() ==> s[i] != '\0',
    decreases s.len(),
{
    if s.len() > 0 && s[0] == '\0' {
        let j = lemma_trim_nul_start(s.drop_first());
        assert(s.drop_first().subrange(j, s.len() - 1) =~= s.subrange(j + 1, s.len() as int));
        assert forall|k: int| 0 <= k < j + 1 implies s[k] == '\0' by {
            if k > 0 {
                assert(s[k] == s.drop_first()[k - 1]);
            }
        }
        j + 1
    } else {
        assert(s.subrange(0, s.len() as int) =~= s);
        0
    }
}

/// Removing trailing NULs drops exactly the NULs after the last other character.
proof fn lemma_trim_nul_end(s: Seq<char>) -> (j: int)
    ensures
        0 <= j <= s.len(),
        trim_nul_end(s) == s.subrange(0, j),
        forall|k: int| j <= k < s.len() ==> s[k] == '\0',
        j > 0 ==> s[j - 1] != '\0',
    decreases s.len(),
{
    if s.len() > 0 && s.last() == '\0' {
        let j = lemma_trim_nul_end(s.drop_last());
        assert(s.drop_last().subrange(0, j) =~= s.subrange(0, j));
        assert forall|k: int| j <= k < s.len() implies s[k] == '\0' by {
            if k < s.len() - 1 {
                assert(s[k] == s.drop_last()[k]);
            }
        }
        j
    } else {
        assert(s.subrange(0, s.len() as int) =~= s);
        s.len() as int
    }
}

/// Trimming NULs keeps a stretch of `s` and drops only NULs around it; what is kept neither
/// starts nor ends with a NUL.
pub proof fn law_trim_nul(s: Seq<char>)
    ensures
        exists|i: int, j: int|
            0 <= i <= j <= s.len() && trim_nul(s) == s.subrange(i, j) && (forall|k: int|
                0 <= k < i ==> s[k] == '\0') && (forall|k: int| j <= k < s.len() ==> s[k] == '\0'),
        trim_nul(s).len() > 0 ==> trim_nul(s)[0] != '\0' && trim_nul(s).last() != '\0',
{
    let i = lemma_trim_nul_start(s);
    let t = s.subrange(i, s.len() as int);
    let j = lemma_trim_nul_end(t);
    assert(t.subrange(0, j) =~= s.subrange(i, i + j));
    assert forall|k: int| i + j <= k < s.len() implies s[k] == '\0' by {
        assert(s[k] == t[k - i]);
    }
    assert(trim_nul(s) == s.subrange(i, i + j));
}

/// Code units outside the surrogate range each decode to the character they number.
pub proof fn law_utf16_decode_plain(u: Seq<u16>)
    requires
        forall|k: int| 0 <= k < u.len() ==> #[trigger] u[k] < 0xD800,
    ensures
        utf16_decode(u) == Some(Seq::new(u.len(), |k: int| u[k] as char)),
    decreases u.len(),
{
    if u.len() > 0 {
        law_utf16_decode_plain(u.drop_first());
        assert(seq![u[0] as char] + Seq::new((u.len() - 1) as nat, |k: int| u.drop_first()[k] as char)
            =~= Seq::new(u.len(), |k: int| u[k] as char));
    } else {
        assert(Seq::<char>::empty() =~= Seq::new(u.len(), |k: int| u[k] as char));
    }
}

/// What `str::to_lowercase` returns for `s`: Unicode's lowercase mapping, character by
/// character, with the final-sigma rule.
pub uninterp spec fn lowercase_of(s: Seq<char>) -> Seq<char>;

/// `String::from_utf16`: decodes UTF-16 code units, failing on an unpaired surrogate.
#[verifier::external_body]
pub(crate) fn decode_utf16(units: &[u16]) -> (r: Result<String, std::string::FromUtf16Error>)
    ensures
        r is Ok <==> utf16_decode(units@) is Some,
        r matches Ok(s) ==> s@ == utf16_decode(units@)->Some_0,
{
    String::from_utf16(units)
}

/// `str::trim_matches` with the NUL character as pattern: removes every leading and trailing
/// NUL. The result is copied into a `String`.
#[verifier::external_body]
pub(crate) fn trim_nul_chars(s: &str) -> (r: String)
    ensures
        r@ == trim_nul(s@),
{
    s.trim_matches('\0').to_owned()
}

/// `str::to_lowercase`; its result is named `lowercase_of`.
#[verifier::external_body]
pub(crate) fn to_lowercase(s: &str) -> (r: String)
    ensures
        r@ == lowercase_of(s@),
{
    s.to_lowercase()
}

} // verus!
