//! Pipe-path handling: folding forward slashes to backslashes, encoding a
//! path as a null-terminated UTF-16 string, and reading a null-terminated
//! UTF-16 buffer back into a `String`.

use vstd::prelude::*;
use vstd::slice::slice_index_get;
use vstd::slice::slice_subrange;
use vstd::string::StrSliceExecFns;

verus! {

/// A forward slash becomes a backslash; every other character is kept.
pub open spec fn normalize_char(c: char) -> char {
    if c == '/' {
        '\\'
    } else {
        c
    }
}

/// The normalized form of a pipe path: each character folded by
/// [`normalize_char`].
pub open spec fn spec_normalize_pipe_path(s: Seq<char>) -> Seq<char> {
    s.map_values(|c: char| normalize_char(c))
}

/// Relies on `String::push`: appends exactly the one character.
#[verifier::external_body]
pub(crate) fn push_char(s: &mut String, c: char)
    ensures
        final(s)@ == old(s)@.push(c),
{
    s.push(c)
}

/// Translates forward slashes to backslashes, so that both `//./pipe/x` and
/// `\\.\pipe\x` spellings name the same pipe.
pub fn normalize_pipe_path(path: &str) -> (r: String)
    ensures
        r@ == spec_normalize_pipe_path(path@),
{
    let n = path.unicode_len();
    let mut out = String::new();
    let mut i: usize = 0;
    while i < n
        invariant
            i <= n,
            n == path@.len(),
            out@ == spec_normalize_pipe_path(path@.take(i as int)),
        decreases n - i,
    {
        let c = path.get_char(i);
        if c == '/' {
            push_char(&mut out, '\\');
        } else {
            push_char(&mut out, c);
        }
        proof {
            assert(spec_normalize_pipe_path(path@.take(i + 1 as int)) =~= spec_normalize_pipe_path(
                path@.take(i as int),
            ).push(normalize_char(path@[i as int])));
        }
        i = i + 1;
    }
    proof {
        assert(path@.take(n as int) =~= path@);
    }
    out
}

/// Normalization is idempotent: folding slashes a second time changes
/// nothing, because a backslash is already its own normal form.
pub proof fn lemma_normalize_idempotent(s: Seq<char>)
    ensures
        spec_normalize_pipe_path(spec_normalize_pipe_path(s)) == spec_normalize_pipe_path(s),
{
    assert(spec_normalize_pipe_path(spec_normalize_pipe_path(s)) =~= spec_normalize_pipe_path(s));
}

/// The UTF-16 encoding of one character: a single unit below 0x10000, a
/// surrogate pair at or above it.
pub open spec fn utf16_encode_char(c: char) -> Seq<u16> {
    if (c as u32) < 0x10000 {
        seq![(c as u32) as u16]
    } else {
        seq![
            (0xD800 + (((c as u32) - 0x10000) as u32 >> 10)) as u16,
            (0xDC00 + (((c as u32) - 0x10000) as u32 & 0x3FF)) as u16,
        ]
    }
}

/// The UTF-16 encoding of a character sequence, unit by unit.
pub open spec fn utf16_encode(s: Seq<char>) -> Seq<u16>
    decreases s.len(),
{
    if s.len() == 0 {
        Seq::empty()
    } else {
        utf16_encode(s.drop_last()) + utf16_encode_char(s.last())
    }
}

/// Encodes a path as UTF-16 with a trailing null terminator, the form the
/// OS expects for a wide-string file name.
pub fn to_wide_string(s: &str) -> (r: Vec<u16>)
    ensures
        r@ == utf16_encode(s@).push(0u16),
{
    let n = s.unicode_len();
    let mut out: Vec<u16> = Vec::new();
    let mut i: usize = 0;
    while i < n
        invariant
            i <= n,
            n == s@.len(),
            out@ == utf16_encode(s@.take(i as int)),
        decreases n - i,
    {
        let c = s.get_char(i);
        let u = c as u32;
        if u < 0x10000 {
            out.push(u as u16);
        } else {
            let v = u - 0x10000;
            assert((v >> 10) <= 0x3FF && (v & 0x3FF) <= 0x3FF) by (bit_vector)
                requires
                    v <= 0xFFFFF,
            ;
            out.push((0xD800 + (v >> 10)) as u16);
            out.push((0xDC00 + (v & 0x3FF)) as u16);
        }
        proof {
            assert(s@.take(i + 1 as int).drop_last() =~= s@.take(i as int));
            assert(s@.take(i + 1 as int).last() == s@[i as int]);
            assert(utf16_encode(s@.take(i + 1 as int)) =~= utf16_encode(s@.take(i as int))
                + utf16_encode_char(s@[i as int]));
        }
        i = i + 1;
    }
    proof {
        assert(s@.take(n as int) =~= s@);
    }
    out.push(0u16);
    out
}

/// The number of units before the first null, or the whole length when no
/// null occurs.
pub open spec fn nul_prefix_len(s: Seq<u16>) -> int
    decreases s.len(),
{
    if s.len() == 0 {
        0
    } else if s[0] == 0 {
        0
    } else {
        1 + nul_prefix_len(s.drop_first())
    }
}

proof fn lemma_nul_prefix_len(s: Seq<u16>, k: int)
    requires
        0 <= k <= s.len(),
        forall|j: int| 0 <= j < k ==> s[j] != 0,
        k == s.len() || s[k] == 0,
    ensures
        nul_prefix_len(s) == k,
    decreases s.len(),
{
    if k == 0 {
    } else {
        assert(s[0] != 0);
        lemma_nul_prefix_len(s.drop_first(), k - 1);
    }
}

/// The characters that `String::from_utf16_lossy` produces for the given
/// units; they depend on the units alone.
pub uninterp spec fn utf16_lossy(units: Seq<u16>) -> Seq<char>;

/// Relies on `String::from_utf16_lossy`: decodes UTF-16, substituting the
/// replacement character for invalid data; the result is a function of the
/// units alone, and no units yield no characters.
#[verifier::external_body]
fn utf16_lossy_to_string(units: &[u16]) -> (r: String)
    ensures
        r@ == utf16_lossy(units@),
        units@.len() == 0 ==> r@.len() == 0,
{
    String::from_utf16_lossy(units)
}

/// Decodes a null-terminated wide-character buffer: the units before the
/// first null (or all of them, when none is null) are read as UTF-16.
pub fn wchar_to_string(wchars: &[u16]) -> (r: String)
    ensures
        r@ == utf16_lossy(wchars@.take(nul_prefix_len(wchars@))),
{
    let n = wchars.len();
    let mut i: usize = 0;
    while i < n
        invariant
            i <= n,
            n == wchars@.len(),
            forall|j: int| 0 <= j < i ==> wchars@[j] != 0,
        decreases n - i,
    {
        if *slice_index_get(wchars, i) == 0 {
            proof {
                lemma_nul_prefix_len(wchars@, i as int);
            }
            let prefix = slice_subrange(wchars, 0, i);
            proof {
                assert(prefix@ =~= wchars@.take(i as int));
            }
            return utf16_lossy_to_string(prefix);
        }
        i = i + 1;
    }
    proof {
        lemma_nul_prefix_len(wchars@, n as int);
        assert(wchars@.take(n as int) =~= wchars@);
    }
    utf16_lossy_to_string(wchars)
}

} // verus!
