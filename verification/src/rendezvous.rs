//! Parsing the Assuan rendezvous file: a decimal TCP port on the first
//! line (ended by `\n` or `\r\n`), immediately followed by exactly sixteen
//! bytes of nonce.

use crate::dec::dec_digits;
use crate::dec::dec_value;
use crate::dec::is_dec_digit;
use crate::dec::lemma_dec_digits_are_digits;
use crate::dec::lemma_dec_digits_nonempty;
use crate::dec::lemma_dec_digits_value;
use crate::dec::lemma_dec_value_prefix;
use crate::errors::BatonError;
use vstd::prelude::*;
use vstd::slice::slice_index_get;
use vstd::slice::slice_subrange;
use vstd::slice::slice_to_vec;
use vstd::string::StringExecFns;

verus! {

/// The nonce is always exactly this many bytes.
pub const NONCE_SIZE: usize = 16;

/// The number of bytes before the first line feed, or the whole length
/// when none occurs.
pub open spec fn lf_prefix_len(s: Seq<u8>) -> int
    decreases s.len(),
{
    if s.len() == 0 {
        0
    } else if s[0] == 0x0A {
        0
    } else {
        1 + lf_prefix_len(s.drop_first())
    }
}

proof fn lemma_lf_prefix_len(s: Seq<u8>, k: int)
    requires
        0 <= k <= s.len(),
        forall|j: int| 0 <= j < k ==> s[j] != 0x0A,
        k == s.len() || s[k] == 0x0A,
    ensures
        lf_prefix_len(s) == k,
    decreases s.len(),
{
    if k > 0 {
        lemma_lf_prefix_len(s.drop_first(), k - 1);
    }
}

/// The line with its trailing carriage returns removed.
pub open spec fn trim_cr(s: Seq<u8>) -> Seq<u8>
    decreases s.len(),
{
    if s.len() > 0 && s.last() == 0x0D {
        trim_cr(s.drop_last())
    } else {
        s
    }
}

proof fn lemma_trim_cr(s: Seq<u8>, k: int)
    requires
        0 <= k <= s.len(),
        forall|j: int| k <= j < s.len() ==> s[j] == 0x0D,
        k == 0 || s[k - 1] != 0x0D,
    ensures
        trim_cr(s) == s.take(k),
    decreases s.len(),
{
    if s.len() == k {
        assert(s.take(k) =~= s);
    } else {
        assert(s.last() == 0x0D);
        lemma_trim_cr(s.drop_last(), k);
        assert(s.drop_last().take(k) =~= s.take(k));
    }
}

/// The digit part of the port line: everything after an optional leading
/// plus sign.
pub open spec fn port_digits(line: Seq<u8>) -> Seq<u8> {
    if line.len() > 0 && line[0] == 0x2B {
        line.drop_first()
    } else {
        line
    }
}

/// Whether the line reads as an unsigned 16-bit decimal: an optional plus
/// sign, then at least one digit and nothing else, with a value that fits.
pub open spec fn is_port_line(line: Seq<u8>) -> bool {
    let d = port_digits(line);
    d.len() > 0 && (forall|i: int| 0 <= i < d.len() ==> is_dec_digit(#[trigger] d[i])) && dec_value(
        d,
    ) <= 0xFFFF
}

/// The port the line names.
pub open spec fn port_of_line(line: Seq<u8>) -> u16 {
    dec_value(port_digits(line)) as u16
}

/// Where the nonce starts: right after the first line feed, or at the end
/// when there is none.
pub open spec fn nonce_start(data: Seq<u8>) -> int {
    if lf_prefix_len(data) < data.len() {
        lf_prefix_len(data) + 1
    } else {
        lf_prefix_len(data)
    }
}

/// The port line of the file: the bytes before the first line feed, with
/// trailing carriage returns removed.
pub open spec fn rendezvous_line(data: Seq<u8>) -> Seq<u8> {
    trim_cr(data.take(lf_prefix_len(data)))
}

/// What the rendezvous file holds: the port and the sixteen nonce bytes,
/// or nothing when the first line is not a port or the nonce is short.
pub open spec fn spec_parse_rendezvous(data: Seq<u8>) -> Option<(u16, Seq<u8>)> {
    let line = rendezvous_line(data);
    let ns = nonce_start(data);
    if is_port_line(line) && ns + NONCE_SIZE <= data.len() {
        Some((port_of_line(line), data.subrange(ns, ns + NONCE_SIZE as int)))
    } else {
        None
    }
}

/// Parses the contents of a rendezvous file. Succeeds exactly when the
/// first line is an unsigned 16-bit decimal and at least sixteen bytes
/// follow it, and then returns exactly that port and those sixteen bytes;
/// every failure is an `AssuanParse` error.
pub fn parse_rendezvous(data: &[u8]) -> (r: Result<(u16, Vec<u8>), BatonError>)
    ensures
        r is Ok <==> spec_parse_rendezvous(data@) is Some,
        r matches Ok(p) ==> spec_parse_rendezvous(data@) == Some((p.0, p.1@)),
        r matches Err(e) ==> e is AssuanParse,
{
    let n = data.len();

    // The first line: everything before the first line feed.
    let mut le: usize = 0;
    while le < n && *slice_index_get(data, le) != 0x0A
        invariant
            le <= n,
            n == data@.len(),
            forall|j: int| 0 <= j < le ==> data@[j] != 0x0A,
        decreases n - le,
    {
        le = le + 1;
    }
    proof {
        lemma_lf_prefix_len(data@, le as int);
    }

    // Trailing carriage returns do not belong to the port text.
    let mut te: usize = le;
    while te > 0 && *slice_index_get(data, te - 1) == 0x0D
        invariant
            te <= le <= n,
            n == data@.len(),
            forall|j: int| te <= j < le ==> data@[j] == 0x0D,
        decreases te,
    {
        te = te - 1;
    }
    proof {
        lemma_trim_cr(data@.take(le as int), te as int);
        assert(data@.take(le as int).take(te as int) =~= data@.take(te as int));
    }
    let ghost line = rendezvous_line(data@);
    proof {
        assert(line == data@.take(te as int));
    }

    // An optional plus sign, then at least one digit.
    let ps: usize = if te > 0 && *slice_index_get(data, 0) == 0x2B {
        1
    } else {
        0
    };
    let ghost digits = port_digits(line);
    proof {
        assert(digits =~= data@.subrange(ps as int, te as int));
    }
    if ps == te {
        proof {
            assert(!is_port_line(line));
        }
        return Err(BatonError::AssuanParse(String::from_str("invalid port number: empty")));
    }

    let mut acc: u32 = 0;
    let mut j: usize = ps;
    while j < te
        invariant
            ps <= j <= te <= n,
            n == data@.len(),
            line == rendezvous_line(data@),
            digits == port_digits(line),
            digits == data@.subrange(ps as int, te as int),
            forall|k: int| ps <= k < j ==> is_dec_digit(#[trigger] data@[k]),
            acc <= 0xFFFF,
            acc == dec_value(data@.subrange(ps as int, j as int)),
        decreases te - j,
    {
        let b = *slice_index_get(data, j);
        if b < 0x30 || b > 0x39 {
            proof {
                assert(digits[j - ps] == data@[j as int]);
                assert(!is_dec_digit(port_digits(line)[j - ps]));
                assert(!is_port_line(line));
            }
            return Err(
                BatonError::AssuanParse(String::from_str("invalid port number: not a digit")),
            );
        }
        proof {
            assert(data@.subrange(ps as int, j + 1 as int).drop_last() =~= data@.subrange(
                ps as int,
                j as int,
            ));
            assert(data@.subrange(ps as int, j + 1 as int).last() == data@[j as int]);
        }
        acc = acc * 10 + ((b - 0x30) as u32);
        if acc > 0xFFFF {
            proof {
                if forall|i: int| 0 <= i < digits.len() ==> is_dec_digit(#[trigger] digits[i]) {
                    assert(data@.subrange(ps as int, j + 1 as int) =~= digits.take(j + 1 - ps));
                    lemma_dec_value_prefix(digits, j + 1 - ps);
                }
                assert(!is_port_line(line));
            }
            return Err(
                BatonError::AssuanParse(String::from_str("invalid port number: out of range")),
            );
        }
        j = j + 1;
    }
    proof {
        assert(data@.subrange(ps as int, te as int) =~= digits);
        assert(forall|i: int|
            0 <= i < digits.len() ==> is_dec_digit(#[trigger] digits[i])) by {
            assert(forall|i: int|
                0 <= i < digits.len() ==> digits[i] == data@[i + ps]);
        }
        assert(is_port_line(line));
    }
    let port: u16 = acc as u16;

    // The nonce: exactly sixteen bytes after the line feed.
    let ns: usize = if le < n {
        le + 1
    } else {
        le
    };
    if n - ns < NONCE_SIZE {
        proof {
            assert(spec_parse_rendezvous(data@) is None);
        }
        return Err(BatonError::AssuanParse(String::from_str("nonce too short: need 16 bytes")));
    }
    let nonce = slice_to_vec(slice_subrange(data, ns, ns + NONCE_SIZE));
    Ok((port, nonce))
}

/// Round trip: a file written as `<port>\n<16-byte nonce>` parses back to
/// exactly that port and nonce.
pub proof fn lemma_rendezvous_round_trip(port: u16, nonce: Seq<u8>)
    requires
        nonce.len() == NONCE_SIZE,
    ensures
        spec_parse_rendezvous(dec_digits(port as nat) + seq![0x0Au8] + nonce) == Some(
            (port, nonce),
        ),
{
    let digits = dec_digits(port as nat);
    let data = digits + seq![0x0Au8] + nonce;
    lemma_dec_digits_are_digits(port as nat);
    lemma_dec_digits_nonempty(port as nat);
    lemma_dec_digits_value(port as nat);

    assert(forall|j: int| 0 <= j < digits.len() ==> data[j] == digits[j]);
    assert(data[digits.len() as int] == 0x0A);
    lemma_lf_prefix_len(data, digits.len() as int);

    assert(data.take(digits.len() as int) =~= digits);
    assert(digits.last() != 0x0D);
    assert(trim_cr(digits) == digits);
    assert(rendezvous_line(data) == digits);

    assert(digits[0] != 0x2B);
    assert(port_digits(digits) == digits);
    assert(is_port_line(digits));
    assert(port_of_line(digits) == port);

    assert(nonce_start(data) == digits.len() + 1);
    assert(data.subrange(
        digits.len() as int + 1,
        digits.len() as int + 1 + NONCE_SIZE as int,
    ) =~= nonce);
}

} // verus!
