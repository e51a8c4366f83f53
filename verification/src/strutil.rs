//! Verified helpers over character sequences: splitting register words into
//! bytes, skipping embedded zero bytes, whitespace trimming, and string
//! slice comparison.

use vstd::prelude::*;

verus! {

use vstd::string::StrSliceExecFns;

/// The four bytes of a 32-bit word, least significant first: the order in
/// which the identification registers spell their strings.
pub open spec fn spec_le_bytes(w: u32) -> Seq<u8> {
    seq![
        (w & 0xFF) as u8,
        ((w >> 8) & 0xFF) as u8,
        ((w >> 16) & 0xFF) as u8,
        ((w >> 24) & 0xFF) as u8,
    ]
}

/// One character for every nonzero byte, in order.  Legacy parts report
/// fewer than the full width of significant characters and pad with zero
/// bytes, which must be skipped rather than read as terminators.
pub open spec fn nonzero_chars(bytes: Seq<u8>) -> Seq<char>
    decreases bytes.len(),
{
    if bytes.len() == 0 {
        Seq::empty()
    } else if bytes.last() == 0 {
        nonzero_chars(bytes.drop_last())
    } else {
        nonzero_chars(bytes.drop_last()).push(bytes.last() as char)
    }
}

/// Relies on `String::push`: appends one character.
#[verifier::external_body]
pub(crate) fn string_push(s: &mut String, c: char)
    ensures
        final(s)@ == old(s)@.push(c),
{
    s.push(c);
}

/// Appends the four bytes of `w` to `out`, least significant first.
pub fn push_le_bytes(out: &mut Vec<u8>, w: u32)
    ensures
        final(out)@ == old(out)@ + spec_le_bytes(w),
{
    proof {
        assert(w & 0xFF <= 0xFF && (w >> 8) & 0xFF <= 0xFF && (w >> 16) & 0xFF <= 0xFF && (w >> 24)
            & 0xFF <= 0xFF) by (bit_vector);
    }
    out.push((w & 0xFF) as u8);
    out.push(((w >> 8) & 0xFF) as u8);
    out.push(((w >> 16) & 0xFF) as u8);
    out.push(((w >> 24) & 0xFF) as u8);
    proof {
        assert(final(out)@ =~= old(out)@ + spec_le_bytes(w));
    }
}

/// Appends one character for every nonzero byte of `bytes` to `out`.
pub fn push_nonzero_chars(out: &mut String, bytes: &Vec<u8>)
    ensures
        final(out)@ == old(out)@ + nonzero_chars(bytes@),
{
    let n = bytes.len();
    let mut i: usize = 0;
    while i < n
        invariant
            i <= n,
            n == bytes@.len(),
            out@ == old(out)@ + nonzero_chars(bytes@.take(i as int)),
        decreases n - i,
    {
        let b = bytes[i];
        if b != 0 {
            string_push(out, b as char);
        }
        proof {
            assert(bytes@.take(i + 1).drop_last() =~= bytes@.take(i as int));
            assert(bytes@.take(i + 1).last() == bytes@[i as int]);
        }
        i += 1;
    }
    proof {
        assert(bytes@.take(n as int) =~= bytes@);
    }
}

/// Whether `c` is one of the whitespace characters of the 8-bit range that
/// trimming removes.
pub open spec fn is_trim_ws(c: char) -> bool {
    c == ' ' || c == '\t' || c == '\n' || c == '\u{B}' || c == '\u{C}' || c == '\r' || c
        == '\u{85}' || c == '\u{A0}'
}

/// `s` without its leading whitespace.
pub open spec fn trim_front(s: Seq<char>) -> Seq<char>
    decreases s.len(),
{
    if s.len() > 0 && is_trim_ws(s[0]) {
        trim_front(s.drop_first())
    } else {
        s
    }
}

/// `s` without its trailing whitespace.
pub open spec fn trim_back(s: Seq<char>) -> Seq<char>
    decreases s.len(),
{
    if s.len() > 0 && is_trim_ws(s.last()) {
        trim_back(s.drop_last())
    } else {
        s
    }
}

/// `s` without leading or trailing whitespace.
pub open spec fn trim_chars(s: Seq<char>) -> Seq<char> {
    trim_back(trim_front(s))
}

/// Whether `c` is whitespace in the sense of [`is_trim_ws`].
pub fn is_ws_char(c: char) -> (r: bool)
    ensures
        r == is_trim_ws(c),
{
    c == ' ' || c == '\t' || c == '\n' || c == '\u{B}' || c == '\u{C}' || c == '\r' || c == '\u{85}'
        || c == '\u{A0}'
}

/// The slice of `s` with leading and trailing whitespace removed.
pub fn trim_str(s: &str) -> (r: &str)
    ensures
        r@ == trim_chars(s@),
{
    let n = s.unicode_len();
    let mut i: usize = 0;
    proof {
        assert(s@.skip(0) =~= s@);
    }
    while i < n
        invariant_except_break
            i <= n,
            n == s@.len(),
            trim_front(s@) == trim_front(s@.skip(i as int)),
        ensures
            i <= n,
            n == s@.len(),
            trim_front(s@) == trim_front(s@.skip(i as int)),
            i == n || !is_trim_ws(s@[i as int]),
        decreases n - i,
    {
        if !is_ws_char(s.get_char(i)) {
            break ;
        }
        proof {
            assert(s@.skip(i as int).drop_first() =~= s@.skip(i as int + 1));
        }
        i += 1;
    }
    proof {
        if i < n {
            assert(trim_front(s@.skip(i as int)) == s@.skip(i as int));
        } else {
            assert(s@.skip(n as int) =~= Seq::<char>::empty());
        }
        assert(trim_front(s@) == s@.subrange(i as int, n as int)) by {
            assert(s@.skip(i as int) =~= s@.subrange(i as int, n as int));
        }
    }
    let mut j: usize = n;
    while j > i
        invariant_except_break
            i <= j <= n,
            n == s@.len(),
            trim_back(s@.subrange(i as int, n as int)) == trim_back(
                s@.subrange(i as int, j as int),
            ),
        ensures
            i <= j <= n,
            n == s@.len(),
            trim_back(s@.subrange(i as int, n as int)) == trim_back(
                s@.subrange(i as int, j as int),
            ),
            j == i || !is_trim_ws(s@[j - 1]),
        decreases j,
    {
        if !is_ws_char(s.get_char(j - 1)) {
            break ;
        }
        proof {
            assert(s@.subrange(i as int, j as int).drop_last() =~= s@.subrange(
                i as int,
                j as int - 1,
            ));
            assert(s@.subrange(i as int, j as int).last() == s@[j as int - 1]);
        }
        j -= 1;
    }
    proof {
        let mid = s@.subrange(i as int, j as int);
        if j > i {
            assert(mid.last() == s@[j as int - 1]);
            assert(trim_back(mid) == mid);
        } else {
            assert(mid =~= Seq::<char>::empty());
        }
        assert(trim_chars(s@) == s@.subrange(i as int, j as int));
    }
    s.substring_char(i, j)
}

/// Whether two string slices hold the same characters.
pub fn str_eq(a: &str, b: &str) -> (r: bool)
    ensures
        r == (a@ == b@),
{
    let an = a.unicode_len();
    let bn = b.unicode_len();
    if an != bn {
        proof {
            assert(a@ != b@);
        }
        return false;
    }
    let mut i: usize = 0;
    while i < an
        invariant
            i <= an,
            an == a@.len(),
            an == b@.len(),
            forall|j: int| 0 <= j < i ==> a@[j] == b@[j],
        decreases an - i,
    {
        if a.get_char(i) != b.get_char(i) {
            proof {
                assert(a@[i as int] != b@[i as int]);
            }
            return false;
        }
        i += 1;
    }
    proof {
        assert(a@ =~= b@);
    }
    true
}

} // verus!
