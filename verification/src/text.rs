//! Text handling shared by the codec and the dispatch loop: prefixes,
//! trimming, and the lossy decoding of worker output.

use vstd::prelude::*;
use vstd::string::StrSliceExecFns;

verus! {

/// The characters that `char::is_whitespace` accepts: the code points with
/// the Unicode property `White_Space`.
pub open spec fn is_space(c: char) -> bool {
    let n = c as u32;
    ||| 0x09 <= n <= 0x0d
    ||| n == 0x20
    ||| n == 0x85
    ||| n == 0xa0
    ||| n == 0x1680
    ||| 0x2000 <= n <= 0x200a
    ||| n == 0x2028
    ||| n == 0x2029
    ||| n == 0x202f
    ||| n == 0x205f
    ||| n == 0x3000
}

/// `s` without its leading whitespace.
pub open spec fn trim_start(s: Seq<char>) -> Seq<char>
    decreases s.len(),
{
    if s.len() > 0 && is_space(s[0]) {
        trim_start(s.drop_first())
    } else {
        s
    }
}

/// `s` without its trailing whitespace.
pub open spec fn trim_end(s: Seq<char>) -> Seq<char>
    decreases s.len(),
{
    if s.len() > 0 && is_space(s.last()) {
        trim_end(s.drop_last())
    } else {
        s
    }
}

/// `s` without leading and trailing whitespace.
pub open spec fn trimmed(s: Seq<char>) -> Seq<char> {
    trim_end(trim_start(s))
}

/// What `String::from_utf8_lossy` makes of a byte string: its text, with each
/// malformed sequence replaced by U+FFFD.
pub uninterp spec fn lossy_text(bytes: Seq<u8>) -> Seq<char>;

/// Calls `str::trim`, which removes leading and trailing whitespace as
/// `char::is_whitespace` defines it.
#[verifier::external_body]
pub(crate) fn trim(s: &str) -> (r: &str)
    ensures
        r@ == trimmed(s@),
{
    s.trim()
}

/// Calls `String::from_utf8_lossy` and owns the result. The contract only
/// names the text that comes back.
#[verifier::external_body]
pub(crate) fn decode_lossy(bytes: &[u8]) -> (r: String)
    ensures
        r@ == lossy_text(bytes@),
{
    String::from_utf8_lossy(bytes).into_owned()
}

/// Whether `line` begins with `prefix`.
pub fn has_prefix(line: &str, prefix: &str) -> (r: bool)
    ensures
        r == prefix@.is_prefix_of(line@),
{
    let n = prefix.unicode_len();
    let m = line.unicode_len();
    if m < n {
        return false;
    }
    let mut i: usize = 0;
    while i < n
        invariant
            i <= n,
            n == prefix@.len(),
            m == line@.len(),
            n <= m,
            forall|j: int| 0 <= j < i ==> prefix@[j] == line@[j],
        decreases n - i,
    {
        if prefix.get_char(i) != line.get_char(i) {
            return false;
        }
        i += 1;
    }
    assert(prefix@ =~= line@.subrange(0, n as int));
    true
}

/// The part of `line` behind its first `skip` characters.
pub fn tail_from(line: &str, skip: usize) -> (r: &str)
    requires
        skip <= line@.len(),
    ensures
        r@ == line@.skip(skip as int),
{
    let m = line.unicode_len();
    let r = line.substring_char(skip, m);
    assert(line@.subrange(skip as int, m as int) =~= line@.skip(skip as int));
    r
}

} // verus!
