use vstd::prelude::*;
use vstd::string::StringSliceAdditionalSpecFns;
use vstd::utf8::{decode_utf8, valid_utf8};

verus! {

/// Whether `s` can travel to the interpreter as a C string: its UTF-8 bytes
/// hold no NUL byte, which would end the string early.
pub open spec fn c_compatible(s: &str) -> bool {
    !s.spec_bytes().contains(0u8)
}

/// The bytes of `s` as the interpreter receives them: its UTF-8 encoding,
/// then one NUL terminator.
pub open spec fn c_bytes(s: &str) -> Seq<u8> {
    s.spec_bytes().push(0u8)
}

/// What a C reader sees of `b`: the bytes before the first NUL, or all of
/// `b` where it holds none.
pub open spec fn until_nul(b: Seq<u8>) -> Seq<u8>
    decreases b.len(),
{
    if b.len() == 0 {
        b
    } else if b[0] == 0 {
        Seq::empty()
    } else {
        seq![b[0]] + until_nul(b.drop_first())
    }
}

/// The text that `String::from_utf8_lossy` gives for `bytes`.
pub uninterp spec fn utf8_lossy(bytes: Seq<u8>) -> Seq<char>;

/// The text that the interpreter's bytes stand for: the decoded characters
/// where the bytes are valid UTF-8, else the lossy decoding, in which each
/// invalid sequence becomes U+FFFD.
pub open spec fn text_of(bytes: Seq<u8>) -> Seq<char> {
    if valid_utf8(bytes) {
        decode_utf8(bytes)
    } else {
        utf8_lossy(bytes)
    }
}

/// Calls `String::from_utf8_lossy`; its result is named `utf8_lossy`, and its
/// documentation promises that valid UTF-8 comes out as the same text.
#[verifier::external_body]
fn from_utf8_lossy(bytes: &[u8]) -> (r: String)
    ensures
        r@ == utf8_lossy(bytes@),
        valid_utf8(bytes@) ==> r@ == decode_utf8(bytes@),
{
    String::from_utf8_lossy(bytes).into_owned()
}

/// The text of a string that the interpreter handed back as bytes (without
/// its NUL terminator).
pub fn text(bytes: &[u8]) -> (r: String)
    ensures
        r@ == text_of(bytes@),
        valid_utf8(bytes@) ==> r@ == decode_utf8(bytes@),
        !valid_utf8(bytes@) ==> r@ == utf8_lossy(bytes@),
{
    from_utf8_lossy(bytes)
}

/// Whether `s` can be handed to the interpreter as a C string.
pub fn is_c_compatible(s: &str) -> (r: bool)
    ensures
        r == c_compatible(s),
        r == !s.spec_bytes().contains(0u8),
{
    let bytes = s.as_bytes();
    let n = bytes.len();
    let mut i: usize = 0;
    while i < n
        invariant
            n == bytes@.len(),
            bytes@ == s.spec_bytes(),
            i <= n,
            forall|j: int| 0 <= j < i ==> bytes@[j] != 0u8,
        decreases n - i,
    {
        if bytes[i] == 0 {
            assert(s.spec_bytes()[i as int] == 0u8);
            return false;
        }
        i = i + 1;
    }
    assert(!s.spec_bytes().contains(0u8)) by {
        if s.spec_bytes().contains(0u8) {
            let j = choose|j: int| 0 <= j < s.spec_bytes().len() && s.spec_bytes()[j] == 0u8;
            assert(bytes@[j] != 0u8);
        }
    }
    true
}

/// The NUL-terminated bytes of `s`, ready for the interpreter.
pub fn c_string(s: &str) -> (r: Vec<u8>)
    requires
        c_compatible(s),
    ensures
        r@ == c_bytes(s),
        r@ == s.spec_bytes().push(0u8),
{
    let bytes = s.as_bytes();
    let n = bytes.len();
    let mut out: Vec<u8> = Vec::new();
    let mut i: usize = 0;
    while i < n
        invariant
            n == bytes@.len(),
            i <= n,
            out@ == bytes@.take(i as int),
        decreases n - i,
    {
        out.push(bytes[i]);
        i = i + 1;
        assert(out@ =~= bytes@.take(i as int));
    }
    assert(out@ =~= bytes@);
    out.push(0u8);
    out
}

/// What a C reader takes of `b` is the longest prefix of `b` without NUL:
/// it stops at the end of `b` or just before the first NUL.
pub proof fn lemma_until_nul_prefix(b: Seq<u8>)
    ensures
        until_nul(b).len() <= b.len(),
        forall|i: int| 0 <= i < until_nul(b).len() ==> until_nul(b)[i] == b[i] && b[i] != 0u8,
        until_nul(b).len() == b.len() || b[until_nul(b).len() as int] == 0u8,
    decreases b.len(),
{
    if b.len() > 0 && b[0] != 0u8 {
        let rest = b.drop_first();
        lemma_until_nul_prefix(rest);
        let u = until_nul(b);
        assert(u == seq![b[0]] + until_nul(rest));
        assert forall|i: int| 0 <= i < u.len() implies u[i] == b[i] && b[i] != 0u8 by {
            if i > 0 {
                assert(u[i] == until_nul(rest)[i - 1]);
                assert(rest[i - 1] == b[i]);
            }
        }
        if until_nul(rest).len() < rest.len() {
            assert(rest[until_nul(rest).len() as int] == b[u.len() as int]);
        }
    }
}

proof fn lemma_until_nul_step(b: Seq<u8>, i: int)
    requires
        0 <= i < b.len(),
        b[i] != 0u8,
    ensures
        until_nul(b.skip(i)) == seq![b[i]] + until_nul(b.skip(i + 1)),
{
    assert(b.skip(i).drop_first() =~= b.skip(i + 1));
}

/// The NUL-terminated bytes of `s` up to its first NUL: what a C reader takes
/// from the bytes of `s`, then a terminator.
pub fn c_string_prefix(s: &str) -> (r: Vec<u8>)
    ensures
        r@ == until_nul(s.spec_bytes()).push(0u8),
        1 <= r@.len() <= s.spec_bytes().len() + 1,
        r@[r@.len() - 1] == 0u8,
        forall|i: int|
            0 <= i < r@.len() - 1 ==> r@[i] == s.spec_bytes()[i] && s.spec_bytes()[i] != 0u8,
        r@.len() - 1 == s.spec_bytes().len() || s.spec_bytes()[r@.len() - 1] == 0u8,
{
    proof {
        lemma_until_nul_prefix(s.spec_bytes());
    }
    let bytes = s.as_bytes();
    let n = bytes.len();
    let mut out: Vec<u8> = Vec::new();
    let mut i: usize = 0;
    assert(bytes@.skip(0) =~= bytes@);
    while i < n
        invariant_except_break
            until_nul(bytes@) == out@ + until_nul(bytes@.skip(i as int)),
        invariant
            n == bytes@.len(),
            bytes@ == s.spec_bytes(),
            i <= n,
        ensures
            until_nul(bytes@) == out@,
        decreases n - i,
    {
        if bytes[i] == 0 {
            assert(until_nul(bytes@.skip(i as int)) =~= Seq::<u8>::empty());
            assert(out@ + Seq::<u8>::empty() =~= out@);
            break;
        }
        proof {
            lemma_until_nul_step(bytes@, i as int);
        }
        let ghost before = out@;
        out.push(bytes[i]);
        i = i + 1;
        assert(out@ + until_nul(bytes@.skip(i as int)) =~= before + (seq![bytes@[i - 1]]
            + until_nul(bytes@.skip(i as int))));
    }
    proof {
        if i == n {
            assert(bytes@.skip(n as int) =~= Seq::<u8>::empty());
            assert(out@ + Seq::<u8>::empty() =~= out@);
        }
    }
    out.push(0u8);
    out
}

} // verus!
