use vstd::prelude::*;
use vstd::utf8::{decode_utf8, is_ascii_chars, valid_utf8};

use crate::error::{Error, Result};

verus! {

/// Number of bytes of `b` before its first zero byte, or the length of `b`
/// when it holds no zero byte: the C text that `b` starts with.
pub open spec fn c_text_len(b: Seq<u8>) -> nat
    decreases b.len(),
{
    if b.len() == 0 || b[0] == 0 {
        0
    } else {
        1 + c_text_len(b.drop_first())
    }
}

/// The bytes of the C text that `b` starts with, without its terminator.
pub open spec fn c_text(b: Seq<u8>) -> Seq<u8> {
    b.subrange(0, c_text_len(b) as int)
}

/// `k` ends the C text of `b`: every byte before it is non-zero, and it is
/// either the position of a zero byte or the end of `b`.
pub open spec fn ends_c_text(b: Seq<u8>, k: int) -> bool {
    &&& 0 <= k <= b.len()
    &&& forall|i: int| 0 <= i < k ==> b[i] != 0
    &&& k < b.len() ==> b[k] == 0
}

/// Every byte of `b` is ASCII.
pub open spec fn is_ascii_bytes(b: Seq<u8>) -> bool {
    forall|i: int| 0 <= i < b.len() ==> b[i] < 0x80
}

/// The characters that ASCII bytes stand for.
pub open spec fn ascii_chars(b: Seq<u8>) -> Seq<char> {
    Seq::new(b.len(), |i: int| b[i] as char)
}

/// The end of the C text is the one position that `ends_c_text` describes.
proof fn lemma_ends_c_text_unique(b: Seq<u8>, k: int)
    requires
        ends_c_text(b, k),
    ensures
        c_text_len(b) == k,
    decreases b.len(),
{
    if b.len() != 0 && b[0] != 0 {
        let t = b.drop_first();
        assert(ends_c_text(t, k - 1)) by {
            assert forall|i: int| 0 <= i < k - 1 implies t[i] != 0 by {
                assert(b[i + 1] != 0);
            }
        }
        lemma_ends_c_text_unique(t, k - 1);
    }
}

/// ASCII bytes are valid UTF-8, and each of them encodes the character of
/// the same value.
proof fn lemma_ascii_is_utf8(b: Seq<u8>)
    requires
        is_ascii_bytes(b),
    ensures
        valid_utf8(b),
        decode_utf8(b) == ascii_chars(b),
{
    broadcast use vstd::utf8::group_utf8_lib;
    let chars = ascii_chars(b);
    assert(is_ascii_chars(chars));
    vstd::utf8::is_ascii_chars_encode_utf8(chars);
    assert(vstd::utf8::encode_utf8(chars) =~= b);
}

/// When the first zero byte of `b` stands at `k`, the C text of `b` is
/// exactly the bytes before `k`, whatever follows them.
pub proof fn lemma_text_ends_at_first_nul(b: Seq<u8>, k: int)
    requires
        0 <= k < b.len(),
        b[k] == 0,
        forall|i: int| 0 <= i < k ==> b[i] != 0,
    ensures
        c_text_len(b) == k,
        c_text(b) == b.subrange(0, k),
{
    lemma_ends_c_text_unique(b, k);
}

/// Two buffers that agree up to and including a zero byte at `k`, with no
/// zero byte before it, have the same C text, whatever follows `k` in each.
pub proof fn lemma_text_ignores_tail(a: Seq<u8>, b: Seq<u8>, k: int)
    requires
        0 <= k < a.len(),
        k < b.len(),
        a.subrange(0, k + 1) == b.subrange(0, k + 1),
        a[k] == 0,
        forall|i: int| 0 <= i < k ==> a[i] != 0,
    ensures
        c_text(a) == c_text(b),
        c_text(a) == a.subrange(0, k),
{
    assert forall|i: int| 0 <= i <= k implies a[i] == b[i] by {
        assert(a[i] == a.subrange(0, k + 1)[i]);
        assert(b[i] == b.subrange(0, k + 1)[i]);
    }
    lemma_text_ends_at_first_nul(a, k);
    lemma_text_ends_at_first_nul(b, k);
    assert(a.subrange(0, k) =~= b.subrange(0, k));
}

/// When `b` holds no zero byte, its C text is all of `b`.
pub proof fn lemma_text_without_nul(b: Seq<u8>)
    requires
        forall|i: int| 0 <= i < b.len() ==> b[i] != 0,
    ensures
        c_text(b) == b,
{
    lemma_ends_c_text_unique(b, b.len() as int);
    assert(b.subrange(0, b.len() as int) =~= b);
}

/// Position of the first zero byte of `buf`, or its length when it holds none.
pub fn first_nul_index(buf: &[u8]) -> (r: usize)
    ensures
        r == c_text_len(buf@),
        r <= buf@.len(),
{
    let mut i: usize = 0;
    while i < buf.len()
        invariant
            0 <= i <= buf@.len(),
            forall|j: int| 0 <= j < i ==> buf@[j] != 0,
        decreases buf@.len() - i,
    {
        if buf[i] == 0 {
            proof {
                lemma_ends_c_text_unique(buf@, i as int);
            }
            return i;
        }
        i = i + 1;
    }
    proof {
        lemma_ends_c_text_unique(buf@, i as int);
    }
    i
}

/// Relies on `std::str::from_utf8`: it succeeds exactly when the bytes are
/// valid UTF-8, and then borrows them as the text that they encode.
#[verifier::external_body]
fn decode_utf8_strict<'a>(b: &'a [u8]) -> (r: core::result::Result<&'a str, core::str::Utf8Error>)
    ensures
        r is Ok <==> valid_utf8(b@),
        r is Ok ==> r->Ok_0@ == decode_utf8(b@),
{
    core::str::from_utf8(b)
}

/// Reads the C text at the start of `buf` (up to its first zero byte, or all
/// of it when there is none) as UTF-8, borrowing from `buf`.
pub fn str_from_u8(buf: &[u8]) -> (r: Result<&str>)
    ensures
        r is Ok <==> valid_utf8(c_text(buf@)),
        r is Ok ==> r->Ok_0@ == decode_utf8(c_text(buf@)),
        r is Err ==> r->Err_0 is UnicodeError,
        buf@.len() > 0 && buf@[0] == 0 ==> r is Ok && r->Ok_0@.len() == 0,
        is_ascii_bytes(c_text(buf@)) ==> r is Ok && r->Ok_0@ == ascii_chars(c_text(buf@)),
{
    let first_nul_idx = first_nul_index(buf);
    let text = vstd::slice::slice_subrange(buf, 0, first_nul_idx);
    proof {
        if is_ascii_bytes(c_text(buf@)) {
            lemma_ascii_is_utf8(c_text(buf@));
        }
    }
    match decode_utf8_strict(text) {
        Ok(s) => Ok(s),
        Err(e) => Err(Error::from(e)),
    }
}

/// Turns what the page-size configuration query returned, widened to `i64`,
/// into a page size: a positive value is the size in bytes; the query's
/// failure sentinel, or any other value that cannot be a size, is
/// `SysconfFailedError`.
pub fn page_size_from_sysconf(raw: i64) -> (r: Result<i64>)
    ensures
        r is Ok <==> raw > 0,
        r is Ok ==> r->Ok_0 == raw && r->Ok_0 > 0,
        r is Err ==> r->Err_0 is SysconfFailedError,
{
    if raw <= 0 {
        return Err(Error::SysconfFailedError);
    }
    Ok(raw)
}

/// What `String::from_utf8_lossy` makes of the given bytes.
pub uninterp spec fn utf8_lossy(b: Seq<u8>) -> Seq<char>;

/// Relies on `String::from_utf8_lossy`: the text it returns depends on the
/// bytes alone, and valid UTF-8 comes back as the text that it encodes.
#[verifier::external_body]
fn decode_utf8_lossy(b: &[u8]) -> (r: String)
    ensures
        r@ == utf8_lossy(b@),
        valid_utf8(b@) ==> r@ == decode_utf8(b@),
{
    String::from_utf8_lossy(b).into_owned()
}

/// Turns the outcome of a reentrant account-table lookup into a user name.
/// `code` is the lookup's return code; `entry` holds the bytes of the account
/// name when the lookup's result pointer was set, and is `None` when it was
/// left null. Only a zero code with an entry is a success; anything else
/// means that no identity was found. Bytes that are not UTF-8 are decoded
/// with replacement characters rather than rejected.
pub fn username_from_lookup(code: i32, entry: Option<&[u8]>) -> (r: Option<String>)
    ensures
        r is Some <==> code == 0 && entry is Some,
        r is Some ==> r->Some_0@ == utf8_lossy(entry->Some_0@),
        r is Some && valid_utf8(entry->Some_0@) ==> r->Some_0@ == decode_utf8(entry->Some_0@),
{
    if code != 0 {
        return None;
    }
    match entry {
        Some(name) => Some(decode_utf8_lossy(name)),
        None => None,
    }
}

} // verus!
