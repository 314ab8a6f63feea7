use crate::error::{FliteError, FliteResult};
use vstd::prelude::*;
use vstd::string::StrSliceExecFns;
use vstd::utf8::{decode_utf8, encode_scalar, encode_utf8};

verus! {

/// Whether `s` holds a NUL character anywhere.
///
/// The engine reads a string up to its first NUL, so a string with one inside
/// cannot be handed over whole.
pub open spec fn has_nul(s: Seq<char>) -> bool {
    exists|i: int| 0 <= i < s.len() && s[i] == '\0'
}

/// Whether `bytes` holds a zero byte anywhere.
pub open spec fn has_zero(bytes: Seq<u8>) -> bool {
    exists|i: int| 0 <= i < bytes.len() && bytes[i] == 0
}

/// The form in which the engine takes the string `s`: its UTF-8 encoding
/// and a terminating zero byte.
pub open spec fn c_encoding(s: Seq<char>) -> Seq<u8> {
    encode_utf8(s).push(0u8)
}

/// A concatenation holds a NUL exactly when one of its parts does.
pub proof fn lemma_has_nul_concat(a: Seq<char>, b: Seq<char>)
    ensures
        has_nul(a + b) == (has_nul(a) || has_nul(b)),
{
    let ab = a + b;
    if has_nul(a) {
        let i = choose|i: int| 0 <= i < a.len() && a[i] == '\0';
        assert(ab[i] == '\0');
    }
    if has_nul(b) {
        let i = choose|i: int| 0 <= i < b.len() && b[i] == '\0';
        assert(ab[a.len() + i] == '\0');
    }
    if has_nul(ab) {
        let i = choose|i: int| 0 <= i < ab.len() && ab[i] == '\0';
        if i < a.len() {
            assert(a[i] == '\0');
        } else {
            assert(b[i - a.len()] == '\0');
        }
    }
}

/// Of the bytes that UTF-8 makes of a scalar value, only the single byte of
/// the value zero is zero.
proof fn lemma_scalar_bytes(c: u32)
    by (bit_vector)
    requires
        c <= 0x10FFFF,
    ensures
        c <= 0x7F ==> (((c & 0x7F) as u8 == 0) <==> c == 0),
        (0xC0u8 | ((c >> 6) & 0x1F) as u8) != 0,
        (0xE0u8 | ((c >> 12) & 0x0F) as u8) != 0,
        (0xF0u8 | ((c >> 18) & 0x7) as u8) != 0,
        (0x80u8 | (c & 0x3F) as u8) != 0,
        (0x80u8 | ((c >> 6) & 0x3F) as u8) != 0,
        (0x80u8 | ((c >> 12) & 0x3F) as u8) != 0,
{
}

/// The UTF-8 encoding of a character holds a zero byte exactly when the
/// character is NUL.
pub proof fn lemma_char_zero_byte(c: char)
    ensures
        has_zero(encode_scalar(c as u32)) == (c == '\0'),
        encode_scalar(c as u32).len() >= 1,
{
    let v = c as u32;
    let bytes = encode_scalar(v);
    lemma_scalar_bytes(v);
    if c == '\0' {
        assert(bytes[0] == 0);
    }
    if has_zero(bytes) {
        let i = choose|i: int| 0 <= i < bytes.len() && bytes[i] == 0;
        assert(bytes[i] == 0);
    }
}

/// The UTF-8 encoding of a string holds a zero byte exactly when the string
/// holds a NUL. So the engine, which stops at the first zero byte, reads a
/// string without a NUL to its end, and one with a NUL not.
pub proof fn lemma_zero_byte_iff_nul(s: Seq<char>)
    ensures
        has_zero(encode_utf8(s)) == has_nul(s),
    decreases s.len(),
{
    if s.len() > 0 {
        let head = encode_scalar(s[0] as u32);
        let rest = s.drop_first();
        let tail = encode_utf8(rest);
        let all = encode_utf8(s);
        assert(all == head + tail);
        lemma_char_zero_byte(s[0]);
        lemma_zero_byte_iff_nul(rest);
        if has_zero(head) {
            let i = choose|i: int| 0 <= i < head.len() && head[i] == 0;
            assert(all[i] == 0);
            assert(s[0] == '\0');
        }
        if has_zero(tail) {
            let i = choose|i: int| 0 <= i < tail.len() && tail[i] == 0;
            assert(all[head.len() + i] == 0);
            let k = choose|k: int| 0 <= k < rest.len() && rest[k] == '\0';
            assert(s[k + 1] == '\0');
        }
        if has_zero(all) {
            let i = choose|i: int| 0 <= i < all.len() && all[i] == 0;
            if i < head.len() {
                assert(head[i] == 0);
            } else {
                assert(tail[i - head.len()] == 0);
            }
        }
        if has_nul(s) {
            let k = choose|k: int| 0 <= k < s.len() && s[k] == '\0';
            if k > 0 {
                assert(rest[k - 1] == '\0');
            }
        }
    }
}

/// Tells whether `s` holds a NUL character.
pub fn contains_nul(s: &str) -> (found: bool)
    ensures
        found == has_nul(s@),
{
    let bytes = s.as_bytes();
    let n: usize = bytes.len();
    let mut i: usize = 0;
    proof {
        lemma_zero_byte_iff_nul(s@);
    }
    while i < n
        invariant
            i <= n,
            n == bytes@.len(),
            has_zero(bytes@) == has_nul(s@),
            forall|k: int| 0 <= k < i ==> bytes@[k] != 0,
        decreases n - i,
    {
        if bytes[i] == 0 {
            return true;
        }
        i += 1;
    }
    false
}

/// Tells whether two strings hold the same characters.
pub fn str_eq(a: &str, b: &str) -> (same: bool)
    ensures
        same == (a@ == b@),
{
    broadcast use vstd::utf8::encode_utf8_decode_utf8;

    let x = a.as_bytes();
    let y = b.as_bytes();
    if x.len() != y.len() {
        return false;
    }
    let n: usize = x.len();
    let mut i: usize = 0;
    while i < n
        invariant
            i <= n,
            n == x@.len(),
            n == y@.len(),
            x@ == encode_utf8(a@),
            y@ == encode_utf8(b@),
            forall|k: int| 0 <= k < i ==> x@[k] == y@[k],
        decreases n - i,
    {
        if x[i] != y[i] {
            return false;
        }
        i += 1;
    }
    assert(x@ =~= y@);
    assert(decode_utf8(encode_utf8(a@)) == a@);
    assert(decode_utf8(encode_utf8(b@)) == b@);
    true
}

/// A string that the engine can take whole: one that holds no NUL.
#[derive(Debug, PartialEq, Eq)]
pub struct CText {
    text: String,
}

impl View for CText {
    type V = Seq<char>;

    closed spec fn view(&self) -> Seq<char> {
        self.text@
    }
}

impl CText {
    #[verifier::type_invariant]
    spec fn whole(self) -> bool {
        !has_nul(self.text@)
    }

    /// Accepts `text` for the engine unless it holds a NUL, which is
    /// `InvalidText`.
    pub fn new(text: String) -> (accepted: FliteResult<CText>)
        ensures
            match accepted {
                Ok(t) => !has_nul(text@) && t@ == text@,
                Err(e) => has_nul(text@) && e == FliteError::InvalidText,
            },
    {
        if contains_nul(text.as_str()) {
            Err(FliteError::InvalidText)
        } else {
            Ok(CText { text })
        }
    }

    /// The string, which holds no NUL.
    pub fn as_str(&self) -> (text: &str)
        ensures
            text@ == self@,
            !has_nul(text@),
    {
        proof {
            use_type_invariant(self);
        }
        self.text.as_str()
    }

    /// The string as the engine takes it: its UTF-8 bytes and a terminating
    /// zero byte, which is the only zero byte.
    pub fn to_bytes_with_nul(&self) -> (bytes: Vec<u8>)
        ensures
            bytes@ == c_encoding(self@),
            !has_zero(bytes@.drop_last()),
    {
        proof {
            use_type_invariant(self);
            lemma_zero_byte_iff_nul(self.text@);
        }
        let mut bytes = self.text.as_str().as_bytes_vec();
        bytes.push(0u8);
        assert(bytes@.drop_last() =~= encode_utf8(self.text@));
        bytes
    }
}

} // verus!
