//! Marshaling of foreign string pointers and fixed-size byte buffers into
//! owned, validated text.
//!
//! Two independent conversions live here: a foreign C-string (possibly a null
//! pointer) becomes owned text, and a fixed-size buffer that may be
//! null-padded, or may be full with no terminator at all, becomes owned text.
//! In both, the bytes must decode as valid UTF-8 or the conversion fails with
//! a decoding error.

use vstd::prelude::*;
use vstd::utf8::decode_utf8;
use vstd::utf8::valid_utf8;

use crate::error::DeviceError;
use crate::error::ErrorKind;

verus! {

/// The bytes behind a foreign C-style string pointer, as plain values:
/// `Null` stands for a null pointer, and `Bytes` holds the bytes up to, and
/// not including, the terminator.
#[derive(Debug)]
pub enum CStrBytes {
    Null,
    Bytes(Vec<u8>),
}

impl CStrBytes {
    /// Whether this stands for a null pointer.
    pub open spec fn is_null(self) -> bool {
        self is Null
    }

    /// The bytes carried when the pointer is not null; empty for `Null`.
    pub open spec fn byte_seq(self) -> Seq<u8> {
        match self {
            CStrBytes::Null => Seq::empty(),
            CStrBytes::Bytes(b) => b@,
        }
    }
}

/// The number of bytes before the first null byte of `s`, or the length of
/// `s` when it holds no null byte.
pub open spec fn null_prefix_len(s: Seq<u8>) -> int
    decreases s.len(),
{
    if s.len() == 0 {
        0
    } else if s[0] == 0 {
        0
    } else {
        1 + null_prefix_len(s.skip(1))
    }
}

/// The candidate text of a fixed buffer: everything before the first null
/// byte, or the whole buffer when no null byte exists within it.
pub open spec fn null_prefix(s: Seq<u8>) -> Seq<u8> {
    s.take(null_prefix_len(s))
}

/// The null prefix ends at the first null byte: every byte before it is
/// nonzero, and the byte at its end, when one exists, is zero.
pub proof fn lemma_null_prefix_len_bounds(s: Seq<u8>)
    ensures
        0 <= null_prefix_len(s) <= s.len(),
        forall|j: int| 0 <= j < null_prefix_len(s) ==> s[j] != 0,
        null_prefix_len(s) < s.len() ==> s[null_prefix_len(s)] == 0,
    decreases s.len(),
{
    if s.len() == 0 {
    } else if s[0] == 0 {
    } else {
        lemma_null_prefix_len_bounds(s.skip(1));
        assert forall|j: int| 0 <= j < null_prefix_len(s) implies s[j] != 0 by {
            if j >= 1 {
                assert(s.skip(1)[j - 1] == s[j]);
            }
        }
        if null_prefix_len(s) < s.len() {
            assert(s.skip(1)[null_prefix_len(s) - 1] == s[null_prefix_len(s)]);
        }
    }
}

/// Any position with only nonzero bytes before it and a zero byte (or the
/// end of the sequence) at it is the length of the null prefix.
pub proof fn lemma_null_prefix_len_unique(s: Seq<u8>, i: int)
    requires
        0 <= i <= s.len(),
        forall|j: int| 0 <= j < i ==> s[j] != 0,
        i < s.len() ==> s[i] == 0,
    ensures
        null_prefix_len(s) == i,
    decreases s.len(),
{
    if s.len() == 0 {
    } else if s[0] == 0 {
        assert(i == 0);
    } else {
        assert(i >= 1);
        assert forall|j: int| 0 <= j < i - 1 implies s.skip(1)[j] != 0 by {
            assert(s.skip(1)[j] == s[j + 1]);
        }
        if i - 1 < s.skip(1).len() {
            assert(s.skip(1)[i - 1] == s[i]);
        }
        lemma_null_prefix_len_unique(s.skip(1), i - 1);
    }
}

/// Relies on `core::str::from_utf8`: it succeeds exactly when the bytes are
/// valid UTF-8, and then returns the text those bytes encode.
#[verifier::external_body]
pub(crate) fn utf8_decode(bytes: &[u8]) -> (r: Option<&str>)
    ensures
        r is Some <==> valid_utf8(bytes@),
        r matches Some(s) ==> s@ == decode_utf8(bytes@),
{
    core::str::from_utf8(bytes).ok()
}

/// Find the length of the null prefix of `buf`.
fn find_null(buf: &[u8]) -> (r: usize)
    ensures
        r == null_prefix_len(buf@),
{
    let mut i: usize = 0;
    while i < buf.len()
        invariant
            i <= buf@.len(),
            forall|j: int| 0 <= j < i ==> buf@[j] != 0,
        decreases buf@.len() - i,
    {
        if buf[i] == 0 {
            proof {
                lemma_null_prefix_len_unique(buf@, i as int);
            }
            return i;
        }
        i = i + 1;
    }
    proof {
        lemma_null_prefix_len_unique(buf@, i as int);
    }
    i
}

/// Copy the first `n` bytes of `buf` into an owned vector.
fn copy_prefix(buf: &[u8], n: usize) -> (r: Vec<u8>)
    requires
        n <= buf@.len(),
    ensures
        r@ == buf@.take(n as int),
{
    let mut v: Vec<u8> = Vec::new();
    let mut i: usize = 0;
    while i < n
        invariant
            i <= n <= buf@.len(),
            v@ == buf@.take(i as int),
        decreases n - i,
    {
        let b = buf[i];
        v.push(b);
        i = i + 1;
        proof {
            assert(v@ =~= buf@.take(i as int));
        }
    }
    v
}

/// Marshal a fixed-size buffer that may carry tail padding: the bytes before
/// the first null byte (the whole buffer when none exists) are the candidate
/// text, and must decode as UTF-8, or the conversion fails with a decoding
/// error.
pub fn buf_to_string(buf: &[u8]) -> (r: Result<String, DeviceError>)
    ensures
        valid_utf8(null_prefix(buf@)) ==> (r matches Ok(s) && s@ == decode_utf8(
            null_prefix(buf@),
        )),
        !valid_utf8(null_prefix(buf@)) ==> (r matches Err(e) && e.kind == ErrorKind::InvalidData
            && e.message@ == "buffer bytes are not valid text"@),
{
    proof {
        lemma_null_prefix_len_bounds(buf@);
    }
    let n = find_null(buf);
    let prefix = copy_prefix(buf, n);
    match utf8_decode(prefix.as_slice()) {
        Some(s) => Ok(s.to_owned()),
        None => Err(
            DeviceError::new(ErrorKind::InvalidData, "buffer bytes are not valid text".to_owned()),
        ),
    }
}

/// Marshal the bytes behind a foreign C-string pointer: a null pointer
/// converts to the empty text (it is how some boundary calls say "no value",
/// never an error), and a non-null pointer's bytes must decode as UTF-8, or
/// the conversion fails with a decoding error.
pub fn cstr_to_string(cstr: &CStrBytes) -> (r: Result<String, DeviceError>)
    ensures
        cstr.is_null() ==> (r matches Ok(s) && s@ == Seq::<char>::empty()),
        !cstr.is_null() && valid_utf8(cstr.byte_seq()) ==> (r matches Ok(s) && s@ == decode_utf8(
            cstr.byte_seq(),
        )),
        !cstr.is_null() && !valid_utf8(cstr.byte_seq()) ==> (r matches Err(e) && e.kind
            == ErrorKind::InvalidData && e.message@ == "foreign string is not valid text"@),
{
    match cstr {
        CStrBytes::Null => {
            let s = "".to_owned();
            proof {
                reveal_strlit("");
                assert(s@ =~= Seq::<char>::empty());
            }
            Ok(s)
        },
        CStrBytes::Bytes(b) => match utf8_decode(b.as_slice()) {
            Some(s) => Ok(s.to_owned()),
            None => Err(
                DeviceError::new(
                    ErrorKind::InvalidData,
                    "foreign string is not valid text".to_owned(),
                ),
            ),
        },
    }
}

/// Conversion of a foreign C-style string value into owned text, under the
/// rule that a null pointer means the empty text and anything else must
/// decode as UTF-8.
pub trait CStrExt {
    /// Whether the value stands for a null pointer.
    spec fn cstr_is_null(&self) -> bool;

    /// The bytes the value carries when it is not null.
    spec fn cstr_byte_seq(&self) -> Seq<u8>;

    /// Convert the foreign string value to owned text.
    fn as_string(&self) -> (r: Result<String, DeviceError>)
        ensures
            self.cstr_is_null() ==> (r matches Ok(s) && s@ == Seq::<char>::empty()),
            !self.cstr_is_null() && valid_utf8(self.cstr_byte_seq()) ==> (r matches Ok(s) && s@
                == decode_utf8(self.cstr_byte_seq())),
            !self.cstr_is_null() && !valid_utf8(self.cstr_byte_seq()) ==> (r matches Err(e)
                && e.kind == ErrorKind::InvalidData),
    ;
}

impl CStrExt for CStrBytes {
    open spec fn cstr_is_null(&self) -> bool {
        self.is_null()
    }

    open spec fn cstr_byte_seq(&self) -> Seq<u8> {
        self.byte_seq()
    }

    fn as_string(&self) -> (r: Result<String, DeviceError>) {
        cstr_to_string(self)
    }
}

/// An all-zero buffer, or an empty one, marshals to the empty text: its
/// candidate text is empty, and empty bytes are valid UTF-8 that decodes to
/// no characters.
pub proof fn lemma_all_zero_buffer_decodes_empty(s: Seq<u8>)
    requires
        forall|i: int| 0 <= i < s.len() ==> s[i] == 0,
    ensures
        null_prefix(s) =~= Seq::<u8>::empty(),
        valid_utf8(null_prefix(s)),
        decode_utf8(null_prefix(s)) =~= Seq::<char>::empty(),
{
    assert(null_prefix_len(s) == 0);
    assert(null_prefix(s) =~= Seq::<u8>::empty());
}

} // verus!
