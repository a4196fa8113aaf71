//! Fixed-capacity, null-terminated byte buffers used to pass text to and from the host.
use vstd::prelude::*;
use vstd::utf8::*;
use vstd::string::*;
use vstd::math::min;
use core::str::Utf8Error;

verus! {

/// Index of the first null byte of `b`, or its length when it holds none.
pub open spec fn text_len(b: Seq<u8>) -> nat
    decreases b.len(),
{
    if b.len() == 0 {
        0
    } else if b[0] == 0u8 {
        0
    } else {
        1 + text_len(b.drop_first())
    }
}

/// The logical text held by a buffer: every byte before the first null.
pub open spec fn text_of(b: Seq<u8>) -> Seq<u8> {
    b.take(text_len(b) as int)
}

proof fn lemma_text_len(b: Seq<u8>)
    ensures
        text_len(b) <= b.len(),
        forall|i: int| 0 <= i < text_len(b) ==> b[i] != 0u8,
        text_len(b) < b.len() ==> b[text_len(b) as int] == 0u8,
    decreases b.len(),
{
    if b.len() > 0 && b[0] != 0u8 {
        lemma_text_len(b.drop_first());
        assert forall|i: int| 0 <= i < text_len(b) implies b[i] != 0u8 by {
            if i > 0 {
                assert(b[i] == b.drop_first()[i - 1]);
            }
        }
    }
}

/// `text_len` is the unique position described by its null bytes.
proof fn lemma_text_len_unique(b: Seq<u8>, k: nat)
    requires
        k <= b.len(),
        forall|i: int| 0 <= i < k ==> b[i] != 0u8,
        k < b.len() ==> b[k as int] == 0u8,
    ensures
        text_len(b) == k,
    decreases b.len(),
{
    if b.len() > 0 && b[0] != 0u8 {
        assert forall|i: int| 0 <= i < k - 1 implies b.drop_first()[i] != 0u8 by {
            assert(b.drop_first()[i] == b[i + 1]);
        }
        if k > 0 {
            if k - 1 < b.drop_first().len() {
                assert(b.drop_first()[k - 1] == b[k as int]);
            }
            lemma_text_len_unique(b.drop_first(), (k - 1) as nat);
        }
    }
}

/// Finds the first null byte of `b` (its length when there is none).
fn first_null(b: &[u8]) -> (n: usize)
    ensures
        n == text_len(b@),
        n <= b@.len(),
{
    let mut i: usize = 0;
    while i < b.len() && b[i] != 0u8
        invariant
            i <= b@.len(),
            forall|j: int| 0 <= j < i ==> b@[j] != 0u8,
        decreases b@.len() - i,
    {
        i = i + 1;
    }
    proof {
        lemma_text_len_unique(b@, i as nat);
    }
    i
}

/// A fixed-length array of bytes that the host writes text into, and that converts to a
/// `String`.
#[derive(Debug)]
pub struct StringBuffer {
    /// The bytes in this buffer
    bytes: Vec<u8>,
}

impl View for StringBuffer {
    type V = Seq<u8>;

    closed spec fn view(&self) -> Seq<u8> {
        self.bytes@
    }
}

impl StringBuffer {
    /// Creates a buffer of `length` bytes, all of them null.
    pub fn new(length: usize) -> (r: StringBuffer)
        ensures
            r@ == Seq::new(length as nat, |i: int| 0u8),
    {
        let mut bytes: Vec<u8> = Vec::with_capacity(length);
        let mut i: usize = 0;
        while i < length
            invariant
                i <= length,
                bytes@ == Seq::new(i as nat, |j: int| 0u8),
            decreases length - i,
        {
            bytes.push(0u8);
            i = i + 1;
        }
        StringBuffer { bytes }
    }

    /// Returns the bytes in this buffer.
    pub fn as_bytes(&self) -> (r: &[u8])
        ensures
            r@ == self@,
    {
        self.bytes.as_slice()
    }

    /// Returns the bytes in this buffer for writing; the length stays fixed.
    pub fn as_bytes_mut(&mut self) -> (r: &mut [u8])
        ensures
            r@ == old(self)@,
            final(self)@ == final(r)@,
    {
        self.bytes.as_mut_slice()
    }

    /// Returns the text in this buffer: the bytes before the first null, if they are valid
    /// UTF-8.
    pub fn as_str(&self) -> (r: Result<&str, Utf8Error>)
        ensures
            r is Ok <==> valid_utf8(text_of(self@)),
            r is Ok ==> r->Ok_0@ == decode_utf8(text_of(self@)),
    {
        let n = first_null(self.bytes.as_slice());
        let text = slice_prefix(self.bytes.as_slice(), n);
        str_from_utf8(text)
    }

    /// Converts this buffer into a `String` holding the bytes before the first null, if they
    /// are valid UTF-8; otherwise the error holds those bytes.
    pub fn into_string(self) -> (r: Result<String, InvalidUtf8>)
        ensures
            r is Ok <==> valid_utf8(text_of(self@)),
            r is Ok ==> r->Ok_0@ == decode_utf8(text_of(self@)),
            r matches Err(e) ==> e.bytes@ == text_of(self@),
    {
        let mut bytes = self.bytes;
        let n = first_null(bytes.as_slice());
        proof {
            lemma_text_len(bytes@);
        }
        bytes.truncate(n);
        match string_from_utf8(bytes) {
            Ok(s) => Ok(s),
            Err(bytes) => Err(InvalidUtf8 { bytes }),
        }
    }

    /// The bytes of a null-terminated C string holding this buffer's text: everything up to
    /// and including the first null, or every byte followed by a null when there is none.
    pub fn into_c_bytes(self) -> (r: Vec<u8>)
        ensures
            r@ == text_of(self@).push(0u8),
    {
        let mut bytes = self.bytes;
        let n = first_null(bytes.as_slice());
        proof {
            lemma_text_len(bytes@);
        }
        bytes.truncate(n);
        bytes.push(0u8);
        bytes
    }
}

fn slice_prefix(b: &[u8], n: usize) -> (r: &[u8])
    requires
        n <= b@.len(),
    ensures
        r@ == b@.take(n as int),
{
    let (head, _) = b.split_at(n);
    head
}

/// A string meant for the host held a null byte, which a C string cannot carry.
#[derive(Debug, Clone, Copy, PartialEq, Eq, Structural)]
pub struct NulByteError {
    /// Offset of the first null byte
    pub position: usize,
}

impl NulByteError {
    /// The offset of the offending null byte.
    pub fn nul_position(&self) -> (r: usize)
        ensures
            r == self.position,
    {
        self.position
    }
}

/// True when `b` holds a null byte before offset `limit`.
pub open spec fn has_null_before(b: Seq<u8>, limit: int) -> bool {
    exists|k: int| 0 <= k < limit && k < b.len() && b[k] == 0u8
}

/// True when `text` can become a C string: it holds no null byte.
pub open spec fn check_c_string_ok(text: &str) -> bool {
    !has_null_before(text.spec_bytes(), text.spec_bytes().len() as int)
}

/// Checks that `text` can become a C string: it must hold no null byte.
pub fn check_c_string(text: &str) -> (r: Result<(), NulByteError>)
    ensures
        r is Ok <==> check_c_string_ok(text),
        r is Err ==> r->Err_0.position == text_len(text.spec_bytes()),
{
    let b = text.as_bytes();
    let n = first_null(b);
    proof {
        lemma_text_len(b@);
    }
    if n < b.len() {
        Err(NulByteError { position: n })
    } else {
        Ok(())
    }
}

/// The bytes of the C string holding `text`, which holds no null byte: its bytes and a null.
pub fn c_string_bytes(text: &str) -> (r: Vec<u8>)
    requires
        check_c_string_ok(text),
    ensures
        r@ == text.spec_bytes().push(0u8),
{
    let b = text.as_bytes();
    let mut out: Vec<u8> = Vec::new();
    let mut i: usize = 0;
    while i < b.len()
        invariant
            i <= b@.len(),
            out@ == b@.take(i as int),
        decreases b@.len() - i,
    {
        out.push(b[i]);
        i = i + 1;
        proof {
            assert(out@ =~= b@.take(i as int));
        }
    }
    out.push(0u8);
    proof {
        assert(out@ =~= b@.push(0u8));
    }
    out
}

/// The bytes written into a host buffer of `capacity` bytes for the client text `text`: its
/// first `capacity - 1` bytes at most, then a null. A null byte of the text within the
/// buffer's reach is refused rather than cut at.
pub fn c_buffer_bytes(text: &[u8], capacity: usize) -> (r: Result<Vec<u8>, NulByteError>)
    requires
        capacity >= 1,
    ensures
        r is Err <==> has_null_before(text@, capacity as int),
        r is Err ==> r->Err_0.position == text_len(text@),
        r is Ok ==> r->Ok_0@ == text@.take(min(text@.len() as int, capacity - 1)).push(0u8),
        r is Ok ==> r->Ok_0@.len() <= capacity,
{
    let n = first_null(text);
    proof {
        lemma_text_len(text@);
    }
    if n < text.len() && n < capacity {
        return Err(NulByteError { position: n });
    }
    let keep: usize = if text.len() < capacity - 1 { text.len() } else { capacity - 1 };
    let mut out: Vec<u8> = Vec::with_capacity(keep + 1);
    let mut i: usize = 0;
    while i < keep
        invariant
            keep <= text@.len(),
            i <= keep,
            out@ == text@.take(i as int),
        decreases keep - i,
    {
        out.push(text[i]);
        i = i + 1;
        proof {
            assert(out@ =~= text@.take(i as int));
        }
    }
    out.push(0u8);
    Ok(out)
}

#[verifier::external_type_specification]
#[verifier::external_body]
pub struct ExUtf8Error(core::str::Utf8Error);

/// Text that is not valid UTF-8.
#[derive(Debug)]
pub struct InvalidUtf8 {
    /// The bytes that are not valid UTF-8
    pub bytes: Vec<u8>,
}

/// Relies on `std::str::from_utf8`: it succeeds exactly on valid UTF-8 and then views the
/// same bytes as text.
#[verifier::external_body]
fn str_from_utf8(b: &[u8]) -> (r: Result<&str, Utf8Error>)
    ensures
        r is Ok <==> valid_utf8(b@),
        r is Ok ==> r->Ok_0@ == decode_utf8(b@),
{
    core::str::from_utf8(b)
}

/// Relies on `String::from_utf8`: it succeeds exactly on valid UTF-8 and then holds the same
/// bytes as text; on failure `FromUtf8Error::into_bytes` gives back the bytes it was given.
#[verifier::external_body]
pub(crate) fn string_from_utf8(b: Vec<u8>) -> (r: Result<String, Vec<u8>>)
    ensures
        r is Ok <==> valid_utf8(b@),
        r is Ok ==> r->Ok_0@ == decode_utf8(b@),
        r matches Err(v) ==> v@ == b@,
{
    String::from_utf8(b).map_err(|e| e.into_bytes())
}

} // verus!
