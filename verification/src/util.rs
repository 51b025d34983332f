//! Text that crosses the boundary to the engine.
//!
//! The engine speaks in NUL-terminated byte strings. Going in, a Rust
//! string must hold no NUL byte; coming out, a string may be absent (a
//! null pointer), and what is there need not be UTF-8. The shell around
//! this library turns pointers into `Option<&[u8]>` and back; everything
//! else about text is decided here.

use vstd::prelude::*;
use vstd::slice::slice_subrange;
use vstd::utf8::{
    char_is_scalar, char_u32_cast, decode_utf8, encode_scalar, encode_utf8, encode_utf8_decode_utf8,
    encode_utf8_valid_utf8, has_width_1_encoding, is_scalar, last_continuation_byte,
    leading_byte_width_1, leading_byte_width_2, leading_byte_width_3, leading_byte_width_4,
    second_last_continuation_byte, third_last_continuation_byte, valid_utf8,
};

verus! {

/// Reads an integer that the engine returned as a truth value: every
/// value but zero means yes.
pub fn native_bool(code: i32) -> (yes: bool)
    ensures
        yes == (code != 0),
{
    code != 0
}

/// The text that `String::from_utf8_lossy` makes of a byte string.
pub uninterp spec fn lossy_text(bytes: Seq<u8>) -> Seq<char>;

/// Calls `String::from_utf8_lossy`. Trusted: the result is a function of
/// the bytes alone, and bytes that are valid UTF-8 decode to the very
/// text they encode. What becomes of invalid bytes is left to the name
/// [`lossy_text`].
#[verifier::external_body]
fn from_utf8_lossy(bytes: &[u8]) -> (text: String)
    ensures
        text@ == lossy_text(bytes@),
        valid_utf8(bytes@) ==> text@ == decode_utf8(bytes@),
{
    String::from_utf8_lossy(bytes).into_owned()
}

/// Calls `core::str::from_utf8`. Trusted: it accepts exactly the valid
/// UTF-8 byte strings, and then yields the text they encode.
#[verifier::external_body]
pub(crate) fn from_utf8(bytes: &[u8]) -> (text: Option<String>)
    ensures
        text is Some <==> valid_utf8(bytes@),
        text is Some ==> text->0@ == decode_utf8(bytes@),
{
    match core::str::from_utf8(bytes) {
        Ok(s) => Some(s.to_owned()),
        Err(_) => None,
    }
}

/// The text that a byte string from the engine is read as: the text it
/// encodes where it is valid UTF-8, and else what [`lossy_text`] makes
/// of it.
pub open spec fn decoded(bytes: Seq<u8>) -> Seq<char> {
    if valid_utf8(bytes) {
        decode_utf8(bytes)
    } else {
        lossy_text(bytes)
    }
}

/// What a text accessor shows for a native string: nothing for a null
/// pointer, else the bytes read as text.
pub open spec fn shown_text(native: Option<Seq<u8>>) -> Seq<char> {
    match native {
        None => Seq::empty(),
        Some(bytes) => decoded(bytes),
    }
}

/// Text of a native string that may be null. `None` stands for the null
/// pointer and gives the empty string; bytes that are no UTF-8 are read
/// lossily, so the call cannot fail.
pub fn safe_text(native: Option<&[u8]>) -> (text: String)
    ensures
        native is None ==> text@ == Seq::<char>::empty(),
        native is Some ==> text@ == decoded(native->0@),
{
    match native {
        None => String::new(),
        Some(bytes) => from_utf8_lossy(bytes),
    }
}

/// [`safe_text`] for a native string that a snapshot holds.
pub fn stored_text(native: &Option<Vec<u8>>) -> (text: String)
    ensures
        text@ == shown_text(stored(*native)),
        native is None ==> text@ == Seq::<char>::empty(),
{
    match native {
        None => safe_text(None),
        Some(bytes) => safe_text(Some(bytes.as_slice())),
    }
}

/// The bytes of a stored native string, as a mathematical value.
pub open spec fn stored(native: Option<Vec<u8>>) -> Option<Seq<u8>> {
    match native {
        None => None,
        Some(bytes) => Some(bytes@),
    }
}

/// Bytes that can stand in a NUL-terminated string: none of them is NUL.
pub open spec fn is_native_text(bytes: Seq<u8>) -> bool {
    forall|i: int| 0 <= i < bytes.len() ==> bytes[i] != 0u8
}

/// Whether `text` can be handed to the engine: its encoding holds no NUL.
pub open spec fn representable(text: Seq<char>) -> bool {
    is_native_text(encode_utf8(text))
}

/// The encoding of a scalar value holds a NUL byte exactly when the
/// scalar is zero.
proof fn lemma_scalar_has_nul(scalar: u32)
    requires
        is_scalar(scalar),
    ensures
        is_native_text(encode_scalar(scalar)) <==> scalar != 0,
{
    let bytes = encode_scalar(scalar);
    if has_width_1_encoding(scalar) {
        assert((leading_byte_width_1(scalar) == 0) <==> scalar == 0) by (bit_vector)
            requires
                has_width_1_encoding(scalar),
        ;
        assert(bytes[0] == leading_byte_width_1(scalar));
    } else {
        assert(leading_byte_width_2(scalar) != 0) by (bit_vector);
        assert(leading_byte_width_3(scalar) != 0) by (bit_vector);
        assert(leading_byte_width_4(scalar) != 0) by (bit_vector);
        assert(last_continuation_byte(scalar) != 0) by (bit_vector);
        assert(second_last_continuation_byte(scalar) != 0) by (bit_vector);
        assert(third_last_continuation_byte(scalar) != 0) by (bit_vector);
    }
}

/// A text can be handed to the engine exactly when none of its
/// characters is NUL.
pub proof fn lemma_representable(text: Seq<char>)
    ensures
        representable(text) <==> forall|i: int| 0 <= i < text.len() ==> text[i] != '\0',
    decreases text.len(),
{
    if text.len() > 0 {
        let first = encode_scalar(text[0] as u32);
        let rest = text.drop_first();
        let tail = encode_utf8(rest);
        char_is_scalar(text[0]);
        lemma_scalar_has_nul(text[0] as u32);
        lemma_representable(rest);
        assert(encode_utf8(text) == first + tail);
        if representable(text) {
            assert forall|i: int| 0 <= i < first.len() implies first[i] != 0u8 by {
                assert((first + tail)[i] == first[i]);
            }
            assert forall|i: int| 0 <= i < tail.len() implies tail[i] != 0u8 by {
                assert((first + tail)[first.len() + i] == tail[i]);
            }
            assert forall|i: int| 0 <= i < text.len() implies text[i] != '\0' by {
                if i > 0 {
                    assert(rest[i - 1] == text[i]);
                }
            }
        }
        if forall|i: int| 0 <= i < text.len() ==> text[i] != '\0' {
            assert(text[0] != '\0');
            if text[0] as u32 == 0 {
                char_u32_cast(text[0], 0u32);
                char_u32_cast('\0', 0u32);
            }
            assert forall|i: int| 0 <= i < rest.len() implies rest[i] != '\0' by {
                assert(rest[i] == text[i + 1]);
            }
            assert(is_native_text(first));
            assert(is_native_text(tail));
        }
    }
}

/// A string in the form the engine takes: its UTF-8 bytes, none of them
/// NUL, without the terminator.
#[derive(Debug, PartialEq, Eq)]
pub struct NativeText {
    bytes: Vec<u8>,
}

impl View for NativeText {
    type V = Seq<u8>;

    closed spec fn view(&self) -> Seq<u8> {
        self.bytes@
    }
}

impl Clone for NativeText {
    fn clone(&self) -> (copy: Self)
        ensures
            copy@ == self@,
    {
        proof {
            use_type_invariant(self);
        }
        NativeText { bytes: self.bytes.clone() }
    }
}

impl NativeText {
    #[verifier::type_invariant]
    spec fn well_formed(self) -> bool {
        is_native_text(self.bytes@)
    }

    /// Converts `text`. `None` exactly when its encoding holds a NUL byte.
    pub fn new(text: &str) -> (native: Option<NativeText>)
        ensures
            native is Some <==> representable(text@),
            native is Some ==> native->0@ == encode_utf8(text@),
    {
        let source = text.as_bytes();
        let mut bytes: Vec<u8> = Vec::new();
        let mut i: usize = 0;
        while i < source.len()
            invariant
                i <= source@.len(),
                source@ == encode_utf8(text@),
                bytes@ == source@.take(i as int),
                is_native_text(bytes@),
            decreases source@.len() - i,
        {
            if source[i] == 0 {
                return None;
            }
            bytes.push(source[i]);
            i += 1;
        }
        assert(source@.take(source@.len() as int) == source@);
        Some(NativeText { bytes })
    }

    /// The empty string.
    pub fn empty() -> (native: NativeText)
        ensures
            native@ == Seq::<u8>::empty(),
    {
        NativeText { bytes: Vec::new() }
    }

    /// The bytes, to be followed by a NUL when handed to the engine.
    pub fn as_bytes(&self) -> (bytes: &[u8])
        ensures
            bytes@ == self@,
            is_native_text(bytes@),
    {
        proof {
            use_type_invariant(self);
        }
        self.bytes.as_slice()
    }
}

/// Where the first NUL of `bytes` stands, or their length where there is
/// none: the length of the NUL-terminated string at the start of a buffer.
pub open spec fn nul_offset(bytes: Seq<u8>) -> nat
    decreases bytes.len(),
{
    if bytes.len() == 0 || bytes[0] == 0u8 {
        0
    } else {
        1 + nul_offset(bytes.drop_first())
    }
}

/// [`nul_offset`] is the one index that has no NUL before it and either
/// holds a NUL or is the length.
pub proof fn lemma_nul_offset(bytes: Seq<u8>, k: int)
    requires
        0 <= k <= bytes.len(),
        forall|j: int| 0 <= j < k ==> bytes[j] != 0u8,
        k < bytes.len() ==> bytes[k] == 0u8,
    ensures
        nul_offset(bytes) == k,
    decreases bytes.len(),
{
    if k > 0 {
        let rest = bytes.drop_first();
        assert forall|j: int| 0 <= j < k - 1 implies rest[j] != 0u8 by {
            assert(rest[j] == bytes[j + 1]);
        }
        lemma_nul_offset(rest, k - 1);
    }
}

/// What a property query yields: the engine said `found` and filled
/// `buffer`. The value is the text before the first NUL; a buffer
/// without a NUL was too small for the value and yields nothing.
pub open spec fn property_text(found: bool, buffer: Seq<u8>) -> Option<Seq<char>> {
    if found && nul_offset(buffer) < buffer.len() {
        Some(decoded(buffer.take(nul_offset(buffer) as int)))
    } else {
        None
    }
}

/// Reads the answer to a property query. `code` is what the engine
/// returned and `buffer` the whole buffer it was given to fill.
pub fn property_value(code: i32, buffer: &[u8]) -> (value: Option<String>)
    ensures
        option_text(value) == property_text(code != 0, buffer@),
{
    if !native_bool(code) {
        return None;
    }
    let mut k: usize = 0;
    while k < buffer.len() && buffer[k] != 0
        invariant
            k <= buffer@.len(),
            forall|j: int| 0 <= j < k ==> buffer@[j] != 0u8,
        decreases buffer@.len() - k,
    {
        k += 1;
    }
    proof {
        lemma_nul_offset(buffer@, k as int);
    }
    if k == buffer.len() {
        return None;
    }
    let value = from_utf8_lossy(slice_subrange(buffer, 0, k));
    assert(buffer@.subrange(0, k as int) == buffer@.take(k as int));
    Some(value)
}

/// What the engine leaves in a buffer of `size` bytes into which it has
/// copied `value`: as much of the value as there is room for, and NUL
/// in every byte behind it.
pub open spec fn filled(value: Seq<u8>, size: nat) -> Seq<u8> {
    Seq::new(size, |i: int| if i < value.len() { value[i] } else { 0u8 })
}

/// A property comes back as it was set when the buffer has room for it
/// and its terminator, and does not come back at all when the buffer is
/// smaller or the engine found no value.
pub proof fn lemma_property_round_trip(value: Seq<char>, size: nat)
    requires
        representable(value),
    ensures
        size > encode_utf8(value).len() ==> property_text(
            true,
            filled(encode_utf8(value), size),
        ) == Some(value),
        size <= encode_utf8(value).len() ==> property_text(
            true,
            filled(encode_utf8(value), size),
        ) is None,
        forall|buffer: Seq<u8>| #[trigger] property_text(false, buffer) is None,
{
    let bytes = encode_utf8(value);
    let buffer = filled(bytes, size);
    if size > bytes.len() {
        lemma_nul_offset(buffer, bytes.len() as int);
        assert(buffer.take(bytes.len() as int) =~= bytes);
        encode_utf8_valid_utf8(value);
        encode_utf8_decode_utf8(value);
    } else {
        lemma_nul_offset(buffer, size as int);
    }
}

/// The text of an optional string, as a mathematical value.
pub open spec fn option_text(text: Option<String>) -> Option<Seq<char>> {
    match text {
        None => None,
        Some(s) => Some(s@),
    }
}

} // verus!
