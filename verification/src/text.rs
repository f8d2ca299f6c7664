//! Fixed-capacity text buffers (`heapless::String`) and their model.
//!
//! A `heapless::String<N>` is modelled by the sequence of UTF-8 bytes it
//! holds. Appending a piece either appends all of its bytes, when they fit in
//! the remaining capacity, or leaves the buffer unchanged; the builders of this
//! crate ignore the outcome, so a piece that does not fit is skipped while
//! later, shorter pieces may still be appended.
use vstd::prelude::*;
use vstd::string::*;
use vstd::utf8::*;

verus! {

#[verifier::external_type_specification]
#[verifier::external_body]
pub struct ExHeaplessString<const N: usize>(heapless::String<N>);

/// Appends `piece` to `buf` when the result fits in `capacity` bytes;
/// otherwise `buf` is returned unchanged.
pub open spec fn append_within(buf: Seq<u8>, piece: Seq<u8>, capacity: nat) -> Seq<u8> {
    if buf.len() + piece.len() <= capacity {
        buf + piece
    } else {
        buf
    }
}

/// The bytes held by a buffer of `capacity` bytes after appending each of
/// `pieces` in order, starting from an empty buffer.
pub open spec fn fill_within(pieces: Seq<Seq<u8>>, capacity: nat) -> Seq<u8>
    decreases pieces.len(),
{
    if pieces.len() == 0 {
        Seq::<u8>::empty()
    } else {
        append_within(fill_within(pieces.drop_last(), capacity), pieces.last(), capacity)
    }
}

/// The UTF-8 bytes of a single character.
pub open spec fn char_bytes(c: char) -> Seq<u8> {
    encode_utf8(seq![c])
}

/// An ASCII character is stored as the one byte of its code.
pub proof fn lemma_ascii_char_bytes(c: char)
    requires
        (c as u32) < 128,
    ensures
        char_bytes(c) == seq![c as u8],
{
    let s = seq![c];
    assert(is_ascii_chars(s));
    is_ascii_chars_encode_utf8(s);
    assert(char_bytes(c) =~= seq![c as u8]);
}

/// A buffer filled piece by piece never holds more than its capacity.
pub proof fn lemma_fill_within_bounded(pieces: Seq<Seq<u8>>, capacity: nat)
    ensures
        fill_within(pieces, capacity).len() <= capacity,
    decreases pieces.len(),
{
    if pieces.len() > 0 {
        lemma_fill_within_bounded(pieces.drop_last(), capacity);
    }
}

/// When all pieces fit together, the buffer holds exactly their concatenation.
pub proof fn lemma_fill_within_exact(pieces: Seq<Seq<u8>>, capacity: nat)
    requires
        pieces.flatten().len() <= capacity,
    ensures
        fill_within(pieces, capacity) == pieces.flatten(),
    decreases pieces.len(),
{
    pieces.lemma_flatten_and_flatten_alt_are_equivalent();
    if pieces.len() > 0 {
        let init = pieces.drop_last();
        init.lemma_flatten_and_flatten_alt_are_equivalent();
        assert(pieces.flatten_alt() == init.flatten_alt() + pieces.last());
        lemma_fill_within_exact(init, capacity);
    }
}

/// One step of filling: the pieces so far, then one more.
pub proof fn lemma_fill_within_push(pieces: Seq<Seq<u8>>, piece: Seq<u8>, capacity: nat)
    ensures
        fill_within(pieces.push(piece), capacity) == append_within(
            fill_within(pieces, capacity),
            piece,
            capacity,
        ),
{
    assert(pieces.push(piece).drop_last() =~= pieces);
}

// ---- heapless::String<16> --------------------------------------------------
/// The UTF-8 bytes held by a `heapless::String<16>`.
pub uninterp spec fn string16_bytes(s: heapless::String<16>) -> Seq<u8>;

/// `heapless::String::<16>::new`: an empty buffer.
#[verifier::external_body]
pub(crate) fn string16_new() -> (s: heapless::String<16>)
    ensures
        string16_bytes(s) == Seq::<u8>::empty(),
{
    heapless::String::new()
}

/// `heapless::String::<16>::push`: appends the UTF-8 bytes of `c` when they fit
/// in the remaining capacity, and otherwise leaves the buffer unchanged.
#[verifier::external_body]
pub(crate) fn string16_push(s: &mut heapless::String<16>, c: char) -> (fits: bool)
    ensures
        fits == (string16_bytes(*old(s)).len() + char_bytes(c).len() <= 16),
        string16_bytes(*final(s)) == append_within(string16_bytes(*old(s)), char_bytes(c), 16),
{
    s.push(c).is_ok()
}

// ---- heapless::String<64> --------------------------------------------------
/// The UTF-8 bytes held by a `heapless::String<64>`.
pub uninterp spec fn string64_bytes(s: heapless::String<64>) -> Seq<u8>;

/// `heapless::String::<64>::new`: an empty buffer.
#[verifier::external_body]
pub(crate) fn string64_new() -> (s: heapless::String<64>)
    ensures
        string64_bytes(s) == Seq::<u8>::empty(),
{
    heapless::String::new()
}

/// `heapless::String::<64>::push_str`: appends the bytes of `piece` when they
/// fit in the remaining capacity, and otherwise leaves the buffer unchanged.
#[verifier::external_body]
pub(crate) fn string64_push_str(s: &mut heapless::String<64>, piece: &str) -> (fits: bool)
    ensures
        fits == (string64_bytes(*old(s)).len() + piece.spec_bytes().len() <= 64),
        string64_bytes(*final(s)) == append_within(string64_bytes(*old(s)), piece.spec_bytes(), 64),
{
    s.push_str(piece).is_ok()
}

// ---- heapless::String<128> -------------------------------------------------
/// The UTF-8 bytes held by a `heapless::String<128>`.
pub uninterp spec fn string128_bytes(s: heapless::String<128>) -> Seq<u8>;

/// `heapless::String::<128>::new`: an empty buffer.
#[verifier::external_body]
pub(crate) fn string128_new() -> (s: heapless::String<128>)
    ensures
        string128_bytes(s) == Seq::<u8>::empty(),
{
    heapless::String::new()
}

/// `heapless::String::<128>::push_str`: appends the bytes of `piece` when they
/// fit in the remaining capacity, and otherwise leaves the buffer unchanged.
#[verifier::external_body]
pub(crate) fn string128_push_str(s: &mut heapless::String<128>, piece: &str) -> (fits: bool)
    ensures
        fits == (string128_bytes(*old(s)).len() + piece.spec_bytes().len() <= 128),
        string128_bytes(*final(s)) == append_within(
            string128_bytes(*old(s)),
            piece.spec_bytes(),
            128,
        ),
{
    s.push_str(piece).is_ok()
}

/// `heapless::String::<128>::push`: appends the UTF-8 bytes of `c` when they
/// fit in the remaining capacity, and otherwise leaves the buffer unchanged.
#[verifier::external_body]
pub(crate) fn string128_push(s: &mut heapless::String<128>, c: char) -> (fits: bool)
    ensures
        fits == (string128_bytes(*old(s)).len() + char_bytes(c).len() <= 128),
        string128_bytes(*final(s)) == append_within(string128_bytes(*old(s)), char_bytes(c), 128),
{
    s.push(c).is_ok()
}

// ---- heapless::String<512> -------------------------------------------------
/// The UTF-8 bytes held by a `heapless::String<512>`.
pub uninterp spec fn string512_bytes(s: heapless::String<512>) -> Seq<u8>;

/// `heapless::String::<512>::new`: an empty buffer.
#[verifier::external_body]
pub(crate) fn string512_new() -> (s: heapless::String<512>)
    ensures
        string512_bytes(s) == Seq::<u8>::empty(),
{
    heapless::String::new()
}

/// `heapless::String::<512>::push_str`: appends the bytes of `piece` when they
/// fit in the remaining capacity, and otherwise leaves the buffer unchanged.
#[verifier::external_body]
pub(crate) fn string512_push_str(s: &mut heapless::String<512>, piece: &str) -> (fits: bool)
    ensures
        fits == (string512_bytes(*old(s)).len() + piece.spec_bytes().len() <= 512),
        string512_bytes(*final(s)) == append_within(
            string512_bytes(*old(s)),
            piece.spec_bytes(),
            512,
        ),
{
    s.push_str(piece).is_ok()
}

/// `heapless::String::<512>::push`: appends the UTF-8 bytes of `c` when they
/// fit in the remaining capacity, and otherwise leaves the buffer unchanged.
#[verifier::external_body]
pub(crate) fn string512_push(s: &mut heapless::String<512>, c: char) -> (fits: bool)
    ensures
        fits == (string512_bytes(*old(s)).len() + char_bytes(c).len() <= 512),
        string512_bytes(*final(s)) == append_within(string512_bytes(*old(s)), char_bytes(c), 512),
{
    s.push(c).is_ok()
}

// ---- Building text piece by piece -----------------------------------------

pub(crate) fn push128(s: &mut heapless::String<128>, piece: &str, Ghost(pieces): Ghost<Seq<Seq<u8>>>)
    requires
        string128_bytes(*old(s)) == fill_within(pieces, 128),
    ensures
        string128_bytes(*final(s)) == fill_within(pieces.push(piece.spec_bytes()), 128),
{
    let _ = string128_push_str(s, piece);
    proof {
        lemma_fill_within_push(pieces, piece.spec_bytes(), 128);
    }
}

pub(crate) fn push128_char(s: &mut heapless::String<128>, c: char, Ghost(pieces): Ghost<Seq<Seq<u8>>>)
    requires
        string128_bytes(*old(s)) == fill_within(pieces, 128),
    ensures
        string128_bytes(*final(s)) == fill_within(pieces.push(char_bytes(c)), 128),
{
    let _ = string128_push(s, c);
    proof {
        lemma_fill_within_push(pieces, char_bytes(c), 128);
    }
}

pub(crate) fn push512(s: &mut heapless::String<512>, piece: &str, Ghost(pieces): Ghost<Seq<Seq<u8>>>)
    requires
        string512_bytes(*old(s)) == fill_within(pieces, 512),
    ensures
        string512_bytes(*final(s)) == fill_within(pieces.push(piece.spec_bytes()), 512),
{
    let _ = string512_push_str(s, piece);
    proof {
        lemma_fill_within_push(pieces, piece.spec_bytes(), 512);
    }
}

pub(crate) fn push512_char(s: &mut heapless::String<512>, c: char, Ghost(pieces): Ghost<Seq<Seq<u8>>>)
    requires
        string512_bytes(*old(s)) == fill_within(pieces, 512),
    ensures
        string512_bytes(*final(s)) == fill_within(pieces.push(char_bytes(c)), 512),
{
    let _ = string512_push(s, c);
    proof {
        lemma_fill_within_push(pieces, char_bytes(c), 512);
    }
}

/// An ASCII string is stored as one byte per character.
pub proof fn lemma_ascii_bytes_len(s: &str)
    requires
        is_ascii(s),
    ensures
        s.spec_bytes().len() == s@.len(),
{
    is_ascii_spec_bytes(s);
}

pub(crate) fn push512_fitting(s: &mut heapless::String<512>, piece: &str)
    requires
        string512_bytes(*old(s)).len() + piece.spec_bytes().len() <= 512,
    ensures
        string512_bytes(*final(s)) == string512_bytes(*old(s)) + piece.spec_bytes(),
{
    let _ = string512_push_str(s, piece);
}

pub(crate) fn push64(s: &mut heapless::String<64>, piece: &str, Ghost(pieces): Ghost<Seq<Seq<u8>>>)
    requires
        string64_bytes(*old(s)) == fill_within(pieces, 64),
    ensures
        string64_bytes(*final(s)) == fill_within(pieces.push(piece.spec_bytes()), 64),
{
    let _ = string64_push_str(s, piece);
    proof {
        lemma_fill_within_push(pieces, piece.spec_bytes(), 64);
    }
}

pub(crate) fn push64_fitting(s: &mut heapless::String<64>, piece: &str)
    requires
        string64_bytes(*old(s)).len() + piece.spec_bytes().len() <= 64,
    ensures
        string64_bytes(*final(s)) == string64_bytes(*old(s)) + piece.spec_bytes(),
{
    let _ = string64_push_str(s, piece);
}

pub(crate) fn push16_ascii(s: &mut heapless::String<16>, c: char)
    requires
        string16_bytes(*old(s)).len() + 1 <= 16,
        (c as u32) < 128,
    ensures
        string16_bytes(*final(s)) == string16_bytes(*old(s)).push(c as u8),
{
    proof {
        lemma_ascii_char_bytes(c);
    }
    let _ = string16_push(s, c);
}

// ---- Matching characters ----------------------------------------------------

/// Whether `lit` occurs in `s` starting at character index `start`.
pub open spec fn occurs_at(s: Seq<char>, start: int, lit: Seq<char>) -> bool {
    &&& 0 <= start
    &&& start + lit.len() <= s.len()
    &&& s.subrange(start, start + lit.len()) == lit
}

/// Tests whether `lit` occurs in `s` at character index `start`;
/// `s_len` is the number of characters of `s`.
pub(crate) fn occurs_at_exec(s: &str, s_len: usize, start: usize, lit: &str) -> (m: bool)
    requires
        s_len == s@.len(),
    ensures
        m == occurs_at(s@, start as int, lit@),
{
    let n = lit.unicode_len();
    if start > s_len || n > s_len - start {
        return false;
    }
    let mut i: usize = 0;
    while i < n
        invariant
            n == lit@.len(),
            s_len == s@.len(),
            start + n <= s_len,
            i <= n,
            forall|j: int| 0 <= j < i ==> s@[start + j] == lit@[j],
        decreases n - i,
    {
        if s.get_char(start + i) != lit.get_char(i) {
            assert(s@.subrange(start as int, start + n)[i as int] != lit@[i as int]);
            return false;
        }
        i = i + 1;
    }
    assert(s@.subrange(start as int, start + n) =~= lit@);
    true
}

} // verus!
