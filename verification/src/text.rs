//! Where accumulated output may be cut to be shown as text.
//!
//! A read can end in the middle of a multi-byte UTF-8 sequence. Such an
//! unfinished sequence at the very end is held back until its remaining
//! bytes have arrived; everything before it is complete.

use vstd::prelude::*;
use vstd::utf8::{
    is_char_boundary, is_char_boundary_iff_not_is_continuation_byte,
    is_char_boundary_start_end_of_seq, is_continuation_byte, is_leading_byte_width_2,
    is_leading_byte_width_3, is_leading_byte_width_4, length_of_first_scalar, pop_first_scalar,
    valid_utf8, valid_utf8_split,
};

verus! {

/// The number of bytes of the sequence that `byte` opens: two, three or four
/// for the leading byte of a multi-byte sequence, and one for every other
/// byte.
pub open spec fn announced_len(byte: u8) -> int {
    if is_leading_byte_width_2(byte) {
        2
    } else if is_leading_byte_width_3(byte) {
        3
    } else if is_leading_byte_width_4(byte) {
        4
    } else {
        1
    }
}

/// Whether the `k` bytes before `index` are a sequence that has been opened
/// and not finished there: a leading byte that announces more than `k`
/// bytes, followed by nothing but continuation bytes.
pub open spec fn open_at(bytes: Seq<u8>, index: int, k: int) -> bool {
    &&& 1 <= k <= 3
    &&& k <= index <= bytes.len()
    &&& announced_len(bytes[index - k]) > k
    &&& forall|j: int| index - k < j < index ==> is_continuation_byte(#[trigger] bytes[j])
}

/// Whether the last `k` bytes are a sequence that has been opened and not
/// finished.
pub open spec fn unfinished_tail(bytes: Seq<u8>, k: int) -> bool {
    open_at(bytes, bytes.len() as int, k)
}

/// The length of the part that is complete: everything but an unfinished
/// sequence at the very end.
pub open spec fn complete_prefix(bytes: Seq<u8>) -> int {
    if unfinished_tail(bytes, 1) {
        bytes.len() - 1
    } else if unfinished_tail(bytes, 2) {
        bytes.len() - 2
    } else if unfinished_tail(bytes, 3) {
        bytes.len() - 3
    } else {
        bytes.len() as int
    }
}

/// The number of bytes of the sequence that `byte` opens.
pub fn announced(byte: u8) -> (len: usize)
    ensures
        len == announced_len(byte),
{
    if 0xc0 <= byte && byte <= 0xdf {
        2
    } else if 0xe0 <= byte && byte <= 0xef {
        3
    } else if 0xf0 <= byte && byte <= 0xf7 {
        4
    } else {
        1
    }
}

/// Whether `byte` continues a multi-byte sequence.
pub fn is_continuation(byte: u8) -> (b: bool)
    ensures
        b == is_continuation_byte(byte),
{
    0x80 <= byte && byte <= 0xbf
}

/// The length of the complete part of `bytes`: what may be shown as text
/// now. At most three bytes are held back.
pub fn complete_prefix_len(bytes: &[u8]) -> (n: usize)
    ensures
        n == complete_prefix(bytes@),
        bytes@.len() - 3 <= n <= bytes@.len(),
{
    let len = bytes.len();
    if len >= 1 && announced(bytes[len - 1]) > 1 {
        len - 1
    } else if len >= 2 && is_continuation(bytes[len - 1]) && announced(bytes[len - 2]) > 2 {
        len - 2
    } else if len >= 3 && is_continuation(bytes[len - 1]) && is_continuation(bytes[len - 2])
        && announced(bytes[len - 3]) > 3 {
        len - 3
    } else {
        len
    }
}

/// In valid text, a place that is no character boundary lies inside a
/// sequence that was opened at most three bytes before it.
pub proof fn lemma_inside_a_sequence(bytes: Seq<u8>, index: int)
    requires
        valid_utf8(bytes),
        0 <= index <= bytes.len(),
        !is_char_boundary(bytes, index),
    ensures
        open_at(bytes, index, 1) || open_at(bytes, index, 2) || open_at(bytes, index, 3),
    decreases bytes.len(),
{
    reveal_with_fuel(valid_utf8, 2);
    reveal_with_fuel(is_char_boundary, 2);
    let first = length_of_first_scalar(bytes);
    if index < first {
        assert(open_at(bytes, index, index));
    } else {
        let rest = pop_first_scalar(bytes);
        let k = if open_at(rest, index - first, 1) {
            1int
        } else if open_at(rest, index - first, 2) {
            2int
        } else {
            3int
        };
        lemma_inside_a_sequence(rest, index - first);
        assert(open_at(rest, index - first, k));
        assert(forall|j: int| 0 <= j < rest.len() ==> rest[j] == bytes[j + first]);
        assert forall|j: int| index - k < j < index implies is_continuation_byte(
            #[trigger] bytes[j],
        ) by {
            assert(is_continuation_byte(rest[j - first]));
        }
        assert(open_at(bytes, index, k));
    }
}

/// Of valid text that has arrived only up to some place, the complete part
/// ends on a character boundary and is valid text itself: what is held back
/// is never the end of a character that could be shown.
pub proof fn lemma_complete_prefix_is_valid_text(whole: Seq<u8>, arrived: int)
    requires
        valid_utf8(whole),
        0 <= arrived <= whole.len(),
    ensures
        is_char_boundary(whole, complete_prefix(whole.take(arrived))),
        valid_utf8(whole.take(complete_prefix(whole.take(arrived)))),
{
    let bytes = whole.take(arrived);
    let cut = complete_prefix(bytes);
    assert(forall|j: int| 0 <= j < arrived ==> bytes[j] == whole[j]);
    if cut < arrived {
        let k = arrived - cut;
        assert(unfinished_tail(bytes, k));
        assert(!is_continuation_byte(whole[cut]));
        is_char_boundary_iff_not_is_continuation_byte(whole, cut);
    } else if !is_char_boundary(whole, arrived) {
        lemma_inside_a_sequence(whole, arrived);
        let k = if open_at(whole, arrived, 1) {
            1int
        } else if open_at(whole, arrived, 2) {
            2int
        } else {
            3int
        };
        assert(open_at(whole, arrived, k));
        assert(unfinished_tail(bytes, k));
    }
    valid_utf8_split(whole, cut);
}

/// Valid text is complete: nothing of it is held back.
pub proof fn lemma_valid_text_is_complete(bytes: Seq<u8>)
    requires
        valid_utf8(bytes),
    ensures
        complete_prefix(bytes) == bytes.len(),
{
    let cut = complete_prefix(bytes);
    if cut < bytes.len() {
        let k = bytes.len() - cut;
        assert(unfinished_tail(bytes, k));
        assert(!is_continuation_byte(bytes[cut]));
        is_char_boundary_iff_not_is_continuation_byte(bytes, cut);
        valid_utf8_split(bytes, cut);
        let tail = bytes.subrange(cut, bytes.len() as int);
        assert(tail[0] == bytes[cut]);
        reveal_with_fuel(valid_utf8, 2);
        assert(false);
    }
}

/// The complete part ends on the last character boundary that has arrived:
/// of valid text that has arrived only up to some place, no place after the
/// cut and up to the end of what arrived is a character boundary.
pub proof fn lemma_complete_prefix_is_last_boundary(whole: Seq<u8>, arrived: int, index: int)
    requires
        valid_utf8(whole),
        0 <= arrived <= whole.len(),
        complete_prefix(whole.take(arrived)) < index <= arrived,
    ensures
        !is_char_boundary(whole, index),
{
    let bytes = whole.take(arrived);
    let cut = complete_prefix(bytes);
    let k = arrived - cut;
    assert(forall|j: int| 0 <= j < arrived ==> bytes[j] == whole[j]);
    assert(unfinished_tail(bytes, k));
    if index < arrived {
        assert(is_continuation_byte(bytes[index]));
        is_char_boundary_iff_not_is_continuation_byte(whole, index);
    } else if arrived == whole.len() {
        assert(bytes =~= whole);
        lemma_valid_text_is_complete(whole);
    } else {
        assert(!is_continuation_byte(whole[cut]));
        is_char_boundary_iff_not_is_continuation_byte(whole, cut);
        valid_utf8_split(whole, cut);
        let tail = whole.subrange(cut, whole.len() as int);
        assert(tail[0] == whole[cut]);
        assert(tail[k] == whole[arrived]);
        reveal_with_fuel(valid_utf8, 2);
        assert(is_continuation_byte(whole[arrived]));
        is_char_boundary_iff_not_is_continuation_byte(whole, arrived);
    }
}

} // verus!
