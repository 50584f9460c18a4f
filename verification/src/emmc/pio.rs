//! Word packing of programmed-I/O transfers through the controller's
//! 32-bit buffer data port.
//!
//! The port moves one little-endian word per access. Two transfer paths
//! exist: the block path moves whole words only and leaves a trailing
//! partial word alone, while the buffer path pads the last word of a send
//! with zero bytes and fills every byte of a receive.
use vstd::prelude::*;
use crate::registers::le_word;

verus! {

/// Byte `k` (0 to 3) of `w` in little-endian order.
pub open spec fn word_byte(w: u32, k: int) -> u8 {
    if k == 0 {
        (w & 0xff) as u8
    } else if k == 1 {
        ((w >> 8u32) & 0xff) as u8
    } else if k == 2 {
        ((w >> 16u32) & 0xff) as u8
    } else {
        ((w >> 24u32) & 0xff) as u8
    }
}

/// Byte `i` of `b`, or zero past its end.
pub open spec fn byte_or_zero(b: Seq<u8>, i: int) -> u8 {
    if i < b.len() {
        b[i]
    } else {
        0
    }
}

/// Word `k` of `b`, whose four bytes all lie in `b`.
pub open spec fn full_word_at(b: Seq<u8>, k: int) -> u32 {
    le_word(b[4 * k], b[4 * k + 1], b[4 * k + 2], b[4 * k + 3])
}

/// Word `k` of `b`, with zero bytes past its end.
pub open spec fn padded_word_at(b: Seq<u8>, k: int) -> u32 {
    le_word(
        byte_or_zero(b, 4 * k),
        byte_or_zero(b, 4 * k + 1),
        byte_or_zero(b, 4 * k + 2),
        byte_or_zero(b, 4 * k + 3),
    )
}

/// Port accesses that cover `len` bytes: one per started word.
pub open spec fn spec_port_words(len: nat) -> nat {
    (len + 3) / 4
}

/// Byte `i` of the little-endian stream of `words`.
pub open spec fn stream_byte(words: Seq<u32>, i: int) -> u8 {
    word_byte(words[i / 4], i % 4)
}

proof fn lemma_le_word_byte(b0: u8, b1: u8, b2: u8, b3: u8)
    ensures
        word_byte(le_word(b0, b1, b2, b3), 0) == b0,
        word_byte(le_word(b0, b1, b2, b3), 1) == b1,
        word_byte(le_word(b0, b1, b2, b3), 2) == b2,
        word_byte(le_word(b0, b1, b2, b3), 3) == b3,
{
    let w = le_word(b0, b1, b2, b3);
    assert((w & 0xff) as u8 == b0 && ((w >> 8u32) & 0xff) as u8 == b1 && ((w >> 16u32) & 0xff) as u8 == b2
        && ((w >> 24u32) & 0xff) as u8 == b3) by (bit_vector)
        requires
            w == (b0 as u32) | ((b1 as u32) << 8u32) | ((b2 as u32) << 16u32) | ((b3 as u32) << 24u32),
    ;
}

/// What the buffer path sends reads back as the same bytes: taking the
/// word stream of a buffer apart again gives every byte of the buffer.
pub proof fn law_buffer_words_round_trip(b: Seq<u8>, words: Seq<u32>)
    requires
        words.len() == spec_port_words(b.len()),
        forall|k: int| 0 <= k < words.len() ==> #[trigger] words[k] == padded_word_at(b, k),
    ensures
        forall|i: int| 0 <= i < b.len() ==> #[trigger] stream_byte(words, i) == b[i],
{
    assert forall|i: int| 0 <= i < b.len() implies #[trigger] stream_byte(words, i) == b[i] by {
        let k = i / 4;
        assert(words[k] == padded_word_at(b, k));
        lemma_le_word_byte(
            byte_or_zero(b, 4 * k),
            byte_or_zero(b, 4 * k + 1),
            byte_or_zero(b, 4 * k + 2),
            byte_or_zero(b, 4 * k + 3),
        );
    }
}

/// What the block path sends reads back as the same bytes over the whole
/// words of the buffer, whatever the port returns for a trailing partial
/// word.
pub proof fn law_pio_words_round_trip(b: Seq<u8>, words: Seq<u32>)
    requires
        words.len() == spec_port_words(b.len()),
        forall|k: int| 0 <= k < b.len() / 4 ==> #[trigger] words[k] == full_word_at(b, k),
    ensures
        forall|i: int| 0 <= i < 4 * (b.len() / 4) ==> #[trigger] stream_byte(words, i) == b[i],
{
    assert forall|i: int| 0 <= i < 4 * (b.len() / 4) implies #[trigger] stream_byte(words, i) == b[i] by {
        let k = i / 4;
        assert(k < b.len() / 4);
        assert(words[k] == full_word_at(b, k));
        lemma_le_word_byte(b[4 * k], b[4 * k + 1], b[4 * k + 2], b[4 * k + 3]);
    }
}

/// Number of port accesses for a transfer of `len` bytes.
pub fn port_words_for(len: usize) -> (n: usize)
    ensures
        n == spec_port_words(len as nat),
{
    if len % 4 == 0 {
        len / 4
    } else {
        len / 4 + 1
    }
}

/// Words the block path sends for `buffer`: each complete four-byte group,
/// little-endian; trailing bytes that do not fill a word are not sent.
pub fn pio_words_to_send(buffer: &[u8]) -> (words: Vec<u32>)
    ensures
        words@.len() == buffer@.len() / 4,
        forall|k: int| 0 <= k < words@.len() ==> #[trigger] words@[k] == full_word_at(buffer@, k),
{
    let len = buffer.len();
    let mut words: Vec<u32> = Vec::new();
    let mut i: usize = 0;
    while len - i >= 4
        invariant
            len == buffer@.len(),
            i % 4 == 0,
            i <= len,
            len - i < 4 ==> i / 4 == len / 4,
            words@.len() == i / 4,
            forall|k: int| 0 <= k < words@.len() ==> #[trigger] words@[k] == full_word_at(buffer@, k),
        decreases len - i,
    {
        let w = (buffer[i] as u32) | ((buffer[i + 1] as u32) << 8u32) | ((buffer[i + 2] as u32) << 16u32)
            | ((buffer[i + 3] as u32) << 24u32);
        words.push(w);
        i = i + 4;
    }
    words
}

/// Store what the block path received: each complete four-byte group of
/// `buffer` takes the bytes of its word; a trailing partial group keeps
/// its bytes, though its word was read from the port.
pub fn pio_store_received(buffer: &mut [u8], words: &[u32])
    requires
        words@.len() == spec_port_words(old(buffer)@.len()),
    ensures
        final(buffer)@.len() == old(buffer)@.len(),
        forall|i: int|
            0 <= i < final(buffer)@.len() ==> #[trigger] final(buffer)@[i] == if i < 4 * (old(buffer)@.len() / 4) {
                stream_byte(words@, i)
            } else {
                old(buffer)@[i]
            },
{
    let len = buffer.len();
    let ghost b0 = buffer@;
    let mut i: usize = 0;
    while len - i >= 4
        invariant
            len == buffer@.len(),
            len == b0.len(),
            words@.len() == spec_port_words(len as nat),
            i % 4 == 0,
            i <= len,
            len - i < 4 ==> i == 4 * (len / 4),
            forall|j: int| 0 <= j < len ==> #[trigger] buffer@[j] == if j < i {
                stream_byte(words@, j)
            } else {
                b0[j]
            },
        decreases len - i,
    {
        let w = words[i / 4];
        buffer[i] = (w & 0xff) as u8;
        buffer[i + 1] = ((w >> 8u32) & 0xff) as u8;
        buffer[i + 2] = ((w >> 16u32) & 0xff) as u8;
        buffer[i + 3] = ((w >> 24u32) & 0xff) as u8;
        proof {
            assert forall|j: int| i <= j < i + 4 implies #[trigger] buffer@[j] == stream_byte(words@, j) by {
                assert(j / 4 == i / 4);
            }
        }
        i = i + 4;
    }
}

/// Words the buffer path sends for `buffer`: one per started four-byte
/// group, little-endian, the last padded with zero bytes.
pub fn buffer_words_to_send(buffer: &[u8]) -> (words: Vec<u32>)
    ensures
        words@.len() == spec_port_words(buffer@.len()),
        forall|k: int| 0 <= k < words@.len() ==> #[trigger] words@[k] == padded_word_at(buffer@, k),
{
    let len = buffer.len();
    let mut words: Vec<u32> = Vec::new();
    let mut i: usize = 0;
    while i < len
        invariant
            len == buffer@.len(),
            i <= len,
            i % 4 == 0 || i == len,
            words@.len() == spec_port_words(i as nat),
            forall|k: int| 0 <= k < words@.len() ==> #[trigger] words@[k] == padded_word_at(buffer@, k),
        decreases len - i,
    {
        let b0 = buffer[i];
        let b1 = if len - i > 1 {
            buffer[i + 1]
        } else {
            0
        };
        let b2 = if len - i > 2 {
            buffer[i + 2]
        } else {
            0
        };
        let b3 = if len - i > 3 {
            buffer[i + 3]
        } else {
            0
        };
        let w = (b0 as u32) | ((b1 as u32) << 8u32) | ((b2 as u32) << 16u32) | ((b3 as u32) << 24u32);
        words.push(w);
        if len - i <= 4 {
            i = len;
        } else {
            i = i + 4;
        }
    }
    words
}

/// Store what the buffer path received: every byte of `buffer` takes its
/// byte of the little-endian word stream.
pub fn buffer_store_received(buffer: &mut [u8], words: &[u32])
    requires
        words@.len() == spec_port_words(old(buffer)@.len()),
    ensures
        final(buffer)@.len() == old(buffer)@.len(),
        forall|i: int| 0 <= i < final(buffer)@.len() ==> #[trigger] final(buffer)@[i] == stream_byte(words@, i),
{
    let len = buffer.len();
    let ghost b0 = buffer@;
    let mut i: usize = 0;
    while i < len
        invariant
            len == buffer@.len(),
            len == b0.len(),
            words@.len() == spec_port_words(len as nat),
            i <= len,
            i % 4 == 0 || i == len,
            forall|j: int| 0 <= j < len ==> #[trigger] buffer@[j] == if j < i {
                stream_byte(words@, j)
            } else {
                b0[j]
            },
        decreases len - i,
    {
        let w = words[i / 4];
        buffer[i] = (w & 0xff) as u8;
        if len - i > 1 {
            buffer[i + 1] = ((w >> 8u32) & 0xff) as u8;
        }
        if len - i > 2 {
            buffer[i + 2] = ((w >> 16u32) & 0xff) as u8;
        }
        if len - i > 3 {
            buffer[i + 3] = ((w >> 24u32) & 0xff) as u8;
        }
        proof {
            assert forall|j: int| i <= j < i + 4 && j < len implies #[trigger] buffer@[j] == stream_byte(words@, j) by {
                assert(j / 4 == i / 4);
            }
        }
        if len - i <= 4 {
            i = len;
        } else {
            i = i + 4;
        }
    }
}

} // verus!
