//! TMC UART bit framing.
//!
//! The host speaks the TMC2209 UART protocol with each eight-bit byte
//! inflated into a ten-bit cell: a start bit (zero), the data bits least
//! significant first, and a stop bit (one).  The bridge strips those cells
//! into raw bytes before handing them to the hardware UART, and reflates
//! the UART's reply into cells for the host.  Bit `i` of a byte stream is
//! bit `i % 8` of byte `i / 8`, counting from the least significant bit.

use vstd::prelude::*;

verus! {

/// Bit `i` of a byte, counting from the least significant.
pub open spec fn bit_of_byte(b: u8, i: int) -> bool {
    (b >> (i as u8)) & 1 == 1
}

/// Bit `i` of a byte stream, least significant bit of each byte first.
pub open spec fn stream_bit(s: Seq<u8>, i: int) -> bool {
    bit_of_byte(s[i / 8], i % 8)
}

/// A byte assembled from its eight bits, least significant first.
pub open spec fn pack_byte(
    b0: bool,
    b1: bool,
    b2: bool,
    b3: bool,
    b4: bool,
    b5: bool,
    b6: bool,
    b7: bool,
) -> u8 {
    (if b0 {
        1u8
    } else {
        0u8
    }) | (if b1 {
        2u8
    } else {
        0u8
    }) | (if b2 {
        4u8
    } else {
        0u8
    }) | (if b3 {
        8u8
    } else {
        0u8
    }) | (if b4 {
        16u8
    } else {
        0u8
    }) | (if b5 {
        32u8
    } else {
        0u8
    }) | (if b6 {
        64u8
    } else {
        0u8
    }) | (if b7 {
        128u8
    } else {
        0u8
    })
}

/// The data byte carried by ten-bit cell `c` of a framed stream: its eight
/// middle bits, between the start and the stop bit.
pub open spec fn cell_data(s: Seq<u8>, c: int) -> u8 {
    pack_byte(
        stream_bit(s, 10 * c + 1),
        stream_bit(s, 10 * c + 2),
        stream_bit(s, 10 * c + 3),
        stream_bit(s, 10 * c + 4),
        stream_bit(s, 10 * c + 5),
        stream_bit(s, 10 * c + 6),
        stream_bit(s, 10 * c + 7),
        stream_bit(s, 10 * c + 8),
    )
}

/// The raw bytes carried by a framed stream: one data byte per whole
/// ten-bit cell.
pub open spec fn strip_seq(s: Seq<u8>) -> Seq<u8> {
    Seq::new((s.len() * 8 / 10) as nat, |c: int| cell_data(s, c))
}

/// Bit `i` of the ten-bit-framed view of raw bytes: byte `i / 10` becomes
/// the cell `0 b0 .. b7 1`.
pub open spec fn framed_bit(raw: Seq<u8>, i: int) -> bool {
    if i % 10 == 0 {
        false
    } else if i % 10 == 9 {
        true
    } else {
        bit_of_byte(raw[i / 10], i % 10 - 1)
    }
}

/// Cell `c` of a stream carries a zero start bit and a one stop bit.
pub open spec fn start_stop_ok(s: Seq<u8>, c: int) -> bool {
    stream_bit(s, 10 * c) == false && stream_bit(s, 10 * c + 9) == true
}

/// A stream is well-framed when it consists of whole ten-bit cells, each
/// with its start bit zero and its stop bit one.
pub open spec fn well_framed(s: Seq<u8>) -> bool {
    &&& (s.len() * 8) % 10 == 0
    &&& forall|c: int| 0 <= c < s.len() * 8 / 10 ==> #[trigger] start_stop_ok(s, c)
}

proof fn lemma_pack_byte_bits(
    b0: bool,
    b1: bool,
    b2: bool,
    b3: bool,
    b4: bool,
    b5: bool,
    b6: bool,
    b7: bool,
)
    by (bit_vector)
    ensures
        bit_of_byte(pack_byte(b0, b1, b2, b3, b4, b5, b6, b7), 0) == b0,
        bit_of_byte(pack_byte(b0, b1, b2, b3, b4, b5, b6, b7), 1) == b1,
        bit_of_byte(pack_byte(b0, b1, b2, b3, b4, b5, b6, b7), 2) == b2,
        bit_of_byte(pack_byte(b0, b1, b2, b3, b4, b5, b6, b7), 3) == b3,
        bit_of_byte(pack_byte(b0, b1, b2, b3, b4, b5, b6, b7), 4) == b4,
        bit_of_byte(pack_byte(b0, b1, b2, b3, b4, b5, b6, b7), 5) == b5,
        bit_of_byte(pack_byte(b0, b1, b2, b3, b4, b5, b6, b7), 6) == b6,
        bit_of_byte(pack_byte(b0, b1, b2, b3, b4, b5, b6, b7), 7) == b7,
{
}

proof fn lemma_byte_of_bits(a: u8, b: u8)
    by (bit_vector)
    requires
        bit_of_byte(a, 0) == bit_of_byte(b, 0),
        bit_of_byte(a, 1) == bit_of_byte(b, 1),
        bit_of_byte(a, 2) == bit_of_byte(b, 2),
        bit_of_byte(a, 3) == bit_of_byte(b, 3),
        bit_of_byte(a, 4) == bit_of_byte(b, 4),
        bit_of_byte(a, 5) == bit_of_byte(b, 5),
        bit_of_byte(a, 6) == bit_of_byte(b, 6),
        bit_of_byte(a, 7) == bit_of_byte(b, 7),
    ensures
        a == b,
{
}

proof fn lemma_stream_byte_bit(s: Seq<u8>, k: int, j: int)
    requires
        0 <= k < s.len(),
        0 <= j < 8,
    ensures
        stream_bit(s, 8 * k + j) == bit_of_byte(s[k], j),
{
    vstd::arithmetic::div_mod::lemma_fundamental_div_mod_converse_mod(8 * k + j, 8, k, j);
    vstd::arithmetic::div_mod::lemma_fundamental_div_mod_converse_div(8 * k + j, 8, k, j);
}

proof fn lemma_set_bit_effect(b: u8, sh: u8, k: u8, v: bool)
    by (bit_vector)
    requires
        sh < 8,
        k < 8,
    ensures
        ((if v {
            b | (1u8 << sh)
        } else {
            b & !(1u8 << sh)
        }) >> k) & 1 == (if k == sh {
            (if v {
                1u8
            } else {
                0u8
            })
        } else {
            (b >> k) & 1
        }),
{
}

/// Read bit `i` of a byte stream.
fn get_stream_bit(bytes: &[u8], i: usize) -> (r: bool)
    requires
        i < bytes@.len() * 8,
    ensures
        r == stream_bit(bytes@, i as int),
{
    proof {
        vstd::arithmetic::div_mod::lemma_multiply_divide_lt(i as int, bytes@.len() as int, 8);
    }
    let b = bytes[i / 8];
    let sh = (i % 8) as u8;
    (b >> sh) & 1 == 1
}

/// Write bit `i` of a byte stream, leaving every other bit as it was.
fn set_stream_bit(buf: &mut Vec<u8>, i: usize, v: bool)
    requires
        i < old(buf)@.len() * 8,
    ensures
        final(buf)@.len() == old(buf)@.len(),
        forall|j: int|
            0 <= j < final(buf)@.len() * 8 ==> stream_bit(final(buf)@, j) == (if j == i {
                v
            } else {
                stream_bit(old(buf)@, j)
            }),
{
    proof {
        vstd::arithmetic::div_mod::lemma_multiply_divide_lt(i as int, old(buf)@.len() as int, 8);
    }
    let idx = i / 8;
    let sh = (i % 8) as u8;
    let b = buf[idx];
    let nb = if v {
        b | (1u8 << sh)
    } else {
        b & !(1u8 << sh)
    };
    buf.set(idx, nb);
    proof {
        assert forall|j: int| 0 <= j < buf@.len() * 8 implies stream_bit(buf@, j) == (if j == i {
            v
        } else {
            stream_bit(old(buf)@, j)
        }) by {
            vstd::arithmetic::div_mod::lemma_multiply_divide_lt(j, buf@.len() as int, 8);
            vstd::arithmetic::div_mod::lemma_fundamental_div_mod(j, 8);
            vstd::arithmetic::div_mod::lemma_fundamental_div_mod(i as int, 8);
            if j / 8 == idx as int {
                lemma_set_bit_effect(b, sh, (j % 8) as u8, v);
            }
        }
    }
}

/// Strip the framing: write the data byte of each whole ten-bit cell of
/// `bytes` into `buf`, in order, until the cells or the buffer run out.
/// Returns how many bytes were written; the rest of `buf` is untouched.
pub fn strip_uart_protocol_bits(buf: &mut Vec<u8>, bytes: &[u8]) -> (n: usize)
    requires
        bytes@.len() * 8 <= usize::MAX,
    ensures
        final(buf)@.len() == old(buf)@.len(),
        n == (if bytes@.len() * 8 / 10 <= old(buf)@.len() {
            bytes@.len() * 8 / 10
        } else {
            old(buf)@.len()
        }),
        forall|c: int| 0 <= c < n ==> final(buf)@[c] == cell_data(bytes@, c),
        forall|c: int| n <= c < final(buf)@.len() ==> final(buf)@[c] == old(buf)@[c],
{
    let cells = bytes.len() * 8 / 10;
    let n = if cells <= buf.len() {
        cells
    } else {
        buf.len()
    };
    proof {
        vstd::arithmetic::div_mod::lemma_fundamental_div_mod(bytes@.len() * 8 as int, 10);
    }
    let mut c: usize = 0;
    while c < n
        invariant
            c <= n,
            n <= buf@.len(),
            10 * n <= bytes@.len() * 8,
            bytes@.len() * 8 <= usize::MAX,
            buf@.len() == old(buf)@.len(),
            forall|k: int| 0 <= k < c ==> buf@[k] == cell_data(bytes@, k),
            forall|k: int| c <= k < buf@.len() ==> buf@[k] == old(buf)@[k],
        decreases n - c,
    {
        let base = 10 * c;
        let b0 = get_stream_bit(bytes, base + 1);
        let b1 = get_stream_bit(bytes, base + 2);
        let b2 = get_stream_bit(bytes, base + 3);
        let b3 = get_stream_bit(bytes, base + 4);
        let b4 = get_stream_bit(bytes, base + 5);
        let b5 = get_stream_bit(bytes, base + 6);
        let b6 = get_stream_bit(bytes, base + 7);
        let b7 = get_stream_bit(bytes, base + 8);
        let byte = (if b0 {
            1u8
        } else {
            0u8
        }) | (if b1 {
            2u8
        } else {
            0u8
        }) | (if b2 {
            4u8
        } else {
            0u8
        }) | (if b3 {
            8u8
        } else {
            0u8
        }) | (if b4 {
            16u8
        } else {
            0u8
        }) | (if b5 {
            32u8
        } else {
            0u8
        }) | (if b6 {
            64u8
        } else {
            0u8
        }) | (if b7 {
            128u8
        } else {
            0u8
        });
        buf.set(c, byte);
        c = c + 1;
    }
    n
}

/// Reflate raw bytes into ten-bit cells: each byte of `bytes` becomes a
/// start bit, its eight data bits, and a stop bit in the bit view of
/// `buf`, until the bytes or the buffer run out.  Returns how many bytes
/// of `buf` the written cells span; bits past the written cells are
/// untouched.
pub fn clad_uart_protocol_bits(buf: &mut Vec<u8>, bytes: &[u8]) -> (n: usize)
    requires
        old(buf)@.len() * 8 <= usize::MAX,
    ensures
        final(buf)@.len() == old(buf)@.len(),
        ({
            let cells = if old(buf)@.len() * 8 / 10 <= bytes@.len() {
                old(buf)@.len() * 8 / 10
            } else {
                bytes@.len()
            };
            &&& n == (10 * cells + 7) / 8
            &&& forall|i: int|
                0 <= i < 10 * cells ==> stream_bit(final(buf)@, i) == framed_bit(bytes@, i)
            &&& forall|i: int|
                10 * cells <= i < final(buf)@.len() * 8 ==> stream_bit(final(buf)@, i)
                    == stream_bit(old(buf)@, i)
        }),
{
    let fit = buf.len() * 8 / 10;
    let cells = if fit <= bytes.len() {
        fit
    } else {
        bytes.len()
    };
    proof {
        vstd::arithmetic::div_mod::lemma_fundamental_div_mod(old(buf)@.len() * 8 as int, 10);
    }
    let mut i: usize = 0;
    while i < 10 * cells
        invariant
            i <= 10 * cells,
            10 * cells <= buf@.len() * 8,
            cells <= bytes@.len(),
            buf@.len() == old(buf)@.len(),
            buf@.len() * 8 <= usize::MAX,
            forall|j: int| 0 <= j < i ==> stream_bit(buf@, j) == framed_bit(bytes@, j),
            forall|j: int|
                i <= j < buf@.len() * 8 ==> stream_bit(buf@, j) == stream_bit(old(buf)@, j),
        decreases 10 * cells - i,
    {
        let c = i / 10;
        let k = i % 10;
        proof {
            vstd::arithmetic::div_mod::lemma_multiply_divide_lt(i as int, cells as int, 10);
            vstd::arithmetic::div_mod::lemma_fundamental_div_mod(i as int, 10);
        }
        let v = if k == 0 {
            false
        } else if k == 9 {
            true
        } else {
            let b = bytes[c];
            let sh = (k - 1) as u8;
            (b >> sh) & 1 == 1
        };
        set_stream_bit(buf, i, v);
        i = i + 1;
    }
    (10 * cells + 7) / 8
}

/// The framing round trip: reflating the data bytes stripped from a
/// well-framed stream reproduces that stream, bit for bit.  Together with
/// [`lemma_bits_determine_bytes`] this gives the byte-level identity.
pub proof fn lemma_strip_then_clad_identity(x: Seq<u8>)
    requires
        well_framed(x),
    ensures
        forall|i: int|
            0 <= i < x.len() * 8 ==> framed_bit(strip_seq(x), i) == stream_bit(x, i),
{
    let cells = x.len() * 8 / 10;
    vstd::arithmetic::div_mod::lemma_fundamental_div_mod(x.len() * 8 as int, 10);
    assert forall|i: int| 0 <= i < x.len() * 8 implies framed_bit(strip_seq(x), i) == stream_bit(
        x,
        i,
    ) by {
        let c = i / 10;
        let k = i % 10;
        vstd::arithmetic::div_mod::lemma_fundamental_div_mod(i, 10);
        vstd::arithmetic::div_mod::lemma_multiply_divide_lt(i, cells as int, 10);
        assert(0 <= c < cells);
        assert(start_stop_ok(x, c));
        if k != 0 && k != 9 {
            lemma_pack_byte_bits(
                stream_bit(x, 10 * c + 1),
                stream_bit(x, 10 * c + 2),
                stream_bit(x, 10 * c + 3),
                stream_bit(x, 10 * c + 4),
                stream_bit(x, 10 * c + 5),
                stream_bit(x, 10 * c + 6),
                stream_bit(x, 10 * c + 7),
                stream_bit(x, 10 * c + 8),
            );
        }
    }
}

/// Two byte sequences with the same bits are the same sequence.
pub proof fn lemma_bits_determine_bytes(a: Seq<u8>, b: Seq<u8>)
    requires
        a.len() == b.len(),
        forall|i: int| 0 <= i < a.len() * 8 ==> stream_bit(a, i) == stream_bit(b, i),
    ensures
        a =~= b,
{
    assert forall|k: int| 0 <= k < a.len() implies a[k] == b[k] by {
        lemma_stream_byte_bit(a, k, 0);
        lemma_stream_byte_bit(a, k, 1);
        lemma_stream_byte_bit(a, k, 2);
        lemma_stream_byte_bit(a, k, 3);
        lemma_stream_byte_bit(a, k, 4);
        lemma_stream_byte_bit(a, k, 5);
        lemma_stream_byte_bit(a, k, 6);
        lemma_stream_byte_bit(a, k, 7);
        lemma_stream_byte_bit(b, k, 0);
        lemma_stream_byte_bit(b, k, 1);
        lemma_stream_byte_bit(b, k, 2);
        lemma_stream_byte_bit(b, k, 3);
        lemma_stream_byte_bit(b, k, 4);
        lemma_stream_byte_bit(b, k, 5);
        lemma_stream_byte_bit(b, k, 6);
        lemma_stream_byte_bit(b, k, 7);
        lemma_byte_of_bits(a[k], b[k]);
    }
}

} // verus!
