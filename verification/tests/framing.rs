//! The TMC UART ten-bit framing, against hand-computed cells and against
//! an independent bit-slice implementation.

use bitvec::field::BitField;
use bitvec::order::Lsb0;
use bitvec::view::BitView;

use steppulse::tmc_uart::{clad_uart_protocol_bits, strip_uart_protocol_bits};

/// The reference de-framing, written over bit slices.
fn strip_oracle(buf: &mut [u8], bytes: &[u8]) -> usize {
    bytes
        .view_bits::<Lsb0>()
        .chunks_exact(10)
        .zip(buf)
        .map(|(chunk, out)| *out = chunk[1..9].load::<u8>())
        .count()
}

/// The reference framing, written over bit slices.
fn clad_oracle(buf: &mut [u8], bytes: &[u8]) -> usize {
    buf.view_bits_mut::<Lsb0>()
        .chunks_exact_mut(10)
        .zip(bytes.iter())
        .map(|(out, inp)| {
            out.set(0, false);
            out.set(9, true);
            out[1..9].store(*inp);
            10
        })
        .sum::<usize>()
        .div_ceil(8)
}

#[test]
fn clad_matches_oracle() {
    let raw = [0xA5u8, 0x3C, 0x00, 0xFF, 0x42, 0x01, 0x80, 0x7E];
    let mut ours = vec![0u8; 10];
    let n = clad_uart_protocol_bits(&mut ours, &raw);
    let mut theirs = [0u8; 10];
    let m = clad_oracle(&mut theirs, &raw);
    assert_eq!(n, m);
    assert_eq!(n, 10);
    assert_eq!(&ours[..], &theirs[..]);
}

#[test]
fn strip_matches_oracle() {
    // Frame eight bytes first, so the cells are well-formed.
    let raw = [0x12u8, 0x34, 0x56, 0x78, 0x9A, 0xBC, 0xDE, 0xF0];
    let mut framed = vec![0u8; 10];
    clad_uart_protocol_bits(&mut framed, &raw);

    let mut ours = vec![0u8; 8];
    let n = strip_uart_protocol_bits(&mut ours, &framed);
    let mut theirs = [0u8; 8];
    let m = strip_oracle(&mut theirs, &framed);
    assert_eq!(n, m);
    assert_eq!(n, 8);
    assert_eq!(&ours[..], &theirs[..]);
}

#[test]
fn round_trip_reproduces_framed_stream() {
    // clad(strip(x)) == x for a whole-cell, well-framed x.
    let raw = [0x5Au8, 0x0F, 0xC3, 0x99];
    let mut x = vec![0u8; 5];
    let n = clad_uart_protocol_bits(&mut x, &raw);
    assert_eq!(n, 5);

    let mut stripped = vec![0u8; 4];
    let k = strip_uart_protocol_bits(&mut stripped, &x);
    assert_eq!(k, 4);
    assert_eq!(stripped, raw.to_vec());

    let mut again = vec![0u8; 5];
    let m = clad_uart_protocol_bits(&mut again, &stripped);
    assert_eq!(m, 5);
    assert_eq!(again, x);
}

#[test]
fn strip_reads_data_bits_between_start_and_stop() {
    // One cell by hand, for the byte 0xA5, data bits least significant
    // first: start 0, then 1,0,1,0,0,1,0,1, then stop 1.
    let mut framed = vec![0u8; 10];
    let n = clad_uart_protocol_bits(&mut framed, &[0xA5u8]);
    assert_eq!(n, 2);
    // Stream bits 0..8 fill the first byte, bits 8..10 the second.
    assert_eq!(framed[0], 0b0100_1010);
    assert_eq!(framed[1], 0b0000_0011);

    let mut out = vec![0u8; 1];
    let k = strip_uart_protocol_bits(&mut out, &framed[..2]);
    assert_eq!(k, 1);
    assert_eq!(out[0], 0xA5);
}

#[test]
fn short_buffer_limits_stripped_cells() {
    let raw = [1u8, 2, 3, 4, 5, 6, 7, 8];
    let mut framed = vec![0u8; 10];
    clad_uart_protocol_bits(&mut framed, &raw);
    // Only the first three cells fit.
    let mut out = vec![0u8; 3];
    let n = strip_uart_protocol_bits(&mut out, &framed);
    assert_eq!(n, 3);
    assert_eq!(out, vec![1, 2, 3]);
}
