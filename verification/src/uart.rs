//! The two serial ports: QEMU's NS16550a and the K210's UARTHS. The drivers
//! perform the register accesses; this module decides what to write and how
//! to read what the registers report.

use vstd::prelude::*;
use vstd::utf8::*;
use crate::config::{CLK, BAUDRATE, RECV_IRQ, TRANS_IRQ};
use crate::mmio::MmioWrite;

verus! {

/// Base address of QEMU's NS16550a.
pub const NS16550A_BASE: usize = 0x1000_0000;

pub const RHR: usize = 0x0;
pub const THR: usize = 0x0;
pub const DLL: usize = 0x0;
pub const IER: usize = 0x1;
pub const DLH: usize = 0x1;
pub const FCR: usize = 0x2;
pub const ISR: usize = 0x2;
pub const LCR: usize = 0x3;
pub const LSR: usize = 0x5;
pub const SPR: usize = 0x7;

pub const IER_RECV: u8 = 1;
pub const IER_TRANS: u8 = 2;
pub const FCR_FIFO_EN: u8 = 1;
pub const FCR_RECV_RST: u8 = 2;
pub const FCR_TRANS_RST: u8 = 4;
pub const LCR_LEN0: u8 = 1;
pub const LCR_LEN1: u8 = 2;
pub const LCR_STOPBIT: u8 = 4;
pub const LCR_PARITY: u8 = 8;
pub const LCR_LATCH: u8 = 0x80;
pub const LSR_RECV_READY: u8 = 1;
pub const LSR_TRANS_EMPTY: u8 = 0x40;

/// Address of the line status register.
pub const LSR_ADDR: usize = NS16550A_BASE + LSR;
/// Address of the receive holding register.
pub const RHR_ADDR: usize = NS16550A_BASE + RHR;
/// Address of the transmit holding register.
pub const THR_ADDR: usize = NS16550A_BASE + THR;

/// The baud rate divisor: the UART samples at 16 times the line rate.
pub open spec fn spec_latch() -> int {
    CLK as int / (16 * BAUDRATE as int)
}

/// The interrupt enable byte: bit 0 for receive, bit 1 for transmit.
pub open spec fn spec_int_mask() -> u8 {
    ((if RECV_IRQ { 1int } else { 0 }) + (if TRANS_IRQ { 2int } else { 0 })) as u8
}

/// The writes that set the NS16550a up: open the divisor latch, set the
/// divisor (low byte, then high), close the latch with 8N1 framing, enable
/// the configured interrupts, enable and reset both FIFOs.
pub open spec fn spec_ns16550a_init() -> Seq<MmioWrite> {
    seq![
        MmioWrite::U8 { addr: (NS16550A_BASE + LCR) as usize, byte: LCR_LATCH },
        MmioWrite::U8 { addr: (NS16550A_BASE + DLL) as usize, byte: (spec_latch() % 0x100) as u8 },
        MmioWrite::U8 { addr: (NS16550A_BASE + DLH) as usize, byte: (spec_latch() / 0x100) as u8 },
        MmioWrite::U8 { addr: (NS16550A_BASE + LCR) as usize, byte: 3 },
        MmioWrite::U8 { addr: (NS16550A_BASE + IER) as usize, byte: spec_int_mask() },
        MmioWrite::U8 { addr: (NS16550A_BASE + FCR) as usize, byte: 7 },
    ]
}

/// QEMU's NS16550a serial port.
pub struct NS16550a;

impl NS16550a {
    /// The device handle and the register writes, in order, that initialize it.
    pub fn init() -> (r: (NS16550a, Vec<MmioWrite>))
        ensures
            r.1@ == spec_ns16550a_init(),
    {
        let mut w: Vec<MmioWrite> = Vec::new();
        w.push(MmioWrite::U8 { addr: NS16550A_BASE + LCR, byte: LCR_LATCH });
        let latch: u32 = CLK / (16 * BAUDRATE);
        w.push(MmioWrite::U8 { addr: NS16550A_BASE + DLL, byte: (latch & 0xff) as u8 });
        w.push(MmioWrite::U8 { addr: NS16550A_BASE + DLH, byte: (latch >> 8) as u8 });
        w.push(MmioWrite::U8 { addr: NS16550A_BASE + LCR, byte: LCR_LEN0 | LCR_LEN1 });
        let int_mask: u8 = (if RECV_IRQ { IER_RECV } else { 0 }) | (if TRANS_IRQ { IER_TRANS } else { 0 });
        w.push(MmioWrite::U8 { addr: NS16550A_BASE + IER, byte: int_mask });
        w.push(MmioWrite::U8 { addr: NS16550A_BASE + FCR, byte: FCR_FIFO_EN | FCR_RECV_RST | FCR_TRANS_RST });
        proof {
            assert(latch == 6);
            assert((latch & 0xff) as u8 == 6u8 && (latch >> 8) as u8 == 0u8) by (bit_vector)
                requires
                    latch == 6,
            ;
            assert(LCR_LEN0 | LCR_LEN1 == 3u8) by (bit_vector);
            assert(IER_RECV | 0u8 == 1u8) by (bit_vector);
            assert(FCR_FIFO_EN | FCR_RECV_RST | FCR_TRANS_RST == 7u8) by (bit_vector);
            assert(w@ =~= spec_ns16550a_init());
        }
        (NS16550a, w)
    }

    /// A received byte is waiting in RHR.
    pub fn recv_ready(lsr: u8) -> (r: bool)
        ensures
            r == (lsr % 2 == 1),
    {
        let r = 0 != lsr & LSR_RECV_READY;
        assert(r == (lsr % 2 == 1)) by (bit_vector)
            requires
                r == (0 != lsr & 1u8),
        ;
        r
    }

    /// THR and the transmitter are empty: a byte may be written.
    pub fn trans_empty(lsr: u8) -> (r: bool)
        ensures
            r == ((lsr / 0x40) % 2 == 1),
    {
        let r = 0 != lsr & LSR_TRANS_EMPTY;
        assert(r == ((lsr / 0x40) % 2 == 1)) by (bit_vector)
            requires
                r == (0 != lsr & 0x40u8),
        ;
        r
    }

    /// The bytes that writing `s` puts on the line: its UTF-8 encoding, one
    /// character after another.
    pub fn write_str(&self, s: &str) -> (r: Vec<u8>)
        ensures
            r@ == encode_utf8(s@),
    {
        let mut out: Vec<u8> = Vec::new();
        for c in it: s.chars()
            invariant
                it.seq() == s@,
                out@ == encode_utf8(s@.take(it.index() as int)),
        {
            let code_points = encode_char(c);
            let mut j: usize = 0;
            let ghost before = out@;
            while j < code_points.len()
                invariant
                    j <= code_points@.len(),
                    out@ == before + code_points@.take(j as int),
                decreases code_points@.len() - j,
            {
                out.push(code_points[j]);
                assert(code_points@.take(j + 1) =~= code_points@.take(j as int).push(code_points@[j as int]));
                j = j + 1;
            }
            proof {
                assert(code_points@.take(code_points@.len() as int) =~= code_points@);
                assert(s@.take(it.index() + 1) =~= s@.take(it.index() as int).push(c));
                lemma_encode_utf8_push(s@.take(it.index() as int), c);
            }
        }
        assert(s@.take(s@.len() as int) =~= s@);
        out
    }
}

/// Encoding a sequence with one more character appends that character's encoding.
pub proof fn lemma_encode_utf8_push(s: Seq<char>, c: char)
    ensures
        encode_utf8(s.push(c)) == encode_utf8(s) + encode_scalar(c as u32),
    decreases s.len(),
{
    if s.len() == 0 {
        assert(s.push(c).drop_first() =~= Seq::<char>::empty());
        assert(encode_utf8(Seq::<char>::empty()) =~= Seq::<u8>::empty());
        assert(encode_utf8(s.push(c)) =~= encode_scalar(c as u32));
    } else {
        assert(s.push(c).drop_first() =~= s.drop_first().push(c));
        lemma_encode_utf8_push(s.drop_first(), c);
        assert(encode_utf8(s.push(c)) =~= encode_utf8(s) + encode_scalar(c as u32));
    }
}

/// The UTF-8 encoding of one character (1 to 4 bytes).
pub fn encode_char(c: char) -> (r: Vec<u8>)
    ensures
        r@ == encode_scalar(c as u32),
{
    let v = c as u32;
    let mut r: Vec<u8> = Vec::new();
    if v <= 0x7F {
        r.push((v & 0x7F) as u8);
    } else if v <= 0x7FF {
        r.push(0xC0 | ((v >> 6) & 0x1F) as u8);
        r.push(0x80 | (v & 0x3F) as u8);
    } else if v <= 0xFFFF {
        r.push(0xE0 | ((v >> 12) & 0x0F) as u8);
        r.push(0x80 | ((v >> 6) & 0x3F) as u8);
        r.push(0x80 | (v & 0x3F) as u8);
    } else {
        r.push(0xF0 | ((v >> 18) & 0x7) as u8);
        r.push(0x80 | ((v >> 12) & 0x3F) as u8);
        r.push(0x80 | ((v >> 6) & 0x3F) as u8);
        r.push(0x80 | (v & 0x3F) as u8);
    }
    assert(r@ =~= encode_scalar(v));
    r
}

/// Clock of the K210 UARTHS, in Hz.
pub const UARTHS_CLK: u32 = 390_000_000;

/// A write to one UARTHS register, by field. A write starts from the
/// register's reset value (0), so fields not named are 0.
#[derive(Clone, Copy, Debug, PartialEq, Eq, Structural)]
pub enum UarthsWrite {
    /// `div`: the port runs at `UARTHS_CLK / (div + 1)` baud.
    Div { div: u32 },
    /// `ie`: the transmit and receive watermark interrupts.
    Ie { txwm: bool, rxwm: bool },
    /// `rxctrl`: receive watermark level and receive enable.
    RxCtrl { rxcnt: u8, rxen: bool },
    /// `txctrl`: transmit watermark level and transmit enable.
    TxCtrl { txcnt: u8, txen: bool },
}

/// The writes that set the UARTHS up: the baud divisor first, then the
/// configured watermark interrupts, then receive and transmit enabled with
/// watermark 0.
pub open spec fn spec_uarths_init() -> Seq<UarthsWrite> {
    seq![
        UarthsWrite::Div { div: (UARTHS_CLK / BAUDRATE - 1) as u32 },
        UarthsWrite::Ie { txwm: TRANS_IRQ, rxwm: RECV_IRQ },
        UarthsWrite::RxCtrl { rxcnt: 0, rxen: true },
        UarthsWrite::TxCtrl { txcnt: 0, txen: true },
    ]
}

/// The K210's high-speed UART.
pub struct Uart;

impl Uart {
    /// The device handle and the register writes, in order, that initialize it.
    pub fn init() -> (r: (Uart, Vec<UarthsWrite>))
        ensures
            r.1@ == spec_uarths_init(),
    {
        let base: u32 = UARTHS_CLK;
        let baud = base / BAUDRATE - 1;
        let mut w: Vec<UarthsWrite> = Vec::new();
        // first set div
        w.push(UarthsWrite::Div { div: baud });
        // enable interrupts
        w.push(UarthsWrite::Ie { txwm: TRANS_IRQ, rxwm: RECV_IRQ });
        // finally, enable RX/TX
        w.push(UarthsWrite::RxCtrl { rxcnt: 0, rxen: true });
        w.push(UarthsWrite::TxCtrl { txcnt: 0, txen: true });
        assert(w@ =~= spec_uarths_init());
        (Uart, w)
    }

    /// The byte that a read of `rxdata` yields: 0xff when the receive FIFO is
    /// empty (bit 31), the data field (bits 7..0) otherwise.
    pub fn getchar_from(rxdata: u32) -> (r: u8)
        ensures
            r == (if rxdata >= 0x8000_0000 { 0xffu8 } else { (rxdata % 0x100) as u8 }),
    {
        let empty = (rxdata >> 31) & 0x01 != 0;
        let data = (rxdata & 0xff) as u8;
        assert(empty == (rxdata >= 0x8000_0000) && data == (rxdata % 0x100) as u8) by (bit_vector)
            requires
                empty == ((rxdata >> 31) & 0x01 != 0),
                data == (rxdata & 0xff) as u8,
        ;
        if empty {
            0xff
        } else {
            data
        }
    }

    /// The transmit FIFO is full (bit 31 of `txdata`): the byte must wait.
    pub fn txdata_full(txdata: u32) -> (r: bool)
        ensures
            r == (txdata >= 0x8000_0000),
    {
        let r = (txdata >> 31) & 0x01 != 0;
        assert(r == (txdata >= 0x8000_0000)) by (bit_vector)
            requires
                r == ((txdata >> 31) & 0x01 != 0),
        ;
        r
    }

    /// The bytes that writing `s` puts on the line: the bytes of the string.
    pub fn write_str(&self, s: &str) -> (r: Vec<u8>)
        ensures
            r@ == encode_utf8(s@),
    {
        let bytes = s.as_bytes();
        let mut out: Vec<u8> = Vec::new();
        let mut i: usize = 0;
        while i < bytes.len()
            invariant
                i <= bytes@.len(),
                bytes@ == encode_utf8(s@),
                out@ == bytes@.take(i as int),
            decreases bytes@.len() - i,
        {
            out.push(bytes[i]);
            assert(bytes@.take(i + 1) =~= bytes@.take(i as int).push(bytes@[i as int]));
            i = i + 1;
        }
        assert(bytes@.take(bytes@.len() as int) =~= bytes@);
        out
    }
}

} // verus!
