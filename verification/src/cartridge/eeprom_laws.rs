use vstd::prelude::*;

use crate::cartridge::gba::eeprom_advance_spec;
use crate::cartridge::gba::eeprom_read_spec;
use crate::cartridge::gba::eeprom_word;
use crate::cartridge::gba::eeprom_write_spec;
use crate::cartridge::gba::store_word;
use crate::cartridge::gba::word_byte;
use crate::cartridge::gba::EepromCommand;
use crate::cartridge::gba::EepromState;
use crate::cartridge::gba::EepromView;
use crate::cartridge::mbc::byte_or_ff;

verus! {

/// The EEPROM after the bits `bits` were written to it, in order.
pub open spec fn feed(e: EepromView, bits: Seq<u8>) -> EepromView
    decreases bits.len(),
{
    if bits.len() == 0 {
        e
    } else {
        eeprom_write_spec(feed(e, bits.drop_last()), bits.last())
    }
}

/// The EEPROM after `n` read bits were taken.
pub open spec fn advance_n(e: EepromView, n: nat) -> EepromView
    decreases n,
{
    if n == 0 {
        e
    } else {
        eeprom_advance_spec(advance_n(e, (n - 1) as nat))
    }
}

/// The first `n` bits that reading the EEPROM returns.
pub open spec fn read_out(e: EepromView, n: nat) -> Seq<u8>
    decreases n,
{
    if n == 0 {
        Seq::empty()
    } else {
        read_out(e, (n - 1) as nat).push(eeprom_read_spec(advance_n(e, (n - 1) as nat)))
    }
}

/// The `n` low bits of an address, most significant first.
pub open spec fn addr_bits(a: u16, n: nat) -> Seq<u8> {
    Seq::new(n, |i: int| ((a >> ((n - 1 - i) as u16)) & 1) as u8)
}

/// The 64 bits of a word, most significant first.
pub open spec fn data_bits(w: u64) -> Seq<u8> {
    Seq::new(64, |i: int| ((w >> ((63 - i) as u64)) & 1) as u8)
}

/// A write request: 1, 0, the address, the 64 data bits, and a final bit.
pub open spec fn write_request(a: u16, len: u8, w: u64) -> Seq<u8> {
    seq![1u8, 0u8] + addr_bits(a, len as nat) + data_bits(w) + seq![0u8]
}

/// A read request: 1, 1, the address and a final 0.
pub open spec fn read_request(a: u16, len: u8) -> Seq<u8> {
    seq![1u8, 1u8] + addr_bits(a, len as nat) + seq![0u8]
}

proof fn lemma_feed_append(e: EepromView, s1: Seq<u8>, s2: Seq<u8>)
    ensures
        feed(e, s1 + s2) == feed(feed(e, s1), s2),
    decreases s2.len(),
{
    if s2.len() == 0 {
        assert(s1 + s2 =~= s1);
    } else {
        assert((s1 + s2).drop_last() =~= s1 + s2.drop_last());
        assert((s1 + s2).last() == s2.last());
        lemma_feed_append(e, s1, s2.drop_last());
    }
}

proof fn lemma_feed_one(e: EepromView, b: u8)
    ensures
        feed(e, seq![b]) == eeprom_write_spec(e, b),
{
    assert(seq![b].drop_last() =~= Seq::<u8>::empty());
    assert(feed(e, Seq::<u8>::empty()) == e);
}

proof fn lemma_shift_in_u16(a: u16, s: u16)
    requires
        s < 15,
    ensures
        (((a >> ((s + 1) as u16)) << 1u16) | (((((a >> s) & 1) as u8) & 1) as u64) as u16) == a >> s,
        a >> 0u16 == a,
{
    assert((((a >> ((s + 1) as u16)) << 1u16) | (((((a >> s) & 1) as u8) & 1) as u64) as u16) == a >> s
        && a >> 0u16 == a) by (bit_vector)
        requires
            s < 15,
    ;
}

proof fn lemma_shift_in_u64(w: u64, s: u64)
    requires
        s < 63,
    ensures
        ((w >> ((s + 1) as u64)) << 1u64) | (((((w >> s) & 1) as u8) & 1) as u64) == w >> s,
        w >> 0u64 == w,
{
    assert(((w >> ((s + 1) as u64)) << 1u64) | (((((w >> s) & 1) as u8) & 1) as u64) == w >> s && w >> 0u64
        == w) by (bit_vector)
        requires
            s < 63,
    ;
}

/// The request bits as the protocol decodes them.
proof fn lemma_request_bits()
    ensures
        ((1u8 & 1) as u64) == 1u64,
        ((0u8 & 1) as u64) == 0u64,
        ((1u64 << 1u64) | (((1u8 & 1) as u64))) & 3 == 3,
        ((1u64 << 1u64) | (((0u8 & 1) as u64))) & 3 == 2,
{
    assert(((1u8 & 1) as u64) == 1u64 && ((0u8 & 1) as u64) == 0u64 && ((1u64 << 1u64) | (((1u8 & 1) as u64)))
        & 3 == 3 && ((1u64 << 1u64) | (((0u8 & 1) as u64))) & 3 == 2) by (bit_vector);
}

/// Feeding the first `k` address bits accumulates the high bits of the address.
proof fn lemma_address_prefix(e: EepromView, a: u16, len: u8, k: nat)
    requires
        e.state == EepromState::ReadingAddress,
        e.bits_written == 0,
        e.address == 0,
        e.addr_len == len,
        1 <= len <= 14,
        a >> (len as u16) == 0,
        k < len,
    ensures
        feed(e, addr_bits(a, len as nat).subrange(0, k as int)) == (EepromView {
            bits_written: k as u8,
            address: if k == 0 {
                0u16
            } else {
                a >> ((len - k) as u16)
            },
            ..e
        }),
    decreases k,
{
    let bits = addr_bits(a, len as nat);
    if k == 0 {
        assert(bits.subrange(0, 0) =~= Seq::<u8>::empty());
    } else {
        lemma_address_prefix(e, a, len, (k - 1) as nat);
        assert(bits.subrange(0, k as int).drop_last() =~= bits.subrange(0, k - 1));
        let s = (len - k) as u16;
        let bit = bits[k - 1];
        assert(bit == ((a >> s) & 1) as u8);
        if k == 1 {
            let l16 = len as u16;
            assert((((0u16 << 1u16) | (((bit & 1) as u64) as u16))) == a >> s) by (bit_vector)
                requires
                    bit == ((a >> s) & 1) as u8,
                    s + 1 == l16,
                    l16 <= 14,
                    a >> l16 == 0,
            ;
        } else {
            lemma_shift_in_u16(a, s);
        }
    }
}


/// All address bits: the address is complete and the request moves on.
proof fn lemma_address_phase(e: EepromView, a: u16, len: u8)
    requires
        e.state == EepromState::ReadingAddress,
        e.bits_written == 0,
        e.address == 0,
        e.addr_len == len,
        1 <= len <= 14,
        a >> (len as u16) == 0,
        e.command == EepromCommand::Read || e.command == EepromCommand::Write,
    ensures
        feed(e, addr_bits(a, len as nat)) == (EepromView {
            bits_written: 0,
            address: a,
            state: if e.command == EepromCommand::Read {
                EepromState::ReadReady
            } else {
                EepromState::WritingData
            },
            buffer: if e.command == EepromCommand::Read {
                e.buffer
            } else {
                0
            },
            ..e
        }),
{
    let bits = addr_bits(a, len as nat);
    let k = (len - 1) as nat;
    lemma_address_prefix(e, a, len, k);
    assert(bits.drop_last() =~= bits.subrange(0, k as int));
    let bit = bits.last();
    assert(bit == ((a >> 0u16) & 1) as u8);
    if k == 0 {
        assert((((0u16 << 1u16) | (((bit & 1) as u64) as u16))) == a) by (bit_vector)
            requires
                bit == ((a >> 0u16) & 1) as u8,
                a >> 1u16 == 0,
        ;
    } else {
        lemma_shift_in_u16(a, 0);
    }
}

/// The request bits from an idle EEPROM: 1, 0 for a write, 1, 1 for a read.
proof fn lemma_command_phase(e: EepromView, read: bool)
    requires
        e.state == EepromState::Idle,
    ensures
        feed(e, if read { seq![1u8, 1u8] } else { seq![1u8, 0u8] }) == (EepromView {
            buffer: 0,
            bits_written: 0,
            address: 0,
            command: if read {
                EepromCommand::Read
            } else {
                EepromCommand::Write
            },
            state: EepromState::ReadingAddress,
            ..e
        }),
{
    let bits = if read {
        seq![1u8, 1u8]
    } else {
        seq![1u8, 0u8]
    };
    let b: u8 = if read {
        1
    } else {
        0
    };
    assert(bits =~= seq![1u8].push(b));
    assert(seq![1u8].push(b).drop_last() =~= seq![1u8]);
    assert(seq![1u8].drop_last() =~= Seq::<u8>::empty());
    let e1 = eeprom_write_spec(e, 1u8);
    lemma_feed_one(e, 1u8);
    lemma_request_bits();
    assert(e1.state == EepromState::ReadingCommand && e1.buffer == 1 && e1.bits_written == 1);
    assert(feed(e, bits) == eeprom_write_spec(e1, b));
}

/// Feeding the first `k` data bits accumulates the high bits of the word.
proof fn lemma_data_prefix(e: EepromView, w: u64, k: nat)
    requires
        e.state == EepromState::WritingData,
        e.bits_written == 0,
        e.buffer == 0,
        k < 64,
    ensures
        feed(e, data_bits(w).subrange(0, k as int)) == (EepromView {
            bits_written: k as u8,
            buffer: if k == 0 {
                0u64
            } else {
                w >> ((64 - k) as u64)
            },
            ..e
        }),
    decreases k,
{
    let bits = data_bits(w);
    if k == 0 {
        assert(bits.subrange(0, 0) =~= Seq::<u8>::empty());
    } else {
        lemma_data_prefix(e, w, (k - 1) as nat);
        assert(bits.subrange(0, k as int).drop_last() =~= bits.subrange(0, k - 1));
        let s = (64 - k) as u64;
        let bit = bits[k - 1];
        assert(bit == ((w >> s) & 1) as u8);
        if k == 1 {
            assert(((0u64 << 1u64) | ((bit & 1) as u64)) == w >> s) by (bit_vector)
                requires
                    bit == ((w >> s) & 1) as u8,
                    s == 63,
            ;
        } else {
            lemma_shift_in_u64(w, s);
        }
    }
}

/// All 64 data bits: the word is stored and the EEPROM waits for the end bit.
proof fn lemma_data_phase(e: EepromView, w: u64)
    requires
        e.state == EepromState::WritingData,
        e.bits_written == 0,
        e.buffer == 0,
    ensures
        feed(e, data_bits(w)) == (EepromView {
            data: store_word(e.data, (e.address as int) * 8, w),
            buffer: w,
            bits_written: 64,
            state: EepromState::WritingFinish,
            ..e
        }),
{
    let bits = data_bits(w);
    lemma_data_prefix(e, w, 63);
    assert(bits.drop_last() =~= bits.subrange(0, 63));
    lemma_shift_in_u64(w, 0);
}

/// A stored word reads back whole.
proof fn lemma_store_then_load(data: Seq<u8>, base: int, w: u64)
    requires
        0 <= base,
        base + 8 <= data.len(),
    ensures
        eeprom_word(store_word(data, base, w), base) == w,
{
    let d = store_word(data, base, w);
    assert(byte_or_ff(d, base) == word_byte(w, 0));
    assert(byte_or_ff(d, base + 1) == word_byte(w, 1));
    assert(byte_or_ff(d, base + 2) == word_byte(w, 2));
    assert(byte_or_ff(d, base + 3) == word_byte(w, 3));
    assert(byte_or_ff(d, base + 4) == word_byte(w, 4));
    assert(byte_or_ff(d, base + 5) == word_byte(w, 5));
    assert(byte_or_ff(d, base + 6) == word_byte(w, 6));
    assert(byte_or_ff(d, base + 7) == word_byte(w, 7));
    assert(((((w >> 56u64) & 0xFF) as u8 as u64) << 56u64) | ((((w >> 48u64) & 0xFF) as u8 as u64) << 48u64)
        | ((((w >> 40u64) & 0xFF) as u8 as u64) << 40u64) | ((((w >> 32u64) & 0xFF) as u8 as u64) << 32u64)
        | ((((w >> 24u64) & 0xFF) as u8 as u64) << 24u64) | ((((w >> 16u64) & 0xFF) as u8 as u64) << 16u64)
        | ((((w >> 8u64) & 0xFF) as u8 as u64) << 8u64) | (((w >> 0u64) & 0xFF) as u8 as u64) == w)
        by (bit_vector);
}

/// Reading: after `k` bits taken (k < 68) the read is still under way.
proof fn lemma_advance_prefix(e: EepromView, k: nat)
    requires
        e.state == EepromState::ReadingData,
        e.bits_read == 0,
        k < 68,
    ensures
        advance_n(e, k) == (EepromView { bits_read: k as u8, ..e }),
    decreases k,
{
    if k > 0 {
        lemma_advance_prefix(e, (k - 1) as nat);
    }
}

/// The bits a read returns: four zeros, then the word most significant first.
proof fn lemma_read_out(e: EepromView, n: nat)
    requires
        e.state == EepromState::ReadingData,
        e.bits_read == 0,
        n <= 68,
    ensures
        read_out(e, n) == (seq![0u8, 0u8, 0u8, 0u8] + data_bits(e.read_buffer)).subrange(0, n as int),
    decreases n,
{
    let full = seq![0u8, 0u8, 0u8, 0u8] + data_bits(e.read_buffer);
    if n == 0 {
        assert(full.subrange(0, 0) =~= Seq::<u8>::empty());
    } else {
        lemma_read_out(e, (n - 1) as nat);
        lemma_advance_prefix(e, (n - 1) as nat);
        let k = (n - 1) as nat;
        if k >= 4 {
            let w = e.read_buffer;
            let idx = (63 - (k - 4)) as u64;
            assert(full[k as int] == data_bits(w)[k - 4]);
            assert(((w >> idx) & 1) as u8 == (((w >> idx) & 1) as u8));
        }
        assert(read_out(e, n) =~= full.subrange(0, n as int));
    }
}

/// The whole write request: the word is stored and the EEPROM is idle again.
proof fn lemma_write_request(e: EepromView, a: u16, w: u64)
    requires
        e.state == EepromState::Idle,
        1 <= e.addr_len <= 14,
        a >> (e.addr_len as u16) == 0,
    ensures
        feed(e, write_request(a, e.addr_len, w)) == (EepromView {
            data: store_word(e.data, (a as int) * 8, w),
            buffer: w,
            bits_written: 64,
            address: a,
            command: EepromCommand::NoCommand,
            state: EepromState::Idle,
            ..e
        }),
{
    let len = e.addr_len;
    lemma_command_phase(e, false);
    let e_a = feed(e, seq![1u8, 0u8]);
    lemma_address_phase(e_a, a, len);
    let e_d = feed(e_a, addr_bits(a, len as nat));
    lemma_data_phase(e_d, w);
    let e_f = feed(e_d, data_bits(w));
    lemma_feed_one(e_f, 0u8);
    lemma_feed_append(e, seq![1u8, 0u8], addr_bits(a, len as nat));
    lemma_feed_append(e, seq![1u8, 0u8] + addr_bits(a, len as nat), data_bits(w));
    lemma_feed_append(e, seq![1u8, 0u8] + addr_bits(a, len as nat) + data_bits(w), seq![0u8]);
}

/// The whole read request: the addressed word is loaded for reading out.
proof fn lemma_read_request(e: EepromView, a: u16)
    requires
        e.state == EepromState::Idle,
        1 <= e.addr_len <= 14,
        a >> (e.addr_len as u16) == 0,
    ensures
        feed(e, read_request(a, e.addr_len)) == (EepromView {
            read_buffer: eeprom_word(e.data, (a as int) * 8),
            bits_read: 0,
            buffer: 0,
            bits_written: 0,
            address: a,
            command: EepromCommand::Read,
            state: EepromState::ReadingData,
            ..e
        }),
{
    let len = e.addr_len;
    lemma_command_phase(e, true);
    let r_a = feed(e, seq![1u8, 1u8]);
    lemma_address_phase(r_a, a, len);
    let r_r = feed(r_a, addr_bits(a, len as nat));
    lemma_feed_one(r_r, 0u8);
    lemma_feed_append(e, seq![1u8, 1u8], addr_bits(a, len as nat));
    lemma_feed_append(e, seq![1u8, 1u8] + addr_bits(a, len as nat), seq![0u8]);
    lemma_request_bits();
}

/// A word written to an EEPROM address is what a later read of that address
/// returns: after a write request the EEPROM is idle with the word stored
/// big-endian at 8 * address; a read request then makes the next 68 read
/// bits four zeros followed by the word, most significant bit first.
pub proof fn lemma_eeprom_write_then_read(e: EepromView, a: u16, w: u64)
    requires
        e.state == EepromState::Idle,
        1 <= e.addr_len <= 14,
        a >> (e.addr_len as u16) == 0,
        (a as int) * 8 + 8 <= e.data.len(),
    ensures
        feed(e, write_request(a, e.addr_len, w)).state == EepromState::Idle,
        feed(e, write_request(a, e.addr_len, w)).data.subrange((a as int) * 8, (a as int) * 8 + 8) == Seq::new(
            8,
            |i: int| word_byte(w, i),
        ),
        read_out(feed(feed(e, write_request(a, e.addr_len, w)), read_request(a, e.addr_len)), 68) == seq![
            0u8,
            0u8,
            0u8,
            0u8,
        ] + data_bits(w),
{
    lemma_write_request(e, a, w);
    let e1 = feed(e, write_request(a, e.addr_len, w));
    assert(e1.data.subrange((a as int) * 8, (a as int) * 8 + 8) =~= Seq::new(8, |i: int| word_byte(w, i)));
    lemma_read_request(e1, a);
    let e2 = feed(e1, read_request(a, e.addr_len));
    lemma_store_then_load(e.data, (a as int) * 8, w);
    lemma_read_out(e2, 68);
    assert((seq![0u8, 0u8, 0u8, 0u8] + data_bits(w)).subrange(0, 68) =~= seq![0u8, 0u8, 0u8, 0u8] + data_bits(w));
}

} // verus!
