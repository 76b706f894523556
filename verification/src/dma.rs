use vstd::prelude::*;

verus! {

/// One Game Boy Advance DMA channel.
#[derive(Debug, Clone, Copy)]
pub struct DmaChannel {
    pub src_addr: u32,
    pub dst_addr: u32,
    pub count: u16,
    pub control: u16,
    pub enabled: bool,
    pub active: bool,
    pub repeat: bool,
    /// false: 16-bit units, true: 32-bit units.
    pub word_size: bool,
    /// 0 immediate, 1 V-blank, 2 H-blank, 3 special.
    pub timing: u8,
    pub irq: bool,
    /// 0 increment, 1 decrement, 2 fixed, 3 prohibited.
    pub src_control: u8,
    /// 0 increment, 1 decrement, 2 fixed, 3 increment and reload.
    pub dst_control: u8,
    /// Addresses and count latched when the channel is enabled.
    pub src_latch: u32,
    pub dst_latch: u32,
    pub count_latch: u16,
}

/// The idle channel of power-on.
pub open spec fn dma_channel_reset(c: DmaChannel) -> bool {
    &&& c.src_addr == 0 && c.dst_addr == 0 && c.count == 0 && c.control == 0
    &&& !c.enabled && !c.active && !c.repeat && !c.word_size && !c.irq
    &&& c.timing == 0 && c.src_control == 0 && c.dst_control == 0
    &&& c.src_latch == 0 && c.dst_latch == 0 && c.count_latch == 0
}

impl DmaChannel {
    pub fn new() -> (c: Self)
        ensures
            dma_channel_reset(c),
    {
        DmaChannel {
            src_addr: 0,
            dst_addr: 0,
            count: 0,
            control: 0,
            enabled: false,
            active: false,
            repeat: false,
            word_size: false,
            timing: 0,
            irq: false,
            src_control: 0,
            dst_control: 0,
            src_latch: 0,
            dst_latch: 0,
            count_latch: 0,
        }
    }
}

/// The four DMA channels.
pub struct GbaDma {
    pub channels: [DmaChannel; 4],
}

/// A channel with its control fields decoded from its control register.
pub open spec fn decode_control(c: DmaChannel) -> DmaChannel {
    let ctrl = c.control;
    DmaChannel {
        dst_control: ((ctrl >> 5u16) & 3) as u8,
        src_control: ((ctrl >> 7u16) & 3) as u8,
        repeat: ctrl & 0x0200 != 0,
        word_size: ctrl & 0x0400 != 0,
        timing: ((ctrl >> 12u16) & 3) as u8,
        irq: ctrl & 0x4000 != 0,
        enabled: ctrl & 0x8000 != 0,
        ..c
    }
}

/// Replaces byte `k` (0 = lowest) of a word.
pub open spec fn set_byte32(w: u32, k: int, val: u8) -> u32 {
    if k == 0 {
        (w & 0xFFFF_FF00) | (val as u32)
    } else if k == 1 {
        (w & 0xFFFF_00FF) | ((val as u32) << 8u32)
    } else if k == 2 {
        (w & 0xFF00_FFFF) | ((val as u32) << 16u32)
    } else {
        (w & 0x00FF_FFFF) | ((val as u32) << 24u32)
    }
}

/// A channel after a write to byte `reg` of its twelve register bytes:
/// source, destination, count, control. Setting the enable bit of a stopped
/// channel latches its addresses and count, and an immediate channel starts.
pub open spec fn dma_write_channel(c: DmaChannel, reg: int, val: u8) -> DmaChannel {
    if reg < 4 {
        DmaChannel { src_addr: set_byte32(c.src_addr, reg, val), ..c }
    } else if reg < 8 {
        DmaChannel { dst_addr: set_byte32(c.dst_addr, reg - 4, val), ..c }
    } else if reg == 8 {
        DmaChannel { count: (c.count & 0xFF00) | (val as u16), ..c }
    } else if reg == 9 {
        DmaChannel { count: (c.count & 0x00FF) | ((val as u16) << 8u16), ..c }
    } else if reg == 10 {
        decode_control(DmaChannel { control: (c.control & 0xFF00) | (val as u16), ..c })
    } else {
        let c1 = decode_control(DmaChannel { control: (c.control & 0x00FF) | ((val as u16) << 8u16), ..c });
        if !c.enabled && c1.enabled {
            DmaChannel {
                src_latch: c1.src_addr,
                dst_latch: c1.dst_addr,
                count_latch: c1.count,
                active: if c1.timing == 0 {
                    true
                } else {
                    c1.active
                },
                ..c1
            }
        } else {
            c1
        }
    }
}

/// The channels after a write of `val` to DMA I/O byte `offset` (0xB0-0xDF).
pub open spec fn dma_write_spec(chs: Seq<DmaChannel>, offset: u32, val: u8) -> Seq<DmaChannel> {
    let ch = (offset - 0xB0) / 12;
    let reg = (offset - 0xB0) % 12;
    if ch >= 4 {
        chs
    } else {
        chs.update(ch, dma_write_channel(chs[ch], reg, val))
    }
}

/// What a read of DMA I/O byte `offset` returns: only the control register
/// is readable.
pub open spec fn dma_read_spec(chs: Seq<DmaChannel>, offset: u32) -> u8 {
    let ch = (offset - 0xB0) / 12;
    let reg = (offset - 0xB0) % 12;
    if ch >= 4 {
        0
    } else if reg == 10 {
        chs[ch].control as u8
    } else if reg == 11 {
        (chs[ch].control >> 8u16) as u8
    } else {
        0
    }
}

/// The channels after a blanking event: the enabled channels with the
/// given timing start.
pub open spec fn dma_trigger_spec(chs: Seq<DmaChannel>, timing: u8) -> Seq<DmaChannel> {
    Seq::new(
        chs.len(),
        |i: int|
            if chs[i].enabled && chs[i].timing == timing {
                DmaChannel { active: true, ..chs[i] }
            } else {
                chs[i]
            },
    )
}

/// Four channels at reset.
pub open spec fn gba_dma_at_reset(d: GbaDma) -> bool {
    &&& forall|i: int| 0 <= i < 4 ==> dma_channel_reset(#[trigger] d.channels[i])
}

impl GbaDma {
    pub fn new() -> (d: Self)
        ensures
            gba_dma_at_reset(d),
    {
        GbaDma { channels: [DmaChannel::new(), DmaChannel::new(), DmaChannel::new(), DmaChannel::new()] }
    }

    /// Reads DMA I/O byte `offset` (offsets from 0x0400_0000).
    pub fn read(&self, offset: u32) -> (v: u8)
        requires
            offset >= 0xB0,
        ensures
            v == dma_read_spec(self.channels@, offset),
    {
        let ch = ((offset - 0xB0) / 12) as usize;
        let reg = (offset - 0xB0) % 12;
        if ch >= 4 {
            return 0;
        }
        if reg == 10 {
            self.channels[ch].control as u8
        } else if reg == 11 {
            (self.channels[ch].control >> 8u16) as u8
        } else {
            // Addresses and count are write-only.
            0
        }
    }

    fn update_control(&mut self, ch: usize)
        requires
            ch < 4,
        ensures
            final(self).channels@ == old(self).channels@.update(ch as int, decode_control(old(self).channels[ch as int])),
    {
        let ctrl = self.channels[ch].control;
        self.channels[ch].dst_control = ((ctrl >> 5u16) & 3) as u8;
        self.channels[ch].src_control = ((ctrl >> 7u16) & 3) as u8;
        self.channels[ch].repeat = ctrl & 0x0200 != 0;
        self.channels[ch].word_size = ctrl & 0x0400 != 0;
        self.channels[ch].timing = ((ctrl >> 12u16) & 3) as u8;
        self.channels[ch].irq = ctrl & 0x4000 != 0;
        self.channels[ch].enabled = ctrl & 0x8000 != 0;
        assert(self.channels@ =~= old(self).channels@.update(ch as int, decode_control(old(self).channels[ch as int])));
    }

    /// Writes DMA I/O byte `offset`.
    pub fn write(&mut self, offset: u32, val: u8)
        requires
            offset >= 0xB0,
        ensures
            final(self).channels@ == dma_write_spec(old(self).channels@, offset, val),
    {
        let ch = ((offset - 0xB0) / 12) as usize;
        let reg = (offset - 0xB0) % 12;
        if ch >= 4 {
            return;
        }
        if reg == 0 {
            self.channels[ch].src_addr = (self.channels[ch].src_addr & 0xFFFF_FF00) | val as u32;
        } else if reg == 1 {
            self.channels[ch].src_addr = (self.channels[ch].src_addr & 0xFFFF_00FF) | ((val as u32) << 8u32);
        } else if reg == 2 {
            self.channels[ch].src_addr = (self.channels[ch].src_addr & 0xFF00_FFFF) | ((val as u32) << 16u32);
        } else if reg == 3 {
            self.channels[ch].src_addr = (self.channels[ch].src_addr & 0x00FF_FFFF) | ((val as u32) << 24u32);
        } else if reg == 4 {
            self.channels[ch].dst_addr = (self.channels[ch].dst_addr & 0xFFFF_FF00) | val as u32;
        } else if reg == 5 {
            self.channels[ch].dst_addr = (self.channels[ch].dst_addr & 0xFFFF_00FF) | ((val as u32) << 8u32);
        } else if reg == 6 {
            self.channels[ch].dst_addr = (self.channels[ch].dst_addr & 0xFF00_FFFF) | ((val as u32) << 16u32);
        } else if reg == 7 {
            self.channels[ch].dst_addr = (self.channels[ch].dst_addr & 0x00FF_FFFF) | ((val as u32) << 24u32);
        } else if reg == 8 {
            self.channels[ch].count = (self.channels[ch].count & 0xFF00) | val as u16;
        } else if reg == 9 {
            self.channels[ch].count = (self.channels[ch].count & 0x00FF) | ((val as u16) << 8u16);
        } else if reg == 10 {
            self.channels[ch].control = (self.channels[ch].control & 0xFF00) | val as u16;
            self.update_control(ch);
        } else {
            let old_enable = self.channels[ch].enabled;
            self.channels[ch].control = (self.channels[ch].control & 0x00FF) | ((val as u16) << 8u16);
            self.update_control(ch);
            // A channel switched on latches its registers; an immediate one starts.
            if !old_enable && self.channels[ch].enabled {
                self.channels[ch].src_latch = self.channels[ch].src_addr;
                self.channels[ch].dst_latch = self.channels[ch].dst_addr;
                self.channels[ch].count_latch = self.channels[ch].count;
                if self.channels[ch].timing == 0 {
                    self.channels[ch].active = true;
                }
            }
        }
        assert(self.channels@ =~= dma_write_spec(old(self).channels@, offset, val));
    }

    fn trigger(&mut self, timing: u8)
        ensures
            final(self).channels@ == dma_trigger_spec(old(self).channels@, timing),
    {
        let mut i: usize = 0;
        while i < 4
            invariant
                i <= 4,
                forall|j: int|
                    0 <= j < 4 ==> #[trigger] self.channels[j] == if j < i {
                        dma_trigger_spec(old(self).channels@, timing)[j]
                    } else {
                        old(self).channels[j]
                    },
            decreases 4 - i,
        {
            if self.channels[i].enabled && self.channels[i].timing == timing {
                self.channels[i].active = true;
            }
            i = i + 1;
        }
        assert(self.channels@ =~= dma_trigger_spec(old(self).channels@, timing));
    }

    /// V-blank: starts the enabled channels timed to it.
    pub fn notify_vblank(&mut self)
        ensures
            final(self).channels@ == dma_trigger_spec(old(self).channels@, 1),
    {
        self.trigger(1);
    }

    /// H-blank: starts the enabled channels timed to it.
    pub fn notify_hblank(&mut self)
        ensures
            final(self).channels@ == dma_trigger_spec(old(self).channels@, 2),
    {
        self.trigger(2);
    }
}

/// Setting the enable bit of a stopped channel latches the source,
/// destination and count written before it; the channel starts at once
/// exactly when its timing is immediate.
pub proof fn lemma_dma_enable_latches(chs: Seq<DmaChannel>, ch: int, val: u8)
    requires
        chs.len() == 4,
        0 <= ch < 4,
        !chs[ch].enabled,
        !chs[ch].active,
        val & 0x80 != 0,
    ensures
        ({
            let c = dma_write_spec(chs, (0xB0 + 12 * ch + 11) as u32, val)[ch];
            &&& c.enabled
            &&& c.src_latch == chs[ch].src_addr
            &&& c.dst_latch == chs[ch].dst_addr
            &&& c.count_latch == chs[ch].count
            &&& c.active == (c.timing == 0)
        }),
{
    let lo = chs[ch].control & 0x00FF;
    let v16 = val as u16;
    let ctrl = lo | (v16 << 8u16);
    assert(ctrl & 0x8000 != 0) by (bit_vector)
        requires
            ctrl == lo | (v16 << 8u16),
            v16 & 0x80 != 0,
            v16 < 256,
    ;
    assert((0xB0 + 12 * ch + 11 - 0xB0) / 12 == ch && (0xB0 + 12 * ch + 11 - 0xB0) % 12 == 11);
}

/// A blanking event starts a channel exactly when it is enabled with that
/// timing, and never stops one.
pub proof fn lemma_dma_trigger(chs: Seq<DmaChannel>, timing: u8, i: int)
    requires
        0 <= i < chs.len(),
    ensures
        dma_trigger_spec(chs, timing)[i].active == (chs[i].active || (chs[i].enabled && chs[i].timing == timing)),
{
}

} // verus!
