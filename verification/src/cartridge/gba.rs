use vstd::prelude::*;

use crate::cartridge::header_title;
use crate::cartridge::is_title;
use crate::cartridge::mbc::byte_or_ff;

verus! {

/// The save memory of a GBA cartridge.
#[derive(Debug, Clone, Copy, PartialEq, Eq, Structural)]
pub enum GbaBackupType {
    NoBackup,
    Sram,
    Flash64k,
    Flash128k,
    Eeprom,
}

/// The serial protocol state of a GBA EEPROM.
#[derive(Debug, Clone, Copy, PartialEq, Eq, Structural)]
pub enum EepromState {
    Idle,
    ReadingCommand,
    ReadingAddress,
    WritingData,
    WritingFinish,
    ReadReady,
    ReadingData,
}

/// The EEPROM request being received.
#[derive(Debug, Clone, Copy, PartialEq, Eq, Structural)]
pub enum EepromCommand {
    NoCommand,
    Read,
    Write,
}

/// The Seiko real-time clock behind the cartridge GPIO port.
#[derive(Debug, Clone, Copy)]
pub struct GbaRtc {
    pub bytes_remaining: i32,
    pub bits_read: u8,
    pub bits: u8,
    pub command_active: bool,
    pub sck_edge: bool,
    pub sio_output: bool,
    pub command: u8,
    pub control: u8,
    pub time: [u8; 7],
    pub offset_seconds: i64,
}

/// Control register bit selecting the 24-hour clock.
pub const RTC_CONTROL_24_HOUR: u8 = 0x40;

/// The clock at power-on: idle, 24-hour mode, all time bytes zero.
pub open spec fn rtc_reset_state(r: GbaRtc) -> bool {
    &&& r.bytes_remaining == 0 && r.bits_read == 0 && r.bits == 0
    &&& !r.command_active && r.sck_edge && r.sio_output
    &&& r.command == 0 && r.control == RTC_CONTROL_24_HOUR
    &&& r.time@ == seq![0u8; 7]
    &&& r.offset_seconds == 0
}

impl Default for GbaRtc {
    fn default() -> (r: Self)
        ensures
            rtc_reset_state(r),
    {
        let r = GbaRtc {
            bytes_remaining: 0,
            bits_read: 0,
            bits: 0,
            command_active: false,
            sck_edge: true,
            sio_output: true,
            command: 0,
            control: RTC_CONTROL_24_HOUR,
            time: [0;7],
            offset_seconds: 0,
        };
        assert(r.time@ =~= seq![0u8; 7]);
        r
    }
}

/// A Game Boy Advance cartridge with its save memory and GPIO clock.
pub struct GbaCartridge {
    pub rom: Vec<u8>,
    pub sram: Vec<u8>,
    pub flash: Vec<u8>,
    pub eeprom: Vec<u8>,
    pub backup_type: GbaBackupType,
    pub title: String,
    pub flash_bank: u8,
    pub flash_state: u8,
    pub flash_cmd_stage: u8,
    pub flash_id_mode: bool,
    pub eeprom_state: EepromState,
    pub eeprom_buffer: u64,
    pub eeprom_bits_written: u8,
    pub eeprom_address: u16,
    pub eeprom_bits_read: u8,
    pub eeprom_read_buffer: u64,
    /// Address width of EEPROM requests: 6 or 14 bits.
    pub eeprom_addr_len: u8,
    pub eeprom_command: EepromCommand,
    pub has_rtc: bool,
    pub gpio_read_write: bool,
    pub gpio_write_latch: u8,
    pub gpio_pin_state: u8,
    pub gpio_direction: u8,
    pub rtc: GbaRtc,
}

/// Flash chip state.
#[verifier::ext_equal]
pub struct FlashView {
    pub data: Seq<u8>,
    pub bank: u8,
    pub state: u8,
    pub cmd_stage: u8,
    pub id_mode: bool,
}

/// EEPROM chip state.
#[verifier::ext_equal]
pub struct EepromView {
    pub data: Seq<u8>,
    pub state: EepromState,
    pub buffer: u64,
    pub bits_written: u8,
    pub address: u16,
    pub bits_read: u8,
    pub read_buffer: u64,
    pub addr_len: u8,
    pub command: EepromCommand,
}

/// GPIO port and clock state.
#[verifier::ext_equal]
pub struct GpioView {
    pub read_write: bool,
    pub write_latch: u8,
    pub pin_state: u8,
    pub direction: u8,
    pub rtc: GbaRtc,
}

/// The whole cartridge.
#[verifier::ext_equal]
pub struct GbaCartView {
    pub rom: Seq<u8>,
    pub sram: Seq<u8>,
    pub backup_type: GbaBackupType,
    pub title: Seq<char>,
    pub has_rtc: bool,
    pub flash: FlashView,
    pub eeprom: EepromView,
    pub gpio: GpioView,
}

impl View for GbaCartridge {
    type V = GbaCartView;

    open spec fn view(&self) -> GbaCartView {
        GbaCartView {
            rom: self.rom@,
            sram: self.sram@,
            backup_type: self.backup_type,
            title: self.title@,
            has_rtc: self.has_rtc,
            flash: FlashView {
                data: self.flash@,
                bank: self.flash_bank,
                state: self.flash_state,
                cmd_stage: self.flash_cmd_stage,
                id_mode: self.flash_id_mode,
            },
            eeprom: EepromView {
                data: self.eeprom@,
                state: self.eeprom_state,
                buffer: self.eeprom_buffer,
                bits_written: self.eeprom_bits_written,
                address: self.eeprom_address,
                bits_read: self.eeprom_bits_read,
                read_buffer: self.eeprom_read_buffer,
                addr_len: self.eeprom_addr_len,
                command: self.eeprom_command,
            },
            gpio: GpioView {
                read_write: self.gpio_read_write,
                write_latch: self.gpio_write_latch,
                pin_state: self.gpio_pin_state,
                direction: self.gpio_direction,
                rtc: self.rtc,
            },
        }
    }
}

// ---------------------------------------------------------------------------
// Header scanning
// ---------------------------------------------------------------------------

/// Whether `needle` occurs in `hay` as a run of consecutive bytes.
pub open spec fn contains_bytes(hay: Seq<u8>, needle: Seq<u8>) -> bool {
    exists|i: int| 0 <= i && i + needle.len() <= hay.len() && #[trigger] hay.subrange(i, i + needle.len()) == needle
}

/// "SRAM_V"
pub open spec fn tag_sram() -> Seq<u8> {
    seq![0x53u8, 0x52, 0x41, 0x4D, 0x5F, 0x56]
}

/// "SRAM_F_V"
pub open spec fn tag_sram_f() -> Seq<u8> {
    seq![0x53u8, 0x52, 0x41, 0x4D, 0x5F, 0x46, 0x5F, 0x56]
}

/// "FLASH1M_V"
pub open spec fn tag_flash1m() -> Seq<u8> {
    seq![0x46u8, 0x4C, 0x41, 0x53, 0x48, 0x31, 0x4D, 0x5F, 0x56]
}

/// "FLASH_V"
pub open spec fn tag_flash() -> Seq<u8> {
    seq![0x46u8, 0x4C, 0x41, 0x53, 0x48, 0x5F, 0x56]
}

/// "FLASH512_V"
pub open spec fn tag_flash512() -> Seq<u8> {
    seq![0x46u8, 0x4C, 0x41, 0x53, 0x48, 0x35, 0x31, 0x32, 0x5F, 0x56]
}

/// "EEPROM_V"
pub open spec fn tag_eeprom() -> Seq<u8> {
    seq![0x45u8, 0x45, 0x50, 0x52, 0x4F, 0x4D, 0x5F, 0x56]
}

/// "RTC_V"
pub open spec fn tag_rtc() -> Seq<u8> {
    seq![0x52u8, 0x54, 0x43, 0x5F, 0x56]
}

/// "AA2E", the game code of a title whose EEPROM is 8 KiB whatever the
/// DMA lengths suggest.
pub open spec fn code_aa2e() -> Seq<u8> {
    seq![0x41u8, 0x41, 0x32, 0x45]
}

/// The save type that the library tag in a ROM names; SRAM when there is none.
pub open spec fn backup_type_of(rom: Seq<u8>) -> GbaBackupType {
    if contains_bytes(rom, tag_sram()) || contains_bytes(rom, tag_sram_f()) {
        GbaBackupType::Sram
    } else if contains_bytes(rom, tag_flash1m()) {
        GbaBackupType::Flash128k
    } else if contains_bytes(rom, tag_flash()) || contains_bytes(rom, tag_flash512()) {
        GbaBackupType::Flash64k
    } else if contains_bytes(rom, tag_eeprom()) {
        GbaBackupType::Eeprom
    } else {
        GbaBackupType::Sram
    }
}

/// The address width forced by the game code, if any.
pub open spec fn forced_addr_len(rom: Seq<u8>) -> Option<u8> {
    if rom.len() >= 0xB0 && rom.subrange(0xAC, 0xB0) == code_aa2e() {
        Some(14)
    } else {
        None
    }
}

/// Whether `hay[at..at + needle.len()]` is `needle`.
fn matches_at(hay: &[u8], at: usize, needle: &[u8]) -> (r: bool)
    requires
        at + needle@.len() <= hay@.len(),
    ensures
        r == (hay@.subrange(at as int, at + needle@.len()) == needle@),
{
    let hl = hay.len();
    let mut k: usize = 0;
    while k < needle.len()
        invariant
            k <= needle@.len(),
            at + needle@.len() <= hay@.len() == hl,
            forall|j: int| 0 <= j < k ==> hay@[at + j] == needle@[j],
        decreases needle.len() - k,
    {
        if hay[at + k] != needle[k] {
            assert(hay@.subrange(at as int, at + needle@.len())[k as int] != needle@[k as int]);
            return false;
        }
        k = k + 1;
    }
    assert(hay@.subrange(at as int, at + needle@.len()) =~= needle@);
    true
}

/// Whether `needle` occurs in `hay`.
pub fn find_bytes(hay: &[u8], needle: &[u8]) -> (r: bool)
    ensures
        r == contains_bytes(hay@, needle@),
{
    if needle.len() > hay.len() {
        return false;
    }
    let last = hay.len() - needle.len();
    let mut i: usize = 0;
    loop
        invariant
            i <= last,
            last == hay@.len() - needle@.len(),
            forall|j: int| 0 <= j < i ==> #[trigger] hay@.subrange(j, j + needle@.len()) != needle@,
        decreases last - i,
    {
        if matches_at(hay, i, needle) {
            return true;
        }
        if i == last {
            return false;
        }
        i = i + 1;
    }
}

fn detect_backup_type(rom: &[u8]) -> (t: GbaBackupType)
    ensures
        t == backup_type_of(rom@),
{
    let sram: [u8; 6] = [0x53, 0x52, 0x41, 0x4D, 0x5F, 0x56];
    let sram_f: [u8; 8] = [0x53, 0x52, 0x41, 0x4D, 0x5F, 0x46, 0x5F, 0x56];
    let flash1m: [u8; 9] = [0x46, 0x4C, 0x41, 0x53, 0x48, 0x31, 0x4D, 0x5F, 0x56];
    let flash: [u8; 7] = [0x46, 0x4C, 0x41, 0x53, 0x48, 0x5F, 0x56];
    let flash512: [u8; 10] = [0x46, 0x4C, 0x41, 0x53, 0x48, 0x35, 0x31, 0x32, 0x5F, 0x56];
    let eeprom: [u8; 8] = [0x45, 0x45, 0x50, 0x52, 0x4F, 0x4D, 0x5F, 0x56];
    assert(sram@ =~= tag_sram());
    assert(sram_f@ =~= tag_sram_f());
    assert(flash1m@ =~= tag_flash1m());
    assert(flash@ =~= tag_flash());
    assert(flash512@ =~= tag_flash512());
    assert(eeprom@ =~= tag_eeprom());
    if find_bytes(rom, sram.as_slice()) || find_bytes(rom, sram_f.as_slice()) {
        GbaBackupType::Sram
    } else if find_bytes(rom, flash1m.as_slice()) {
        GbaBackupType::Flash128k
    } else if find_bytes(rom, flash.as_slice()) || find_bytes(rom, flash512.as_slice()) {
        GbaBackupType::Flash64k
    } else if find_bytes(rom, eeprom.as_slice()) {
        GbaBackupType::Eeprom
    } else {
        GbaBackupType::Sram
    }
}

/// Sizes of the save memories allocated for each save type.
pub open spec fn sram_size_for(t: GbaBackupType) -> nat {
    match t {
        GbaBackupType::Sram | GbaBackupType::NoBackup => 0x8000,
        _ => 0,
    }
}

pub open spec fn flash_size_for(t: GbaBackupType) -> nat {
    match t {
        GbaBackupType::Flash64k => 0x10000,
        GbaBackupType::Flash128k => 0x20000,
        _ => 0,
    }
}

pub open spec fn eeprom_size_for(t: GbaBackupType) -> nat {
    match t {
        GbaBackupType::Eeprom => 0x2000,
        _ => 0,
    }
}

/// A memory of `n` erased (0xFF) bytes.
pub open spec fn erased(n: nat) -> Seq<u8> {
    Seq::new(n, |i: int| 0xFFu8)
}

fn erased_vec(n: usize) -> (v: Vec<u8>)
    ensures
        v@ == erased(n as nat),
{
    let v = vec![0xFFu8; n];
    assert(v@ =~= erased(n as nat));
    v
}

impl GbaCartridge {
    /// Reads a GBA ROM image: its title, save type and whether it has a
    /// clock; the save memory starts erased.
    pub fn load(data: Vec<u8>) -> (cart: Self)
        requires
            data.len() >= 0xAC,
        ensures
            cart@.rom == data@,
            is_title(cart@.title, data@.subrange(0xA0, 0xAC)),
            cart@.backup_type == backup_type_of(data@),
            cart@.has_rtc == contains_bytes(data@, tag_rtc()),
            cart@.sram == erased(sram_size_for(cart@.backup_type)),
            cart@.flash == (FlashView {
                data: erased(flash_size_for(cart@.backup_type)),
                bank: 0,
                state: 0,
                cmd_stage: 0,
                id_mode: false,
            }),
            cart@.eeprom == (EepromView {
                data: erased(eeprom_size_for(cart@.backup_type)),
                state: EepromState::Idle,
                buffer: 0,
                bits_written: 0,
                address: 0,
                bits_read: 0,
                read_buffer: 0,
                addr_len: 6,
                command: EepromCommand::NoCommand,
            }),
            !cart@.gpio.read_write && cart@.gpio.write_latch == 0 && cart@.gpio.pin_state == 0
                && cart@.gpio.direction == 0,
            rtc_reset_state(cart@.gpio.rtc),
            crate::cartridge::rtc::rtc_wf(cart.rtc),
    {
        let title = header_title(&data[0xA0..0xAC]);
        let backup_type = detect_backup_type(data.as_slice());
        let rtc_tag: [u8; 5] = [0x52, 0x54, 0x43, 0x5F, 0x56];
        assert(rtc_tag@ =~= tag_rtc());
        let has_rtc = find_bytes(data.as_slice(), rtc_tag.as_slice());
        let (sram, flash, eeprom) = match backup_type {
            GbaBackupType::Sram | GbaBackupType::NoBackup => (erased_vec(0x8000), Vec::new(), Vec::new()),
            GbaBackupType::Flash64k => (Vec::new(), erased_vec(0x10000), Vec::new()),
            GbaBackupType::Flash128k => (Vec::new(), erased_vec(0x20000), Vec::new()),
            GbaBackupType::Eeprom => (Vec::new(), Vec::new(), erased_vec(0x2000)),
        };
        assert(sram@ =~= erased(sram_size_for(backup_type)));
        assert(flash@ =~= erased(flash_size_for(backup_type)));
        assert(eeprom@ =~= erased(eeprom_size_for(backup_type)));
        GbaCartridge {
            rom: data,
            sram,
            flash,
            eeprom,
            backup_type,
            title,
            flash_bank: 0,
            flash_state: 0,
            flash_cmd_stage: 0,
            flash_id_mode: false,
            eeprom_state: EepromState::Idle,
            eeprom_buffer: 0,
            eeprom_bits_written: 0,
            eeprom_address: 0,
            eeprom_bits_read: 0,
            eeprom_read_buffer: 0,
            // The real size is learned from DMA transfer lengths.
            eeprom_addr_len: 6,
            eeprom_command: EepromCommand::NoCommand,
            has_rtc,
            gpio_read_write: false,
            gpio_write_latch: 0,
            gpio_pin_state: 0,
            gpio_direction: 0,
            rtc: GbaRtc::default(),
        }
    }

    /// The EEPROM address width that the game code forces, if any.
    pub fn forced_eeprom_addr_len(&self) -> (r: Option<u8>)
        ensures
            r == forced_addr_len(self@.rom),
    {
        let code: [u8; 4] = [0x41, 0x41, 0x32, 0x45];
        assert(code@ =~= code_aa2e());
        if self.rom.len() >= 0xB0 && matches_at(self.rom.as_slice(), 0xAC, code.as_slice()) {
            Some(14)
        } else {
            None
        }
    }

    /// Learns the EEPROM address width from the length of a DMA transfer to
    /// it (9 or 73 halfwords for 6 bits, 17 or 81 for 14), unless the game
    /// code forces it.
    pub fn notify_eeprom_dma(&mut self, transfer_count: u32)
        ensures
            final(self)@ == (GbaCartView {
                eeprom: EepromView {
                    addr_len: eeprom_addr_len_after_dma(old(self)@, transfer_count),
                    ..old(self)@.eeprom
                },
                ..old(self)@
            }),
    {
        if self.backup_type != GbaBackupType::Eeprom {
            return;
        }
        if let Some(addr_len) = self.forced_eeprom_addr_len() {
            self.eeprom_addr_len = addr_len;
            return;
        }
        if transfer_count == 9 || transfer_count == 73 {
            self.eeprom_addr_len = 6;
        } else if transfer_count == 17 || transfer_count == 81 {
            self.eeprom_addr_len = 14;
        }
    }

    /// The EEPROM size in bytes: 8 KiB for 14-bit addresses, else 512.
    pub fn eeprom_size(&self) -> (n: usize)
        ensures
            n == eeprom_bytes(self@),
    {
        let len = match self.forced_eeprom_addr_len() {
            Some(l) => l,
            None => self.eeprom_addr_len,
        };
        if len == 14 {
            0x2000
        } else {
            0x200
        }
    }
}

/// The address width after a DMA transfer of `count` halfwords to the EEPROM.
pub open spec fn eeprom_addr_len_after_dma(c: GbaCartView, count: u32) -> u8 {
    if c.backup_type != GbaBackupType::Eeprom {
        c.eeprom.addr_len
    } else if forced_addr_len(c.rom) is Some {
        forced_addr_len(c.rom)->0
    } else if count == 9 || count == 73 {
        6
    } else if count == 17 || count == 81 {
        14
    } else {
        c.eeprom.addr_len
    }
}

/// The EEPROM size in bytes that the address width gives.
pub open spec fn eeprom_bytes(c: GbaCartView) -> usize {
    let len = match forced_addr_len(c.rom) {
        Some(l) => l,
        None => c.eeprom.addr_len,
    };
    if len == 14 {
        0x2000
    } else {
        0x200
    }
}


// ---------------------------------------------------------------------------
// SRAM and flash
// ---------------------------------------------------------------------------

/// `data` with the bytes in `start..end` set to 0xFF.
pub open spec fn erase_range(data: Seq<u8>, start: int, end: int) -> Seq<u8> {
    Seq::new(data.len(), |i: int| if start <= i < end { 0xFFu8 } else { data[i] })
}

/// What a read of the save area at `addr` returns.
pub open spec fn read_sram_spec(c: GbaCartView, addr: u32) -> u8 {
    match c.backup_type {
        GbaBackupType::Sram => byte_or_ff(c.sram, (addr & 0x7FFF) as int),
        GbaBackupType::Flash64k | GbaBackupType::Flash128k => {
            let offset = (addr & 0xFFFF) as int;
            if c.flash.id_mode {
                if offset == 0 {
                    0x62
                } else if offset == 1 {
                    if c.backup_type == GbaBackupType::Flash128k {
                        0x13
                    } else {
                        0x09
                    }
                } else {
                    0xFF
                }
            } else {
                byte_or_ff(c.flash.data, (c.flash.bank as int) * 0x10000 + offset)
            }
        },
        _ => 0xFF,
    }
}

/// The flash chip after a write of `val` at `offset` in its 64 KiB window:
/// the command sequence AA@5555, 55@2AAA, then a command byte; a byte
/// program, sector erase, chip erase or bank switch follows its command.
pub open spec fn flash_write_spec(f: FlashView, offset: int, val: u8) -> FlashView {
    if offset == 0x5555 && f.cmd_stage == 0 && val == 0xAA {
        FlashView { cmd_stage: 1, ..f }
    } else if offset == 0x2AAA && f.cmd_stage == 1 && val == 0x55 {
        FlashView { cmd_stage: 2, ..f }
    } else if f.cmd_stage == 2 {
        let f1 = FlashView { cmd_stage: 0, ..f };
        if offset == 0x5555 {
            if val == 0x90 {
                FlashView { id_mode: true, ..f1 }
            } else if val == 0xF0 {
                FlashView { id_mode: false, ..f1 }
            } else if val == 0x80 {
                FlashView { state: 1, ..f1 }
            } else if val == 0x10 && f.state == 1 {
                FlashView { data: erase_range(f.data, 0, f.data.len() as int), state: 0, ..f1 }
            } else if val == 0xA0 {
                FlashView { state: 2, ..f1 }
            } else if val == 0xB0 {
                FlashView { state: 3, ..f1 }
            } else {
                FlashView { state: 0, ..f1 }
            }
        } else if f.state == 1 && val == 0x30 {
            let start = (f.bank as int) * 0x10000 + (offset / 0x1000) * 0x1000;
            let end = if start + 0x1000 < f.data.len() {
                start + 0x1000
            } else {
                f.data.len() as int
            };
            FlashView {
                data: if start < f.data.len() {
                    erase_range(f.data, start, end)
                } else {
                    f.data
                },
                state: 0,
                ..f1
            }
        } else {
            f1
        }
    } else if f.state == 2 {
        let at = (f.bank as int) * 0x10000 + offset;
        FlashView {
            data: if at < f.data.len() {
                f.data.update(at, val)
            } else {
                f.data
            },
            state: 0,
            ..f
        }
    } else if f.state == 3 && offset == 0 {
        FlashView { bank: val & 1, state: 0, ..f }
    } else {
        f
    }
}

/// The cartridge after a write of `val` to the save area at `addr`.
pub open spec fn write_sram_spec(c: GbaCartView, addr: u32, val: u8) -> GbaCartView {
    match c.backup_type {
        GbaBackupType::Sram => {
            let offset = (addr & 0x7FFF) as int;
            GbaCartView {
                sram: if offset < c.sram.len() {
                    c.sram.update(offset, val)
                } else {
                    c.sram
                },
                ..c
            }
        },
        GbaBackupType::Flash64k | GbaBackupType::Flash128k => GbaCartView {
            flash: flash_write_spec(c.flash, (addr & 0xFFFF) as int, val),
            ..c
        },
        _ => c,
    }
}

fn fill_ff(data: &mut Vec<u8>, start: usize, end: usize)
    requires
        start <= end <= old(data)@.len(),
    ensures
        final(data)@ == erase_range(old(data)@, start as int, end as int),
{
    let mut i = start;
    while i < end
        invariant
            start <= i <= end <= data@.len(),
            data@.len() == old(data)@.len(),
            forall|j: int|
                0 <= j < data@.len() ==> #[trigger] data@[j] == if start <= j < i {
                    0xFFu8
                } else {
                    old(data)@[j]
                },
        decreases end - i,
    {
        data.set(i, 0xFF);
        i = i + 1;
    }
    assert(data@ =~= erase_range(old(data)@, start as int, end as int));
}

impl GbaCartridge {
    /// Reads the save area (SRAM, or flash with its ID mode) at `addr`.
    pub fn read_sram(&self, addr: u32) -> (b: u8)
        ensures
            b == read_sram_spec(self@, addr),
    {
        match self.backup_type {
            GbaBackupType::Sram => {
                let offset = (addr & 0x7FFF) as usize;
                if offset < self.sram.len() {
                    self.sram[offset]
                } else {
                    0xFF
                }
            },
            GbaBackupType::Flash64k | GbaBackupType::Flash128k => {
                assert(addr & 0xFFFF <= 0xFFFF) by {
                    crate::bits::lemma_and_le_u32(addr, 0xFFFF);
                }
                let offset = (addr & 0xFFFF) as usize;
                if self.flash_id_mode {
                    if offset == 0 {
                        // Macronix
                        0x62
                    } else if offset == 1 {
                        if self.backup_type == GbaBackupType::Flash128k {
                            0x13
                        } else {
                            0x09
                        }
                    } else {
                        0xFF
                    }
                } else {
                    let at = (self.flash_bank as usize) * 0x10000 + offset;
                    if at < self.flash.len() {
                        self.flash[at]
                    } else {
                        0xFF
                    }
                }
            },
            _ => 0xFF,
        }
    }

    /// Writes `val` to the save area at `addr`.
    pub fn write_sram(&mut self, addr: u32, val: u8)
        ensures
            final(self)@ == write_sram_spec(old(self)@, addr, val),
    {
        match self.backup_type {
            GbaBackupType::Sram => {
                let offset = (addr & 0x7FFF) as usize;
                if offset < self.sram.len() {
                    self.sram.set(offset, val);
                }
            },
            GbaBackupType::Flash64k | GbaBackupType::Flash128k => {
                assert(addr & 0xFFFF <= 0xFFFF) by {
                    crate::bits::lemma_and_le_u32(addr, 0xFFFF);
                }
                let offset = (addr & 0xFFFF) as usize;
                self.handle_flash_write(offset, val);
            },
            _ => {},
        }
    }

    fn handle_flash_write(&mut self, offset: usize, val: u8)
        requires
            offset <= 0xFFFF,
        ensures
            final(self)@ == (GbaCartView {
                flash: flash_write_spec(old(self)@.flash, offset as int, val),
                ..old(self)@
            }),
    {
        if offset == 0x5555 && self.flash_cmd_stage == 0 && val == 0xAA {
            self.flash_cmd_stage = 1;
            return;
        }
        if offset == 0x2AAA && self.flash_cmd_stage == 1 && val == 0x55 {
            self.flash_cmd_stage = 2;
            return;
        }
        if self.flash_cmd_stage == 2 {
            self.flash_cmd_stage = 0;
            if offset == 0x5555 {
                if val == 0x90 {
                    self.flash_id_mode = true;
                } else if val == 0xF0 {
                    self.flash_id_mode = false;
                } else if val == 0x80 {
                    self.flash_state = 1;
                } else if val == 0x10 && self.flash_state == 1 {
                    let n = self.flash.len();
                    fill_ff(&mut self.flash, 0, n);
                    self.flash_state = 0;
                } else if val == 0xA0 {
                    self.flash_state = 2;
                } else if val == 0xB0 {
                    self.flash_state = 3;
                } else {
                    self.flash_state = 0;
                }
            } else if self.flash_state == 1 && val == 0x30 {
                // Sector erase
                let sector = offset / 0x1000;
                let start = (self.flash_bank as usize) * 0x10000 + sector * 0x1000;
                let end = if start + 0x1000 < self.flash.len() {
                    start + 0x1000
                } else {
                    self.flash.len()
                };
                if start < self.flash.len() {
                    fill_ff(&mut self.flash, start, end);
                }
                self.flash_state = 0;
            }
            return;
        }
        if self.flash_state == 2 {
            let at = (self.flash_bank as usize) * 0x10000 + offset;
            if at < self.flash.len() {
                self.flash.set(at, val);
            }
            self.flash_state = 0;
            return;
        }
        if self.flash_state == 3 && offset == 0 {
            self.flash_bank = val & 1;
            self.flash_state = 0;
        }
    }
}


// ---------------------------------------------------------------------------
// EEPROM serial protocol
// ---------------------------------------------------------------------------

/// Byte `i` (0 = most significant) of the word `w`.
pub open spec fn word_byte(w: u64, i: int) -> u8 {
    ((w >> ((56 - 8 * i) as u64)) & 0xFF) as u8
}

/// The 64-bit word stored big-endian at `base` (0xFF past the end).
pub open spec fn eeprom_word(data: Seq<u8>, base: int) -> u64 {
    ((byte_or_ff(data, base) as u64) << 56u64) | ((byte_or_ff(data, base + 1) as u64) << 48u64) | ((
    byte_or_ff(data, base + 2) as u64) << 40u64) | ((byte_or_ff(data, base + 3) as u64) << 32u64) | ((
    byte_or_ff(data, base + 4) as u64) << 24u64) | ((byte_or_ff(data, base + 5) as u64) << 16u64) | ((
    byte_or_ff(data, base + 6) as u64) << 8u64) | (byte_or_ff(data, base + 7) as u64)
}

/// `data` with the word `w` stored big-endian at `base` (bytes past the end dropped).
pub open spec fn store_word(data: Seq<u8>, base: int, w: u64) -> Seq<u8> {
    Seq::new(
        data.len(),
        |j: int|
            if base <= j < base + 8 {
                word_byte(w, j - base)
            } else {
                data[j]
            },
    )
}

/// The EEPROM after the bit `val & 1` is written to it: a request is the
/// bits 11 (read) or 10 (write), an address of `addr_len` bits, then for a
/// write 64 data bits, and a final bit (0 for a read).
pub open spec fn eeprom_write_spec(e: EepromView, val: u8) -> EepromView {
    let bit = (val & 1) as u64;
    match e.state {
        EepromState::Idle => EepromView {
            buffer: bit,
            bits_written: 1,
            command: EepromCommand::NoCommand,
            state: EepromState::ReadingCommand,
            ..e
        },
        EepromState::ReadingCommand => {
            let buf = (e.buffer << 1u64) | bit;
            let bw = (e.bits_written + 1) as u8;
            if bw == 2 {
                let e1 = EepromView { buffer: 0, bits_written: 0, address: 0, ..e };
                if buf & 3 == 3 {
                    EepromView { command: EepromCommand::Read, state: EepromState::ReadingAddress, ..e1 }
                } else if buf & 3 == 2 {
                    EepromView { command: EepromCommand::Write, state: EepromState::ReadingAddress, ..e1 }
                } else {
                    EepromView { command: EepromCommand::NoCommand, state: EepromState::Idle, ..e1 }
                }
            } else {
                EepromView { buffer: buf, bits_written: bw, ..e }
            }
        },
        EepromState::ReadingAddress => {
            let addr = (e.address << 1u16) | (bit as u16);
            let bw = (e.bits_written + 1) as u8;
            if bw >= e.addr_len {
                let e1 = EepromView { address: addr, bits_written: 0, ..e };
                match e.command {
                    EepromCommand::Read => EepromView { state: EepromState::ReadReady, ..e1 },
                    EepromCommand::Write => EepromView { buffer: 0, state: EepromState::WritingData, ..e1 },
                    EepromCommand::NoCommand => EepromView { state: EepromState::Idle, ..e1 },
                }
            } else {
                EepromView { address: addr, bits_written: bw, ..e }
            }
        },
        EepromState::ReadReady => {
            if bit == 0 {
                EepromView {
                    read_buffer: eeprom_word(e.data, (e.address as int) * 8),
                    bits_read: 0,
                    state: EepromState::ReadingData,
                    ..e
                }
            } else {
                e
            }
        },
        EepromState::WritingData => {
            let buf = (e.buffer << 1u64) | bit;
            let bw = (e.bits_written + 1) as u8;
            if bw >= 64 {
                EepromView {
                    data: store_word(e.data, (e.address as int) * 8, buf),
                    buffer: buf,
                    bits_written: bw,
                    state: EepromState::WritingFinish,
                    ..e
                }
            } else {
                EepromView { buffer: buf, bits_written: bw, ..e }
            }
        },
        EepromState::WritingFinish | EepromState::ReadingData => EepromView {
            state: EepromState::Idle,
            command: EepromCommand::NoCommand,
            ..e
        },
    }
}

/// The bit-counter overflow that the protocol does not define.
pub open spec fn eeprom_write_defined(e: EepromView) -> bool {
    !((e.state == EepromState::ReadingCommand || e.state == EepromState::ReadingAddress || e.state
        == EepromState::WritingData) && e.bits_written == 255)
}

/// The bit a read of the EEPROM returns: while data is being read, four
/// zero bits then the 64 data bits, most significant first; 1 otherwise.
pub open spec fn eeprom_read_spec(e: EepromView) -> u8 {
    if e.state == EepromState::ReadingData {
        if e.bits_read < 4 {
            0
        } else {
            let data_bit = e.bits_read - 4;
            let idx: u64 = if data_bit > 63 {
                0
            } else {
                (63 - data_bit) as u64
            };
            ((e.read_buffer >> idx) & 1) as u8
        }
    } else {
        1
    }
}

/// The EEPROM after a read bit was taken: after 68 bits it is idle again.
pub open spec fn eeprom_advance_spec(e: EepromView) -> EepromView {
    if e.state == EepromState::ReadingData {
        let br = (e.bits_read + 1) as u8;
        if br >= 68 {
            EepromView { bits_read: br, state: EepromState::Idle, command: EepromCommand::NoCommand, ..e }
        } else {
            EepromView { bits_read: br, ..e }
        }
    } else {
        e
    }
}

impl GbaCartridge {
    fn eeprom_byte(&self, at: usize) -> (b: u8)
        ensures
            b == byte_or_ff(self.eeprom@, at as int),
    {
        if at < self.eeprom.len() {
            self.eeprom[at]
        } else {
            0xFF
        }
    }

    fn load_eeprom_word(&self, base: usize) -> (w: u64)
        requires
            base <= 0x8_0000,
        ensures
            w == eeprom_word(self.eeprom@, base as int),
    {
        let b0 = self.eeprom_byte(base) as u64;
        let b1 = self.eeprom_byte(base + 1) as u64;
        let b2 = self.eeprom_byte(base + 2) as u64;
        let b3 = self.eeprom_byte(base + 3) as u64;
        let b4 = self.eeprom_byte(base + 4) as u64;
        let b5 = self.eeprom_byte(base + 5) as u64;
        let b6 = self.eeprom_byte(base + 6) as u64;
        let b7 = self.eeprom_byte(base + 7) as u64;
        (b0 << 56u64) | (b1 << 48u64) | (b2 << 40u64) | (b3 << 32u64) | (b4 << 24u64) | (b5 << 16u64) | (b6
            << 8u64) | b7
    }

    fn store_eeprom_word(&mut self, base: usize, w: u64)
        requires
            base <= 0x8_0000,
        ensures
            final(self)@ == (GbaCartView {
                eeprom: EepromView { data: store_word(old(self)@.eeprom.data, base as int, w), ..old(self)@.eeprom },
                ..old(self)@
            }),
    {
        let ghost d0 = self.eeprom@;
        let mut i: u64 = 0;
        while i < 8
            invariant
                i <= 8,
                base <= 0x8_0000,
                self.eeprom@.len() == d0.len(),
                self@ == (GbaCartView {
                    eeprom: EepromView { data: self.eeprom@, ..old(self)@.eeprom },
                    ..old(self)@
                }),
                d0 == old(self)@.eeprom.data,
                forall|j: int|
                    0 <= j < d0.len() ==> #[trigger] self.eeprom@[j] == if base <= j < base + i {
                        word_byte(w, j - base)
                    } else {
                        d0[j]
                    },
            decreases 8 - i,
        {
            let b = ((w >> (56 - i * 8)) & 0xFF) as u8;
            let at = base + i as usize;
            if at < self.eeprom.len() {
                self.eeprom.set(at, b);
            }
            i = i + 1;
        }
        assert(self.eeprom@ =~= store_word(d0, base as int, w));
    }

    /// The bit that a read of the EEPROM returns.
    pub fn eeprom_read(&self) -> (b: u8)
        ensures
            b == eeprom_read_spec(self@.eeprom),
    {
        if self.eeprom_state == EepromState::ReadingData {
            if self.eeprom_bits_read < 4 {
                // The first four bits carry no data.
                0
            } else {
                let data_bit = self.eeprom_bits_read - 4;
                let idx = 63u8.saturating_sub(data_bit);
                ((self.eeprom_read_buffer >> idx) & 1) as u8
            }
        } else {
            // Ready
            1
        }
    }

    /// Moves to the next bit of a read.
    pub fn eeprom_read_advance(&mut self)
        requires
            !(old(self).eeprom_state == EepromState::ReadingData && old(self).eeprom_bits_read == 255),
        ensures
            final(self)@ == (GbaCartView { eeprom: eeprom_advance_spec(old(self)@.eeprom), ..old(self)@ }),
    {
        if self.eeprom_state == EepromState::ReadingData {
            self.eeprom_bits_read = self.eeprom_bits_read + 1;
            if self.eeprom_bits_read >= 68 {
                self.eeprom_state = EepromState::Idle;
                self.eeprom_command = EepromCommand::NoCommand;
            }
        }
    }

    /// Writes one bit (`val & 1`) of a request to the EEPROM.
    pub fn eeprom_write(&mut self, val: u8)
        requires
            eeprom_write_defined(old(self)@.eeprom),
        ensures
            final(self)@ == (GbaCartView { eeprom: eeprom_write_spec(old(self)@.eeprom, val), ..old(self)@ }),
    {
        let bit = val & 1;
        match self.eeprom_state {
            EepromState::Idle => {
                self.eeprom_buffer = bit as u64;
                self.eeprom_bits_written = 1;
                self.eeprom_command = EepromCommand::NoCommand;
                self.eeprom_state = EepromState::ReadingCommand;
            },
            EepromState::ReadingCommand => {
                self.eeprom_buffer = (self.eeprom_buffer << 1u64) | bit as u64;
                self.eeprom_bits_written = self.eeprom_bits_written + 1;
                if self.eeprom_bits_written == 2 {
                    let cmd = self.eeprom_buffer & 3;
                    self.eeprom_buffer = 0;
                    self.eeprom_bits_written = 0;
                    self.eeprom_address = 0;
                    if cmd == 3 {
                        self.eeprom_command = EepromCommand::Read;
                        self.eeprom_state = EepromState::ReadingAddress;
                    } else if cmd == 2 {
                        self.eeprom_command = EepromCommand::Write;
                        self.eeprom_state = EepromState::ReadingAddress;
                    } else {
                        self.eeprom_command = EepromCommand::NoCommand;
                        self.eeprom_state = EepromState::Idle;
                    }
                }
            },
            EepromState::ReadingAddress => {
                self.eeprom_address = (self.eeprom_address << 1u16) | bit as u16;
                self.eeprom_bits_written = self.eeprom_bits_written + 1;
                if self.eeprom_bits_written >= self.eeprom_addr_len {
                    self.eeprom_bits_written = 0;
                    match self.eeprom_command {
                        EepromCommand::Read => {
                            self.eeprom_state = EepromState::ReadReady;
                        },
                        EepromCommand::Write => {
                            self.eeprom_buffer = 0;
                            self.eeprom_state = EepromState::WritingData;
                        },
                        EepromCommand::NoCommand => {
                            self.eeprom_state = EepromState::Idle;
                        },
                    }
                }
            },
            EepromState::ReadReady => {
                // A 0 bit ends the read request.
                if bit == 0 {
                    let base = (self.eeprom_address as usize) * 8;
                    self.eeprom_read_buffer = self.load_eeprom_word(base);
                    self.eeprom_bits_read = 0;
                    self.eeprom_state = EepromState::ReadingData;
                }
            },
            EepromState::WritingData => {
                self.eeprom_buffer = (self.eeprom_buffer << 1u64) | bit as u64;
                self.eeprom_bits_written = self.eeprom_bits_written + 1;
                if self.eeprom_bits_written >= 64 {
                    let base = (self.eeprom_address as usize) * 8;
                    let w = self.eeprom_buffer;
                    self.store_eeprom_word(base, w);
                    self.eeprom_state = EepromState::WritingFinish;
                }
            },
            EepromState::WritingFinish | EepromState::ReadingData => {
                self.eeprom_state = EepromState::Idle;
                self.eeprom_command = EepromCommand::NoCommand;
            },
        }
    }
}


/// A byte programmed into flash (the command sequence AA, 55, A0 at
/// 5555/2AAA/5555, then the byte) is what a later read of its address
/// returns, in either bank. The program write must not itself look like the
/// start of a new command (AA at offset 5555).
pub proof fn lemma_flash_program_then_read(c: GbaCartView, addr: u32, val: u8)
    requires
        c.backup_type == GbaBackupType::Flash64k || c.backup_type == GbaBackupType::Flash128k,
        c.flash.cmd_stage == 0,
        c.flash.state == 0,
        !c.flash.id_mode,
        (c.flash.bank as int) * 0x10000 + ((addr & 0xFFFF) as int) < c.flash.data.len(),
        !((addr & 0xFFFF) == 0x5555 && val == 0xAA),
    ensures
        read_sram_spec(
            write_sram_spec(
                write_sram_spec(write_sram_spec(write_sram_spec(c, 0x0E00_5555, 0xAA), 0x0E00_2AAA, 0x55), 0x0E00_5555, 0xA0),
                addr,
                val,
            ),
            addr,
        ) == val,
{
    assert(0x0E00_5555u32 & 0xFFFF == 0x5555 && 0x0E00_2AAAu32 & 0xFFFF == 0x2AAA) by (bit_vector);
}

} // verus!
