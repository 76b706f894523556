use vstd::prelude::*;

use crate::cartridge::clock::clock_valid;
use crate::cartridge::clock::read_clock;
use crate::cartridge::clock::ClockReading;
use crate::cartridge::gba::GbaCartView;
use crate::cartridge::gba::GbaCartridge;
use crate::cartridge::gba::GbaRtc;
use crate::cartridge::gba::GpioView;
use crate::cartridge::gba::RTC_CONTROL_24_HOUR;

verus! {

/// GPIO registers, as offsets in the ROM address space.
pub const GPIO_REG_DATA: u32 = 0xC4;
pub const GPIO_REG_DIRECTION: u32 = 0xC6;
pub const GPIO_REG_CONTROL: u32 = 0xC8;

/// Clock pins on the GPIO data register.
pub const RTC_PIN_SCK: u8 = 0x01;
pub const RTC_PIN_SIO: u8 = 0x02;
pub const RTC_PIN_CS: u8 = 0x04;

/// The low nibble that marks a byte as a clock command.
pub const RTC_COMMAND_MAGIC: u8 = 0x06;

/// The number of data bytes of each of the eight clock commands.
pub open spec fn rtc_bytes(index: int) -> i32 {
    if index == 2 {
        7
    } else if index == 4 {
        1
    } else if index == 6 {
        3
    } else {
        0
    }
}

/// The command number (bits 4-6) of a command byte.
pub open spec fn command_index(command: u8) -> int {
    ((command >> 4u8) & 0x07) as int
}

/// Whether a command reads from the clock (bit 7).
pub open spec fn command_reads(command: u8) -> bool {
    command & 0x80 != 0
}

/// The clock state that the protocol keeps: a bit position within the
/// current byte, and a byte count that stays in range (at least one while a
/// time is being read out).
pub open spec fn rtc_wf(r: GbaRtc) -> bool {
    &&& r.bits_read < 8
    &&& 0 <= r.bytes_remaining <= 7
    &&& r.command_active && command_reads(r.command) && (command_index(r.command) == 2 || command_index(
        r.command,
    ) == 6) ==> r.bytes_remaining >= 1
}

/// The register at ROM address `addr`, if it is one of the GPIO registers.
pub open spec fn gpio_register_of(addr: u32) -> Option<u32> {
    let r = (addr & 0x01FF_FFFF) & !1u32;
    if r == GPIO_REG_DATA || r == GPIO_REG_DIRECTION || r == GPIO_REG_CONTROL {
        Some(r)
    } else {
        None
    }
}

/// The value a GPIO register reads as.
pub open spec fn gpio_read_spec(g: GpioView, reg: u32) -> u16 {
    if reg == GPIO_REG_DATA {
        g.pin_state as u16
    } else if reg == GPIO_REG_DIRECTION {
        g.direction as u16
    } else if reg == GPIO_REG_CONTROL {
        if g.read_write {
            1
        } else {
            0
        }
    } else {
        0
    }
}

/// What a read of cartridge address `addr` returns: a GPIO register byte
/// when the port is readable, the ROM byte, or past the end of the ROM the
/// open-bus value (address / 2).
pub open spec fn read_rom_spec(c: GbaCartView, addr: u32) -> u8 {
    let offset = (addr & 0x01FF_FFFF) as int;
    if c.has_rtc && c.gpio.read_write && gpio_register_of(addr) is Some {
        let value = gpio_read_spec(c.gpio, gpio_register_of(addr)->0);
        if addr & 1 == 0 {
            value as u8
        } else {
            (value >> 8u16) as u8
        }
    } else if offset < c.rom.len() {
        c.rom[offset]
    } else {
        ((addr & 0x01FF_FFFF) >> 1u32) as u8
    }
}

/// Binary-coded decimal of `v` (tens in the high nibble).
pub open spec fn bcd(v: u8) -> u8 {
    (((v / 10) as u8) << 4u8) | ((v % 10) as u8)
}

/// The year of a reading as the clock's two digits: years since 2000, 0 to 99.
pub open spec fn year_digits(year: i32) -> u8 {
    if year <= 2000 {
        0
    } else if year - 2000 >= 99 {
        99
    } else {
        (year - 2000) as u8
    }
}

/// The clock with its time registers set from a reading (hours 0-11 in
/// 12-hour mode).
pub open spec fn set_clock_spec(r: GbaRtc, now: ClockReading) -> GbaRtc {
    let hour = if r.control & RTC_CONTROL_24_HOUR != 0 {
        now.hour
    } else {
        (now.hour % 12) as u8
    };
    GbaRtc {
        time: [
            bcd(year_digits(now.year)),
            bcd(now.month),
            bcd(now.day),
            bcd(now.weekday),
            bcd(hour),
            bcd(now.minute),
            bcd(now.second),
        ],
        ..r
    }
}

/// The port with the clock driving `pins` on the lines set as inputs.
pub open spec fn output_pins(g: GpioView, pins: u8) -> GpioView {
    GpioView { pin_state: (g.pin_state & g.direction) | (pins & !g.direction & 0x0F), ..g }
}

/// The command byte being shifted in, with the SIO line stored at the
/// current bit while SCK is low.
pub open spec fn sampled_bits(r: GbaRtc, pins: u8) -> u8 {
    if pins & RTC_PIN_SCK == 0 {
        (r.bits & !(1u8 << r.bits_read)) | (((pins & RTC_PIN_SIO) >> 1u8) << r.bits_read)
    } else {
        r.bits
    }
}

/// A complete byte received: a command byte starts the command (reading
/// the clock for the date-time commands).
pub open spec fn begin_command_spec(r: GbaRtc, now: ClockReading) -> GbaRtc {
    let command = r.bits;
    let r1 = if command & 0x0F == RTC_COMMAND_MAGIC {
        let idx = command_index(command);
        let r2 = GbaRtc { command, bytes_remaining: rtc_bytes(idx), command_active: true, ..r };
        if idx == 0 {
            GbaRtc { control: 0, ..r2 }
        } else if idx == 2 || idx == 6 {
            set_clock_spec(r2, now)
        } else {
            r2
        }
    } else {
        GbaRtc { command_active: false, ..r }
    };
    GbaRtc { bits: 0, bits_read: 0, ..r1 }
}

/// A complete data byte written to the clock (to the control register for
/// command 4).
pub open spec fn process_byte_spec(r: GbaRtc) -> GbaRtc {
    let rem = r.bytes_remaining - 1;
    GbaRtc {
        control: if command_index(r.command) == 4 {
            r.bits
        } else {
            r.control
        },
        bits: 0,
        bits_read: 0,
        bytes_remaining: if rem <= 0 {
            rtc_bytes(command_index(r.command))
        } else {
            rem as i32
        },
        ..r
    }
}

/// The next bit the clock sends for a reading command.
pub open spec fn output_bit_spec(r: GbaRtc) -> bool {
    let idx = command_index(r.command);
    let out: u8 = if idx == 4 {
        r.control
    } else if idx == 2 || idx == 6 {
        r.time[7 - r.bytes_remaining]
    } else {
        0xFF
    };
    (out >> r.bits_read) & 1 != 0
}

/// Shifting in a command byte: the SIO bit is sampled while SCK is low and
/// a rising SCK edge completes the bit.
pub open spec fn receive_command_spec(ga: GpioView, now: ClockReading) -> GpioView {
    let p = ga.pin_state;
    let r = GbaRtc { bits: sampled_bits(ga.rtc, p), ..ga.rtc };
    if !r.sck_edge && p & RTC_PIN_SCK != 0 {
        let r2 = GbaRtc { bits_read: (r.bits_read + 1) as u8, ..r };
        if r2.bits_read == 8 {
            GpioView { rtc: begin_command_spec(r2, now), ..ga }
        } else {
            GpioView { rtc: r2, ..ga }
        }
    } else {
        GpioView { rtc: r, ..ga }
    }
}

/// Shifting in a data byte of a writing command.
pub open spec fn receive_data_spec(ga: GpioView) -> GpioView {
    let p = ga.pin_state;
    let r = GbaRtc { bits: sampled_bits(ga.rtc, p), ..ga.rtc };
    if !r.sck_edge && p & RTC_PIN_SCK != 0 {
        let incoming = (p & RTC_PIN_SIO) >> 1u8;
        let bits = if ((r.bits >> r.bits_read) & 1) ^ incoming != 0 {
            r.bits & !(1u8 << r.bits_read)
        } else {
            r.bits
        };
        let r2 = GbaRtc { bits, bits_read: (r.bits_read + 1) as u8, ..r };
        if r2.bits_read == 8 {
            GpioView { rtc: process_byte_spec(r2), ..ga }
        } else {
            GpioView { rtc: r2, ..ga }
        }
    } else {
        GpioView { rtc: r, ..ga }
    }
}

/// Shifting out a bit of a reading command on a falling SCK edge.
pub open spec fn send_data_spec(g1: GpioView) -> GpioView {
    let p = g1.pin_state;
    let r = g1.rtc;
    let r2 = if r.sck_edge && p & RTC_PIN_SCK == 0 {
        let out = output_bit_spec(r);
        let br = (r.bits_read + 1) as u8;
        if br == 8 {
            let rem = r.bytes_remaining - 1;
            GbaRtc {
                sio_output: out,
                bits_read: 0,
                bytes_remaining: if rem <= 0 {
                    rtc_bytes(command_index(r.command))
                } else {
                    rem as i32
                },
                ..r
            }
        } else {
            GbaRtc { sio_output: out, bits_read: br, ..r }
        }
    } else {
        r
    };
    output_pins(GpioView { rtc: r2, ..g1 }, (if r2.sio_output { 1u8 } else { 0u8 }) << 1u8)
}

/// The clock's response to the pins the game drives.
pub open spec fn read_pins_spec(g0: GpioView, now: ClockReading) -> GpioView {
    let g1 = output_pins(g0, g0.pin_state & RTC_PIN_SIO);
    if g1.pin_state & RTC_PIN_CS == 0 {
        output_pins(
            GpioView {
                rtc: GbaRtc {
                    bits_read: 0,
                    bytes_remaining: 0,
                    command_active: false,
                    command: 0,
                    sck_edge: true,
                    sio_output: true,
                    ..g1.rtc
                },
                ..g1
            },
            RTC_PIN_SIO,
        )
    } else {
        let g2 = if !g1.rtc.command_active {
            receive_command_spec(output_pins(g1, RTC_PIN_SIO), now)
        } else if !command_reads(g1.rtc.command) {
            receive_data_spec(output_pins(g1, RTC_PIN_SIO))
        } else {
            send_data_spec(g1)
        };
        GpioView { rtc: GbaRtc { sck_edge: g2.pin_state & RTC_PIN_SCK != 0, ..g2.rtc }, ..g2 }
    }
}

/// The port after a write of `value` to GPIO register `reg`.
pub open spec fn gpio_write_spec(g: GpioView, reg: u32, value: u16, now: ClockReading) -> GpioView {
    if reg == GPIO_REG_DATA {
        let latch = (value as u8) & 0x0F;
        let g1 = GpioView { write_latch: latch, pin_state: (g.pin_state & !g.direction) | (latch & g.direction), ..g };
        read_pins_spec(g1, now)
    } else if reg == GPIO_REG_DIRECTION {
        let dir = (value as u8) & 0x0F;
        let g1 = GpioView { direction: dir, pin_state: (g.pin_state & !dir) | (g.write_latch & dir), ..g };
        read_pins_spec(g1, now)
    } else if reg == GPIO_REG_CONTROL {
        GpioView { read_write: value & 1 != 0, ..g }
    } else {
        g
    }
}

/// What a byte write to cartridge address `addr` does: on a cartridge with
/// a clock, a write to a GPIO register replaces the addressed byte of it;
/// the result says whether the write was taken.
pub open spec fn write_rom_spec(c: GbaCartView, addr: u32, val: u8, now: ClockReading) -> (GbaCartView, bool) {
    if !c.has_rtc || gpio_register_of(addr) is None {
        (c, false)
    } else {
        let reg = gpio_register_of(addr)->0;
        let shift: u16 = if addr & 1 == 0 {
            0
        } else {
            8
        };
        let value = (gpio_read_spec(c.gpio, reg) & !(0x00FFu16 << shift)) | ((val as u16) << shift);
        (GbaCartView { gpio: gpio_write_spec(c.gpio, reg, value, now), ..c }, true)
    }
}

impl GbaCartridge {
    fn gpio_register(addr: u32) -> (r: Option<u32>)
        ensures
            r == gpio_register_of(addr),
    {
        let r = (addr & 0x01FF_FFFF) & !1u32;
        if r == GPIO_REG_DATA || r == GPIO_REG_DIRECTION || r == GPIO_REG_CONTROL {
            Some(r)
        } else {
            None
        }
    }

    fn read_gpio_register(&self, register: u32) -> (v: u16)
        ensures
            v == gpio_read_spec(self@.gpio, register),
    {
        if register == GPIO_REG_DATA {
            self.gpio_pin_state as u16
        } else if register == GPIO_REG_DIRECTION {
            self.gpio_direction as u16
        } else if register == GPIO_REG_CONTROL {
            if self.gpio_read_write {
                1
            } else {
                0
            }
        } else {
            0
        }
    }

    /// Reads cartridge ROM (or a readable GPIO register) at `addr`.
    pub fn read_rom(&self, addr: u32) -> (b: u8)
        ensures
            b == read_rom_spec(self@, addr),
    {
        let offset = (addr & 0x01FF_FFFF) as usize;
        if self.has_rtc && self.gpio_read_write {
            if let Some(register) = Self::gpio_register(addr) {
                let value = self.read_gpio_register(register);
                return if addr & 1 == 0 {
                    value as u8
                } else {
                    (value >> 8u16) as u8
                };
            }
        }
        if offset < self.rom.len() {
            self.rom[offset]
        } else {
            // Open bus
            ((addr & 0x01FF_FFFF) >> 1u32) as u8
        }
    }

    fn to_bcd(value: u8) -> (b: u8)
        ensures
            b == bcd(value),
    {
        ((value / 10) << 4u8) | (value % 10)
    }

    /// Sets the clock's time registers from a reading of the wall clock.
    pub fn rtc_set_clock(&mut self, now: ClockReading)
        ensures
            final(self)@ == (GbaCartView {
                gpio: GpioView { rtc: set_clock_spec(old(self)@.gpio.rtc, now), ..old(self)@.gpio },
                ..old(self)@
            }),
    {
        let year: u8 = if now.year <= 2000 {
            0
        } else if now.year - 2000 >= 99 {
            99
        } else {
            (now.year - 2000) as u8
        };
        let hour = if self.rtc.control & RTC_CONTROL_24_HOUR != 0 {
            now.hour
        } else {
            now.hour % 12
        };
        self.rtc.time[0] = Self::to_bcd(year);
        self.rtc.time[1] = Self::to_bcd(now.month);
        self.rtc.time[2] = Self::to_bcd(now.day);
        self.rtc.time[3] = Self::to_bcd(now.weekday);
        self.rtc.time[4] = Self::to_bcd(hour);
        self.rtc.time[5] = Self::to_bcd(now.minute);
        self.rtc.time[6] = Self::to_bcd(now.second);
        assert(self.rtc.time =~= set_clock_spec(old(self)@.gpio.rtc, now).time);
    }

    fn rtc_update_clock(&mut self)
        ensures
            exists|now: ClockReading|
                clock_valid(now) && final(self)@ == (GbaCartView {
                    gpio: GpioView { rtc: #[trigger] set_clock_spec(old(self)@.gpio.rtc, now), ..old(self)@.gpio },
                    ..old(self)@
                }),
    {
        let now = read_clock(self.rtc.offset_seconds);
        self.rtc_set_clock(now);
    }
}


/// A valid reading, used where no clock is read.
pub open spec fn noon_2000() -> ClockReading {
    ClockReading { year: 2000, month: 1, day: 1, weekday: 6, hour: 12, minute: 0, second: 0 }
}

/// The clock invariant is kept by every response to the pins.
pub proof fn lemma_read_pins_keeps_wf(g: GpioView, now: ClockReading)
    requires
        rtc_wf(g.rtc),
    ensures
        rtc_wf(read_pins_spec(g, now).rtc),
{
    let r = g.rtc;
    assert(r.bits_read < 8 ==> (r.bits_read + 1) as u8 <= 8);
}

impl GbaCartridge {
    fn rtc_output_pins(&mut self, pins: u8)
        ensures
            final(self)@ == (GbaCartView { gpio: output_pins(old(self)@.gpio, pins), ..old(self)@ }),
    {
        self.gpio_pin_state = self.gpio_pin_state & self.gpio_direction;
        self.gpio_pin_state = self.gpio_pin_state | (pins & !self.gpio_direction & 0x0F);
        assert(self.gpio_pin_state == (old(self).gpio_pin_state & old(self).gpio_direction) | (pins
            & !old(self).gpio_direction & 0x0F));
    }

    fn rtc_command_magic(command: u8) -> (m: u8)
        ensures
            m == command & 0x0F,
    {
        command & 0x0F
    }

    fn rtc_command_index(command: u8) -> (i: usize)
        ensures
            i == command_index(command),
            i < 8,
    {
        proof {
            assert((command >> 4u8) & 0x07 < 8) by {
                crate::bits::lemma_and_le_u8((command >> 4u8), 0x07);
            }
        }
        ((command >> 4u8) & 0x07) as usize
    }

    fn rtc_command_is_reading(command: u8) -> (r: bool)
        ensures
            r == command_reads(command),
    {
        command & 0x80 != 0
    }

    fn rtc_command_bytes(index: usize) -> (n: i32)
        ensures
            n == rtc_bytes(index as int),
    {
        if index == 2 {
            7
        } else if index == 4 {
            1
        } else if index == 6 {
            3
        } else {
            0
        }
    }

    fn rtc_begin_command(&mut self)
        ensures
            exists|now: ClockReading|
                clock_valid(now) && final(self)@ == (GbaCartView {
                    gpio: GpioView { rtc: #[trigger] begin_command_spec(old(self)@.gpio.rtc, now), ..old(self)@.gpio },
                    ..old(self)@
                }),
    {
        let ghost mut now = noon_2000();
        let command = self.rtc.bits;
        if Self::rtc_command_magic(command) == RTC_COMMAND_MAGIC {
            let idx = Self::rtc_command_index(command);
            self.rtc.command = command;
            self.rtc.bytes_remaining = Self::rtc_command_bytes(idx);
            self.rtc.command_active = true;
            if idx == 0 {
                self.rtc.control = 0;
            } else if idx == 2 || idx == 6 {
                let ghost before = self@;
                self.rtc_update_clock();
                proof {
                    now = choose|n: ClockReading|
                        clock_valid(n) && self@ == (GbaCartView {
                            gpio: GpioView { rtc: #[trigger] set_clock_spec(before.gpio.rtc, n), ..before.gpio },
                            ..before
                        });
                }
            }
        } else {
            self.rtc.command_active = false;
        }
        self.rtc.bits = 0;
        self.rtc.bits_read = 0;
        assert(self@.gpio.rtc == begin_command_spec(old(self)@.gpio.rtc, now));
        assert(clock_valid(now));
    }

    fn rtc_process_byte(&mut self)
        requires
            0 <= old(self).rtc.bytes_remaining <= 7,
        ensures
            final(self)@ == (GbaCartView {
                gpio: GpioView { rtc: process_byte_spec(old(self)@.gpio.rtc), ..old(self)@.gpio },
                ..old(self)@
            }),
    {
        let idx = Self::rtc_command_index(self.rtc.command);
        if idx == 4 {
            self.rtc.control = self.rtc.bits;
        }
        self.rtc.bits = 0;
        self.rtc.bits_read = 0;
        self.rtc.bytes_remaining = self.rtc.bytes_remaining - 1;
        if self.rtc.bytes_remaining <= 0 {
            self.rtc.bytes_remaining = Self::rtc_command_bytes(idx);
        }
    }

    fn rtc_output_bit(&self) -> (b: bool)
        requires
            rtc_wf(self.rtc),
            self.rtc.command_active,
            command_reads(self.rtc.command),
        ensures
            b == output_bit_spec(self.rtc),
    {
        let idx = Self::rtc_command_index(self.rtc.command);
        let output = if idx == 4 {
            self.rtc.control
        } else if idx == 2 || idx == 6 {
            self.rtc.time[7 - self.rtc.bytes_remaining as usize]
        } else {
            0xFF
        };
        ((output >> self.rtc.bits_read) & 1) != 0
    }

    fn rtc_receive_command(&mut self)
        requires
            rtc_wf(old(self).rtc),
        ensures
            exists|now: ClockReading|
                clock_valid(now) && final(self)@ == (GbaCartView {
                    gpio: #[trigger] receive_command_spec(old(self)@.gpio, now),
                    ..old(self)@
                }),
    {
        let ghost mut now = noon_2000();
        if self.gpio_pin_state & RTC_PIN_SCK == 0 {
            self.rtc.bits = self.rtc.bits & !(1u8 << self.rtc.bits_read);
            self.rtc.bits = self.rtc.bits | (((self.gpio_pin_state & RTC_PIN_SIO) >> 1u8) << self.rtc.bits_read);
        }
        if !self.rtc.sck_edge && self.gpio_pin_state & RTC_PIN_SCK != 0 {
            self.rtc.bits_read = self.rtc.bits_read + 1;
            if self.rtc.bits_read == 8 {
                let ghost before = self@;
                self.rtc_begin_command();
                proof {
                    now = choose|n: ClockReading|
                        clock_valid(n) && self@ == (GbaCartView {
                            gpio: GpioView { rtc: #[trigger] begin_command_spec(before.gpio.rtc, n), ..before.gpio },
                            ..before
                        });
                }
            }
        }
        assert(self@ == (GbaCartView { gpio: receive_command_spec(old(self)@.gpio, now), ..old(self)@ }));
    }

    fn rtc_receive_data(&mut self)
        requires
            rtc_wf(old(self).rtc),
        ensures
            final(self)@ == (GbaCartView { gpio: receive_data_spec(old(self)@.gpio), ..old(self)@ }),
    {
        if self.gpio_pin_state & RTC_PIN_SCK == 0 {
            self.rtc.bits = self.rtc.bits & !(1u8 << self.rtc.bits_read);
            self.rtc.bits = self.rtc.bits | (((self.gpio_pin_state & RTC_PIN_SIO) >> 1u8) << self.rtc.bits_read);
        }
        if !self.rtc.sck_edge && self.gpio_pin_state & RTC_PIN_SCK != 0 {
            let incoming = (self.gpio_pin_state & RTC_PIN_SIO) >> 1u8;
            if ((self.rtc.bits >> self.rtc.bits_read) & 1) ^ incoming != 0 {
                self.rtc.bits = self.rtc.bits & !(1u8 << self.rtc.bits_read);
            }
            self.rtc.bits_read = self.rtc.bits_read + 1;
            if self.rtc.bits_read == 8 {
                self.rtc_process_byte();
            }
        }
    }

    fn rtc_send_data(&mut self)
        requires
            rtc_wf(old(self).rtc),
            old(self).rtc.command_active,
            command_reads(old(self).rtc.command),
        ensures
            final(self)@ == (GbaCartView { gpio: send_data_spec(old(self)@.gpio), ..old(self)@ }),
    {
        if self.rtc.sck_edge && self.gpio_pin_state & RTC_PIN_SCK == 0 {
            self.rtc.sio_output = self.rtc_output_bit();
            self.rtc.bits_read = self.rtc.bits_read + 1;
            if self.rtc.bits_read == 8 {
                self.rtc.bytes_remaining = self.rtc.bytes_remaining - 1;
                if self.rtc.bytes_remaining <= 0 {
                    let idx = Self::rtc_command_index(self.rtc.command);
                    self.rtc.bytes_remaining = Self::rtc_command_bytes(idx);
                }
                self.rtc.bits_read = 0;
            }
        }
        let out: u8 = if self.rtc.sio_output {
            1
        } else {
            0
        };
        self.rtc_output_pins(out << 1u8);
    }

    fn rtc_read_pins(&mut self)
        requires
            rtc_wf(old(self).rtc),
        ensures
            exists|now: ClockReading|
                clock_valid(now) && final(self)@ == (GbaCartView {
                    gpio: #[trigger] read_pins_spec(old(self)@.gpio, now),
                    ..old(self)@
                }),
    {
        let ghost mut now = noon_2000();
        let sio = self.gpio_pin_state & RTC_PIN_SIO;
        self.rtc_output_pins(sio);
        if self.gpio_pin_state & RTC_PIN_CS == 0 {
            self.rtc.bits_read = 0;
            self.rtc.bytes_remaining = 0;
            self.rtc.command_active = false;
            self.rtc.command = 0;
            self.rtc.sck_edge = true;
            self.rtc.sio_output = true;
            self.rtc_output_pins(RTC_PIN_SIO);
            assert(self@ == (GbaCartView { gpio: read_pins_spec(old(self)@.gpio, now), ..old(self)@ }));
            return;
        }
        let ghost g1 = self@.gpio;
        if !self.rtc.command_active {
            self.rtc_output_pins(RTC_PIN_SIO);
            let ghost before = self@;
            self.rtc_receive_command();
            proof {
                now = choose|n: ClockReading|
                    clock_valid(n) && self@ == (GbaCartView {
                        gpio: #[trigger] receive_command_spec(before.gpio, n),
                        ..before
                    });
            }
        } else if !Self::rtc_command_is_reading(self.rtc.command) {
            self.rtc_output_pins(RTC_PIN_SIO);
            self.rtc_receive_data();
        } else {
            self.rtc_send_data();
        }
        self.rtc.sck_edge = self.gpio_pin_state & RTC_PIN_SCK != 0;
        assert(self@ == (GbaCartView { gpio: read_pins_spec(old(self)@.gpio, now), ..old(self)@ }));
    }
}


impl GbaCartridge {
    fn write_gpio_register(&mut self, register: u32, value: u16)
        requires
            rtc_wf(old(self).rtc),
        ensures
            exists|now: ClockReading|
                clock_valid(now) && final(self)@ == (GbaCartView {
                    gpio: #[trigger] gpio_write_spec(old(self)@.gpio, register, value, now),
                    ..old(self)@
                }),
            rtc_wf(final(self).rtc),
    {
        let ghost mut now = noon_2000();
        if register == GPIO_REG_DATA || register == GPIO_REG_DIRECTION {
            if register == GPIO_REG_DATA {
                self.gpio_write_latch = (value as u8) & 0x0F;
            } else {
                self.gpio_direction = (value as u8) & 0x0F;
            }
            self.gpio_pin_state = self.gpio_pin_state & !self.gpio_direction;
            self.gpio_pin_state = self.gpio_pin_state | (self.gpio_write_latch & self.gpio_direction);
            let ghost before = self@;
            self.rtc_read_pins();
            proof {
                now = choose|n: ClockReading|
                    clock_valid(n) && self@ == (GbaCartView {
                        gpio: #[trigger] read_pins_spec(before.gpio, n),
                        ..before
                    });
                lemma_read_pins_keeps_wf(before.gpio, now);
            }
        } else if register == GPIO_REG_CONTROL {
            self.gpio_read_write = value & 1 != 0;
        }
        assert(self@ == (GbaCartView { gpio: gpio_write_spec(old(self)@.gpio, register, value, now), ..old(self)@ }));
    }

    /// A byte write to cartridge ROM space: on a cartridge with a clock it
    /// reaches the GPIO registers; returns whether the write was taken.
    pub fn write_rom(&mut self, addr: u32, val: u8) -> (taken: bool)
        requires
            rtc_wf(old(self).rtc),
        ensures
            exists|now: ClockReading|
                clock_valid(now) && (final(self)@, taken) == #[trigger] write_rom_spec(old(self)@, addr, val, now),
            rtc_wf(final(self).rtc),
    {
        let ghost mut now = noon_2000();
        if !self.has_rtc {
            assert((self@, false) == write_rom_spec(old(self)@, addr, val, now));
            return false;
        }
        let register = match Self::gpio_register(addr) {
            Some(r) => r,
            None => {
                assert((self@, false) == write_rom_spec(old(self)@, addr, val, now));
                return false;
            },
        };
        let shift: u16 = if addr & 1 == 0 {
            0
        } else {
            8
        };
        let mask = !(0x00FFu16 << shift);
        let value = (self.read_gpio_register(register) & mask) | ((val as u16) << shift);
        self.write_gpio_register(register, value);
        proof {
            now = choose|n: ClockReading|
                clock_valid(n) && self@ == (GbaCartView {
                    gpio: #[trigger] gpio_write_spec(old(self)@.gpio, register, value, n),
                    ..old(self)@
                });
        }
        assert((self@, true) == write_rom_spec(old(self)@, addr, val, now));
        true
    }
}


/// A byte holding two decimal digits.
pub open spec fn is_bcd(b: u8) -> bool {
    (b >> 4u8) < 10 && (b & 0x0F) < 10
}

proof fn lemma_bcd_digits(v: u8)
    requires
        v < 100,
    ensures
        bcd(v) >> 4u8 == v / 10,
        bcd(v) & 0x0F == v % 10,
        is_bcd(bcd(v)),
{
    assert(v < 100 ==> bcd(v) >> 4u8 == v / 10 && bcd(v) & 0x0F == v % 10) by (bit_vector);
}

/// Setting the clock from any valid reading leaves seven two-digit BCD
/// bytes: year (00-99), month, day, weekday, hour, minute and second, each
/// holding its value in decimal.
pub proof fn lemma_set_clock_bcd(r: GbaRtc, now: ClockReading)
    requires
        clock_valid(now),
    ensures
        forall|i: int| 0 <= i < 7 ==> is_bcd(#[trigger] set_clock_spec(r, now).time[i]),
        set_clock_spec(r, now).time[1] >> 4u8 == now.month / 10 && set_clock_spec(r, now).time[1] & 0x0F == now.month % 10,
        set_clock_spec(r, now).time[5] >> 4u8 == now.minute / 10 && set_clock_spec(r, now).time[5] & 0x0F == now.minute % 10,
{
    let hour = if r.control & RTC_CONTROL_24_HOUR != 0 {
        now.hour
    } else {
        (now.hour % 12) as u8
    };
    lemma_bcd_digits(year_digits(now.year));
    lemma_bcd_digits(now.month);
    lemma_bcd_digits(now.day);
    lemma_bcd_digits(now.weekday);
    lemma_bcd_digits(hour);
    lemma_bcd_digits(now.minute);
    lemma_bcd_digits(now.second);
}

} // verus!
