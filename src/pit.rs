//! The 8253/8254 Programmable Interval Timer: command and status bytes, and
//! a model of the channel settings that says which bytes a change takes.
//! Sending the bytes to the ports is left to the caller.
use vstd::prelude::*;

use crate::bitfield::{bit_u8, bits_u8, get_bit_u8, get_bits_u8, lemma_small_shifts};
use crate::port::Port;

verus! {

/// Command register port of the PIT.
pub const CMD_REG: u16 = 0x43;

/// Port of channel 0; channel `n` is at `CH_BASE + n`.
pub const CH_BASE: u16 = 0x40;

/// A channel of the PIT.
#[derive(Clone, Copy, Debug, PartialEq, Eq, Structural)]
pub enum Channel {
    Channel0,
    Channel1,
    Channel2,
}

impl Channel {
    pub open spec fn spec_code(self) -> u8 {
        match self {
            Channel::Channel0 => 0,
            Channel::Channel1 => 1,
            Channel::Channel2 => 2,
        }
    }

    /// The channel's number.
    pub fn code(&self) -> (r: u8)
        ensures
            r == self.spec_code(),
    {
        match self {
            Channel::Channel0 => 0,
            Channel::Channel1 => 1,
            Channel::Channel2 => 2,
        }
    }

    /// The data port of the channel.
    pub fn port(&self) -> (r: Port)
        ensures
            r@ == CH_BASE + self.spec_code(),
    {
        Port::number(CH_BASE + self.code() as u16)
    }
}

/// The channel that the 2-bit select field `v` names; 3 selects the
/// read-back command, which has no channel.
pub open spec fn channel_of(v: u8) -> Option<Channel> {
    if v == 0 {
        Some(Channel::Channel0)
    } else if v == 1 {
        Some(Channel::Channel1)
    } else if v == 2 {
        Some(Channel::Channel2)
    } else {
        None
    }
}

/// Operating modes of a channel.
#[derive(Clone, Copy, Debug, PartialEq, Eq, Structural)]
pub enum OperatingMode {
    InterruptOnTerminalCount,
    HwRetriggerableOneShot,
    RateGenerator,
    SquareWaveGenerator,
    SoftwareTriggeredStrobe,
    HardwareTriggeredStrobe,
    RateGenerator2,
    SquareWaveGenerator2,
}

/// The operating mode that the 3-bit field `v` names.
pub open spec fn operating_mode_of(v: u8) -> OperatingMode {
    if v == 0 {
        OperatingMode::InterruptOnTerminalCount
    } else if v == 1 {
        OperatingMode::HwRetriggerableOneShot
    } else if v == 2 {
        OperatingMode::RateGenerator
    } else if v == 3 {
        OperatingMode::SquareWaveGenerator
    } else if v == 4 {
        OperatingMode::SoftwareTriggeredStrobe
    } else if v == 5 {
        OperatingMode::HardwareTriggeredStrobe
    } else if v == 6 {
        OperatingMode::RateGenerator2
    } else {
        OperatingMode::SquareWaveGenerator2
    }
}

impl OperatingMode {
    pub open spec fn spec_code(self) -> u8 {
        match self {
            OperatingMode::InterruptOnTerminalCount => 0,
            OperatingMode::HwRetriggerableOneShot => 1,
            OperatingMode::RateGenerator => 2,
            OperatingMode::SquareWaveGenerator => 3,
            OperatingMode::SoftwareTriggeredStrobe => 4,
            OperatingMode::HardwareTriggeredStrobe => 5,
            OperatingMode::RateGenerator2 => 6,
            OperatingMode::SquareWaveGenerator2 => 7,
        }
    }

    /// The 3-bit field value of the mode.
    pub fn code(&self) -> (r: u8)
        ensures
            r == self.spec_code(),
            operating_mode_of(r) == *self,
    {
        match self {
            OperatingMode::InterruptOnTerminalCount => 0,
            OperatingMode::HwRetriggerableOneShot => 1,
            OperatingMode::RateGenerator => 2,
            OperatingMode::SquareWaveGenerator => 3,
            OperatingMode::SoftwareTriggeredStrobe => 4,
            OperatingMode::HardwareTriggeredStrobe => 5,
            OperatingMode::RateGenerator2 => 6,
            OperatingMode::SquareWaveGenerator2 => 7,
        }
    }

    /// The operating mode that the 3-bit field `v` names.
    pub fn from_code(v: u8) -> (r: OperatingMode)
        requires
            v < 8,
        ensures
            r == operating_mode_of(v),
    {
        if v == 0 {
            OperatingMode::InterruptOnTerminalCount
        } else if v == 1 {
            OperatingMode::HwRetriggerableOneShot
        } else if v == 2 {
            OperatingMode::RateGenerator
        } else if v == 3 {
            OperatingMode::SquareWaveGenerator
        } else if v == 4 {
            OperatingMode::SoftwareTriggeredStrobe
        } else if v == 5 {
            OperatingMode::HardwareTriggeredStrobe
        } else if v == 6 {
            OperatingMode::RateGenerator2
        } else {
            OperatingMode::SquareWaveGenerator2
        }
    }
}

/// Access modes: which bytes of the count a read or write moves.
#[derive(Clone, Copy, Debug, PartialEq, Eq, Structural)]
pub enum AccessMode {
    LoByteOnly,
    HiByteOnly,
    LoHiByte,
}

/// The access mode that the 2-bit field `v` names; 0 is the latch command,
/// which has none.
pub open spec fn access_mode_of(v: u8) -> Option<AccessMode> {
    if v == 1 {
        Some(AccessMode::LoByteOnly)
    } else if v == 2 {
        Some(AccessMode::HiByteOnly)
    } else if v == 3 {
        Some(AccessMode::LoHiByte)
    } else {
        None
    }
}

impl AccessMode {
    pub open spec fn spec_code(self) -> u8 {
        match self {
            AccessMode::LoByteOnly => 1,
            AccessMode::HiByteOnly => 2,
            AccessMode::LoHiByte => 3,
        }
    }

    /// The 2-bit field value of the mode.
    pub fn code(&self) -> (r: u8)
        ensures
            r == self.spec_code(),
    {
        match self {
            AccessMode::LoByteOnly => 1,
            AccessMode::HiByteOnly => 2,
            AccessMode::LoHiByte => 3,
        }
    }

    /// The access mode that the 2-bit field `v` names, if any.
    pub fn from_code(v: u8) -> (r: Option<AccessMode>)
        ensures
            r == access_mode_of(v),
    {
        if v == 1 {
            Some(AccessMode::LoByteOnly)
        } else if v == 2 {
            Some(AccessMode::HiByteOnly)
        } else if v == 3 {
            Some(AccessMode::LoHiByte)
        } else {
            None
        }
    }
}

/// The command byte: channel select in bits 6..8 (3 for read-back), access
/// mode in bits 4..6 (0 for latch), operating mode in bits 1..4, BCD flag in
/// bit 0.
pub open spec fn command_byte(channel: u8, access: u8, op: u8, bcd: bool) -> u8 {
    ((channel << 6u8) | (access << 4u8) | (op << 1u8) | (if bcd { 1u8 } else { 0u8 })) as u8
}

/// Each field of a command byte reads back as it was put in.
pub proof fn lemma_command_fields(channel: u8, access: u8, op: u8, bcd: bool)
    requires
        channel < 4,
        access < 4,
        op < 8,
    ensures
        bits_u8(command_byte(channel, access, op, bcd), 6, 2) == channel,
        bits_u8(command_byte(channel, access, op, bcd), 4, 2) == access,
        bits_u8(command_byte(channel, access, op, bcd), 1, 3) == op,
        bit_u8(command_byte(channel, access, op, bcd), 0) == bcd,
{
    let b: u8 = if bcd { 1 } else { 0 };
    assert({
        let v = ((channel << 6u8) | (access << 4u8) | (op << 1u8) | b) as u8;
        &&& bits_u8(v, 6, 2) == channel
        &&& bits_u8(v, 4, 2) == access
        &&& bits_u8(v, 1, 3) == op
        &&& bit_u8(v, 0) == (b == 1)
    }) by (bit_vector)
        requires
            channel < 4,
            access < 4,
            op < 8,
            b < 2,
    ;
}

/// The command port.
pub fn cmd_port() -> (r: Port)
    ensures
        r@ == CMD_REG,
{
    Port::number(CMD_REG)
}

/// Status byte read back from a channel.
#[derive(Clone, Copy, Debug, PartialEq, Eq, Structural)]
pub struct StatusByte {
    val: u8,
}

impl View for StatusByte {
    type V = u8;

    closed spec fn view(&self) -> u8 {
        self.val
    }
}

impl StatusByte {
    /// The status byte `val`, as read from a channel's port.
    pub fn from_raw(val: u8) -> (r: StatusByte)
        ensures
            r@ == val,
    {
        StatusByte { val }
    }

    /// The byte.
    pub fn value(&self) -> (r: u8)
        ensures
            r == self@,
    {
        self.val
    }

    /// State of the output pin: bit 7.
    pub fn output_pin_state(&self) -> (r: bool)
        ensures
            r == bit_u8(self@, 7),
    {
        get_bit_u8(self.val, 7)
    }

    /// Null count flag: bit 6.
    pub fn null_count_flags(&self) -> (r: bool)
        ensures
            r == bit_u8(self@, 6),
    {
        get_bit_u8(self.val, 6)
    }

    /// Access mode: bits 4..6.
    pub fn access_mode(&self) -> (r: Option<AccessMode>)
        ensures
            r == access_mode_of(bits_u8(self@, 4, 2)),
    {
        AccessMode::from_code(get_bits_u8(self.val, 4, 2))
    }

    /// Operating mode: bits 1..4.
    pub fn operating_mode(&self) -> (r: OperatingMode)
        ensures
            r == operating_mode_of(bits_u8(self@, 1, 3)),
    {
        proof {
            lemma_small_shifts();
        }
        OperatingMode::from_code(get_bits_u8(self.val, 1, 3))
    }

    /// Whether the channel counts in BCD: bit 0 set.
    pub fn is_bcd_mode(&self) -> (r: bool)
        ensures
            r == bit_u8(self@, 0),
    {
        get_bit_u8(self.val, 0)
    }

    /// Whether the channel counts in binary: bit 0 clear.
    pub fn is_binary_mode(&self) -> (r: bool)
        ensures
            r == !bit_u8(self@, 0),
    {
        !get_bit_u8(self.val, 0)
    }
}

/// A command byte for the command port.
#[derive(Clone, Copy, Debug, PartialEq, Eq, Structural)]
pub struct Command {
    val: u8,
}

impl View for Command {
    type V = u8;

    closed spec fn view(&self) -> u8 {
        self.val
    }
}

/// The select field for an optional channel: 3 selects read-back.
pub open spec fn channel_code(ch: Option<Channel>) -> u8 {
    match ch {
        Some(c) => c.spec_code(),
        None => 3,
    }
}

/// The access field for an optional access mode: 0 latches the count.
pub open spec fn access_code(access: Option<AccessMode>) -> u8 {
    match access {
        Some(a) => a.spec_code(),
        None => 0,
    }
}

impl Command {
    /// The command for channel `ch` (`None`: the read-back command), access
    /// mode `access` (`None`: latch the count), operating mode `op`, and BCD
    /// counting where `bcd` holds.
    pub fn new_with_bcd(
        ch: Option<Channel>,
        access: Option<AccessMode>,
        op: OperatingMode,
        bcd: bool,
    ) -> (r: Command)
        ensures
            r@ == command_byte(channel_code(ch), access_code(access), op.spec_code(), bcd),
    {
        let c: u8 = match ch {
            Some(t) => t.code(),
            None => 0b11,
        };
        let a: u8 = match access {
            Some(t) => t.code(),
            None => 0b00,
        };
        let b: u8 = if bcd {
            1
        } else {
            0
        };
        Command { val: (c << 6u8) | (a << 4u8) | (op.code() << 1u8) | b }
    }

    /// As `new_with_bcd`, counting in binary.
    pub fn new(ch: Option<Channel>, access: Option<AccessMode>, op: OperatingMode) -> (r: Command)
        ensures
            r@ == command_byte(channel_code(ch), access_code(access), op.spec_code(), false),
    {
        Command::new_with_bcd(ch, access, op, false)
    }

    /// The byte to send.
    pub fn value(&self) -> (r: u8)
        ensures
            r == self@,
    {
        self.val
    }

    /// The selected channel: bits 6..8; `None` for the read-back command.
    pub fn channel(&self) -> (r: Option<Channel>)
        ensures
            r == channel_of(bits_u8(self@, 6, 2)),
    {
        let v = get_bits_u8(self.val, 6, 2);
        if v == 0 {
            Some(Channel::Channel0)
        } else if v == 1 {
            Some(Channel::Channel1)
        } else if v == 2 {
            Some(Channel::Channel2)
        } else {
            None
        }
    }

    /// Access mode: bits 4..6; `None` for the latch command.
    pub fn access_mode(&self) -> (r: Option<AccessMode>)
        ensures
            r == access_mode_of(bits_u8(self@, 4, 2)),
    {
        AccessMode::from_code(get_bits_u8(self.val, 4, 2))
    }

    /// Operating mode: bits 1..4.
    pub fn operating_mode(&self) -> (r: OperatingMode)
        ensures
            r == operating_mode_of(bits_u8(self@, 1, 3)),
    {
        proof {
            lemma_small_shifts();
        }
        OperatingMode::from_code(get_bits_u8(self.val, 1, 3))
    }

    /// Whether the command selects BCD counting: bit 0 set.
    pub fn is_bcd_mode(&self) -> (r: bool)
        ensures
            r == bit_u8(self@, 0),
    {
        get_bit_u8(self.val, 0)
    }

    /// Whether the command selects binary counting: bit 0 clear.
    pub fn is_binary_mode(&self) -> (r: bool)
        ensures
            r == !bit_u8(self@, 0),
    {
        !get_bit_u8(self.val, 0)
    }
}

/// Settings of one channel.
#[derive(Clone, Copy, Debug, PartialEq, Eq, Structural)]
pub struct ChannelInfo {
    pub access: AccessMode,
    pub operating: OperatingMode,
    pub reload: u16,
}

/// What to send to a channel's port to load a reload value.
#[derive(Clone, Copy, Debug, PartialEq, Eq, Structural)]
pub enum ReloadWrite {
    /// One byte.
    Byte(u8),
    /// Low byte, then high byte.
    Word(u16),
}

/// Committing reload value `pending` under access mode `access`: the value
/// the channel then holds, and what to send. A single-byte mode moves only
/// its own byte.
pub open spec fn reload_commit(access: AccessMode, pending: u16) -> (u16, ReloadWrite) {
    match access {
        AccessMode::LoByteOnly => ((pending & 0x00FF) as u16, ReloadWrite::Byte((pending & 0x00FF) as u8)),
        AccessMode::HiByteOnly => ((pending & 0xFF00) as u16, ReloadWrite::Byte(((pending & 0xFF00) >> 8u16) as u8)),
        AccessMode::LoHiByte => (pending, ReloadWrite::Word(pending)),
    }
}

fn commit_reload_value(access: AccessMode, pending: u16) -> (r: (u16, ReloadWrite))
    ensures
        r == reload_commit(access, pending),
{
    match access {
        AccessMode::LoByteOnly => {
            let reload = pending & 0x00FF;
            (reload, ReloadWrite::Byte(reload as u8))
        },
        AccessMode::HiByteOnly => {
            let reload = pending & 0xFF00;
            (reload, ReloadWrite::Byte((reload >> 8u16) as u8))
        },
        AccessMode::LoHiByte => (pending, ReloadWrite::Word(pending)),
    }
}

/// The PIT as this interface last set it up: for channels 0 and 2 the
/// settings in force and the pending settings that the next commit sends.
#[derive(Clone, Copy, Debug)]
pub struct Pit {
    ch0: ChannelInfo,
    ch2: ChannelInfo,
    ch0_pending: ChannelInfo,
    ch2_pending: ChannelInfo,
}

impl Pit {
    pub closed spec fn spec_ch0(self) -> ChannelInfo {
        self.ch0
    }

    pub closed spec fn spec_ch0_pending(self) -> ChannelInfo {
        self.ch0_pending
    }

    pub closed spec fn spec_ch2(self) -> ChannelInfo {
        self.ch2
    }

    pub closed spec fn spec_ch2_pending(self) -> ChannelInfo {
        self.ch2_pending
    }

    /// An interface with the usual power-on settings: channel 0 a rate
    /// generator with reload 0, channel 2 a software-triggered strobe with
    /// reload 1, both in lo/hi access mode. The PIT itself may be set up
    /// otherwise; nothing is sent.
    pub fn new_no_sync() -> (r: Pit)
        ensures
            r.spec_ch0() == (ChannelInfo {
                access: AccessMode::LoHiByte,
                operating: OperatingMode::RateGenerator,
                reload: 0,
            }),
            r.spec_ch2() == (ChannelInfo {
                access: AccessMode::LoHiByte,
                operating: OperatingMode::SoftwareTriggeredStrobe,
                reload: 1,
            }),
            r.spec_ch0_pending() == r.spec_ch0(),
            r.spec_ch2_pending() == r.spec_ch2(),
    {
        let ch0 = ChannelInfo {
            access: AccessMode::LoHiByte,
            operating: OperatingMode::RateGenerator,
            reload: 0,
        };
        let ch2 = ChannelInfo {
            access: AccessMode::LoHiByte,
            operating: OperatingMode::SoftwareTriggeredStrobe,
            reload: 1,
        };
        Pit { ch0, ch2, ch0_pending: ch0, ch2_pending: ch2 }
    }

    /// Changes the pending access mode of channel 0.
    pub fn ch0_set_access(&mut self, mode: AccessMode)
        ensures
            final(self).spec_ch0_pending() == (ChannelInfo {
                access: mode,
                ..old(self).spec_ch0_pending()
            }),
            final(self).spec_ch0() == old(self).spec_ch0(),
            final(self).spec_ch2() == old(self).spec_ch2(),
            final(self).spec_ch2_pending() == old(self).spec_ch2_pending(),
    {
        self.ch0_pending.access = mode;
    }

    /// Changes the pending operating mode of channel 0.
    pub fn ch0_set_operating(&mut self, mode: OperatingMode)
        ensures
            final(self).spec_ch0_pending() == (ChannelInfo {
                operating: mode,
                ..old(self).spec_ch0_pending()
            }),
            final(self).spec_ch0() == old(self).spec_ch0(),
            final(self).spec_ch2() == old(self).spec_ch2(),
            final(self).spec_ch2_pending() == old(self).spec_ch2_pending(),
    {
        self.ch0_pending.operating = mode;
    }

    /// Changes the pending reload value of channel 0.
    pub fn ch0_set_reload(&mut self, value: u16)
        ensures
            final(self).spec_ch0_pending() == (ChannelInfo {
                reload: value,
                ..old(self).spec_ch0_pending()
            }),
            final(self).spec_ch0() == old(self).spec_ch0(),
            final(self).spec_ch2() == old(self).spec_ch2(),
            final(self).spec_ch2_pending() == old(self).spec_ch2_pending(),
    {
        self.ch0_pending.reload = value;
    }

    /// Puts the pending settings of channel 0 in force and returns the
    /// command byte that sets them, to be sent to the command port.
    pub fn ch0_commit_settings(&mut self) -> (r: Command)
        ensures
            r@ == command_byte(
                0,
                old(self).spec_ch0_pending().access.spec_code(),
                old(self).spec_ch0_pending().operating.spec_code(),
                false,
            ),
            final(self).spec_ch0() == old(self).spec_ch0_pending(),
            final(self).spec_ch0_pending() == old(self).spec_ch0_pending(),
            final(self).spec_ch2() == old(self).spec_ch2(),
            final(self).spec_ch2_pending() == old(self).spec_ch2_pending(),
    {
        let cmd = Command::new(
            Some(Channel::Channel0),
            Some(self.ch0_pending.access),
            self.ch0_pending.operating,
        );
        self.ch0 = self.ch0_pending;
        cmd
    }

    /// Commits the pending reload value of channel 0 under the access mode
    /// in force, and returns what to send to the channel's port. The value in
    /// force becomes what the PIT then holds; the pending value is kept
    /// whole.
    pub fn ch0_commit_reload(&mut self) -> (r: ReloadWrite)
        ensures
            (final(self).spec_ch0().reload, r) == reload_commit(
                old(self).spec_ch0().access,
                old(self).spec_ch0_pending().reload,
            ),
            final(self).spec_ch0().access == old(self).spec_ch0().access,
            final(self).spec_ch0().operating == old(self).spec_ch0().operating,
            final(self).spec_ch0_pending() == old(self).spec_ch0_pending(),
            final(self).spec_ch2() == old(self).spec_ch2(),
            final(self).spec_ch2_pending() == old(self).spec_ch2_pending(),
    {
        let (reload, write) = commit_reload_value(self.ch0.access, self.ch0_pending.reload);
        self.ch0.reload = reload;
        write
    }

    /// Commits the pending settings, then the pending reload value, of
    /// channel 0; returns the command byte and the reload write, to be sent
    /// in that order.
    pub fn ch0_commit_all(&mut self) -> (r: (Command, ReloadWrite))
        ensures
            r.0@ == command_byte(
                0,
                old(self).spec_ch0_pending().access.spec_code(),
                old(self).spec_ch0_pending().operating.spec_code(),
                false,
            ),
            (final(self).spec_ch0().reload, r.1) == reload_commit(
                old(self).spec_ch0_pending().access,
                old(self).spec_ch0_pending().reload,
            ),
            final(self).spec_ch0().access == old(self).spec_ch0_pending().access,
            final(self).spec_ch0().operating == old(self).spec_ch0_pending().operating,
            final(self).spec_ch0_pending() == old(self).spec_ch0_pending(),
            final(self).spec_ch2() == old(self).spec_ch2(),
            final(self).spec_ch2_pending() == old(self).spec_ch2_pending(),
    {
        let cmd = self.ch0_commit_settings();
        let write = self.ch0_commit_reload();
        (cmd, write)
    }

    /// Reload value of channel 0 in force.
    pub fn ch0_reload_count(&self) -> (r: u16)
        ensures
            r == self.spec_ch0().reload,
    {
        self.ch0.reload
    }

    /// Pending reload value of channel 0.
    pub fn ch0_pending_reload_count(&self) -> (r: u16)
        ensures
            r == self.spec_ch0_pending().reload,
    {
        self.ch0_pending.reload
    }

    /// Access mode of channel 0 in force.
    pub fn ch0_access(&self) -> (r: AccessMode)
        ensures
            r == self.spec_ch0().access,
    {
        self.ch0.access
    }

    /// Pending access mode of channel 0.
    pub fn ch0_pending_access(&self) -> (r: AccessMode)
        ensures
            r == self.spec_ch0_pending().access,
    {
        self.ch0_pending.access
    }

    /// Operating mode of channel 0 in force.
    pub fn ch0_operating(&self) -> (r: OperatingMode)
        ensures
            r == self.spec_ch0().operating,
    {
        self.ch0.operating
    }

    /// Pending operating mode of channel 0.
    pub fn ch0_pending_operating(&self) -> (r: OperatingMode)
        ensures
            r == self.spec_ch0_pending().operating,
    {
        self.ch0_pending.operating
    }

    /// Changes the pending access mode of channel 2.
    pub fn ch2_set_access(&mut self, mode: AccessMode)
        ensures
            final(self).spec_ch2_pending() == (ChannelInfo {
                access: mode,
                ..old(self).spec_ch2_pending()
            }),
            final(self).spec_ch2() == old(self).spec_ch2(),
            final(self).spec_ch0() == old(self).spec_ch0(),
            final(self).spec_ch0_pending() == old(self).spec_ch0_pending(),
    {
        self.ch2_pending.access = mode;
    }

    /// Changes the pending operating mode of channel 2.
    pub fn ch2_set_operating(&mut self, mode: OperatingMode)
        ensures
            final(self).spec_ch2_pending() == (ChannelInfo {
                operating: mode,
                ..old(self).spec_ch2_pending()
            }),
            final(self).spec_ch2() == old(self).spec_ch2(),
            final(self).spec_ch0() == old(self).spec_ch0(),
            final(self).spec_ch0_pending() == old(self).spec_ch0_pending(),
    {
        self.ch2_pending.operating = mode;
    }

    /// Changes the pending reload value of channel 2.
    pub fn ch2_set_reload(&mut self, value: u16)
        ensures
            final(self).spec_ch2_pending() == (ChannelInfo {
                reload: value,
                ..old(self).spec_ch2_pending()
            }),
            final(self).spec_ch2() == old(self).spec_ch2(),
            final(self).spec_ch0() == old(self).spec_ch0(),
            final(self).spec_ch0_pending() == old(self).spec_ch0_pending(),
    {
        self.ch2_pending.reload = value;
    }

    /// Puts the pending settings of channel 2 in force and returns the
    /// command byte that sets them, to be sent to the command port.
    pub fn ch2_commit_settings(&mut self) -> (r: Command)
        ensures
            r@ == command_byte(
                2,
                old(self).spec_ch2_pending().access.spec_code(),
                old(self).spec_ch2_pending().operating.spec_code(),
                false,
            ),
            final(self).spec_ch2() == old(self).spec_ch2_pending(),
            final(self).spec_ch2_pending() == old(self).spec_ch2_pending(),
            final(self).spec_ch0() == old(self).spec_ch0(),
            final(self).spec_ch0_pending() == old(self).spec_ch0_pending(),
    {
        let cmd = Command::new(
            Some(Channel::Channel2),
            Some(self.ch2_pending.access),
            self.ch2_pending.operating,
        );
        self.ch2 = self.ch2_pending;
        cmd
    }

    /// Commits the pending reload value of channel 2 under the access mode
    /// in force, and returns what to send to the channel's port. The value in
    /// force becomes what the PIT then holds; the pending value is kept
    /// whole.
    pub fn ch2_commit_reload(&mut self) -> (r: ReloadWrite)
        ensures
            (final(self).spec_ch2().reload, r) == reload_commit(
                old(self).spec_ch2().access,
                old(self).spec_ch2_pending().reload,
            ),
            final(self).spec_ch2().access == old(self).spec_ch2().access,
            final(self).spec_ch2().operating == old(self).spec_ch2().operating,
            final(self).spec_ch2_pending() == old(self).spec_ch2_pending(),
            final(self).spec_ch0() == old(self).spec_ch0(),
            final(self).spec_ch0_pending() == old(self).spec_ch0_pending(),
    {
        let (reload, write) = commit_reload_value(self.ch2.access, self.ch2_pending.reload);
        self.ch2.reload = reload;
        write
    }

    /// Commits the pending settings, then the pending reload value, of
    /// channel 2; returns the command byte and the reload write, to be sent
    /// in that order.
    pub fn ch2_commit_all(&mut self) -> (r: (Command, ReloadWrite))
        ensures
            r.0@ == command_byte(
                2,
                old(self).spec_ch2_pending().access.spec_code(),
                old(self).spec_ch2_pending().operating.spec_code(),
                false,
            ),
            (final(self).spec_ch2().reload, r.1) == reload_commit(
                old(self).spec_ch2_pending().access,
                old(self).spec_ch2_pending().reload,
            ),
            final(self).spec_ch2().access == old(self).spec_ch2_pending().access,
            final(self).spec_ch2().operating == old(self).spec_ch2_pending().operating,
            final(self).spec_ch2_pending() == old(self).spec_ch2_pending(),
            final(self).spec_ch0() == old(self).spec_ch0(),
            final(self).spec_ch0_pending() == old(self).spec_ch0_pending(),
    {
        let cmd = self.ch2_commit_settings();
        let write = self.ch2_commit_reload();
        (cmd, write)
    }

    /// Reload value of channel 2 in force.
    pub fn ch2_reload_count(&self) -> (r: u16)
        ensures
            r == self.spec_ch2().reload,
    {
        self.ch2.reload
    }

    /// Pending reload value of channel 2.
    pub fn ch2_pending_reload_count(&self) -> (r: u16)
        ensures
            r == self.spec_ch2_pending().reload,
    {
        self.ch2_pending.reload
    }

    /// Access mode of channel 2 in force.
    pub fn ch2_access(&self) -> (r: AccessMode)
        ensures
            r == self.spec_ch2().access,
    {
        self.ch2.access
    }

    /// Pending access mode of channel 2.
    pub fn ch2_pending_access(&self) -> (r: AccessMode)
        ensures
            r == self.spec_ch2_pending().access,
    {
        self.ch2_pending.access
    }

    /// Operating mode of channel 2 in force.
    pub fn ch2_operating(&self) -> (r: OperatingMode)
        ensures
            r == self.spec_ch2().operating,
    {
        self.ch2.operating
    }

    /// Pending operating mode of channel 2.
    pub fn ch2_pending_operating(&self) -> (r: OperatingMode)
        ensures
            r == self.spec_ch2_pending().operating,
    {
        self.ch2_pending.operating
    }
}

} // verus!
