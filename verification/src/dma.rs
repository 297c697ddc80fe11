//! The DMA controller: seven channels, a control word and the interrupt
//! register.

use vstd::prelude::*;
use crate::bits::{bit, bits};
use crate::channel::{flag, Channel};

verus! {

/// The seven ports, each with a channel of its own.
#[derive(Clone, Copy, Debug, PartialEq, Eq, Structural)]
pub enum Port {
    /// Macroblock decoder input
    MdecIn,
    /// Macroblock decoder output
    MdecOut,
    /// Graphics Processing Unit
    Gpu,
    /// CD-ROM drive
    CdRom,
    /// Sound Processing Unit
    Spu,
    /// Extension port
    Pio,
    /// Used to clear the ordering table
    Otc,
}

impl Port {
    /// The number of the port's channel.
    pub open spec fn spec_index(self) -> usize {
        match self {
            Port::MdecIn => 0,
            Port::MdecOut => 1,
            Port::Gpu => 2,
            Port::CdRom => 3,
            Port::Spu => 4,
            Port::Pio => 5,
            Port::Otc => 6,
        }
    }

    /// The port of channel `index`.
    pub open spec fn spec_from_index(index: u32) -> Port
        recommends
            index <= 6,
    {
        if index == 0 {
            Port::MdecIn
        } else if index == 1 {
            Port::MdecOut
        } else if index == 2 {
            Port::Gpu
        } else if index == 3 {
            Port::CdRom
        } else if index == 4 {
            Port::Spu
        } else if index == 5 {
            Port::Pio
        } else {
            Port::Otc
        }
    }

    /// The number of the port's channel, 0 to 6.
    #[verifier::when_used_as_spec(spec_index)]
    pub fn index(self) -> (r: usize)
        ensures
            r == self.spec_index(),
            r <= 6,
    {
        match self {
            Port::MdecIn => 0,
            Port::MdecOut => 1,
            Port::Gpu => 2,
            Port::CdRom => 3,
            Port::Spu => 4,
            Port::Pio => 5,
            Port::Otc => 6,
        }
    }

    /// The port of channel `index`.
    #[verifier::when_used_as_spec(spec_from_index)]
    pub fn from_index(index: u32) -> (p: Port)
        requires
            index <= 6,
        ensures
            p == Port::spec_from_index(index),
            p.spec_index() == index,
    {
        match index {
            0 => Port::MdecIn,
            1 => Port::MdecOut,
            2 => Port::Gpu,
            3 => Port::CdRom,
            4 => Port::Spu,
            5 => Port::Pio,
            _ => Port::Otc,
        }
    }
}

/// The model of the controller.
pub struct DmaState {
    pub control: u32,
    pub irq_en: bool,
    pub channel_irq_en: u8,
    pub channel_irq_flags: u8,
    pub force_irq: bool,
    pub irq_dummy: u8,
    pub channels: Seq<Channel>,
}

impl DmaState {
    /// Seven channels, and the interrupt fields within their bit widths.
    pub open spec fn wf(self) -> bool {
        &&& self.channels.len() == 7
        &&& self.channel_irq_en <= 0x7f
        &&& self.channel_irq_flags <= 0x7f
        &&& self.irq_dummy <= 0x3f
    }

    /// The controller after reset.
    pub open spec fn initial() -> DmaState {
        DmaState {
            control: 0x0765_4321,
            irq_en: false,
            channel_irq_en: 0,
            channel_irq_flags: 0,
            force_irq: false,
            irq_dummy: 0,
            channels: Seq::new(7, |i: int| Channel::initial()),
        }
    }

    /// The interrupt line: forced, or enabled with a flagged channel whose
    /// interrupt is enabled.
    pub open spec fn irq(self) -> bool {
        self.force_irq || (self.irq_en && (self.channel_irq_flags & self.channel_irq_en) != 0)
    }

    /// The interrupt register: bits without a meaning in 5..=0, the forcing
    /// bit in 15, the channels' enable bits in 22..=16, the master enable in
    /// 23, the channels' flags in 30..=24 and the interrupt line in 31.
    pub open spec fn interrupt(self) -> u32 {
        (self.irq_dummy as u32) | (flag(self.force_irq) << 15) | ((self.channel_irq_en as u32)
            << 16) | (flag(self.irq_en) << 23) | ((self.channel_irq_flags as u32) << 24) | (flag(
            self.irq(),
        ) << 31)
    }

    /// The controller after `val` was written to the interrupt register: the
    /// fields are set from their bits, but a channel's flag is cleared where
    /// its bit in `val` is set, and kept where it is not.
    pub open spec fn with_interrupt(self, val: u32) -> DmaState {
        DmaState {
            irq_dummy: bits(val, 5, 0) as u8,
            force_irq: bit(val, 15) != 0,
            channel_irq_en: bits(val, 22, 16) as u8,
            irq_en: bit(val, 23) != 0,
            channel_irq_flags: self.channel_irq_flags & !(bits(val, 30, 24) as u8),
            ..self
        }
    }

    /// The channel of `port`.
    pub open spec fn channel(self, port: Port) -> Channel {
        self.channels[port.spec_index() as int]
    }

    /// The controller with the channel of `port` replaced.
    pub open spec fn with_channel(self, port: Port, c: Channel) -> DmaState {
        DmaState { channels: self.channels.update(port.spec_index() as int, c), ..self }
    }
}

/// The DMA controller.
pub struct Dma {
    control: u32,
    irq_en: bool,
    channel_irq_en: u8,
    channel_irq_flags: u8,
    force_irq: bool,
    irq_dummy: u8,
    channels: [Channel; 7],
}

impl View for Dma {
    type V = DmaState;

    closed spec fn view(&self) -> DmaState {
        DmaState {
            control: self.control,
            irq_en: self.irq_en,
            channel_irq_en: self.channel_irq_en,
            channel_irq_flags: self.channel_irq_flags,
            force_irq: self.force_irq,
            irq_dummy: self.irq_dummy,
            channels: self.channels@,
        }
    }
}

proof fn lemma_interrupt_fields(v: u32, f: u8)
    by (bit_vector)
    ensures
        v & 0x3f == bits(v, 5, 0),
        (v >> 15) & 1 == bit(v, 15),
        (v >> 16) & 0x7f == bits(v, 22, 16),
        (v >> 23) & 1 == bit(v, 23),
        (v >> 24) & 0x7f == bits(v, 30, 24),
        bits(v, 5, 0) <= 0x3f,
        bits(v, 22, 16) <= 0x7f,
        bits(v, 30, 24) <= 0x7f,
        f <= 0x7f ==> f & !(bits(v, 30, 24) as u8) <= 0x7f,
{
}

impl Dma {
    /// The controller after reset: control word `0x0765_4321`, no interrupt
    /// enabled or flagged, every channel as after its own reset.
    pub fn new() -> (dma: Dma)
        ensures
            dma@ == DmaState::initial(),
            dma@.wf(),
    {
        let dma = Dma {
            control: 0x0765_4321,
            irq_en: false,
            channel_irq_en: 0,
            channel_irq_flags: 0,
            force_irq: false,
            irq_dummy: 0,
            channels: [Channel::new();7],
        };
        assert(dma@.channels =~= DmaState::initial().channels);
        dma
    }

    /// The control word.
    pub fn control(&self) -> (r: u32)
        ensures
            r == self@.control,
    {
        self.control
    }

    /// Sets the control word.
    pub fn set_control(&mut self, val: u32)
        ensures
            final(self)@ == (DmaState { control: val, ..old(self)@ }),
    {
        self.control = val;
    }

    /// The interrupt line.
    fn irq(&self) -> (r: bool)
        ensures
            r == self@.irq(),
    {
        let channel_irq: u8 = self.channel_irq_flags & self.channel_irq_en;
        self.force_irq || (self.irq_en && channel_irq != 0)
    }

    /// The interrupt register.
    pub fn interrupt(&self) -> (r: u32)
        ensures
            r == self@.interrupt(),
    {
        let mut r: u32 = 0;
        r |= self.irq_dummy as u32;
        r |= (if self.force_irq { 1u32 } else { 0u32 }) << 15;
        r |= (self.channel_irq_en as u32) << 16;
        r |= (if self.irq_en { 1u32 } else { 0u32 }) << 23;
        r |= (self.channel_irq_flags as u32) << 24;
        r |= (if self.irq() { 1u32 } else { 0u32 }) << 31;
        proof {
            let a = self.irq_dummy as u32;
            assert(0u32 | a == a) by (bit_vector);
        }
        r
    }

    /// Writes the interrupt register: sets the fields, and acknowledges the
    /// channels whose flag bit is set in `val`.
    pub fn set_interrupt(&mut self, val: u32)
        ensures
            final(self)@ == old(self)@.with_interrupt(val),
            old(self)@.wf() ==> final(self)@.wf(),
    {
        proof {
            lemma_interrupt_fields(val, self.channel_irq_flags);
        }
        self.irq_dummy = (val & 0x3f) as u8;
        self.force_irq = (val >> 15) & 1 != 0;
        self.channel_irq_en = ((val >> 16) & 0x7f) as u8;
        self.irq_en = (val >> 23) & 1 != 0;
        let ack: u8 = ((val >> 24) & 0x7f) as u8;
        self.channel_irq_flags = self.channel_irq_flags & !ack;
    }

    /// The channel of `port`.
    pub fn channel(&self, port: Port) -> (c: &Channel)
        ensures
            *c == self@.channel(port),
    {
        &self.channels[port.index()]
    }

    /// The channel of `port`, to be changed in place.
    pub fn channel_mut(&mut self, port: Port) -> (c: &mut Channel)
        ensures
            *c == old(self)@.channel(port),
            final(self)@ == old(self)@.with_channel(port, *final(c)),
    {
        &mut self.channels[port.index()]
    }
}

} // verus!
