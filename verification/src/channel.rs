//! One DMA channel: its registers, their packed forms, and whether it is due
//! to run.

use vstd::prelude::*;
use crate::bits::{bit, bits};
use crate::error::Fatal;

verus! {

/// Which way a transfer goes.
#[derive(Clone, Copy, Debug, PartialEq, Eq, Structural)]
pub enum Direction {
    ToRam,
    FromRam,
}

/// How the address moves from word to word.
#[derive(Clone, Copy, Debug, PartialEq, Eq, Structural)]
pub enum Step {
    Increment,
    Decrement,
}

/// How a transfer is synchronised.
#[derive(Clone, Copy, Debug, PartialEq, Eq, Structural)]
pub enum Sync {
    /// Started by the trigger bit, all at once.
    Manual,
    /// Block by block, as the device asks.
    Request,
    /// Along a chain of packets in memory.
    LinkedList,
}

/// The registers of one channel.
#[derive(Clone, Copy, Debug, PartialEq, Eq, Structural)]
pub struct Channel {
    pub enable: bool,
    pub direction: Direction,
    pub step: Step,
    pub sync: Sync,
    pub trigger: bool,
    pub chop: bool,
    pub chop_dma_sz: u8,
    pub chop_cpu_sz: u8,
    pub dummy: u8,
    pub base: u32,
    pub block_size: u16,
    pub block_count: u16,
}

/// The bits of a control word that a channel keeps.
pub const CONTROL_MASK: u32 = 0x7177_0703;

/// 1 for `true`, 0 for `false`.
pub open spec fn flag(b: bool) -> u32 {
    if b {
        1
    } else {
        0
    }
}

fn flag_bit(b: bool) -> (r: u32)
    ensures
        r == flag(b),
{
    if b {
        1
    } else {
        0
    }
}

/// The two-bit code of a synchronisation mode.
pub open spec fn sync_code(s: Sync) -> u32 {
    match s {
        Sync::Manual => 0,
        Sync::Request => 1,
        Sync::LinkedList => 2,
    }
}

/// What the shifts and masks of the setters compute, and the words that the
/// getters pack, field by field.
proof fn lemma_control_fields(v: u32)
    by (bit_vector)
    ensures
        v & 1 == bit(v, 0),
        (v >> 1) & 1 == bit(v, 1),
        (v >> 8) & 1 == bit(v, 8),
        (v >> 9) & 3 == bits(v, 10, 9),
        (v >> 16) & 7 == bits(v, 18, 16),
        (v >> 20) & 7 == bits(v, 22, 20),
        (v >> 24) & 1 == bit(v, 24),
        (v >> 28) & 1 == bit(v, 28),
        (v >> 29) & 3 == bits(v, 30, 29),
        bits(v, 10, 9) <= 3,
        bits(v, 18, 16) <= 7,
        bits(v, 22, 20) <= 7,
        bits(v, 30, 29) <= 3,
        v & 0xffff == bits(v, 15, 0),
        v >> 16 == bits(v, 31, 16),
        bits(v, 15, 0) <= 0xffff,
        bits(v, 31, 16) <= 0xffff,
        v & 0xff_ffff == bits(v, 23, 0),
        bits(v, 23, 0) <= 0xff_ffff,
        (bits(v, 31, 16) << 16) | bits(v, 15, 0) == v,
        bit(v, 0) | (bit(v, 1) << 1) | (bit(v, 8) << 8) | (bits(v, 10, 9) << 9) | (bits(v, 18, 16)
            << 16) | (bits(v, 22, 20) << 20) | (bit(v, 24) << 24) | (bit(v, 28) << 28) | (bits(
            v,
            30,
            29,
        ) << 29) == v & 0x7177_0703,
{
}

/// The fields of a packed control word are the values that were packed.
proof fn lemma_control_unpack(
    d: u32,
    s: u32,
    c: u32,
    y: u32,
    m: u32,
    p: u32,
    e: u32,
    t: u32,
    u: u32,
)
    by (bit_vector)
    requires
        d <= 1,
        s <= 1,
        c <= 1,
        y <= 3,
        m <= 7,
        p <= 7,
        e <= 1,
        t <= 1,
        u <= 3,
    ensures
        ({
            let w = d | (s << 1) | (c << 8) | (y << 9) | (m << 16) | (p << 20) | (e << 24) | (t
                << 28) | (u << 29);
            &&& bit(w, 0) == d
            &&& bit(w, 1) == s
            &&& bit(w, 8) == c
            &&& bits(w, 10, 9) == y
            &&& bits(w, 18, 16) == m
            &&& bits(w, 22, 20) == p
            &&& bit(w, 24) == e
            &&& bit(w, 28) == t
            &&& bits(w, 30, 29) == u
        }),
{
}

/// The halves of a packed block word are the values that were packed.
proof fn lemma_block_unpack(bc: u32, bs: u32)
    by (bit_vector)
    requires
        bc <= 0xffff,
        bs <= 0xffff,
    ensures
        bits((bc << 16) | bs, 15, 0) == bs,
        bits((bc << 16) | bs, 31, 16) == bc,
{
}

impl Channel {
    /// The fields lie in the ranges that their places in the control word
    /// and the 24-bit base register allow.
    pub open spec fn wf(self) -> bool {
        &&& self.chop_dma_sz <= 7
        &&& self.chop_cpu_sz <= 7
        &&& self.dummy <= 3
        &&& self.base <= 0xff_ffff
    }

    /// A channel after reset.
    pub open spec fn initial() -> Channel {
        Channel {
            enable: false,
            direction: Direction::ToRam,
            step: Step::Increment,
            sync: Sync::Manual,
            trigger: false,
            chop: false,
            chop_dma_sz: 0,
            chop_cpu_sz: 0,
            dummy: 0,
            base: 0,
            block_size: 0,
            block_count: 16,
        }
    }

    /// The number of words of a block transfer: one block for `Manual`, all
    /// blocks for `Request`, unknown for `LinkedList`.
    pub open spec fn spec_transfer_size(&self) -> Option<u32> {
        match self.sync {
            Sync::Manual => Some(self.block_size as u32),
            Sync::Request => Some((self.block_count * self.block_size) as u32),
            Sync::LinkedList => None,
        }
    }

    /// The channel once its transfer has ended.
    pub open spec fn spec_done(self) -> Channel {
        Channel { enable: false, trigger: false, ..self }
    }

    /// Whether the channel is due to run: it is enabled and, in `Manual`
    /// mode, triggered too.
    pub open spec fn spec_active(&self) -> bool {
        self.enable && (self.sync != Sync::Manual || self.trigger)
    }

    /// The block register: the count in the high half, the size in the low.
    pub open spec fn spec_block_control(&self) -> u32 {
        ((self.block_count as u32) << 16) | (self.block_size as u32)
    }

    /// The channel with the block register set to `val`.
    pub open spec fn with_block_control(self, val: u32) -> Channel {
        Channel {
            block_size: bits(val, 15, 0) as u16,
            block_count: bits(val, 31, 16) as u16,
            ..self
        }
    }

    /// The channel with the base register set to the low 24 bits of `val`.
    pub open spec fn with_base(self, val: u32) -> Channel {
        Channel { base: bits(val, 23, 0), ..self }
    }

    /// The control register: direction in bit 0, step in bit 1, chopping in
    /// bit 8, synchronisation in bits 10..=9, the chopping window sizes in
    /// bits 18..=16 and 22..=20, enable in bit 24, the trigger in bit 28 and
    /// two bits without a meaning in bits 30..=29.
    pub open spec fn spec_control(&self) -> u32 {
        flag(self.direction == Direction::FromRam) | (flag(self.step == Step::Decrement) << 1) | (
        flag(self.chop) << 8) | (sync_code(self.sync) << 9) | ((self.chop_dma_sz as u32) << 16) | ((
        self.chop_cpu_sz as u32) << 20) | (flag(self.enable) << 24) | (flag(self.trigger) << 28)
            | ((self.dummy as u32) << 29)
    }

    /// Whether a control word can be taken: its synchronisation field is
    /// not the reserved code 3.
    pub open spec fn control_accepted(val: u32) -> bool {
        bits(val, 10, 9) != 3
    }

    /// The channel with the control register set to `val`.
    pub open spec fn with_control(self, val: u32) -> Channel
        recommends
            Self::control_accepted(val),
    {
        Channel {
            direction: if bit(val, 0) != 0 {
                Direction::FromRam
            } else {
                Direction::ToRam
            },
            step: if bit(val, 1) != 0 {
                Step::Decrement
            } else {
                Step::Increment
            },
            chop: bit(val, 8) != 0,
            sync: if bits(val, 10, 9) == 0 {
                Sync::Manual
            } else if bits(val, 10, 9) == 1 {
                Sync::Request
            } else {
                Sync::LinkedList
            },
            chop_dma_sz: bits(val, 18, 16) as u8,
            chop_cpu_sz: bits(val, 22, 20) as u8,
            enable: bit(val, 24) != 0,
            trigger: bit(val, 28) != 0,
            dummy: bits(val, 30, 29) as u8,
            ..self
        }
    }

    /// A channel after reset: disabled, towards memory, counting up, manual,
    /// sixteen blocks of no words.
    pub fn new() -> (c: Channel)
        ensures
            c == Channel::initial(),
            c.wf(),
    {
        Channel {
            enable: false,
            direction: Direction::ToRam,
            step: Step::Increment,
            sync: Sync::Manual,
            trigger: false,
            chop: false,
            chop_dma_sz: 0,
            chop_cpu_sz: 0,
            dummy: 0,
            base: 0,
            block_size: 0,
            block_count: 16,
        }
    }

    /// The number of words of a block transfer, `None` in linked-list mode.
    #[verifier::when_used_as_spec(spec_transfer_size)]
    pub fn transfer_size(&self) -> (r: Option<u32>)
        ensures
            r == self.spec_transfer_size(),
    {
        let bs: u32 = self.block_size as u32;
        let bc: u32 = self.block_count as u32;
        match self.sync {
            Sync::Manual => Some(bs),
            Sync::Request => {
                assert(bc * bs <= 0xffff * 0xffff) by (nonlinear_arith)
                    requires
                        bc <= 0xffff,
                        bs <= 0xffff,
                ;
                Some(bc * bs)
            },
            Sync::LinkedList => None,
        }
    }

    /// Marks the transfer as ended: clears enable and the trigger.
    pub fn done(&mut self)
        ensures
            *final(self) == old(self).spec_done(),
    {
        self.enable = false;
        self.trigger = false;
    }

    /// Whether the channel is due to run.
    #[verifier::when_used_as_spec(spec_active)]
    pub fn active(&self) -> (r: bool)
        ensures
            r == self.spec_active(),
            r == (self.enable && (self.sync != Sync::Manual || self.trigger)),
    {
        let trigger = match self.sync {
            Sync::Manual => self.trigger,
            _ => true,
        };
        self.enable && trigger
    }

    /// The block register.
    #[verifier::when_used_as_spec(spec_block_control)]
    pub fn block_control(&self) -> (r: u32)
        ensures
            r == self.spec_block_control(),
    {
        let bs: u32 = self.block_size as u32;
        let bc: u32 = self.block_count as u32;
        (bc << 16) | bs
    }

    /// Sets the block register: size from the low half, count from the high.
    pub fn set_block_control(&mut self, val: u32)
        ensures
            *final(self) == old(self).with_block_control(val),
            final(self).spec_block_control() == val,
    {
        proof {
            lemma_control_fields(val);
        }
        self.block_size = (val & 0xffff) as u16;
        self.block_count = (val >> 16) as u16;
    }

    /// The base address.
    pub fn base(&self) -> (r: u32)
        ensures
            r == self.base,
    {
        self.base
    }

    /// Sets the base address, of which 24 bits are kept.
    pub fn set_base(&mut self, val: u32)
        ensures
            *final(self) == old(self).with_base(val),
            final(self).base <= 0xff_ffff,
    {
        proof {
            lemma_control_fields(val);
        }
        self.base = val & 0xff_ffff;
    }

    /// The control register.
    #[verifier::when_used_as_spec(spec_control)]
    pub fn control(&self) -> (r: u32)
        ensures
            r == self.spec_control(),
    {
        let mut r: u32 = 0;
        r |= flag_bit(self.direction == Direction::FromRam);
        r |= flag_bit(self.step == Step::Decrement) << 1;
        r |= flag_bit(self.chop) << 8;
        let sync: u32 = match self.sync {
            Sync::Manual => 0,
            Sync::Request => 1,
            Sync::LinkedList => 2,
        };
        r |= sync << 9;
        r |= (self.chop_dma_sz as u32) << 16;
        r |= (self.chop_cpu_sz as u32) << 20;
        r |= flag_bit(self.enable) << 24;
        r |= flag_bit(self.trigger) << 28;
        r |= (self.dummy as u32) << 29;
        proof {
            let a = flag(self.direction == Direction::FromRam);
            assert(0u32 | a == a) by (bit_vector);
        }
        r
    }

    /// Sets the control register from `val`, unless `val` asks for the
    /// reserved synchronisation mode: then the channel stays as it is.
    pub fn set_control(&mut self, val: u32) -> (r: Result<(), Fatal>)
        ensures
            Self::control_accepted(val) ==> r is Ok && *final(self) == old(self).with_control(val),
            !Self::control_accepted(val) ==> r == Err::<(), Fatal>(Fatal::ReservedSync)
                && *final(self) == *old(self),
            old(self).wf() ==> final(self).wf(),
    {
        proof {
            lemma_control_fields(val);
        }
        let sync = match (val >> 9) & 3 {
            0 => Sync::Manual,
            1 => Sync::Request,
            2 => Sync::LinkedList,
            _ => {
                return Err(Fatal::ReservedSync);
            },
        };
        self.direction = if val & 1 != 0 {
            Direction::FromRam
        } else {
            Direction::ToRam
        };
        self.step = if (val >> 1) & 1 != 0 {
            Step::Decrement
        } else {
            Step::Increment
        };
        self.chop = (val >> 8) & 1 != 0;
        self.sync = sync;
        self.chop_dma_sz = ((val >> 16) & 7) as u8;
        self.chop_cpu_sz = ((val >> 20) & 7) as u8;
        self.enable = (val >> 24) & 1 != 0;
        self.trigger = (val >> 28) & 1 != 0;
        self.dummy = ((val >> 29) & 3) as u8;
        Ok(())
    }
}

/// Writing back the control word that a channel gives changes nothing, and
/// the word is always taken.
pub proof fn lemma_set_control_of_control(c: Channel)
    requires
        c.wf(),
    ensures
        Channel::control_accepted(c.spec_control()),
        c.with_control(c.spec_control()) == c,
{
    lemma_control_unpack(
        flag(c.direction == Direction::FromRam),
        flag(c.step == Step::Decrement),
        flag(c.chop),
        sync_code(c.sync),
        c.chop_dma_sz as u32,
        c.chop_cpu_sz as u32,
        flag(c.enable),
        flag(c.trigger),
        c.dummy as u32,
    );
}

/// After a control word was set, the control register reads as that word,
/// less the bits that no field keeps.
pub proof fn lemma_control_of_set_control(c: Channel, val: u32)
    requires
        Channel::control_accepted(val),
    ensures
        c.with_control(val).spec_control() == val & CONTROL_MASK,
{
    lemma_control_fields(val);
    let d = bit(val, 0);
    let s = bit(val, 1);
    let h = bit(val, 8);
    let e = bit(val, 24);
    let t = bit(val, 28);
    assert(d <= 1 && s <= 1 && h <= 1 && e <= 1 && t <= 1) by (bit_vector)
        requires
            d == bit(val, 0),
            s == bit(val, 1),
            h == bit(val, 8),
            e == bit(val, 24),
            t == bit(val, 28),
    ;
}

/// The block register gives back what was set, and setting what it gives
/// changes nothing.
pub proof fn lemma_block_control_round_trip(c: Channel, val: u32)
    ensures
        c.with_block_control(val).spec_block_control() == val,
        c.with_block_control(c.spec_block_control()) == c,
{
    lemma_control_fields(val);
    lemma_block_unpack(c.block_count as u32, c.block_size as u32);
}

/// The base register gives back the low 24 bits of what was set, and setting
/// what it gives changes nothing.
pub proof fn lemma_base_round_trip(c: Channel, val: u32)
    ensures
        c.with_base(val).base == val & 0xff_ffff,
        c.wf() ==> c.with_base(c.base) == c,
{
    lemma_control_fields(val);
    let b = c.base;
    assert(b <= 0xff_ffff ==> bits(b, 23, 0) == b) by (bit_vector);
}

} // verus!
