//! What a DMA transfer reads and writes: the addresses it visits, the words
//! that clear an ordering table, and the words of a chain of packets.

use vstd::prelude::*;
use vstd::relations::injective_on;
use vstd::set_lib::{lemma_int_range, lemma_len_subset, lemma_map_size, set_int_range};
use crate::channel::{Channel, Step};
use crate::memory::{lemma_read32_after_write32, lemma_read32_other_write32, read32, write32};

verus! {

/// The most packets a chain can have before it visits a header twice: the
/// number of words in main memory.
pub const MAX_PACKETS: u32 = 0x8_0000;

/// The place in main memory that the address register `addr` stands for:
/// within 2 MiB, on a word boundary.
pub open spec fn ram_address(addr: u32) -> u32 {
    addr & 0x1f_fffc
}

/// The address register before word `k` of a block transfer: the base, moved
/// by four for each word before it, up or down, wrapping at 32 bits.
pub open spec fn word_address(c: Channel, k: int) -> u32 {
    match c.step {
        Step::Increment => ((c.base + 4 * k) % 0x1_0000_0000) as u32,
        Step::Decrement => ((c.base - 4 * k) % 0x1_0000_0000) as u32,
    }
}

/// Word `k` of the `n` that clear an ordering table: each entry points to
/// the one four bytes below it, and the last written marks the end.
pub open spec fn otc_word(c: Channel, n: int, k: int) -> u32 {
    if k == n - 1 {
        0xff_ffff
    } else {
        (((word_address(c, k) - 4) % 0x1_0000_0000) as u32) & 0x1f_ffff
    }
}

/// Main memory after the first `k` of the `n` words that clear an ordering
/// table were written.
pub open spec fn otc_fill(ram: Seq<u8>, c: Channel, n: int, k: int) -> Seq<u8>
    decreases k,
{
    if k <= 0 {
        ram
    } else {
        write32(
            otc_fill(ram, c, n, k - 1),
            ram_address(word_address(c, k - 1)) as int,
            otc_word(c, n, k - 1),
        )
    }
}

/// The `n` words that a block transfer reads from main memory, in order.
pub open spec fn words_from_ram(ram: Seq<u8>, c: Channel, n: int) -> Seq<u32> {
    Seq::new(n as nat, |k: int| read32(ram, ram_address(word_address(c, k)) as int))
}

/// The `count` words that follow the packet header at `header`, each four
/// bytes after the one before, wrapping within main memory.
pub open spec fn packet_words(ram: Seq<u8>, header: u32, count: int) -> Seq<u32> {
    Seq::new(count as nat, |i: int| read32(ram, ram_address((header + 4 * (i + 1)) as u32) as int))
}

/// The number of words in the packet with the header word `header`.
pub open spec fn packet_len(header: u32) -> u32 {
    header >> 24
}

/// Whether the header word `header` marks the last packet of a chain.
pub open spec fn is_last_packet(header: u32) -> bool {
    header & 0x80_0000 != 0
}

/// The words of the chain of packets that starts at `addr`, as far as
/// `fuel` packets reach, and whether the chain has ended by then.
pub open spec fn chain(ram: Seq<u8>, addr: u32, fuel: nat) -> (Seq<u32>, bool)
    decreases fuel,
{
    if fuel == 0 {
        (Seq::empty(), false)
    } else {
        let header = read32(ram, addr as int);
        let words = packet_words(ram, addr, packet_len(header) as int);
        if is_last_packet(header) {
            (words, true)
        } else {
            let rest = chain(ram, ram_address(header), (fuel - 1) as nat);
            (words + rest.0, rest.1)
        }
    }
}

/// Facts on the addresses of a transfer.
pub proof fn lemma_ram_address(addr: u32)
    ensures
        ram_address(addr) + 4 <= 0x20_0000,
        ram_address(addr) % 4 == 0,
        addr <= 0x7fff_fff0 ==> ram_address((ram_address(addr) + 4) as u32) == ram_address(
            (addr + 4) as u32,
        ),
        addr <= 0x1f_fffc && addr % 4 == 0 ==> ram_address(addr) == addr,
{
    assert(ram_address(addr) + 4 <= 0x20_0000 && ram_address(addr) % 4 == 0 && (addr
        <= 0x7fff_fff0 ==> ram_address((ram_address(addr) + 4) as u32) == ram_address(
        (addr + 4) as u32,
    )) && (addr <= 0x1f_fffc && addr % 4 == 0 ==> ram_address(addr) == addr)) by (bit_vector);
}

/// Writing the words that clear an ordering table keeps the size of memory.
pub proof fn lemma_otc_fill_len(ram: Seq<u8>, c: Channel, n: int, k: int)
    requires
        ram.len() == 0x20_0000,
    ensures
        otc_fill(ram, c, n, k).len() == 0x20_0000,
    decreases k,
{
    if k > 0 {
        lemma_otc_fill_len(ram, c, n, k - 1);
        lemma_ram_address(word_address(c, k - 1));
    }
}

/// Two address registers that lie `d` words apart, `d` less than the number
/// of words in main memory, stand for two places in main memory.
proof fn lemma_places_differ(x: u32, y: u32, d: u32)
    by (bit_vector)
    requires
        0 < d < 0x8_0000,
        y == (x + 4 * d) % 0x1_0000_0000,
    ensures
        ram_address(x) != ram_address(y),
{
}

/// The places of two different words of a block transfer differ, where the
/// transfer has no more words than main memory.
pub proof fn lemma_word_places_differ(c: Channel, j: int, k: int)
    requires
        0 <= j < k < MAX_PACKETS,
    ensures
        ram_address(word_address(c, j)) != ram_address(word_address(c, k)),
{
    let d = (k - j) as u32;
    match c.step {
        Step::Increment => lemma_places_differ(word_address(c, j), word_address(c, k), d),
        Step::Decrement => lemma_places_differ(word_address(c, k), word_address(c, j), d),
    }
}

/// Once written, entry `k` of an ordering table stays as it was written
/// while the entries after it are: after `m > k` of the `n` words, the
/// word at the place of word `k` is word `k`.
proof fn lemma_otc_fill_keeps(ram: Seq<u8>, c: Channel, n: int, k: int, m: int)
    requires
        ram.len() == 0x20_0000,
        0 <= k < m <= n <= MAX_PACKETS,
    ensures
        read32(otc_fill(ram, c, n, m), ram_address(word_address(c, k)) as int) == otc_word(c, n, k),
    decreases m,
{
    let at = ram_address(word_address(c, k)) as int;
    let before = otc_fill(ram, c, n, m - 1);
    let place = ram_address(word_address(c, m - 1)) as int;
    lemma_otc_fill_len(ram, c, n, m - 1);
    lemma_ram_address(word_address(c, k));
    lemma_ram_address(word_address(c, m - 1));
    if m - 1 == k {
        lemma_read32_after_write32(before, at, otc_word(c, n, k));
    } else {
        lemma_otc_fill_keeps(ram, c, n, k, m - 1);
        lemma_word_places_differ(c, k, m - 1);
        lemma_read32_other_write32(before, place, otc_word(c, n, m - 1), at);
    }
}

/// What clearing an ordering table of `n` entries leaves in main memory,
/// where `n` is no more than the number of words in main memory: at the
/// place of each word of the transfer stands that word, so each entry
/// points to the one four bytes below it and the last written ends the
/// table.
pub proof fn lemma_otc_fill_entries(ram: Seq<u8>, c: Channel, n: int, k: int)
    requires
        ram.len() == 0x20_0000,
        0 <= k < n <= MAX_PACKETS,
    ensures
        read32(otc_fill(ram, c, n, n), ram_address(word_address(c, k)) as int) == otc_word(c, n, k),
{
    lemma_otc_fill_keeps(ram, c, n, k, n);
}

/// Clearing an ordering table leaves every byte that belongs to none of
/// its entries as it was.
pub proof fn lemma_otc_fill_frame(ram: Seq<u8>, c: Channel, n: int, m: int, i: int)
    requires
        ram.len() == 0x20_0000,
        0 <= m,
        0 <= i < 0x20_0000,
        forall|k: int|
            0 <= k < m ==> !(ram_address(#[trigger] word_address(c, k)) <= i < ram_address(
                word_address(c, k),
            ) + 4),
    ensures
        otc_fill(ram, c, n, m)[i] == ram[i],
    decreases m,
{
    if m > 0 {
        lemma_otc_fill_frame(ram, c, n, m - 1, i);
        lemma_otc_fill_len(ram, c, n, m - 1);
        lemma_ram_address(word_address(c, m - 1));
        lemma_read32_after_write32(
            otc_fill(ram, c, n, m - 1),
            ram_address(word_address(c, m - 1)) as int,
            otc_word(c, n, m - 1),
        );
    }
}

/// A chain that ends within `fuel` packets is the same chain with any more
/// fuel.
pub proof fn lemma_chain_fuel(ram: Seq<u8>, addr: u32, fuel: nat, more: nat)
    requires
        chain(ram, addr, fuel).1,
        fuel <= more,
    ensures
        chain(ram, addr, more) == chain(ram, addr, fuel),
    decreases fuel,
{
    if fuel > 0 {
        let header = read32(ram, addr as int);
        if !is_last_packet(header) {
            lemma_chain_fuel(ram, ram_address(header), (fuel - 1) as nat, (more - 1) as nat);
        }
    }
}

/// The address of header `j` of the chain that starts at `addr`, whether
/// or not the chain has ended before it.
pub open spec fn header_at(ram: Seq<u8>, addr: u32, j: nat) -> u32
    decreases j,
{
    if j == 0 {
        addr
    } else {
        ram_address(read32(ram, header_at(ram, addr, (j - 1) as nat) as int))
    }
}

/// Header `j + 1` of a chain is header `j` of the chain that starts at its
/// second packet.
proof fn lemma_header_shift(ram: Seq<u8>, addr: u32, j: nat)
    ensures
        header_at(ram, addr, j + 1) == header_at(ram, ram_address(read32(ram, addr as int)), j),
    decreases j,
{
    let next = ram_address(read32(ram, addr as int));
    assert(header_at(ram, addr, j + 1) == ram_address(
        read32(ram, header_at(ram, addr, j) as int),
    ));
    if j == 0 {
        assert(header_at(ram, addr, 0) == addr);
    } else {
        lemma_header_shift(ram, addr, (j - 1) as nat);
        assert(header_at(ram, next, j) == ram_address(
            read32(ram, header_at(ram, next, (j - 1) as nat) as int),
        ));
    }
}

/// A chain ends within `f + g` packets where it ends within `f`, or where
/// the chain that starts at its header `f` ends within `g`.
proof fn lemma_chain_split(ram: Seq<u8>, addr: u32, f: nat, g: nat)
    ensures
        chain(ram, addr, f + g).1 == (chain(ram, addr, f).1 || chain(
            ram,
            header_at(ram, addr, f),
            g,
        ).1),
    decreases f,
{
    if f > 0 {
        let next = ram_address(read32(ram, addr as int));
        lemma_chain_split(ram, next, (f - 1) as nat, g);
        lemma_header_shift(ram, addr, (f - 1) as nat);
    }
}

/// A chain that comes back to a header that it has visited, without having
/// ended, never ends.
proof fn lemma_cycle_never_ends(ram: Seq<u8>, addr: u32, i: nat, j: nat, fuel: nat)
    requires
        i < j,
        header_at(ram, addr, i) == header_at(ram, addr, j),
        !chain(ram, addr, j).1,
    ensures
        !chain(ram, addr, fuel).1,
    decreases fuel,
{
    if fuel <= j {
        if chain(ram, addr, fuel).1 {
            lemma_chain_fuel(ram, addr, fuel, j);
        }
    } else {
        let g = (fuel - j) as nat;
        lemma_chain_split(ram, addr, j, g);
        lemma_chain_split(ram, addr, i, g);
        lemma_cycle_never_ends(ram, addr, i, j, i + g);
    }
}

/// Of `n + 1` numbers below `n`, two are equal.
proof fn lemma_two_alike(f: spec_fn(int) -> int, n: int) -> (pair: (int, int))
    requires
        0 <= n,
        forall|i: int| 0 <= i <= n ==> 0 <= #[trigger] f(i) < n,
    ensures
        0 <= pair.0 < pair.1 <= n,
        f(pair.0) == f(pair.1),
{
    let dom = set_int_range(0, n + 1);
    let below = set_int_range(0, n);
    lemma_int_range(0, n + 1);
    lemma_int_range(0, n);
    if injective_on(f, dom) {
        lemma_map_size(dom, dom.map(f), f);
        assert(dom.map(f).subset_of(below)) by {
            assert forall|y: int| dom.map(f).contains(y) implies below.contains(y) by {
                let x = choose|x: int| dom.contains(x) && f(x) == y;
                assert(0 <= f(x) < n);
            }
        }
        lemma_len_subset(dom.map(f), below);
    }
    let (x1, x2) = choose|x1: int, x2: int|
        dom.contains(x1) && dom.contains(x2) && #[trigger] f(x1) == #[trigger] f(x2) && x1 != x2;
    if x1 < x2 {
        (x1, x2)
    } else {
        (x2, x1)
    }
}

/// Every header of a chain lies at a word of main memory.
proof fn lemma_header_place(ram: Seq<u8>, addr: u32, j: nat)
    requires
        ram_address(addr) == addr,
    ensures
        header_at(ram, addr, j) % 4 == 0,
        header_at(ram, addr, j) / 4 < MAX_PACKETS,
{
    if j == 0 {
        lemma_ram_address(addr);
    } else {
        lemma_ram_address(read32(ram, header_at(ram, addr, (j - 1) as nat) as int));
    }
}

/// A chain that has not ended after as many packets as main memory has
/// words never ends, however long it is followed: by then it has come back
/// to a header that it has visited before.
pub proof fn lemma_long_chain_never_ends(ram: Seq<u8>, addr: u32, fuel: nat)
    requires
        ram_address(addr) == addr,
        !chain(ram, addr, MAX_PACKETS as nat).1,
    ensures
        !chain(ram, addr, fuel).1,
{
    let f = |j: int| header_at(ram, addr, j as nat) as int / 4;
    assert forall|j: int| 0 <= j <= MAX_PACKETS implies 0 <= #[trigger] f(j) < MAX_PACKETS by {
        lemma_header_place(ram, addr, j as nat);
    }
    let (i, j) = lemma_two_alike(f, MAX_PACKETS as int);
    lemma_header_place(ram, addr, i as nat);
    lemma_header_place(ram, addr, j as nat);
    assert(header_at(ram, addr, i as nat) == header_at(ram, addr, j as nat));
    if chain(ram, addr, j as nat).1 {
        lemma_chain_fuel(ram, addr, j as nat, MAX_PACKETS as nat);
    }
    lemma_cycle_never_ends(ram, addr, i as nat, j as nat, fuel);
}

} // verus!
