//! The walker over the page-table tree: `map`, `unmap` and `translate`.
//!
//! The tree lives in physical memory, not in language-level ownership: a
//! parent entry holds nothing but the physical address of its child table.
//! The `TableArena` models that memory as a collection of page tables
//! indexed by physical address, and the walker follows and mutates entries
//! through it exactly as the hardware walker would, one level at a time.

use vstd::prelude::*;

use crate::page_entry::{
    ENTRY_ADDRESS_MASK, PageTableEntry, entry_addr, entry_huge, entry_present, lemma_entry_build,
    lemma_entry_fields, lemma_zero_entry,
};
use crate::page_table::{PageTable, TABLE_ENTRY_COUNT};
use crate::paging_mode::PagingMode;
use crate::physical_address::{PHYSICAL_ADDRESS_52_LIMIT, PhysicalAddress52};
use crate::virtual_address::{
    VirtualAddress, directory_index_of, directory_ptr_index_of, pml_4_index_of, pml_5_index_of,
    table_index_of,
};

verus! {

/// Why a walker operation failed.
#[derive(Clone, Copy, Debug, PartialEq, Eq, Structural)]
pub enum PagingError {
    /// A read-only walk met an absent entry, or a walk met a huge-page
    /// leaf where a child table was expected.
    PageNotFound,
    /// The allocator could not produce a new table.
    AllocationFailed,
}

/// What one table of the arena holds: its level in the hierarchy (1 for a
/// page table up to 4 or 5 for the root), and the raw bits of its 512
/// entries.
pub ghost struct TableView {
    pub level: nat,
    pub entries: Seq<u64>,
}

/// The physical alignment a huge-page leaf demands at each level that
/// admits one: 1 GiB at the directory-pointer level (3), 2 MiB at the
/// directory level (2).
pub open spec fn huge_page_alignment(level: nat) -> u64 {
    if level == 3 {
        0x4000_0000
    } else {
        0x20_0000
    }
}

/// The entries of a freshly allocated table: 512 zeroes.
pub open spec fn zeroed_entries() -> Seq<u64> {
    Seq::new(TABLE_ENTRY_COUNT as nat, |j: int| 0u64)
}

/// The 9-bit field of `v` that indexes a table at `level`: the PML5 field
/// at level 5 down to the page-table field at level 1.
pub open spec fn level_index_of(v: u64, level: nat) -> u64 {
    if level >= 5 {
        pml_5_index_of(v)
    } else if level == 4 {
        pml_4_index_of(v)
    } else if level == 3 {
        directory_ptr_index_of(v)
    } else if level == 2 {
        directory_index_of(v)
    } else {
        table_index_of(v)
    }
}

/// One table of physical memory as the arena holds it.
struct ArenaSlot {
    address: u64,
    level: u8,
    table: PageTable,
}

/// The view of one slot.
spec fn slot_view(s: ArenaSlot) -> TableView {
    TableView { level: s.level as nat, entries: s.table@ }
}

/// The tables of a slot sequence, as a map from physical address to
/// contents.  A later slot with the same address would shadow an earlier
/// one; the arena keeps addresses distinct so this never happens.
spec fn slots_map(s: Seq<ArenaSlot>) -> Map<u64, TableView>
    decreases s.len(),
{
    if s.len() == 0 {
        Map::empty()
    } else {
        slots_map(s.drop_last()).insert(s.last().address, slot_view(s.last()))
    }
}

/// No two slots share an address.
spec fn slots_distinct(s: Seq<ArenaSlot>) -> bool {
    forall|i: int, j: int|
        0 <= i < j < s.len() ==> #[trigger] s[i].address != #[trigger] s[j].address
}

/// An address held by no slot is absent from the map.
proof fn lemma_slots_map_absent(s: Seq<ArenaSlot>, a: u64)
    requires
        forall|i: int| 0 <= i < s.len() ==> #[trigger] s[i].address != a,
    ensures
        !slots_map(s).dom().contains(a),
    decreases s.len(),
{
    if s.len() > 0 {
        lemma_slots_map_absent(s.drop_last(), a);
    }
}

/// Every slot's address is in the map, and with distinct addresses the map
/// holds that slot's view there.
proof fn lemma_slots_map_present(s: Seq<ArenaSlot>, i: int)
    requires
        0 <= i < s.len(),
    ensures
        slots_map(s).dom().contains(s[i].address),
        slots_distinct(s) ==> slots_map(s)[s[i].address] == slot_view(s[i]),
    decreases s.len(),
{
    if i < s.len() - 1 {
        lemma_slots_map_present(s.drop_last(), i);
    }
}

/// Replacing the table of slot `i` in place updates the map at its
/// address and nowhere else.
proof fn lemma_slots_map_update(s: Seq<ArenaSlot>, i: int, slot: ArenaSlot)
    requires
        0 <= i < s.len(),
        slots_distinct(s),
        slot.address == s[i].address,
    ensures
        slots_map(s.update(i, slot)) == slots_map(s).insert(slot.address, slot_view(slot)),
    decreases s.len(),
{
    let t = s.update(i, slot);
    if i == s.len() - 1 {
        assert(t.drop_last() =~= s.drop_last());
        assert(slots_map(t) =~= slots_map(s).insert(slot.address, slot_view(slot)));
    } else {
        lemma_slots_map_update(s.drop_last(), i, slot);
        assert(t.drop_last() =~= s.drop_last().update(i, slot));
        lemma_slots_map_present(s, i);
        assert(slots_map(t) =~= slots_map(s).insert(slot.address, slot_view(slot)));
    }
}

/// Appending a slot with a fresh address inserts it into the map.
proof fn lemma_slots_map_push(s: Seq<ArenaSlot>, slot: ArenaSlot)
    ensures
        slots_map(s.push(slot)) == slots_map(s).insert(slot.address, slot_view(slot)),
{
    assert(s.push(slot).drop_last() =~= s);
    assert(slots_map(s.push(slot)) =~= slots_map(s).insert(slot.address, slot_view(slot)));
}

/// Well-formedness of the arena contents, stated over the view alone:
/// every table has 512 entries, a level between 1 and 5, and an aligned
/// 52-bit address; and every present, non-huge entry of a table above
/// level 1 points at a table of the arena one level down.
pub open spec fn map_wf(m: Map<u64, TableView>) -> bool {
    &&& forall|a: u64|
        #[trigger] m.dom().contains(a) ==> m[a].entries.len() == TABLE_ENTRY_COUNT && 1 <= m[
            a].level <= 5 && a % 4096 == 0 && a < PHYSICAL_ADDRESS_52_LIMIT
    &&& forall|a: u64, j: int|
        m.dom().contains(a) && 0 <= j < TABLE_ENTRY_COUNT && m[a].level >= 2 && entry_present(
            #[trigger] m[a].entries[j]) && !entry_huge(m[a].entries[j]) ==> m.dom().contains(
            entry_addr(m[a].entries[j])) && m[entry_addr(m[a].entries[j])].level == m[a].level - 1
}

/// The page tables of an address space, held in the physical memory they
/// would occupy on the machine: a collection of 512-entry tables, each at
/// a distinct, page-aligned physical address.  Parent entries name their
/// children by physical address only, exactly as the hardware sees them.
pub struct TableArena {
    slots: Vec<ArenaSlot>,
}

impl View for TableArena {
    type V = Map<u64, TableView>;

    closed spec fn view(&self) -> Map<u64, TableView> {
        slots_map(self.slots@)
    }
}

impl TableArena {
    /// The addresses of the arena's slots are distinct.
    pub closed spec fn slots_wf(&self) -> bool {
        slots_distinct(self.slots@)
    }

    /// The arena invariant every operation preserves: distinct table
    /// addresses, and well-formed contents as `map_wf` states them.
    pub open spec fn wf(&self) -> bool {
        self.slots_wf() && map_wf(self@)
    }

    /// An arena holding no tables.
    pub fn new() -> (r: Self)
        ensures
            r@ == Map::<u64, TableView>::empty(),
            r.wf(),
    {
        TableArena { slots: Vec::new() }
    }

    /// The index of the slot holding `address`, if any.
    fn find_slot(&self, address: u64) -> (r: Option<usize>)
        ensures
            match r {
                Some(i) => i < self.slots@.len() && self.slots@[i as int].address == address
                    && self@.dom().contains(address),
                None => !self@.dom().contains(address),
            },
    {
        let mut i: usize = 0;
        while i < self.slots.len()
            invariant
                i <= self.slots@.len(),
                forall|k: int| 0 <= k < i ==> #[trigger] self.slots@[k].address != address,
            decreases self.slots@.len() - i,
        {
            if self.slots[i].address == address {
                proof {
                    lemma_slots_map_present(self.slots@, i as int);
                }
                return Some(i);
            }
            i = i + 1;
        }
        proof {
            lemma_slots_map_absent(self.slots@, address);
        }
        None
    }

    /// The index of the slot holding `address`, which must be present.
    fn slot_index_of(&self, address: u64) -> (r: usize)
        requires
            self@.dom().contains(address),
        ensures
            r < self.slots@.len(),
            self.slots@[r as int].address == address,
            self.slots_wf() ==> slot_view(self.slots@[r as int]) == self@[address],
    {
        match self.find_slot(address) {
            Some(i) => {
                proof {
                    if self.slots_wf() {
                        lemma_slots_map_present(self.slots@, i as int);
                    }
                }
                i
            },
            None => {
                // find_slot found nothing although the address is in the
                // view: impossible.
                proof {
                    assert(false);
                }
                0
            },
        }
    }

    /// Whether a table sits at `address`.
    pub fn contains(&self, address: u64) -> (r: bool)
        ensures
            r == self@.dom().contains(address),
    {
        match self.find_slot(address) {
            Some(_) => true,
            None => false,
        }
    }

    /// The level of the table at `address`, or nothing when the arena
    /// holds no table there.
    pub fn level_of(&self, address: u64) -> (r: Option<u8>)
        requires
            self.wf(),
        ensures
            match r {
                Some(l) => self@.dom().contains(address) && l as nat == self@[address].level,
                None => !self@.dom().contains(address),
            },
    {
        match self.find_slot(address) {
            Some(i) => {
                proof {
                    lemma_slots_map_present(self.slots@, i as int);
                }
                Some(self.slots[i].level)
            },
            None => None,
        }
    }

    /// The raw bits of entry `index` of the table at `address`, or
    /// nothing when there is no such table or the index is out of range.
    pub fn read_entry(&self, address: u64, index: u16) -> (r: Option<u64>)
        requires
            self.wf(),
        ensures
            match r {
                Some(e) => self@.dom().contains(address) && (index as int) < TABLE_ENTRY_COUNT
                    && e == self@[address].entries[index as int],
                None => !self@.dom().contains(address) || (index as int) >= TABLE_ENTRY_COUNT,
            },
    {
        match self.find_slot(address) {
            Some(i) => {
                proof {
                    lemma_slots_map_present(self.slots@, i as int);
                }
                if (index as usize) < TABLE_ENTRY_COUNT {
                    Some(self.slots[i].table.entry(index).as_u64())
                } else {
                    None
                }
            },
            None => None,
        }
    }

    /// Places a fresh, zeroed table at `address` with the given level.
    /// The address must be page-aligned, within the physical width, and
    /// not already in use.
    pub fn create_table(&mut self, address: PhysicalAddress52, level: u8)
        requires
            old(self).wf(),
            1 <= level <= 5,
            address@ % 4096 == 0,
            !old(self)@.dom().contains(address@),
        ensures
            final(self).wf(),
            final(self)@ == old(self)@.insert(
                address@,
                TableView { level: level as nat, entries: zeroed_entries() },
            ),
    {
        proof {
            use_type_invariant(&address);
        }
        let slot = ArenaSlot { address: address.as_u64(), level, table: PageTable::new() };
        proof {
            lemma_slots_map_push(self.slots@, slot);
            assert(slot_view(slot).entries =~= zeroed_entries());
            // A fresh address keeps the slots distinct.
            assert forall|i: int| 0 <= i < self.slots@.len() implies #[trigger] self.slots@[i].address
                != address@ by {
                lemma_slots_map_present(self.slots@, i);
            }
        }
        self.slots.push(slot);
        proof {
            lemma_zero_entry();
            let m0 = old(self)@;
            let m1 = self@;
            assert forall|a: u64, j: int|
                m1.dom().contains(a) && 0 <= j < TABLE_ENTRY_COUNT && m1[a].level >= 2
                    && entry_present(#[trigger] m1[a].entries[j]) && !entry_huge(m1[a].entries[j])
                implies m1.dom().contains(entry_addr(m1[a].entries[j])) && m1[entry_addr(
                m1[a].entries[j])].level == m1[a].level - 1 by {
                if a != address@ {
                    assert(m0.dom().contains(a) && m1[a] == m0[a]);
                }
            }
        }
    }

    /// Writes a huge-page leaf into the table at `address`: a present
    /// entry with the huge-page bit set, holding `page`.  This is how a
    /// large mapping stands in an intermediate table; the 4 KiB walker
    /// refuses to walk through it.  The target must be a table at one of
    /// the two levels that admit huge pages, and the page must carry
    /// that level's alignment — 2 MiB at the directory level, 1 GiB at
    /// the directory-pointer level.  Fails with `PageNotFound` when the
    /// arena holds no table at `address` or the index is out of range.
    pub fn write_huge_entry(&mut self, address: u64, index: u16, page: PhysicalAddress52) -> (r:
        Result<(), PagingError>)
        requires
            old(self).wf(),
            old(self)@.dom().contains(address) ==> 2 <= old(self)@[address].level <= 3 && page@
                % huge_page_alignment(old(self)@[address].level) == 0,
        ensures
            final(self).wf(),
            match r {
                Ok(()) => old(self)@.dom().contains(address) && (index as int)
                    < TABLE_ENTRY_COUNT && final(self)@ == old(self)@.insert(
                    address,
                    TableView {
                        level: old(self)@[address].level,
                        entries: old(self)@[address].entries.update(index as int, page@ | 0x81),
                    },
                ),
                Err(e) => e == PagingError::PageNotFound && final(self)@ == old(self)@ && (!old(
                    self,
                )@.dom().contains(address) || (index as int) >= TABLE_ENTRY_COUNT),
            },
    {
        let ghost m0 = self@;
        proof {
            use_type_invariant(&page);
        }
        match self.find_slot(address) {
            Some(i) => {
                proof {
                    lemma_slots_map_present(self.slots@, i as int);
                }
                if (index as usize) < TABLE_ENTRY_COUNT {
                    let raw = page.as_u64() | 0x81;
                    self.write_entry(i, index, PageTableEntry::from_u64(raw));
                    proof {
                        let p = page@;
                        assert(entry_huge(p | 0x81)) by (bit_vector);
                        let m1 = self@;
                        // The written entry is huge, which the coherence
                        // clause of `map_wf` exempts; nothing else moved.
                        assert forall|a: u64, j: int|
                            m1.dom().contains(a) && 0 <= j < TABLE_ENTRY_COUNT && m1[a].level >= 2
                                && entry_present(#[trigger] m1[a].entries[j]) && !entry_huge(
                                m1[a].entries[j]) implies m1.dom().contains(entry_addr(
                            m1[a].entries[j])) && m1[entry_addr(m1[a].entries[j])].level == m1[
                            a].level - 1 by {
                            assert(m0.dom().contains(a) && m1[a].entries[j] == m0[a].entries[j]);
                        }
                    }
                    Ok(())
                } else {
                    Err(PagingError::PageNotFound)
                }
            },
            None => Err(PagingError::PageNotFound),
        }
    }

    /// Overwrites entry `index` of slot `i` with `entry`.  States the raw
    /// effect only; callers re-establish `map_wf` for what they write.
    fn write_entry(&mut self, i: usize, index: u16, entry: PageTableEntry)
        requires
            old(self).slots_wf(),
            i < old(self).slots@.len(),
            (index as int) < old(self).slots@[i as int].table@.len(),
        ensures
            final(self).slots_wf(),
            final(self)@ == old(self)@.insert(
                old(self).slots@[i as int].address,
                TableView {
                    level: old(self).slots@[i as int].level as nat,
                    entries: old(self).slots@[i as int].table@.update(index as int, entry@),
                },
            ),
    {
        let slot = &mut self.slots[i];
        slot.table.set_entry(index, entry);
        proof {
            lemma_slots_map_update(
                old(self).slots@,
                i as int,
                ArenaSlot {
                    address: old(self).slots@[i as int].address,
                    level: old(self).slots@[i as int].level,
                    table: self.slots@[i as int].table,
                },
            );
            assert(self.slots@ =~= old(self).slots@.update(i as int, self.slots@[i as int]));
        }
    }
}

/// Follows present, non-huge entries from `table` (a table at `level`)
/// down to the level-1 page table that covers `va`, and names that table.
/// The walk fails on an absent entry, a huge-page leaf, or an address the
/// arena does not hold.
pub open spec fn walk_to_leaf_table(m: Map<u64, TableView>, table: u64, va: u64, level: nat) -> Option<
    u64,
>
    decreases level,
{
    if level <= 1 {
        Some(table)
    } else if !m.dom().contains(table) {
        None
    } else {
        let e = m[table].entries[level_index_of(va, level) as int];
        if entry_present(e) && !entry_huge(e) {
            walk_to_leaf_table(m, entry_addr(e), va, (level - 1) as nat)
        } else {
            None
        }
    }
}

/// The physical address that the tree rooted at `table` maps `va` to:
/// the address held by the leaf entry, or nothing when the walk fails or
/// the leaf entry is absent.
pub open spec fn translate_spec(m: Map<u64, TableView>, table: u64, va: u64, level: nat) -> Option<
    u64,
> {
    match walk_to_leaf_table(m, table, va, level) {
        Some(t) => {
            if m.dom().contains(t) && entry_present(m[t].entries[table_index_of(va) as int]) {
                Some(entry_addr(m[t].entries[table_index_of(va) as int]))
            } else {
                None
            }
        },
        None => None,
    }
}

/// Whether the walk towards `va` runs into a huge-page leaf standing
/// where a child table was expected.  This is the condition under which
/// `map` refuses to map rather than allocate: only present entries block,
/// so a path that merely misses tables is not blocked.
pub open spec fn path_blocked(m: Map<u64, TableView>, table: u64, va: u64, level: nat) -> bool
    decreases level,
{
    if level <= 1 {
        false
    } else if !m.dom().contains(table) {
        false
    } else {
        let e = m[table].entries[level_index_of(va, level) as int];
        entry_present(e) && (entry_huge(e) || (!entry_huge(e) && path_blocked(
            m,
            entry_addr(e),
            va,
            (level - 1) as nat,
        )))
    }
}

/// Whether `(a, k)` is an entry slot on the walk path of `va` from
/// `table` at `level`: the slot the walk reads in `table` itself, or a
/// slot further down behind a present, non-huge entry.
pub open spec fn on_walk_path(
    m: Map<u64, TableView>,
    table: u64,
    va: u64,
    level: nat,
    a: u64,
    k: int,
) -> bool
    decreases level,
{
    if !m.dom().contains(table) {
        false
    } else if a == table && k == level_index_of(va, level) as int {
        true
    } else if level <= 1 {
        false
    } else {
        let e = m[table].entries[level_index_of(va, level) as int];
        entry_present(e) && !entry_huge(e) && on_walk_path(
            m,
            entry_addr(e),
            va,
            (level - 1) as nat,
            a,
            k,
        )
    }
}

/// Whether the walk of `va` from `table` at `level` visits table `a`.
pub open spec fn on_walk_tables(
    m: Map<u64, TableView>,
    table: u64,
    va: u64,
    level: nat,
    a: u64,
) -> bool
    decreases level,
{
    if !m.dom().contains(table) {
        false
    } else if a == table {
        true
    } else if level <= 1 {
        false
    } else {
        let e = m[table].entries[level_index_of(va, level) as int];
        entry_present(e) && !entry_huge(e) && on_walk_tables(
            m,
            entry_addr(e),
            va,
            (level - 1) as nat,
            a,
        )
    }
}

/// `m1` keeps every table of `m0`, at its level and size; it may add new
/// tables and rewrite entries.
pub open spec fn arena_extends(m0: Map<u64, TableView>, m1: Map<u64, TableView>) -> bool {
    &&& forall|a: u64| #[trigger] m0.dom().contains(a) ==> m1.dom().contains(a)
    &&& forall|a: u64|
        #[trigger] m0.dom().contains(a) ==> m1[a].level == m0[a].level && m1[a].entries.len()
            == m0[a].entries.len()
}

/// Every entry present in `m0` is unchanged in `m1`, except possibly the
/// one at table `t`, index `j`.
pub open spec fn present_entries_preserved_except(
    m0: Map<u64, TableView>,
    m1: Map<u64, TableView>,
    t: u64,
    j: int,
) -> bool {
    forall|a: u64, k: int|
        m0.dom().contains(a) && 0 <= k < m0[a].entries.len() && entry_present(
            #[trigger] m0[a].entries[k]) && !(a == t && k == j) ==> m1[a].entries[k]
            == m0[a].entries[k]
}

/// Every entry present in `m0` is unchanged in `m1`.
pub open spec fn present_entries_preserved(m0: Map<u64, TableView>, m1: Map<u64, TableView>) -> bool {
    forall|a: u64, k: int|
        m0.dom().contains(a) && 0 <= k < m0[a].entries.len() && entry_present(
            #[trigger] m0[a].entries[k]) ==> m1[a].entries[k] == m0[a].entries[k]
}

/// Every slot of an already existing table that `m1` rewrote now holds a
/// present, writable, non-huge entry: a link to a child table or a
/// 4 KiB leaf.
pub open spec fn rewritten_slots_mapped(m0: Map<u64, TableView>, m1: Map<u64, TableView>) -> bool {
    forall|a: u64, k: int|
        m0.dom().contains(a) && 0 <= k < m0[a].entries.len() && m1[a].entries[k] != #[trigger] m0[
            a].entries[k] ==> entry_present(m1[a].entries[k]) && !entry_huge(m1[a].entries[k])
            && m1[a].entries[k] & 2 == 2
}

/// The table index of every level is below 512.
pub proof fn lemma_level_index_bound(va: u64, level: nat)
    ensures
        level_index_of(va, level) < 512,
        table_index_of(va) < 512,
{
    crate::bits::lemma_index9(va, 12);
    crate::bits::lemma_index9(va, 21);
    crate::bits::lemma_index9(va, 30);
    crate::bits::lemma_index9(va, 39);
    crate::bits::lemma_index9(va, 48);
}

/// In a well-formed arena, a walk that starts at a table of matching
/// level and succeeds ends at a level-1 table of the arena.
pub proof fn lemma_walk_result_level(m: Map<u64, TableView>, table: u64, va: u64, level: nat)
    requires
        map_wf(m),
        m.dom().contains(table),
        m[table].level == level,
        1 <= level,
        walk_to_leaf_table(m, table, va, level) is Some,
    ensures
        walk_to_leaf_table(m, table, va, level) matches Some(t) ==> m.dom().contains(t)
            && m[t].level == 1,
    decreases level,
{
    if level > 1 {
        let e = m[table].entries[level_index_of(va, level) as int];
        lemma_level_index_bound(va, level);
        lemma_walk_result_level(m, entry_addr(e), va, (level - 1) as nat);
    }
}

/// A translation that exists survives any change that keeps every
/// present entry except the one at table `t`, index `j`: its walk reads
/// the same entries and its leaf is untouched.  This is what makes one
/// leaf write safe for every other mapping of the address space.
pub proof fn lemma_preserved_translation(
    m0: Map<u64, TableView>,
    m1: Map<u64, TableView>,
    start: u64,
    va2: u64,
    level: nat,
    t: u64,
    j: int,
)
    requires
        map_wf(m0),
        arena_extends(m0, m1),
        present_entries_preserved_except(m0, m1, t, j),
        m0.dom().contains(start),
        m0[start].level == level,
        1 <= level,
        j < 0 || (m0.dom().contains(t) ==> m0[t].level == 1),
        translate_spec(m0, start, va2, level) is Some,
        !(walk_to_leaf_table(m0, start, va2, level) == Some(t) && j == table_index_of(va2) as int),
    ensures
        walk_to_leaf_table(m1, start, va2, level) == walk_to_leaf_table(m0, start, va2, level),
        translate_spec(m1, start, va2, level) == translate_spec(m0, start, va2, level),
    decreases level,
{
    lemma_level_index_bound(va2, level);
    if level == 1 {
        let k = table_index_of(va2) as int;
        assert(entry_present(m0[start].entries[k]));
        assert(m1[start].entries[k] == m0[start].entries[k]);
    } else {
        let i2 = level_index_of(va2, level) as int;
        let e = m0[start].entries[i2];
        assert(entry_present(e) && !entry_huge(e));
        assert(m1[start].entries[i2] == e);
        let child = entry_addr(e);
        assert(m0.dom().contains(child) && m0[child].level == level - 1);
        assert(translate_spec(m0, start, va2, level) == translate_spec(
            m0,
            child,
            va2,
            (level - 1) as nat,
        ));
        lemma_preserved_translation(m0, m1, child, va2, (level - 1) as nat, t, j);
        assert(translate_spec(m1, start, va2, level) == translate_spec(
            m1,
            child,
            va2,
            (level - 1) as nat,
        ));
    }
}

/// The capability `map` draws fresh tables from: one operation that
/// places a new zeroed, page-aligned table of the requested level into
/// the arena and returns its physical address, or reports
/// `AllocationFailed` and leaves the arena as it was.  Callers supply it;
/// the walker never frees what it allocated.
pub trait PagingAllocator {
    /// Allocates one fresh table for the given level.
    fn allocate_page_table(&mut self, arena: &mut TableArena, level: u8) -> (r: Result<
        PhysicalAddress52,
        PagingError,
    >)
        requires
            old(arena).wf(),
            1 <= level <= 5,
        ensures
            final(arena).wf(),
            match r {
                Ok(pa) => pa@ % 4096 == 0 && !old(arena)@.dom().contains(pa@) && final(arena)@
                    == old(arena)@.insert(
                    pa@,
                    TableView { level: level as nat, entries: zeroed_entries() },
                ),
                Err(e) => e == PagingError::AllocationFailed && final(arena)@ == old(arena)@,
            },
    ;
}

/// A `PagingAllocator` that hands out page-aligned table frames from a
/// fixed physical range, low address first, and counts its allocations.
/// It fails with `AllocationFailed` when the range is exhausted or the
/// next frame is already occupied in the arena.
pub struct RangeAllocator {
    /// The next physical address to hand out.
    pub next: u64,
    /// One past the last usable physical address.
    pub end: u64,
    /// How many tables have been handed out.
    pub allocations: u64,
}

impl RangeAllocator {
    /// An allocator serving frames from `start` (inclusive, page-aligned)
    /// up to `end` (exclusive).
    pub fn new(start: u64, end: u64) -> (r: Self)
        requires
            start % 4096 == 0,
        ensures
            r.next == start,
            r.end == end,
            r.allocations == 0,
    {
        RangeAllocator { next: start, end, allocations: 0 }
    }
}

impl PagingAllocator for RangeAllocator {
    /// Beyond the trait's contract: the allocator hands out exactly its
    /// next frame and steps forward by one page, counting the
    /// allocation; it fails only unchanged; and it succeeds whenever its
    /// next frame is usable — aligned, within the physical width, inside
    /// the range, and not yet occupied in the arena.
    fn allocate_page_table(&mut self, arena: &mut TableArena, level: u8) -> (r: Result<
        PhysicalAddress52,
        PagingError,
    >)
        ensures
            final(self).end == old(self).end,
            match r {
                Ok(pa) => pa@ == old(self).next && final(self).next == old(self).next + 4096
                    && final(self).allocations == (if old(self).allocations < u64::MAX {
                    (old(self).allocations + 1) as u64
                } else {
                    old(self).allocations
                }),
                Err(_) => *final(self) == *old(self),
            },
            (old(self).next % 4096 == 0 && old(self).next < PHYSICAL_ADDRESS_52_LIMIT && old(
                self,
            ).end >= 4096 && old(self).next <= old(self).end - 4096 && !old(
                arena,
            )@.dom().contains(old(self).next)) ==> r is Ok,
    {
        if self.next % 4096 != 0 || self.next >= PHYSICAL_ADDRESS_52_LIMIT {
            return Err(PagingError::AllocationFailed);
        }
        if self.end < 4096 || self.next > self.end - 4096 {
            return Err(PagingError::AllocationFailed);
        }
        if arena.contains(self.next) {
            return Err(PagingError::AllocationFailed);
        }
        let address = PhysicalAddress52::new(self.next);
        arena.create_table(address, level);
        self.next = self.next + 4096;
        if self.allocations < u64::MAX {
            self.allocations = self.allocations + 1;
        }
        Ok(address)
    }
}

/// The 9-bit index field of `va` that selects an entry at `level`.
fn level_index(va: &VirtualAddress, level: u8) -> (r: u16)
    ensures
        r as u64 == level_index_of(va@, level as nat),
        r < 512,
{
    if level >= 5 {
        va.pml_5_index()
    } else if level == 4 {
        va.pml_4_index()
    } else if level == 3 {
        va.directory_ptr_index()
    } else if level == 2 {
        va.directory_index()
    } else {
        va.table_index()
    }
}

/// The read-only walk from `table` at `level`, returning the raw leaf
/// address.
fn translate_from(arena: &TableArena, table: u64, level: u8, va: &VirtualAddress) -> (r: Result<
    u64,
    PagingError,
>)
    requires
        arena.wf(),
        arena@.dom().contains(table),
        arena@[table].level == level as nat,
        1 <= level <= 5,
    ensures
        match r {
            Ok(p) => translate_spec(arena@, table, va@, level as nat) == Some(p) && p % 4096 == 0
                && p < PHYSICAL_ADDRESS_52_LIMIT,
            Err(e) => e == PagingError::PageNotFound && translate_spec(
                arena@,
                table,
                va@,
                level as nat,
            ) is None,
        },
    decreases level,
{
    if level == 1 {
        let tidx = va.table_index();
        let e = match arena.read_entry(table, tidx) {
            Some(x) => x,
            None => {
                proof {
                    assert(false);
                }
                0
            },
        };
        if e & 1 == 1 {
            proof {
                lemma_entry_fields(e);
            }
            Ok(e & ENTRY_ADDRESS_MASK)
        } else {
            Err(PagingError::PageNotFound)
        }
    } else {
        let index = level_index(va, level);
        let e = match arena.read_entry(table, index) {
            Some(x) => x,
            None => {
                proof {
                    assert(false);
                }
                0
            },
        };
        if e & 1 == 1 && e & 0x80 != 0x80 {
            let child = e & ENTRY_ADDRESS_MASK;
            translate_from(arena, child, level - 1, va)
        } else {
            Err(PagingError::PageNotFound)
        }
    }
}

/// Walks the tree rooted at `root` for `virtual_address` and returns the
/// physical address its leaf entry holds.  Returns `PageNotFound` exactly
/// when the tree maps nothing there: an intermediate entry absent or
/// standing in the way as a huge page, or the leaf entry absent.
pub fn translate(
    arena: &TableArena,
    root: PhysicalAddress52,
    virtual_address: VirtualAddress,
    mode: PagingMode,
) -> (r: Result<PhysicalAddress52, PagingError>)
    requires
        arena.wf(),
        arena@.dom().contains(root@),
        arena@[root@].level == mode.depth_spec(),
    ensures
        match r {
            Ok(pa) => translate_spec(arena@, root@, virtual_address@, mode.depth_spec()) == Some(
                pa@,
            ),
            Err(e) => e == PagingError::PageNotFound && translate_spec(
                arena@,
                root@,
                virtual_address@,
                mode.depth_spec(),
            ) is None,
        },
{
    let raw = translate_from(arena, root.as_u64(), mode.depth(), &virtual_address)?;
    Ok(PhysicalAddress52::new(raw))
}

/// The read-only walk from `table` at `level` that clears the leaf entry.
fn unmap_from(arena: &mut TableArena, table: u64, level: u8, va: &VirtualAddress) -> (r: Result<
    (),
    PagingError,
>)
    requires
        old(arena).wf(),
        old(arena)@.dom().contains(table),
        old(arena)@[table].level == level as nat,
        1 <= level <= 5,
    ensures
        final(arena).wf(),
        final(arena)@.dom() == old(arena)@.dom(),
        arena_extends(old(arena)@, final(arena)@),
        (r is Ok) == (walk_to_leaf_table(old(arena)@, table, va@, level as nat) is Some),
        match r {
            Ok(()) => walk_to_leaf_table(old(arena)@, table, va@, level as nat) matches Some(t)
                && old(arena)@.dom().contains(t) && old(arena)@[t].level == 1 && final(arena)@
                == old(arena)@.insert(
                t,
                TableView {
                    level: 1,
                    entries: old(arena)@[t].entries.update(table_index_of(va@) as int, 0u64),
                },
            ) && walk_to_leaf_table(final(arena)@, table, va@, level as nat) == Some(t)
                && translate_spec(final(arena)@, table, va@, level as nat) is None,
            Err(e) => e == PagingError::PageNotFound && final(arena)@ == old(arena)@,
        },
    decreases level,
{
    let ghost m0 = arena@;
    if level == 1 {
        let tidx = va.table_index();
        let i = arena.slot_index_of(table);
        arena.write_entry(i, tidx, PageTableEntry::empty());
        proof {
            lemma_zero_entry();
            let m1 = arena@;
            // The leaf table keeps its level and size; nothing above
            // level 1 changed, so the coherence of `map_wf` carries over.
            assert forall|a: u64, j: int|
                m1.dom().contains(a) && 0 <= j < TABLE_ENTRY_COUNT && m1[a].level >= 2
                    && entry_present(#[trigger] m1[a].entries[j]) && !entry_huge(m1[a].entries[j])
                implies m1.dom().contains(entry_addr(m1[a].entries[j])) && m1[entry_addr(
                m1[a].entries[j])].level == m1[a].level - 1 by {
                assert(m0.dom().contains(a) && m1[a].entries[j] == m0[a].entries[j]);
            }
        }
        Ok(())
    } else {
        let index = level_index(va, level);
        let e = match arena.read_entry(table, index) {
            Some(x) => x,
            None => {
                proof {
                    assert(false);
                }
                0
            },
        };
        if e & 1 == 1 && e & 0x80 != 0x80 {
            let child = e & ENTRY_ADDRESS_MASK;
            let r = unmap_from(arena, child, level - 1, va);
            proof {
                if r is Ok {
                    let t = walk_to_leaf_table(m0, child, va@, (level - 1) as nat)->Some_0;
                    // The walked-through entry sits in a table above
                    // level 1 and the leaf table is at level 1, so the
                    // leaf update left it alone.
                    assert(arena@[table].entries[level_index_of(va@, level as nat) as int] == e);
                }
            }
            r
        } else {
            Err(PagingError::PageNotFound)
        }
    }
}

/// Removes the 4 KiB mapping of `virtual_address` from the tree rooted at
/// `root` by clearing its leaf entry.  The walk itself is read-only and
/// allocates nothing, so a missing or huge intermediate entry fails with
/// `PageNotFound` and leaves the arena untouched.  Clearing a leaf that
/// was already absent is not distinguished from clearing a live mapping:
/// both succeed, and a second `unmap` of the same address repeats the
/// first outcome.
pub fn unmap(
    arena: &mut TableArena,
    root: PhysicalAddress52,
    virtual_address: VirtualAddress,
    mode: PagingMode,
) -> (r: Result<(), PagingError>)
    requires
        old(arena).wf(),
        old(arena)@.dom().contains(root@),
        old(arena)@[root@].level == mode.depth_spec(),
    ensures
        final(arena).wf(),
        final(arena)@.dom() == old(arena)@.dom(),
        arena_extends(old(arena)@, final(arena)@),
        final(arena)@[root@].level == mode.depth_spec(),
        (r is Ok) == (walk_to_leaf_table(old(arena)@, root@, virtual_address@, mode.depth_spec())
            is Some),
        match r {
            Ok(()) => walk_to_leaf_table(old(arena)@, root@, virtual_address@, mode.depth_spec())
                matches Some(t) && final(arena)@ == old(arena)@.insert(
                t,
                TableView {
                    level: 1,
                    entries: old(arena)@[t].entries.update(
                        table_index_of(virtual_address@) as int,
                        0u64,
                    ),
                },
            ) && walk_to_leaf_table(final(arena)@, root@, virtual_address@, mode.depth_spec())
                == Some(t) && translate_spec(
                final(arena)@,
                root@,
                virtual_address@,
                mode.depth_spec(),
            ) is None,
            Err(e) => e == PagingError::PageNotFound && final(arena)@ == old(arena)@,
        },
{
    unmap_from(arena, root.as_u64(), mode.depth(), &virtual_address)
}

/// A present, writable entry holding the given aligned physical address,
/// built exactly as a leaf or link entry is written.
fn make_present_entry(address: u64) -> (r: PageTableEntry)
    requires
        address % 4096 == 0,
        address < PHYSICAL_ADDRESS_52_LIMIT,
    ensures
        r@ == address | 3,
        entry_present(r@),
        !entry_huge(r@),
        entry_addr(r@) == address,
        r@ & 2 == 2,
{
    let mut entry = PageTableEntry::empty();
    entry.set_is_present(true);
    entry.set_write_allowed(true);
    entry.set_physical_address(address);
    proof {
        lemma_entry_build(address);
    }
    entry
}

/// The walk from `table` at `level` that creates missing child tables
/// through `allocator` and writes the leaf entry.
fn map_from<A: PagingAllocator>(
    arena: &mut TableArena,
    table: u64,
    level: u8,
    physical_address: &PhysicalAddress52,
    va: &VirtualAddress,
    allocator: &mut A,
) -> (r: Result<(), PagingError>)
    requires
        old(arena).wf(),
        old(arena)@.dom().contains(table),
        old(arena)@[table].level == level as nat,
        1 <= level <= 5,
        physical_address@ % 4096 == 0,
    ensures
        final(arena).wf(),
        arena_extends(old(arena)@, final(arena)@),
        (r == Err::<(), PagingError>(PagingError::PageNotFound)) == path_blocked(
            old(arena)@,
            table,
            va@,
            level as nat,
        ),
        forall|a: u64, k: int|
            old(arena)@.dom().contains(a) && 0 <= k < old(arena)@[a].entries.len()
                && !on_walk_path(final(arena)@, table, va@, level as nat, a, k)
                ==> final(arena)@[a].entries[k] == #[trigger] old(arena)@[a].entries[k],
        forall|a: u64|
            #[trigger] final(arena)@.dom().contains(a) && !old(arena)@.dom().contains(a)
                ==> on_walk_tables(final(arena)@, table, va@, level as nat, a),
        rewritten_slots_mapped(old(arena)@, final(arena)@),
        match r {
            Ok(()) => translate_spec(final(arena)@, table, va@, level as nat) == Some(
                physical_address@,
            ) && (walk_to_leaf_table(final(arena)@, table, va@, level as nat) matches Some(t)
                && final(arena)@.dom().contains(t) && final(arena)@[t].level == 1
                && final(arena)@[t].entries[table_index_of(va@) as int] == (physical_address@ | 3)
                && present_entries_preserved_except(
                old(arena)@,
                final(arena)@,
                t,
                table_index_of(va@) as int,
            )),
            Err(PagingError::PageNotFound) => final(arena)@ == old(arena)@,
            Err(PagingError::AllocationFailed) => translate_spec(
                final(arena)@,
                table,
                va@,
                level as nat,
            ) is None && present_entries_preserved(old(arena)@, final(arena)@)
                && walk_to_leaf_table(old(arena)@, table, va@, level as nat) is None
                && walk_to_leaf_table(final(arena)@, table, va@, level as nat) is None
                && !path_blocked(final(arena)@, table, va@, level as nat),
        },
    decreases level,
{
    let ghost m0 = arena@;
    proof {
        use_type_invariant(physical_address);
    }
    if level == 1 {
        let tidx = va.table_index();
        let i = arena.slot_index_of(table);
        let entry = make_present_entry(physical_address.as_u64());
        arena.write_entry(i, tidx, entry);
        proof {
            let m1 = arena@;
            // Entries of a level-1 table are leaves, so the coherence
            // clause of `map_wf` is untouched by this write.
            assert forall|a: u64, j: int|
                m1.dom().contains(a) && 0 <= j < TABLE_ENTRY_COUNT && m1[a].level >= 2
                    && entry_present(#[trigger] m1[a].entries[j]) && !entry_huge(m1[a].entries[j])
                implies m1.dom().contains(entry_addr(m1[a].entries[j])) && m1[entry_addr(
                m1[a].entries[j])].level == m1[a].level - 1 by {
                assert(m0.dom().contains(a) && m1[a].entries[j] == m0[a].entries[j]);
            }
            assert(walk_to_leaf_table(m1, table, va@, level as nat) == Some(table));
            assert forall|a: u64| #[trigger] m0.dom().contains(a) implies m1.dom().contains(a)
                && m1[a].level == m0[a].level && m1[a].entries.len() == m0[a].entries.len() by {}
            assert(present_entries_preserved_except(m0, m1, table, table_index_of(va@) as int));
            assert(m1[table].entries[table_index_of(va@) as int] == (physical_address@ | 3));
            // The one changed slot is the slot this walk reads.
            assert(on_walk_path(m1, table, va@, level as nat, table, table_index_of(va@) as int));
            assert forall|a: u64, k: int|
                m0.dom().contains(a) && 0 <= k < m0[a].entries.len() && !on_walk_path(
                    m1,
                    table,
                    va@,
                    level as nat,
                    a,
                    k,
                ) implies m1[a].entries[k] == #[trigger] m0[a].entries[k] by {
                if a == table && k == table_index_of(va@) as int {
                    assert(on_walk_path(m1, table, va@, level as nat, a, k));
                }
            }
            assert(m1.dom() =~= m0.dom());
            assert forall|a: u64, k: int|
                m0.dom().contains(a) && 0 <= k < m0[a].entries.len() && m1[a].entries[k]
                    != #[trigger] m0[a].entries[k] implies entry_present(m1[a].entries[k])
                && !entry_huge(m1[a].entries[k]) && m1[a].entries[k] & 2 == 2 by {
                assert(a == table && k == table_index_of(va@) as int);
            }
        }
        Ok(())
    } else {
        proof {
            lemma_level_index_bound(va@, level as nat);
        }
        let ghost idx = level_index_of(va@, level as nat) as int;
        let index = level_index(va, level);
        let i = arena.slot_index_of(table);
        let e = match arena.read_entry(table, index) {
            Some(x) => x,
            None => {
                proof {
                    assert(false);
                }
                0
            },
        };
        if e & 1 == 1 {
            if e & 0x80 == 0x80 {
                // A huge-page leaf stands where a child table was
                // expected: mapping through it is refused.
                Err(PagingError::PageNotFound)
            } else {
                let child = e & ENTRY_ADDRESS_MASK;
                let r = map_from(arena, child, level - 1, physical_address, va, allocator);
                proof {
                    let m2 = arena@;
                    match r {
                        Ok(()) => {
                            let t = walk_to_leaf_table(m2, child, va@, (level - 1) as nat)->Some_0;
                            // The followed entry lives above level 1 and
                            // the leaf table at level 1, so it survived
                            // the recursion's one leaf write.
                            assert(m2[table].level == level as nat && m2[t].level == 1);
                            assert(m2[table].entries[idx] == e);
                            assert(walk_to_leaf_table(m2, table, va@, level as nat)
                                == walk_to_leaf_table(m2, child, va@, (level - 1) as nat));
                            assert(translate_spec(m2, table, va@, level as nat) == translate_spec(
                                m2,
                                child,
                                va@,
                                (level - 1) as nat,
                            ));
                        },
                        Err(PagingError::PageNotFound) => {
                            assert(path_blocked(m0, table, va@, level as nat));
                        },
                        Err(PagingError::AllocationFailed) => {
                            assert(m2[table].entries[idx] == e);
                            assert(walk_to_leaf_table(m2, table, va@, level as nat)
                                == walk_to_leaf_table(m2, child, va@, (level - 1) as nat));
                            assert(translate_spec(m2, table, va@, level as nat) == translate_spec(
                                m2,
                                child,
                                va@,
                                (level - 1) as nat,
                            ));
                            assert(!path_blocked(m0, table, va@, level as nat));
                            assert(walk_to_leaf_table(m0, table, va@, level as nat)
                                == walk_to_leaf_table(m0, child, va@, (level - 1) as nat));
                            assert(!path_blocked(m2, table, va@, level as nat));
                        },
                    }
                    // What this level's entry did not route to was not
                    // touched by the deeper call either.
                    if !(r is Err && r->Err_0 == PagingError::PageNotFound) {
                        assert(m2[table].entries[idx] == e);
                        assert forall|a: u64, k: int|
                            m0.dom().contains(a) && 0 <= k < m0[a].entries.len() && !on_walk_path(
                                m2,
                                table,
                                va@,
                                level as nat,
                                a,
                                k,
                            ) implies m2[a].entries[k] == #[trigger] m0[a].entries[k] by {
                            assert(!on_walk_path(m2, child, va@, (level - 1) as nat, a, k));
                        }
                        assert forall|a: u64|
                            #[trigger] m2.dom().contains(a) && !m0.dom().contains(a) implies
                            on_walk_tables(m2, table, va@, level as nat, a) by {
                            assert(on_walk_tables(m2, child, va@, (level - 1) as nat, a));
                        }
                    }
                }
                r
            }
        } else {
            match allocator.allocate_page_table(arena, level - 1) {
                Err(_) => {
                    proof {
                        assert(!entry_present(m0[table].entries[idx]));
                        assert(walk_to_leaf_table(m0, table, va@, level as nat) is None);
                        assert(!path_blocked(m0, table, va@, level as nat));
                    }
                    Err(PagingError::AllocationFailed)
                },
                Ok(child_pa) => {
                    proof {
                        use_type_invariant(&child_pa);
                    }
                    let child = child_pa.as_u64();
                    let ghost m_alloc = arena@;
                    let i = arena.slot_index_of(table);
                    let entry = make_present_entry(child);
                    arena.write_entry(i, index, entry);
                    proof {
                        lemma_zero_entry();
                        let m_linked = arena@;
                        assert(child != table && !m0.dom().contains(child));
                        // The new link points at the fresh table one
                        // level down; everything else is as it was.
                        assert forall|a: u64, j: int|
                            m_linked.dom().contains(a) && 0 <= j < TABLE_ENTRY_COUNT
                                && m_linked[a].level >= 2 && entry_present(
                                #[trigger] m_linked[a].entries[j]) && !entry_huge(
                                m_linked[a].entries[j]) implies m_linked.dom().contains(entry_addr(
                            m_linked[a].entries[j])) && m_linked[entry_addr(
                            m_linked[a].entries[j])].level == m_linked[a].level - 1 by {
                            if a == table && j == idx {
                            } else if a == child {
                                assert(m_linked[a].entries[j] == 0);
                            } else {
                                assert(m0.dom().contains(a) && m_linked[a].entries[j]
                                    == m0[a].entries[j]);
                            }
                        }
                        // The arena so far only gained the fresh child
                        // table and the one link entry, which was absent.
                        assert forall|a: u64| #[trigger] m0.dom().contains(a) implies
                            m_linked.dom().contains(a) && m_linked[a].level == m0[a].level
                                && m_linked[a].entries.len() == m0[a].entries.len() by {}
                        assert(present_entries_preserved(m0, m_linked));
                    }
                    let ghost m_linked = arena@;
                    let r = map_from(arena, child, level - 1, physical_address, va, allocator);
                    proof {
                        let m2 = arena@;
                        // The fresh child table is zeroed, so nothing on
                        // the remaining path can be blocked.
                        assert(m_linked[child].entries[level_index_of(va@, (level - 1) as nat) as int]
                            == 0) by {
                            lemma_level_index_bound(va@, (level - 1) as nat);
                        }
                        assert(!path_blocked(m_linked, child, va@, (level - 1) as nat));
                        // The link entry as it was written, the term the
                        // recursion's frame clause is keyed on.
                        assert(m_linked[table].entries.len() == TABLE_ENTRY_COUNT);
                        assert(m_linked[table].entries[idx] == (child | 3) && entry_present(
                            m_linked[table].entries[idx],
                        ));
                        assert(arena_extends(m0, m2)) by {
                            assert forall|a: u64| #[trigger] m0.dom().contains(a) implies
                                m2.dom().contains(a) && m2[a].level == m0[a].level
                                    && m2[a].entries.len() == m0[a].entries.len() by {
                                assert(m_linked.dom().contains(a));
                            }
                        }
                        match r {
                            Ok(()) => {
                                let t = walk_to_leaf_table(
                                    m2,
                                    child,
                                    va@,
                                    (level - 1) as nat,
                                )->Some_0;
                                assert(m2[table].level == level as nat && m2[t].level == 1);
                                assert(m2[table].entries[idx] == (child | 3));
                                assert(walk_to_leaf_table(m2, table, va@, level as nat)
                                    == walk_to_leaf_table(m2, child, va@, (level - 1) as nat));
                                assert(translate_spec(m2, table, va@, level as nat)
                                    == translate_spec(m2, child, va@, (level - 1) as nat));
                                // The one entry this call rewrote in tables
                                // that already existed was absent, so
                                // every present entry but the leaf write
                                // survives.
                                assert forall|a: u64, k: int|
                                    m0.dom().contains(a) && 0 <= k < m0[a].entries.len()
                                        && entry_present(#[trigger] m0[a].entries[k]) && !(a == t
                                        && k == table_index_of(va@) as int) implies m2[a].entries[k]
                                    == m0[a].entries[k] by {
                                    assert(m_linked.dom().contains(a));
                                    assert(m_linked[a].entries[k] == m0[a].entries[k]);
                                }
                            },
                            Err(PagingError::PageNotFound) => {
                                assert(false);
                            },
                            Err(PagingError::AllocationFailed) => {
                                assert(m2[table].entries[idx] == (child | 3));
                                assert(walk_to_leaf_table(m2, table, va@, level as nat)
                                    == walk_to_leaf_table(m2, child, va@, (level - 1) as nat));
                                assert(translate_spec(m2, table, va@, level as nat)
                                    == translate_spec(m2, child, va@, (level - 1) as nat));
                                assert(!path_blocked(m0, table, va@, level as nat));
                                assert(walk_to_leaf_table(m0, table, va@, level as nat) is None);
                                assert(!path_blocked(m2, table, va@, level as nat));
                                assert forall|a: u64, k: int|
                                    m0.dom().contains(a) && 0 <= k < m0[a].entries.len()
                                        && entry_present(#[trigger] m0[a].entries[k]) implies
                                    m2[a].entries[k] == m0[a].entries[k] by {
                                    assert(m_linked.dom().contains(a));
                                    assert(m_linked[a].entries[k] == m0[a].entries[k]);
                                }
                            },
                        }
                        // Off-path slots of the already existing tables:
                        // the link this call wrote sits on the path, and
                        // everything the deeper call touched lies behind
                        // it.
                        assert(m2[table].entries[idx] == (child | 3));
                        assert(on_walk_path(m2, table, va@, level as nat, table, idx));
                        assert forall|a: u64, k: int|
                            m0.dom().contains(a) && 0 <= k < m0[a].entries.len() && !on_walk_path(
                                m2,
                                table,
                                va@,
                                level as nat,
                                a,
                                k,
                            ) implies m2[a].entries[k] == #[trigger] m0[a].entries[k] by {
                            if a == table && k == idx {
                                assert(on_walk_path(m2, table, va@, level as nat, a, k));
                            } else {
                                assert(m_linked.dom().contains(a));
                                assert(m_linked[a].entries[k] == m0[a].entries[k]);
                                assert(!on_walk_path(m2, child, va@, (level - 1) as nat, a, k));
                            }
                        }
                        // The tables this call added: the fresh child,
                        // and whatever the deeper call added behind it.
                        assert(m_linked.dom() =~= m0.dom().insert(child));
                        assert forall|a: u64|
                            #[trigger] m2.dom().contains(a) && !m0.dom().contains(a) implies
                            on_walk_tables(m2, table, va@, level as nat, a) by {
                            if m_linked.dom().contains(a) {
                                assert(a == child);
                                assert(on_walk_tables(m2, child, va@, (level - 1) as nat, child));
                            } else {
                                assert(on_walk_tables(m2, child, va@, (level - 1) as nat, a));
                            }
                        }
                        // Every slot rewritten here is the link, or one
                        // the deeper call rewrote: present and writable
                        // either way.
                        assert forall|a: u64, k: int|
                            m0.dom().contains(a) && 0 <= k < m0[a].entries.len()
                                && m2[a].entries[k] != #[trigger] m0[a].entries[k] implies
                            entry_present(m2[a].entries[k]) && !entry_huge(m2[a].entries[k])
                                && m2[a].entries[k] & 2 == 2 by {
                            assert(m_linked.dom().contains(a));
                            if m2[a].entries[k] == m_linked[a].entries[k] {
                                assert(a == table && k == idx);
                            }
                        }
                    }
                    r
                },
            }
        }
    }
}

/// Maps `virtual_address` to `physical_address` as a present, writable
/// 4 KiB page in the tree rooted at `root`, allocating each missing
/// intermediate table through `allocator` and linking it present and
/// writable.  Entries of pre-existing tables change only on the walked
/// path, every table the call adds stands on that path, and every
/// rewritten slot holds a present, writable link or leaf.  An existing
/// mapping of the same address is overwritten, last write wins, and
/// every other existing mapping survives untouched; a huge-page leaf on
/// the path is refused with `PageNotFound` and nothing is changed;
/// `AllocationFailed` keeps every already-present entry, leaves the
/// address unmapped behind an absent slot on the path, and keeps the
/// links created before the failure — rollback is the allocator's
/// business, not the walker's.
pub fn map<A: PagingAllocator>(
    arena: &mut TableArena,
    root: PhysicalAddress52,
    physical_address: PhysicalAddress52,
    virtual_address: VirtualAddress,
    mode: PagingMode,
    allocator: &mut A,
) -> (r: Result<(), PagingError>)
    requires
        old(arena).wf(),
        old(arena)@.dom().contains(root@),
        old(arena)@[root@].level == mode.depth_spec(),
        physical_address@ % 4096 == 0,
    ensures
        final(arena).wf(),
        arena_extends(old(arena)@, final(arena)@),
        final(arena)@[root@].level == mode.depth_spec(),
        (r == Err::<(), PagingError>(PagingError::PageNotFound)) == path_blocked(
            old(arena)@,
            root@,
            virtual_address@,
            mode.depth_spec(),
        ),
        forall|a: u64, k: int|
            old(arena)@.dom().contains(a) && 0 <= k < old(arena)@[a].entries.len()
                && !on_walk_path(final(arena)@, root@, virtual_address@, mode.depth_spec(), a, k)
                ==> final(arena)@[a].entries[k] == #[trigger] old(arena)@[a].entries[k],
        forall|a: u64|
            #[trigger] final(arena)@.dom().contains(a) && !old(arena)@.dom().contains(a)
                ==> on_walk_tables(final(arena)@, root@, virtual_address@, mode.depth_spec(), a),
        rewritten_slots_mapped(old(arena)@, final(arena)@),
        match r {
            Ok(()) => translate_spec(
                final(arena)@,
                root@,
                virtual_address@,
                mode.depth_spec(),
            ) == Some(physical_address@) && (walk_to_leaf_table(
                final(arena)@,
                root@,
                virtual_address@,
                mode.depth_spec(),
            ) matches Some(t) && final(arena)@[t].entries[table_index_of(virtual_address@) as int]
                == (physical_address@ | 3) && present_entries_preserved_except(
                old(arena)@,
                final(arena)@,
                t,
                table_index_of(virtual_address@) as int,
            ) && (forall|va2: u64|
                translate_spec(old(arena)@, root@, va2, mode.depth_spec()) is Some && !(
                #[trigger] walk_to_leaf_table(old(arena)@, root@, va2, mode.depth_spec()) == Some(
                    t,
                ) && table_index_of(va2) == table_index_of(virtual_address@))
                    ==> translate_spec(final(arena)@, root@, va2, mode.depth_spec())
                    == translate_spec(old(arena)@, root@, va2, mode.depth_spec()))),
            Err(PagingError::PageNotFound) => final(arena)@ == old(arena)@,
            Err(PagingError::AllocationFailed) => translate_spec(
                final(arena)@,
                root@,
                virtual_address@,
                mode.depth_spec(),
            ) is None && present_entries_preserved(old(arena)@, final(arena)@)
                && walk_to_leaf_table(old(arena)@, root@, virtual_address@, mode.depth_spec())
                is None && walk_to_leaf_table(
                final(arena)@,
                root@,
                virtual_address@,
                mode.depth_spec(),
            ) is None && !path_blocked(
                final(arena)@,
                root@,
                virtual_address@,
                mode.depth_spec(),
            ) && (forall|va2: u64|
                #[trigger] translate_spec(old(arena)@, root@, va2, mode.depth_spec()) is Some
                    ==> translate_spec(final(arena)@, root@, va2, mode.depth_spec())
                    == translate_spec(old(arena)@, root@, va2, mode.depth_spec())),
        },
{
    let ghost m0 = arena@;
    let ghost depth = mode.depth_spec();
    let r = map_from(
        arena,
        root.as_u64(),
        mode.depth(),
        &physical_address,
        &virtual_address,
        allocator,
    );
    proof {
        let m1 = arena@;
        match r {
            Ok(()) => {
                let t = walk_to_leaf_table(m1, root@, virtual_address@, depth)->Some_0;
                let j = table_index_of(virtual_address@) as int;
                assert forall|va2: u64|
                    translate_spec(m0, root@, va2, depth) is Some && !(#[trigger]
                    walk_to_leaf_table(m0, root@, va2, depth) == Some(t) && table_index_of(va2)
                        == table_index_of(virtual_address@)) implies translate_spec(
                    m1,
                    root@,
                    va2,
                    depth,
                ) == translate_spec(m0, root@, va2, depth) by {
                    lemma_preserved_translation(m0, m1, root@, va2, depth, t, j);
                }
            },
            Err(PagingError::AllocationFailed) => {
                // No entry was overwritten at all, so the exception slot
                // of the preservation lemma can be out of every range.
                assert(present_entries_preserved_except(m0, m1, 0, -1));
                assert forall|va2: u64| #[trigger]
                    translate_spec(m0, root@, va2, depth) is Some implies translate_spec(
                    m1,
                    root@,
                    va2,
                    depth,
                ) == translate_spec(m0, root@, va2, depth) by {
                    lemma_preserved_translation(m0, m1, root@, va2, depth, 0, -1);
                }
            },
            Err(PagingError::PageNotFound) => {},
        }
    }
    r
}

} // verus!
