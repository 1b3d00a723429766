//! Translation tables: an arena of 512-entry tables, the links between them,
//! and the walk that the hardware will make through them.
//!
//! The arena is an image of the memory that will hold the tables: table
//! number `h` lies at `arena_base + 4096 * h`, and its entry `i` is word
//! `512 * h + i` of the image. A builder fills the image; sealing it checks
//! that the running code is mapped and gives an address space that can no
//! longer be changed.
use crate::bits::bits_of;
use crate::descriptor::{
    descriptor_page_4k_lvl3, descriptor_table_lvl012, encode_page, encode_page_spec,
    encode_table, encode_table_spec, is_page_address, lemma_encode_page_fields,
    lemma_encode_table_fields, ADDRESS_BITS, PAGE, TABLE,
};
use vstd::prelude::*;

verus! {

/// Entries in one table.
pub const ENTRIES: usize = 512;

/// Bytes in one table, and in one page.
pub const GRANULE: u64 = 4096;

/// One more than the highest address that a descriptor can hold.
pub const ADDRESS_LIMIT: u64 = 0x1_0000_0000_0000;

/// Why the builder refused a request.
#[derive(Clone, Copy, Debug, PartialEq, Eq, Structural)]
pub enum BuildError {
    /// The arena does not start on a 4096-byte boundary or does not end
    /// below 2^48.
    BadArena,
    /// The level is not 1, 2 or 3.
    BadLevel,
    /// Every table of the arena is in use.
    OutOfTables,
    /// No table of this number has been allocated.
    UnknownTable,
    /// The child is not one level below the parent.
    LevelMismatch,
    /// Pages are mapped in tables of level 3 only.
    NotLeaf,
    /// The frame address is not 4096-aligned or not below 2^48.
    BadFrame,
    /// The walk starts in a table of level 1 only.
    NotRoot,
    /// No page of the hierarchy maps the frame that holds the running code.
    CodeUnmapped,
}

/// What an arena holds.
#[verifier::ext_equal]
pub struct ArenaModel {
    /// Address of table 0.
    pub arena_base: u64,
    /// How many tables the arena has room for.
    pub capacity: nat,
    /// The level of each allocated table.
    pub levels: Seq<u8>,
    /// The entries of all allocated tables, table after table.
    pub words: Seq<u64>,
}

impl ArenaModel {
    /// The arena is aligned and lies below 2^48, its tables are of levels 1
    /// to 3 and have 512 entries each.
    pub open spec fn wf(self) -> bool {
        &&& self.arena_base % GRANULE == 0
        &&& self.arena_base < ADDRESS_LIMIT
        &&& self.arena_base + GRANULE * self.capacity <= ADDRESS_LIMIT
        &&& self.levels.len() <= self.capacity
        &&& self.words.len() == ENTRIES * self.levels.len()
        &&& forall|h: int| 0 <= h < self.levels.len() ==> 1 <= #[trigger] self.levels[h] <= 3
    }

    /// Whether `table` is the number of an allocated table.
    pub open spec fn has(self, table: int) -> bool {
        0 <= table < self.levels.len()
    }

    /// The address of table number `table`.
    pub open spec fn base_of(self, table: int) -> int {
        self.arena_base + GRANULE * table
    }

    /// Entry `index` of table number `table`.
    pub open spec fn entry(self, table: int, index: int) -> u64 {
        self.words[ENTRIES * table + index]
    }

    /// The number of the allocated table that lies at `addr`, if there is
    /// one.
    pub open spec fn table_at(self, addr: u64) -> Option<int> {
        let offset = addr - self.arena_base;
        if offset >= 0 && offset % (GRANULE as int) == 0 && self.has(offset / (GRANULE as int)) {
            Some(offset / (GRANULE as int))
        } else {
            None
        }
    }

    /// The table that a walk goes to from `entry`: the entry must be a table
    /// descriptor, and its address that of an allocated table of level
    /// `level`.
    pub open spec fn next_table(self, entry: u64, level: u8) -> Option<int> {
        if bits_of(entry, 1, 0) != TABLE {
            None
        } else {
            match self.table_at(entry & ADDRESS_BITS) {
                Some(h) => if self.levels[h] == level {
                    Some(h)
                } else {
                    None
                },
                None => None,
            }
        }
    }

    /// The frame that the hardware reaches from the table `root` through
    /// entry `i1` of it, entry `i2` of the level-2 table found there and
    /// entry `i3` of the level-3 table found there; `None` where the walk
    /// does not start at a table of level 1 or meets an entry that does not
    /// lead on.
    pub open spec fn walk(self, root: int, i1: int, i2: int, i3: int) -> Option<u64> {
        if !self.has(root) || self.levels[root] != 1 {
            None
        } else {
            match self.next_table(self.entry(root, i1), 2) {
                None => None,
                Some(h2) => match self.next_table(self.entry(h2, i2), 3) {
                    None => None,
                    Some(h3) => leaf_frame(self.entry(h3, i3)),
                },
            }
        }
    }

    /// Whether some walk from `root` ends at `frame`.
    pub open spec fn maps_frame(self, root: int, frame: u64) -> bool {
        exists|i1: int, i2: int, i3: int|
            0 <= i1 < ENTRIES && 0 <= i2 < ENTRIES && 0 <= i3 < ENTRIES && #[trigger] self.walk(
                root,
                i1,
                i2,
                i3,
            ) == Some(frame)
    }

    /// Whether entry `i3` of the level-3 table `leaf` maps `frame`.
    pub open spec fn leaf_entry_maps(self, leaf: int, i3: int, frame: u64) -> bool {
        leaf_frame(self.entry(leaf, i3)) == Some(frame)
    }

    /// Whether entry `i2` of the level-2 table `middle` leads to a table
    /// with an entry that maps `frame`.
    pub open spec fn middle_entry_maps(self, middle: int, i2: int, frame: u64) -> bool {
        match self.next_table(self.entry(middle, i2), 3) {
            Some(h3) => exists|i3: int|
                0 <= i3 < ENTRIES && #[trigger] self.leaf_entry_maps(h3, i3, frame),
            None => false,
        }
    }

    /// Whether entry `i1` of the level-1 table `root` leads to a table with
    /// an entry that leads to `frame`.
    pub open spec fn root_entry_maps(self, root: int, i1: int, frame: u64) -> bool {
        match self.next_table(self.entry(root, i1), 2) {
            Some(h2) => exists|i2: int|
                0 <= i2 < ENTRIES && #[trigger] self.middle_entry_maps(h2, i2, frame),
            None => false,
        }
    }

    /// The arena after one more table of `level`, all of its entries zero.
    pub open spec fn allocated(self, level: u8) -> ArenaModel {
        ArenaModel {
            levels: self.levels.push(level),
            words: self.words + Seq::new(ENTRIES as nat, |i: int| 0u64),
            ..self
        }
    }

    /// The arena after `value` is written to entry `index` of `table`.
    pub open spec fn written(self, table: int, index: int, value: u64) -> ArenaModel {
        ArenaModel { words: self.words.update(ENTRIES * table + index, value), ..self }
    }

    /// The arena after entry `index` of `parent` is made to point to `child`.
    pub open spec fn linked(self, parent: int, index: int, child: int) -> ArenaModel {
        self.written(parent, index, encode_table_spec(self.base_of(child) as u64))
    }

    /// The arena after entry `index` of `leaf` is made to map `frame`.
    pub open spec fn mapped(self, leaf: int, index: int, frame: u64, attrs: u8) -> ArenaModel {
        self.written(leaf, index, encode_page_spec(frame, attrs))
    }
}

/// The frame that a level-3 entry maps, if it is a page descriptor.
pub open spec fn leaf_frame(entry: u64) -> Option<u64> {
    if bits_of(entry, 1, 0) == PAGE {
        Some(entry & ADDRESS_BITS)
    } else {
        None
    }
}

/// Start of the 4096-byte frame that holds `addr`.
pub open spec fn frame_of(addr: u64) -> u64 {
    (addr - addr % GRANULE) as u64
}

/// The translation tables under construction.
pub struct PageTableBuilder {
    arena_base: u64,
    capacity: usize,
    levels: Vec<u8>,
    words: Vec<u64>,
}

impl View for PageTableBuilder {
    type V = ArenaModel;

    closed spec fn view(&self) -> ArenaModel {
        ArenaModel {
            arena_base: self.arena_base,
            capacity: self.capacity as nat,
            levels: self.levels@,
            words: self.words@,
        }
    }
}

proof fn lemma_address_arithmetic(addr: u64)
    by (bit_vector)
    ensures
        addr & 0x0000_ffff_ffff_f000 == addr <==> addr % 4096 == 0 && addr < 0x1_0000_0000_0000,
        addr & 0x0000_ffff_ffff_f000 < 0x1_0000_0000_0000,
        (addr & 0x0000_ffff_ffff_f000) % 4096 == 0,
        addr & !0xfffu64 == addr - addr % 4096,
{
}

/// A table address is one that is 4096-aligned and below 2^48.
pub proof fn lemma_table_address(addr: u64)
    ensures
        is_page_address(addr) <==> addr % GRANULE == 0 && addr < ADDRESS_LIMIT,
{
    lemma_address_arithmetic(addr);
}

impl PageTableBuilder {
    /// The invariant of the builder: that of what it holds.
    pub open spec fn wf(&self) -> bool {
        self@.wf()
    }

    /// An empty arena for `capacity` tables that starts at `arena_base`.
    /// Refused unless the arena starts on a 4096-byte boundary below 2^48
    /// and ends at or below 2^48.
    pub fn new(arena_base: u64, capacity: usize) -> (r: Result<PageTableBuilder, BuildError>)
        ensures
            arena_base % GRANULE == 0 && arena_base < ADDRESS_LIMIT && arena_base + GRANULE
                * capacity <= ADDRESS_LIMIT <==> r is Ok,
            r is Err ==> r == Err::<PageTableBuilder, BuildError>(BuildError::BadArena),
            r is Ok ==> {
                &&& r->Ok_0.wf()
                &&& r->Ok_0@.arena_base == arena_base
                &&& r->Ok_0@.capacity == capacity
                &&& r->Ok_0@.levels.len() == 0
            },
    {
        proof {
            lemma_address_arithmetic(arena_base);
        }
        if arena_base & ADDRESS_BITS != arena_base {
            return Err(BuildError::BadArena);
        }
        let room: u64 = (ADDRESS_LIMIT - arena_base) / GRANULE;
        if capacity as u64 > room {
            return Err(BuildError::BadArena);
        }
        Ok(PageTableBuilder { arena_base, capacity, levels: Vec::new(), words: Vec::new() })
    }

    /// Number of tables allocated so far.
    pub fn len(&self) -> (n: usize)
        ensures
            n == self@.levels.len(),
    {
        self.levels.len()
    }

    /// Takes the next table of the arena for `level`. The table is all
    /// zero; the tables allocated before keep their numbers and entries.
    pub fn allocate(&mut self, level: u8) -> (r: Result<usize, BuildError>)
        requires
            old(self).wf(),
        ensures
            final(self).wf(),
            1 <= level <= 3 && old(self)@.levels.len() < old(self)@.capacity <==> r is Ok,
            !(1 <= level <= 3) <==> r == Err::<usize, BuildError>(BuildError::BadLevel),
            1 <= level <= 3 && old(self)@.levels.len() == old(self)@.capacity <==> r == Err::<
                usize,
                BuildError,
            >(BuildError::OutOfTables),
            r is Err ==> final(self)@ == old(self)@,
            r is Ok ==> {
                &&& r->Ok_0 == old(self)@.levels.len()
                &&& final(self)@ == old(self)@.allocated(level)
            },
    {
        if level < 1 || level > 3 {
            return Err(BuildError::BadLevel);
        }
        let table: usize = self.levels.len();
        if table == self.capacity {
            return Err(BuildError::OutOfTables);
        }
        self.levels.push(level);
        let ghost before = self.words@;
        let mut i: usize = 0;
        while i < ENTRIES
            invariant
                i <= ENTRIES,
                self.words@ == before + Seq::new(i as nat, |k: int| 0u64),
                self.levels@ == old(self).levels@.push(level),
                self.arena_base == old(self).arena_base,
                self.capacity == old(self).capacity,
            decreases ENTRIES - i,
        {
            self.words.push(0);
            i = i + 1;
            assert(self.words@ =~= before + Seq::new(i as nat, |k: int| 0u64));
        }
        assert(self@ == old(self)@.allocated(level));
        Ok(table)
    }

    /// The address of an allocated table.
    pub fn base_of(&self, table: usize) -> (base: u64)
        requires
            self.wf(),
            self@.has(table as int),
        ensures
            base == self@.base_of(table as int),
            is_page_address(base),
    {
        let base: u64 = self.arena_base + GRANULE * (table as u64);
        proof {
            lemma_address_arithmetic(base);
        }
        base
    }

    /// The level of an allocated table.
    pub fn level_of(&self, table: usize) -> (level: u8)
        requires
            self.wf(),
            self@.has(table as int),
        ensures
            level == self@.levels[table as int],
            1 <= level <= 3,
    {
        self.levels[table]
    }

    /// One entry of an allocated table.
    pub fn entry(&self, table: usize, index: usize) -> (word: u64)
        requires
            self.wf(),
            self@.has(table as int),
            index < ENTRIES,
        ensures
            word == self@.entry(table as int, index as int),
    {
        self.words[self.slot(table, index)]
    }

    /// Where entry `index` of `table` lies in the image.
    fn slot(&self, table: usize, index: usize) -> (at: usize)
        requires
            self.wf(),
            self@.has(table as int),
            index < ENTRIES,
        ensures
            at == ENTRIES * table + index,
            at < self.words@.len(),
    {
        let total: usize = self.words.len();
        assert(total == 512 * self.levels@.len());
        ENTRIES * table + index
    }

    /// The number of the allocated table at `addr`, if there is one.
    pub fn table_at(&self, addr: u64) -> (r: Option<usize>)
        requires
            self.wf(),
        ensures
            r is Some <==> self@.table_at(addr) is Some,
            r is Some ==> r->Some_0 == self@.table_at(addr)->Some_0,
    {
        if addr < self.arena_base {
            return None;
        }
        let offset: u64 = addr - self.arena_base;
        if offset % GRANULE != 0 {
            return None;
        }
        let number: u64 = offset / GRANULE;
        if number >= self.levels.len() as u64 {
            return None;
        }
        Some(number as usize)
    }

    /// The table that a walk goes to from `entry`, if it leads to an
    /// allocated table of `level`.
    pub fn next_table(&self, entry: u64, level: u8) -> (r: Option<usize>)
        requires
            self.wf(),
        ensures
            r is Some <==> self@.next_table(entry, level) is Some,
            r is Some ==> r->Some_0 == self@.next_table(entry, level)->Some_0,
            r is Some ==> self@.has(r->Some_0 as int),
    {
        let d = descriptor_table_lvl012(entry);
        if d.desc_type() != TABLE {
            return None;
        }
        let addr: u64 = d.next_level_table_addr() << 12;
        match self.table_at(addr) {
            Some(h) => {
                if self.levels[h] == level {
                    Some(h)
                } else {
                    None
                }
            },
            None => None,
        }
    }

    /// Writes into entry `index` of `parent` the table descriptor of
    /// `child`. Refused, with nothing written, unless both tables are
    /// allocated and the child is one level below the parent.
    pub fn link_table(&mut self, parent: usize, index: usize, child: usize) -> (r: Result<
        (),
        BuildError,
    >)
        requires
            old(self).wf(),
            index < ENTRIES,
        ensures
            final(self).wf(),
            old(self)@.has(parent as int) && old(self)@.has(child as int) && old(
                self,
            )@.levels[child as int] == old(self)@.levels[parent as int] + 1 <==> r is Ok,
            !old(self)@.has(parent as int) || !old(self)@.has(child as int) <==> r == Err::<
                (),
                BuildError,
            >(BuildError::UnknownTable),
            old(self)@.has(parent as int) && old(self)@.has(child as int) && old(
                self,
            )@.levels[child as int] != old(self)@.levels[parent as int] + 1 <==> r == Err::<
                (),
                BuildError,
            >(BuildError::LevelMismatch),
            r is Err ==> final(self)@ == old(self)@,
            r is Ok ==> final(self)@ == old(self)@.linked(
                parent as int,
                index as int,
                child as int,
            ),
    {
        let n: usize = self.levels.len();
        if parent >= n || child >= n {
            return Err(BuildError::UnknownTable);
        }
        if self.levels[child] != self.levels[parent] + 1 {
            return Err(BuildError::LevelMismatch);
        }
        let base: u64 = self.base_of(child);
        let word: u64 = encode_table(base);
        let at: usize = self.slot(parent, index);
        self.words.set(at, word);
        assert(self@ == old(self)@.linked(parent as int, index as int, child as int));
        Ok(())
    }

    /// Writes into entry `index` of `leaf` the page descriptor of `frame`
    /// with the attribute byte `attrs`. Refused, with nothing written,
    /// unless the table is allocated and of level 3 and the frame address is
    /// 4096-aligned and below 2^48.
    pub fn map_page(&mut self, leaf: usize, index: usize, frame: u64, attrs: u8) -> (r: Result<
        (),
        BuildError,
    >)
        requires
            old(self).wf(),
            index < ENTRIES,
        ensures
            final(self).wf(),
            old(self)@.has(leaf as int) && old(self)@.levels[leaf as int] == 3
                && is_page_address(frame) <==> r is Ok,
            !old(self)@.has(leaf as int) <==> r == Err::<(), BuildError>(
                BuildError::UnknownTable,
            ),
            old(self)@.has(leaf as int) && old(self)@.levels[leaf as int] != 3 <==> r == Err::<
                (),
                BuildError,
            >(BuildError::NotLeaf),
            old(self)@.has(leaf as int) && old(self)@.levels[leaf as int] == 3
                && !is_page_address(frame) <==> r == Err::<(), BuildError>(BuildError::BadFrame),
            r is Err ==> final(self)@ == old(self)@,
            r is Ok ==> final(self)@ == old(self)@.mapped(leaf as int, index as int, frame, attrs),
    {
        if leaf >= self.levels.len() {
            return Err(BuildError::UnknownTable);
        }
        if self.levels[leaf] != 3 {
            return Err(BuildError::NotLeaf);
        }
        if frame & ADDRESS_BITS != frame {
            return Err(BuildError::BadFrame);
        }
        let word: u64 = encode_page(frame, attrs);
        let at: usize = self.slot(leaf, index);
        self.words.set(at, word);
        assert(self@ == old(self)@.mapped(leaf as int, index as int, frame, attrs));
        Ok(())
    }

    /// Walks the tables as the hardware will: from `root` through the three
    /// indices to the frame that is mapped there.
    pub fn resolve(&self, root: usize, i1: usize, i2: usize, i3: usize) -> (frame: Option<u64>)
        requires
            self.wf(),
            i1 < ENTRIES,
            i2 < ENTRIES,
            i3 < ENTRIES,
        ensures
            frame == self@.walk(root as int, i1 as int, i2 as int, i3 as int),
    {
        if root >= self.levels.len() || self.levels[root] != 1 {
            return None;
        }
        let h2: usize = match self.next_table(self.entry(root, i1), 2) {
            Some(h) => h,
            None => { return None; },
        };
        let h3: usize = match self.next_table(self.entry(h2, i2), 3) {
            Some(h) => h,
            None => { return None; },
        };
        let d = descriptor_page_4k_lvl3(self.entry(h3, i3));
        if d.desc_type() == PAGE {
            Some(d.output_addr() << 12)
        } else {
            None
        }
    }

    /// Whether some entry of the level-3 table `leaf` maps `frame`.
    fn leaf_maps(&self, leaf: usize, frame: u64) -> (found: bool)
        requires
            self.wf(),
            self@.has(leaf as int),
        ensures
            found == exists|i3: int|
                0 <= i3 < ENTRIES && #[trigger] self@.leaf_entry_maps(leaf as int, i3, frame),
    {
        let mut i: usize = 0;
        while i < ENTRIES
            invariant
                self.wf(),
                self@.has(leaf as int),
                i <= ENTRIES,
                forall|k: int| 0 <= k < i ==> !#[trigger] self@.leaf_entry_maps(leaf as int, k, frame),
            decreases ENTRIES - i,
        {
            let d = descriptor_page_4k_lvl3(self.entry(leaf, i));
            if d.desc_type() == PAGE && d.output_addr() << 12 == frame {
                assert(self@.leaf_entry_maps(leaf as int, i as int, frame));
                return true;
            }
            i = i + 1;
        }
        false
    }

    /// Whether some entry of the level-2 table `middle` leads to `frame`.
    fn middle_maps(&self, middle: usize, frame: u64) -> (found: bool)
        requires
            self.wf(),
            self@.has(middle as int),
        ensures
            found == exists|i2: int|
                0 <= i2 < ENTRIES && #[trigger] self@.middle_entry_maps(middle as int, i2, frame),
    {
        let mut i: usize = 0;
        while i < ENTRIES
            invariant
                self.wf(),
                self@.has(middle as int),
                i <= ENTRIES,
                forall|k: int|
                    0 <= k < i ==> !#[trigger] self@.middle_entry_maps(middle as int, k, frame),
            decreases ENTRIES - i,
        {
            match self.next_table(self.entry(middle, i), 3) {
                Some(h3) => {
                    if self.leaf_maps(h3, frame) {
                        assert(self@.middle_entry_maps(middle as int, i as int, frame));
                        return true;
                    }
                },
                None => {},
            }
            i = i + 1;
        }
        false
    }

    /// Whether some walk from `root` ends at `frame`.
    pub fn maps(&self, root: usize, frame: u64) -> (found: bool)
        requires
            self.wf(),
        ensures
            found == self@.maps_frame(root as int, frame),
    {
        proof {
            lemma_maps_frame_by_entries(self@, root as int, frame);
        }
        if root >= self.levels.len() || self.levels[root] != 1 {
            return false;
        }
        let mut i: usize = 0;
        while i < ENTRIES
            invariant
                self.wf(),
                self@.has(root as int),
                self@.levels[root as int] == 1,
                self@.maps_frame(root as int, frame) <==> exists|i1: int|
                    0 <= i1 < ENTRIES && #[trigger] self@.root_entry_maps(root as int, i1, frame),
                i <= ENTRIES,
                forall|k: int|
                    0 <= k < i ==> !#[trigger] self@.root_entry_maps(root as int, k, frame),
            decreases ENTRIES - i,
        {
            match self.next_table(self.entry(root, i), 2) {
                Some(h2) => {
                    if self.middle_maps(h2, frame) {
                        assert(self@.root_entry_maps(root as int, i as int, frame));
                        return true;
                    }
                },
                None => {},
            }
            i = i + 1;
        }
        false
    }
}

/// A frame is mapped from `root` exactly if `root` is a table of level 1
/// and one of its entries leads to it.
pub proof fn lemma_maps_frame_by_entries(m: ArenaModel, root: int, frame: u64)
    ensures
        m.maps_frame(root, frame) <==> m.has(root) && m.levels[root] == 1 && exists|i1: int|
            0 <= i1 < ENTRIES && #[trigger] m.root_entry_maps(root, i1, frame),
{
    if m.maps_frame(root, frame) {
        let (i1, i2, i3) = choose|i1: int, i2: int, i3: int|
            0 <= i1 < ENTRIES && 0 <= i2 < ENTRIES && 0 <= i3 < ENTRIES && #[trigger] m.walk(
                root,
                i1,
                i2,
                i3,
            ) == Some(frame);
        let h2 = m.next_table(m.entry(root, i1), 2)->Some_0;
        let h3 = m.next_table(m.entry(h2, i2), 3)->Some_0;
        assert(m.leaf_entry_maps(h3, i3, frame));
        assert(m.middle_entry_maps(h2, i2, frame));
        assert(m.root_entry_maps(root, i1, frame));
    }
    if m.has(root) && m.levels[root] == 1 && exists|i1: int|
        0 <= i1 < ENTRIES && #[trigger] m.root_entry_maps(root, i1, frame) {
        let i1 = choose|i1: int| 0 <= i1 < ENTRIES && #[trigger] m.root_entry_maps(root, i1, frame);
        let h2 = m.next_table(m.entry(root, i1), 2)->Some_0;
        let i2 = choose|i2: int| 0 <= i2 < ENTRIES && #[trigger] m.middle_entry_maps(h2, i2, frame);
        let h3 = m.next_table(m.entry(h2, i2), 3)->Some_0;
        let i3 = choose|i3: int| 0 <= i3 < ENTRIES && #[trigger] m.leaf_entry_maps(h3, i3, frame);
        assert(m.walk(root, i1, i2, i3) == Some(frame));
    }
}

impl PageTableBuilder {
    /// Ends construction. Refused unless `root` is an allocated table of
    /// level 1 from which some walk ends at the frame that holds
    /// `code_address`, the address of the running code.
    pub fn seal(self, root: usize, code_address: u64) -> (r: Result<AddressSpace, BuildError>)
        requires
            self.wf(),
        ensures
            self@.maps_frame(root as int, frame_of(code_address)) <==> r is Ok,
            !self@.has(root as int) <==> r is Err && r->Err_0 == BuildError::UnknownTable,
            self@.has(root as int) && self@.levels[root as int] != 1 <==> r is Err && r->Err_0
                == BuildError::NotRoot,
            self@.has(root as int) && self@.levels[root as int] == 1 && !self@.maps_frame(
                root as int,
                frame_of(code_address),
            ) <==> r is Err && r->Err_0 == BuildError::CodeUnmapped,
            r is Ok ==> {
                &&& r->Ok_0@ == self@
                &&& r->Ok_0.root() == root
                &&& r->Ok_0.code_address() == code_address
            },
    {
        if root >= self.levels.len() {
            return Err(BuildError::UnknownTable);
        }
        if self.levels[root] != 1 {
            return Err(BuildError::NotRoot);
        }
        let frame: u64 = code_address - code_address % GRANULE;
        if !self.maps(root, frame) {
            return Err(BuildError::CodeUnmapped);
        }
        Ok(AddressSpace { arena: self, root, code_address })
    }
}

/// A finished hierarchy of translation tables. It cannot be changed any
/// more, and some page of it maps the frame that holds the running code.
pub struct AddressSpace {
    arena: PageTableBuilder,
    root: usize,
    code_address: u64,
}

impl View for AddressSpace {
    type V = ArenaModel;

    closed spec fn view(&self) -> ArenaModel {
        self.arena@
    }
}

impl AddressSpace {
    /// The number of the table at which walks start.
    pub closed spec fn root(&self) -> int {
        self.root as int
    }

    /// The address of the running code that was given when the hierarchy
    /// was sealed.
    pub closed spec fn code_address(&self) -> u64 {
        self.code_address
    }

    #[verifier::type_invariant]
    spec fn sealed(&self) -> bool {
        &&& self.arena.wf()
        &&& self.arena@.maps_frame(self.root as int, frame_of(self.code_address))
    }

    /// The address of the root table: what the table base register is to
    /// hold.
    pub fn root_base(&self) -> (base: u64)
        ensures
            self@.wf(),
            self@.maps_frame(self.root(), frame_of(self.code_address())),
            base == self@.base_of(self.root()),
            is_page_address(base),
    {
        proof {
            use_type_invariant(self);
        }
        self.arena.base_of(self.root)
    }

    /// Walks the tables as the hardware will: from the root through the
    /// three indices to the frame that is mapped there.
    pub fn resolve(&self, i1: usize, i2: usize, i3: usize) -> (frame: Option<u64>)
        requires
            i1 < ENTRIES,
            i2 < ENTRIES,
            i3 < ENTRIES,
        ensures
            frame == self@.walk(self.root(), i1 as int, i2 as int, i3 as int),
    {
        proof {
            use_type_invariant(self);
        }
        self.arena.resolve(self.root, i1, i2, i3)
    }

    /// One entry of an allocated table.
    pub fn entry(&self, table: usize, index: usize) -> (word: u64)
        requires
            self@.has(table as int),
            index < ENTRIES,
        ensures
            word == self@.entry(table as int, index as int),
    {
        proof {
            use_type_invariant(self);
        }
        self.arena.entry(table, index)
    }

    /// The address at which the image is to lie in memory.
    pub fn arena_base(&self) -> (base: u64)
        ensures
            base == self@.arena_base,
    {
        self.arena.arena_base
    }

    /// The image of the tables: the words to be in memory from the arena's
    /// base on when the root's address is handed to the hardware.
    pub fn image(&self) -> (words: &Vec<u64>)
        ensures
            words@ == self@.words,
    {
        &self.arena.words
    }
}

/// Writing one entry leaves every other entry as it was.
pub proof fn lemma_written_entry(
    m: ArenaModel,
    table: int,
    index: int,
    value: u64,
    other: int,
    at: int,
)
    requires
        m.wf(),
        m.has(table),
        m.has(other),
        0 <= index < ENTRIES,
        0 <= at < ENTRIES,
    ensures
        m.written(table, index, value).wf(),
        m.written(table, index, value).entry(other, at) == if other == table && at == index {
            value
        } else {
            m.entry(other, at)
        },
{
}

/// Linking a root to a level-2 table, that table to a level-3 table, and
/// mapping a frame there makes the walk through the three entries end at
/// the frame. The two entries on the way have the type TABLE and the last
/// one the type PAGE.
pub proof fn lemma_linked_walk(
    m: ArenaModel,
    root: int,
    middle: int,
    leaf: int,
    i1: int,
    i2: int,
    i3: int,
    frame: u64,
    attrs: u8,
)
    requires
        m.wf(),
        m.has(root) && m.levels[root] == 1,
        m.has(middle) && m.levels[middle] == 2,
        m.has(leaf) && m.levels[leaf] == 3,
        0 <= i1 < ENTRIES,
        0 <= i2 < ENTRIES,
        0 <= i3 < ENTRIES,
        is_page_address(frame),
    ensures
        ({
            let built = m.linked(root, i1, middle).linked(middle, i2, leaf).mapped(
                leaf,
                i3,
                frame,
                attrs,
            );
            &&& built.wf()
            &&& built.walk(root, i1, i2, i3) == Some(frame)
            &&& bits_of(built.entry(root, i1), 1, 0) == TABLE
            &&& bits_of(built.entry(middle, i2), 1, 0) == TABLE
            &&& bits_of(built.entry(leaf, i3), 1, 0) == PAGE
        }),
{
    let to_middle = encode_table_spec(m.base_of(middle) as u64);
    let to_leaf = encode_table_spec(m.base_of(leaf) as u64);
    let page = encode_page_spec(frame, attrs);
    let first = m.linked(root, i1, middle);
    let second = first.linked(middle, i2, leaf);
    let built = second.mapped(leaf, i3, frame, attrs);
    lemma_written_entry(m, root, i1, to_middle, root, i1);
    lemma_written_entry(first, middle, i2, to_leaf, root, i1);
    lemma_written_entry(first, middle, i2, to_leaf, middle, i2);
    lemma_written_entry(second, leaf, i3, page, root, i1);
    lemma_written_entry(second, leaf, i3, page, middle, i2);
    lemma_written_entry(second, leaf, i3, page, leaf, i3);
    lemma_encode_table_fields(m.base_of(middle) as u64);
    lemma_encode_table_fields(m.base_of(leaf) as u64);
    lemma_encode_page_fields(frame, attrs);
    lemma_address_arithmetic(m.base_of(middle) as u64);
    lemma_address_arithmetic(m.base_of(leaf) as u64);
    assert(built.table_at(m.base_of(middle) as u64) == Some(middle));
    assert(built.table_at(m.base_of(leaf) as u64) == Some(leaf));
    assert(built.next_table(built.entry(root, i1), 2) == Some(middle));
    assert(built.next_table(built.entry(middle, i2), 3) == Some(leaf));
}

} // verus!
