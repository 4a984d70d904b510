//! The four-level page-table walk: translating a virtual address and
//! mapping a page.
//!
//! Tables are named by the physical address of their frame. The walk
//! itself never touches memory: `TableWalk` says which entry to read
//! next and, given that entry, what to do. `TableStore` is a memory to
//! run the walk on, in which a frame that was never written reads as
//! zero; `translate_addr` and `page_map_addr` run it there.

use vstd::prelude::*;
use std::collections::HashMap;
use super::{PhysAddr, VirtAddr, page_aligned};
use super::frame_allocator::{FrameAllocator, lemma_frame_bounds, MAX_ENTRY_FRAME_NUMBER};
use super::paging_laws::{
    frames_free, lemma_aligned_frame_encodable, lemma_found_parts, lemma_map_cursor,
    lemma_map_keeps_frames_free, lemma_mapped_frame_apart, lemma_mapped_page_translates,
    lemma_page_start, lemma_range_keeps_frames_free, lemma_range_mapped,
    lemma_translate_by_frame, path_avoids,
};
use super::page_table::{
    PageTable, PageTableEntry, frame_of, frame_encodable, with_flag, with_frame, PRESENT, WRITABLE,
    NON_EXECUTABLE, ENTRY_COUNT, PHYS_ADDR_MASK, lemma_table_len,
};

verus! {

/// Number of levels of the page-table hierarchy. The root is at level 4,
/// the tables whose entries name data frames at level 1.
pub const LEVELS: u8 = 4;

/// The index into the table at `level` that `addr` selects: nine bits of
/// the address, bits 39 to 47 at level 4 down to bits 12 to 20 at level 1.
pub open spec fn table_index(addr: u64, level: nat) -> int {
    if level >= 4 {
        ((addr >> 39) & 0x1ff) as int
    } else if level == 3 {
        ((addr >> 30) & 0x1ff) as int
    } else if level == 2 {
        ((addr >> 21) & 0x1ff) as int
    } else {
        ((addr >> 12) & 0x1ff) as int
    }
}

/// The offset of `addr` within its page.
pub open spec fn page_offset(addr: u64) -> u64 {
    addr & 0xfff
}

/// Physical memory as the walk sees it: the 64-bit word at `index` of the
/// frame at a physical address. Where it holds nothing, memory reads as
/// zero.
pub type Memory = Map<(u64, int), u64>;

/// The entry at `index` of the table in frame `table`; zero where memory
/// holds nothing there.
pub open spec fn read(mem: Memory, table: u64, index: int) -> u64 {
    if mem.contains_key((table, index)) {
        mem[(table, index)]
    } else {
        0
    }
}

/// `mem` with every entry of the table in frame `table` set to zero.
pub open spec fn cleared(mem: Memory, table: u64) -> Memory {
    Map::new(
        |k: (u64, int)| k.0 == table || mem.contains_key(k),
        |k: (u64, int)|
            if k.0 == table {
                0
            } else {
                mem[k]
            },
    )
}

/// What translating `addr` gives when the walk stands at `table` on
/// `level`: nothing at the first unused entry, else the frame named at
/// level 1 plus the offset of `addr` within its page.
pub open spec fn translate_from(mem: Memory, table: u64, addr: u64, level: nat)
    -> Option<u64>
    decreases level,
{
    let bits = read(mem, table, table_index(addr, level));
    if bits == 0 {
        None
    } else if level <= 1 {
        Some((frame_of(bits) + page_offset(addr)) as u64)
    } else {
        translate_from(mem, frame_of(bits), addr, (level - 1) as nat)
    }
}

/// What translating `addr` gives in the hierarchy rooted at `root`.
pub open spec fn translate(mem: Memory, root: u64, addr: u64) -> Option<u64> {
    translate_from(mem, root, addr, 4)
}

/// The frame behind the page of `addr` when the walk stands at `table` on
/// `level`: the frame named at level 1, if the walk gets there.
pub open spec fn backing_frame(mem: Memory, table: u64, addr: u64, level: nat)
    -> Option<u64>
    decreases level,
{
    let bits = read(mem, table, table_index(addr, level));
    if bits == 0 {
        None
    } else if level <= 1 {
        Some(frame_of(bits))
    } else {
        backing_frame(mem, frame_of(bits), addr, (level - 1) as nat)
    }
}

/// Which of the 512 words of its page `addr` lies in.
pub open spec fn word_index(addr: u64) -> int {
    ((addr & 0xfff) >> 3) as int
}

/// The word read through the virtual address `addr`: the word of the
/// frame behind the page, if the page is mapped.
pub open spec fn word_at(mem: Memory, root: u64, addr: u64) -> Option<u64> {
    match backing_frame(mem, root, addr, 4) {
        Some(frame) => Some(read(mem, frame, word_index(addr))),
        None => None,
    }
}

/// `mem` after `value` has been written through the virtual address
/// `addr`: into the frame behind the page, if the page is mapped, and
/// nowhere if it is not.
pub open spec fn with_word(mem: Memory, root: u64, addr: u64, value: u64) -> Memory {
    match backing_frame(mem, root, addr, 4) {
        Some(frame) => mem.insert((frame, word_index(addr)), value),
        None => mem,
    }
}

/// The entry that the mapping walk installs for a fresh frame: the frame's
/// address, present, writable, not executable.
pub open spec fn fresh_entry(frame: u64) -> u64 {
    with_flag(
        with_flag(with_flag(with_frame(0, frame), PRESENT, true), WRITABLE, true),
        NON_EXECUTABLE,
        true,
    )
}

/// Why a page could not be mapped.
#[derive(Clone, Copy, Debug, PartialEq, Eq, Structural)]
pub enum MapError {
    /// The frame allocator had no frame left.
    OutOfMemory,
    /// The entry at level 1 was already in use.
    AlreadyMapped,
}

/// Where a mapping walk ends: the memory and the allocator's cursor it
/// leaves, and the frame now behind the page or the reason there is none.
pub ghost struct MapOutcome {
    pub mem: Memory,
    pub cursor: nat,
    pub result: Result<u64, MapError>,
}

/// What mapping `addr` does when the walk stands at `table` on `level`,
/// with `frames[cursor]` the next frame to be handed out.
///
/// An entry in use is followed, and at level 1 refuses the mapping. An
/// unused entry takes the next frame; above level 1 that frame is zeroed
/// first and then walked into. When the frames have run out the walk
/// stops, and what it wrote so far stays.
pub open spec fn map_from(
    mem: Memory,
    frames: Seq<u64>,
    cursor: nat,
    table: u64,
    addr: u64,
    level: nat,
) -> MapOutcome
    decreases level,
{
    let index = table_index(addr, level);
    let bits = read(mem, table, index);
    if bits != 0 {
        if level <= 1 {
            MapOutcome { mem, cursor, result: Err(MapError::AlreadyMapped) }
        } else {
            map_from(mem, frames, cursor, frame_of(bits), addr, (level - 1) as nat)
        }
    } else if cursor >= frames.len() {
        MapOutcome { mem, cursor: cursor + 1, result: Err(MapError::OutOfMemory) }
    } else {
        let frame = frames[cursor as int];
        if level <= 1 {
            MapOutcome {
                mem: mem.insert((table, index), fresh_entry(frame)),
                cursor: cursor + 1,
                result: Ok(frame),
            }
        } else {
            map_from(
                cleared(mem, frame).insert((table, index), fresh_entry(frame)),
                frames,
                cursor + 1,
                frame,
                addr,
                (level - 1) as nat,
            )
        }
    }
}

/// What mapping `addr` does in the hierarchy rooted at `root`.
pub open spec fn map_page(
    mem: Memory,
    frames: Seq<u64>,
    cursor: nat,
    root: u64,
    addr: u64,
) -> MapOutcome {
    map_from(mem, frames, cursor, root, addr, 4)
}

/// A position of the walk, as plain values.
pub ghost struct WalkState {
    pub addr: u64,
    pub table: u64,
    pub level: nat,
}

/// The position one level below `walk`, at the table in frame `table`.
pub open spec fn below(walk: WalkState, table: u64) -> WalkState {
    WalkState { addr: walk.addr, table, level: (walk.level - 1) as nat }
}

/// A position of the walk for one virtual address: the table it stands at
/// and that table's level.
#[derive(Clone, Copy)]
pub struct TableWalk {
    addr: VirtAddr,
    table: PhysAddr,
    level: u8,
}

impl View for TableWalk {
    type V = WalkState;

    closed spec fn view(&self) -> WalkState {
        WalkState { addr: self.addr@, table: self.table@, level: self.level as nat }
    }
}

/// What to do after reading an entry while translating.
pub enum TranslateStep {
    /// The entry is unused: the address is not mapped.
    Unmapped,
    /// Read the next entry, one level down.
    Descend(TableWalk),
    /// The walk is over: this is the physical address.
    Found(PhysAddr),
}

/// What to do after reading an entry while mapping.
pub enum MapStep {
    /// The entry is in use: read the next entry, one level down.
    Descend(TableWalk),
    /// The entry was unused and a table is now due below it: zero `frame`,
    /// store `entry` where the entry was read, then go on with `next`.
    Grow { entry: PageTableEntry, frame: PhysAddr, next: TableWalk },
    /// The entry at level 1 was unused: store `entry` where the entry was
    /// read and drop `flush` from the translation cache. The page is now
    /// backed by `frame`.
    Leaf { entry: PageTableEntry, frame: PhysAddr, flush: VirtAddr },
    /// No frame was left.
    OutOfMemory,
    /// The entry at level 1 is in use.
    AlreadyMapped,
}

impl TableWalk {
    #[verifier::type_invariant]
    spec fn inv(self) -> bool {
        1 <= self.level <= 4
    }

    /// The walk for `addr` at the root table.
    pub fn start(root: PhysAddr, addr: VirtAddr) -> (res: Self)
        ensures
            res@ == (WalkState { addr: addr@, table: root@, level: 4 }),
    {
        Self { addr, table: root, level: LEVELS }
    }

    /// The frame of the table whose entry is to be read next.
    pub fn table(&self) -> (res: PhysAddr)
        ensures
            res@ == self@.table,
    {
        self.table
    }

    /// The level of that table, from 4 at the root down to 1.
    pub fn level(&self) -> (res: u8)
        ensures
            res == self@.level,
            1 <= res <= 4,
    {
        proof {
            use_type_invariant(self);
        }
        self.level
    }

    /// The index of the entry to be read next.
    pub fn index(&self) -> (res: usize)
        ensures
            res == table_index(self@.addr, self@.level),
            res < ENTRY_COUNT,
    {
        proof {
            use_type_invariant(self);
        }
        let addr = self.addr.as_u64();
        let shifted = if self.level == 4 {
            addr >> 39
        } else if self.level == 3 {
            addr >> 30
        } else if self.level == 2 {
            addr >> 21
        } else {
            addr >> 12
        };
        assert(shifted & 0x1ff < 512) by (bit_vector);
        (shifted & 0x1ff) as usize
    }

    /// The next step of a translation, given the entry just read.
    pub fn translate_step(self, entry: PageTableEntry) -> (step: TranslateStep)
        ensures
            entry@ == 0 ==> step is Unmapped,
            entry@ != 0 && self@.level > 1 ==> step is Descend && step->Descend_0@ == below(
                self@,
                frame_of(entry@),
            ),
            entry@ != 0 && self@.level == 1 ==> step is Found && step->Found_0@ == frame_of(
                entry@,
            ) + page_offset(self@.addr),
    {
        proof {
            use_type_invariant(self);
        }
        if entry.unused() {
            TranslateStep::Unmapped
        } else if self.level > 1 {
            TranslateStep::Descend(
                Self { addr: self.addr, table: entry.addr(), level: self.level - 1 },
            )
        } else {
            let frame = entry.addr().as_u64();
            let addr = self.addr.as_u64();
            let bits = entry.bits();
            assert((bits & PHYS_ADDR_MASK) + (addr & 0xfff)
                < 0x10_0000_0000_0000) by (bit_vector);
            TranslateStep::Found(PhysAddr::new(frame + (addr & 0xfff)))
        }
    }

    /// The next step of a mapping, given the entry just read. Where the
    /// entry is unused, the next frame is taken from `frames`.
    pub fn map_step(self, entry: PageTableEntry, frames: &mut FrameAllocator) -> (step: MapStep)
        requires
            old(frames).cursor() < usize::MAX,
            old(frames).fits_entries(),
        ensures
            final(frames).regions() == old(frames).regions(),
            final(frames).cursor() == old(frames).cursor() + (if entry@ == 0 {
                1nat
            } else {
                0nat
            }),
            entry@ != 0 && self@.level > 1 ==> step is Descend && step->Descend_0@ == below(
                self@,
                frame_of(entry@),
            ),
            entry@ != 0 && self@.level == 1 ==> step is AlreadyMapped,
            entry@ == 0 && old(frames).cursor() >= old(frames).frames().len() ==> step
                is OutOfMemory,
            entry@ == 0 && old(frames).cursor() < old(frames).frames().len() && self@.level > 1
                ==> ({
                &&& step is Grow
                &&& step->Grow_frame@ == old(frames).frames()[old(frames).cursor() as int]
                &&& step->Grow_entry@ == fresh_entry(step->Grow_frame@)
                &&& step->Grow_next@ == below(self@, step->Grow_frame@)
            }),
            entry@ == 0 && old(frames).cursor() < old(frames).frames().len() && self@.level == 1
                ==> ({
                &&& step is Leaf
                &&& step->Leaf_frame@ == old(frames).frames()[old(frames).cursor() as int]
                &&& step->Leaf_entry@ == fresh_entry(step->Leaf_frame@)
                &&& step->Leaf_flush@ == self@.addr
            }),
            step is Grow ==> page_aligned(step->Grow_frame@) && frame_encodable(
                step->Grow_frame@,
            ),
            step is Leaf ==> page_aligned(step->Leaf_frame@) && frame_encodable(
                step->Leaf_frame@,
            ),
    {
        proof {
            use_type_invariant(self);
        }
        if !entry.unused() {
            if self.level > 1 {
                MapStep::Descend(
                    Self { addr: self.addr, table: entry.addr(), level: self.level - 1 },
                )
            } else {
                MapStep::AlreadyMapped
            }
        } else {
            match frames.allocate() {
                None => MapStep::OutOfMemory,
                Some(frame) => {
                    proof {
                        lemma_frame_bounds(
                            old(frames).regions(),
                            MAX_ENTRY_FRAME_NUMBER,
                            old(frames).cursor() as int,
                        );
                        lemma_aligned_frame_encodable(frame@);
                    }
                    let mut fresh = PageTableEntry::new(0);
                    fresh.set_addr(frame).set_present(true).set_writable(true).set_non_executable(
                        true,
                    );
                    if self.level > 1 {
                        MapStep::Grow {
                            entry: fresh,
                            frame,
                            next: Self { addr: self.addr, table: frame, level: self.level - 1 },
                        }
                    } else {
                        MapStep::Leaf { entry: fresh, frame, flush: self.addr }
                    }
                },
            }
        }
    }
}

/// A memory that holds page tables, frame by frame. A frame that was never
/// written reads as zero.
pub struct TableStore {
    tables: HashMap<u64, PageTable>,
}

impl View for TableStore {
    type V = Memory;

    closed spec fn view(&self) -> Memory {
        Map::total(
            |k: (u64, int)|
                if self.tables@.contains_key(k.0) && 0 <= k.1 < 512 {
                    self.tables@[k.0]@[k.1]
                } else {
                    0
                },
        )
    }
}

impl TableStore {
    /// A memory of zeros.
    pub fn new() -> (res: Self)
        ensures
            res@ == Map::total(|k: (u64, int)| 0u64),
    {
        let res = Self { tables: HashMap::new() };
        assert(res@ =~= Map::total(|k: (u64, int)| 0u64));
        res
    }

    /// The entry at `index` of the table in frame `table`.
    pub fn entry_at(&self, table: PhysAddr, index: usize) -> (res: PageTableEntry)
        requires
            index < ENTRY_COUNT,
        ensures
            res@ == read(self@, table@, index as int),
    {
        let key = table.as_u64();
        match self.tables.get(&key) {
            Some(found) => found.entry(index),
            None => PageTableEntry::new(0),
        }
    }

    /// Stores `entry` at `index` of the table in frame `table`.
    pub fn set_entry_at(&mut self, table: PhysAddr, index: usize, entry: PageTableEntry)
        requires
            index < ENTRY_COUNT,
        ensures
            final(self)@ == old(self)@.insert((table@, index as int), entry@),
    {
        let key = table.as_u64();
        let mut updated = match self.tables.remove(&key) {
            Some(found) => found,
            None => PageTable::new(),
        };
        let ghost before = updated@;
        proof {
            lemma_table_len(updated);
        }
        assert(forall|j: int| 0 <= j < 512 ==> before[j] == read(old(self)@, key, j));
        updated.set_entry(index, entry);
        self.tables.insert(key, updated);
        assert(self.tables@ =~= old(self).tables@.insert(key, updated));
        assert(self@ =~= old(self)@.insert((table@, index as int), entry@));
    }

    /// Reads the word at the virtual address `addr`, a multiple of 8, in
    /// the address space rooted at `root`: `None` if the page is not
    /// mapped.
    pub fn read_word(&self, root: PhysAddr, addr: VirtAddr) -> (res: Option<u64>)
        requires
            addr@ % 8 == 0,
        ensures
            res == word_at(self@, root@, addr@),
    {
        match translate_addr(self, root, addr) {
            None => {
                proof {
                    lemma_translate_by_frame(self@, root@, addr@, 4);
                }
                None
            },
            Some(found) => {
                proof {
                    lemma_translate_by_frame(self@, root@, addr@, 4);
                    lemma_found_parts(backing_frame(self@, root@, addr@, 4)->0, addr@, found@);
                }
                let at = found.as_u64();
                let frame = PhysAddr::new(at - at % 4096);
                Some(self.entry_at(frame, ((at % 4096) / 8) as usize).bits())
            },
        }
    }

    /// Writes `value` to the virtual address `addr`, a multiple of 8, in
    /// the address space rooted at `root`, and says whether the page is
    /// mapped; nothing is written if it is not.
    pub fn write_word(&mut self, root: PhysAddr, addr: VirtAddr, value: u64) -> (res: bool)
        requires
            addr@ % 8 == 0,
        ensures
            res == backing_frame(old(self)@, root@, addr@, 4) is Some,
            final(self)@ == with_word(old(self)@, root@, addr@, value),
    {
        match translate_addr(self, root, addr) {
            None => {
                proof {
                    lemma_translate_by_frame(self@, root@, addr@, 4);
                }
                false
            },
            Some(found) => {
                proof {
                    lemma_translate_by_frame(self@, root@, addr@, 4);
                    lemma_found_parts(backing_frame(self@, root@, addr@, 4)->0, addr@, found@);
                }
                let at = found.as_u64();
                let frame = PhysAddr::new(at - at % 4096);
                self.set_entry_at(frame, ((at % 4096) / 8) as usize, PageTableEntry::new(value));
                true
            },
        }
    }

    /// Sets every entry of the table in frame `table` to zero.
    pub fn clear_table(&mut self, table: PhysAddr)
        ensures
            final(self)@ == cleared(old(self)@, table@),
    {
        self.tables.insert(table.as_u64(), PageTable::new());
        assert(self@ =~= cleared(old(self)@, table@));
    }
}

/// Translates `addr` in the hierarchy rooted at `root`: `None` where the
/// walk meets an unused entry.
pub fn translate_addr(store: &TableStore, root: PhysAddr, addr: VirtAddr) -> (res: Option<
    PhysAddr,
>)
    ensures
        res is Some <==> translate(store@, root@, addr@) is Some,
        res is Some ==> res->0@ == translate(store@, root@, addr@)->0,
{
    let mut walk = TableWalk::start(root, addr);
    loop
        invariant
            walk@.addr == addr@,
            1 <= walk@.level <= 4,
            translate_from(store@, walk@.table, addr@, walk@.level) == translate(
                store@,
                root@,
                addr@,
            ),
        decreases walk@.level,
    {
        let entry = store.entry_at(walk.table(), walk.index());
        match walk.translate_step(entry) {
            TranslateStep::Unmapped => {
                return None;
            },
            TranslateStep::Descend(next) => {
                walk = next;
            },
            TranslateStep::Found(found) => {
                return Some(found);
            },
        }
    }
}

/// Maps the page of `addr` in the hierarchy rooted at `root`, taking the
/// frames it needs from `frames`, and returns the frame now behind the
/// page. On an error, what the walk wrote before it stopped stays.
///
/// Where the frames still to be handed out are free, they stay so, the
/// page then translates to the frame returned, and that frame is none of
/// the tables on the way to it.
pub fn page_map_addr(
    store: &mut TableStore,
    frames: &mut FrameAllocator,
    root: PhysAddr,
    addr: VirtAddr,
) -> (res: Result<PhysAddr, MapError>)
    requires
        page_aligned(addr@),
        old(frames).fits_entries(),
        old(frames).cursor() + 4 <= usize::MAX,
    ensures
        final(frames).regions() == old(frames).regions(),
        ({
            let out = map_page(
                old(store)@,
                old(frames).frames(),
                old(frames).cursor(),
                root@,
                addr@,
            );
            &&& final(store)@ == out.mem
            &&& final(frames).cursor() == out.cursor
            &&& match res {
                Ok(frame) => out.result == Ok::<u64, MapError>(frame@),
                Err(error) => out.result == Err::<u64, MapError>(error),
            }
        }),
        res is Ok ==> page_aligned(res->Ok_0@),
        frames_free(old(store)@, old(frames).frames(), old(frames).cursor(), root@) ==> ({
            &&& frames_free(final(store)@, final(frames).frames(), final(frames).cursor(), root@)
            &&& res is Ok ==> translate(final(store)@, root@, addr@) == Some(res->Ok_0@)
            &&& res is Ok ==> path_avoids(final(store)@, root@, addr@, 4, res->Ok_0@)
        }),
{
    let res = walk_and_map(store, frames, root, addr);
    proof {
        let mem = old(store)@;
        let handed = old(frames).frames();
        let cursor = old(frames).cursor();
        if frames_free(mem, handed, cursor, root@) {
            lemma_map_keeps_frames_free(mem, handed, cursor, root@, root@, addr@, 4);
            if res is Ok {
                lemma_mapped_page_translates(mem, handed, cursor, root@, addr@);
                lemma_mapped_frame_apart(mem, handed, cursor, root@, addr@);
                lemma_page_start(addr@);
            }
        }
    }
    res
}

/// Runs the mapping walk for `addr` on `store`.
fn walk_and_map(
    store: &mut TableStore,
    frames: &mut FrameAllocator,
    root: PhysAddr,
    addr: VirtAddr,
) -> (res: Result<PhysAddr, MapError>)
    requires
        old(frames).fits_entries(),
        old(frames).cursor() + 4 <= usize::MAX,
    ensures
        final(frames).regions() == old(frames).regions(),
        ({
            let out = map_page(
                old(store)@,
                old(frames).frames(),
                old(frames).cursor(),
                root@,
                addr@,
            );
            &&& final(store)@ == out.mem
            &&& final(frames).cursor() == out.cursor
            &&& match res {
                Ok(frame) => out.result == Ok::<u64, MapError>(frame@),
                Err(error) => out.result == Err::<u64, MapError>(error),
            }
        }),
        res is Ok ==> page_aligned(res->Ok_0@),
{
    let ghost goal = map_page(
        old(store)@,
        old(frames).frames(),
        old(frames).cursor(),
        root@,
        addr@,
    );
    let mut walk = TableWalk::start(root, addr);
    loop
        invariant
            walk@.addr == addr@,
            1 <= walk@.level <= 4,
            frames.regions() == old(frames).regions(),
            frames.fits_entries(),
            frames.cursor() + walk@.level <= usize::MAX,
            goal == map_page(
                old(store)@,
                old(frames).frames(),
                old(frames).cursor(),
                root@,
                addr@,
            ),
            map_from(store@, frames.frames(), frames.cursor(), walk@.table, addr@, walk@.level)
                == goal,
        decreases walk@.level,
    {
        let table = walk.table();
        let index = walk.index();
        let entry = store.entry_at(table, index);
        match walk.map_step(entry, frames) {
            MapStep::Descend(next) => {
                walk = next;
            },
            MapStep::Grow { entry, frame, next } => {
                store.clear_table(frame);
                store.set_entry_at(table, index, entry);
                walk = next;
            },
            MapStep::Leaf { entry, frame, flush: _ } => {
                store.set_entry_at(table, index, entry);
                return Ok(frame);
            },
            MapStep::OutOfMemory => {
                return Err(MapError::OutOfMemory);
            },
            MapStep::AlreadyMapped => {
                return Err(MapError::AlreadyMapped);
            },
        }
    }
}

/// Where mapping a run of pages ends: the memory and the allocator's
/// cursor it leaves, and the error that stopped it, if one did.
pub ghost struct RangeOutcome {
    pub mem: Memory,
    pub cursor: nat,
    pub error: Option<MapError>,
}

/// What mapping `count` pages in a row does, the first at `first`: each
/// is mapped as `map_page` says, in ascending order, and the first error
/// ends the run.
pub open spec fn map_range(
    mem: Memory,
    frames: Seq<u64>,
    cursor: nat,
    root: u64,
    first: u64,
    count: nat,
) -> RangeOutcome
    decreases count,
{
    if count == 0 {
        RangeOutcome { mem, cursor, error: None }
    } else {
        let one = map_page(mem, frames, cursor, root, first);
        match one.result {
            Err(error) => RangeOutcome { mem: one.mem, cursor: one.cursor, error: Some(error) },
            Ok(_) => map_range(
                one.mem,
                frames,
                one.cursor,
                root,
                (first + 4096) as u64,
                (count - 1) as nat,
            ),
        }
    }
}

/// Maps `count` pages in a row, the first at `first`, and stops at the
/// first that cannot be mapped.
///
/// Where the frames still to be handed out are free, they stay so, and
/// after a run without an error every address of every page of the run
/// translates.
pub fn page_map_range(
    store: &mut TableStore,
    frames: &mut FrameAllocator,
    root: PhysAddr,
    first: VirtAddr,
    count: u64,
) -> (res: Result<(), MapError>)
    requires
        page_aligned(first@),
        first@ + count * 4096 <= u64::MAX,
        old(frames).fits_entries(),
        old(frames).cursor() + 4 * count <= usize::MAX,
    ensures
        final(frames).regions() == old(frames).regions(),
        ({
            let out = map_range(
                old(store)@,
                old(frames).frames(),
                old(frames).cursor(),
                root@,
                first@,
                count as nat,
            );
            &&& final(store)@ == out.mem
            &&& final(frames).cursor() == out.cursor
            &&& match res {
                Ok(_) => out.error is None,
                Err(error) => out.error == Some(error),
            }
        }),
        frames_free(old(store)@, old(frames).frames(), old(frames).cursor(), root@) ==> ({
            &&& frames_free(final(store)@, final(frames).frames(), final(frames).cursor(), root@)
            &&& res is Ok ==> forall|addr: u64|
                first@ <= addr < first@ + count * 4096 ==> (#[trigger] translate(
                    final(store)@,
                    root@,
                    addr,
                )) is Some
        }),
{
    let res = walk_and_map_range(store, frames, root, first, count);
    proof {
        let mem = old(store)@;
        let handed = old(frames).frames();
        let cursor = old(frames).cursor();
        if frames_free(mem, handed, cursor, root@) {
            lemma_range_keeps_frames_free(mem, handed, cursor, root@, first@, count as nat);
            if res is Ok {
                assert forall|addr: u64| first@ <= addr < first@ + count * 4096 implies (
                #[trigger] translate(store@, root@, addr)) is Some by {
                    lemma_range_mapped(mem, handed, cursor, root@, first@, count as nat, addr);
                }
            }
        }
    }
    res
}

/// Runs the mapping walk for each page of the run on `store`.
fn walk_and_map_range(
    store: &mut TableStore,
    frames: &mut FrameAllocator,
    root: PhysAddr,
    first: VirtAddr,
    count: u64,
) -> (res: Result<(), MapError>)
    requires
        page_aligned(first@),
        first@ + count * 4096 <= u64::MAX,
        old(frames).fits_entries(),
        old(frames).cursor() + 4 * count <= usize::MAX,
    ensures
        final(frames).regions() == old(frames).regions(),
        ({
            let out = map_range(
                old(store)@,
                old(frames).frames(),
                old(frames).cursor(),
                root@,
                first@,
                count as nat,
            );
            &&& final(store)@ == out.mem
            &&& final(frames).cursor() == out.cursor
            &&& match res {
                Ok(_) => out.error is None,
                Err(error) => out.error == Some(error),
            }
        }),
{
    let ghost goal = map_range(
        old(store)@,
        old(frames).frames(),
        old(frames).cursor(),
        root@,
        first@,
        count as nat,
    );
    let mut done: u64 = 0;
    while done < count
        invariant
            done <= count,
            page_aligned(first@),
            first@ + count * 4096 <= u64::MAX,
            frames.regions() == old(frames).regions(),
            frames.fits_entries(),
            frames.cursor() + 4 * (count - done) <= usize::MAX,
            goal == map_range(
                old(store)@,
                old(frames).frames(),
                old(frames).cursor(),
                root@,
                first@,
                count as nat,
            ),
            map_range(
                store@,
                frames.frames(),
                frames.cursor(),
                root@,
                (first@ + done * 4096) as u64,
                (count - done) as nat,
            ) == goal,
        decreases count - done,
    {
        let page = VirtAddr::new(first.as_u64() + done * 4096);
        proof {
            lemma_map_cursor(store@, frames.frames(), frames.cursor(), root@, page@, 4);
        }
        match page_map_addr(store, frames, root, page) {
            Ok(_) => {},
            Err(error) => {
                return Err(error);
            },
        }
        done += 1;
    }
    Ok(())
}

} // verus!
