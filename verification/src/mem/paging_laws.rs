//! What holds of translating and mapping.
//!
//! A mapped page translates to the frame it was given, as long as the
//! walk is not handed a frame that is a table it has left behind. As long
//! as the frames still to be handed out are not part of the hierarchy, a
//! mapping neither loses an earlier mapping nor makes a later one fail.
//! And what is written to a mapped page is read back from it.

use vstd::prelude::*;
use super::page_aligned;
use super::frame_allocator::{
    Region, lemma_frame_bounds, lemma_frames_ascending, regions_ascending, regions_within,
    usable_frames, MAX_ENTRY_FRAME_NUMBER,
};
use super::page_table::{frame_encodable, frame_of};
use super::paging::{
    Memory, backing_frame, cleared, fresh_entry, map_from, map_page, map_range, page_offset, read,
    table_index, translate, translate_from, with_word, word_at, word_index,
};

verus! {

/// A mapping walk takes at most one frame per level, and none is given
/// back.
pub proof fn lemma_map_cursor(
    mem: Memory,
    frames: Seq<u64>,
    cursor: nat,
    table: u64,
    addr: u64,
    level: nat,
)
    requires
        level >= 1,
    ensures
        cursor <= map_from(mem, frames, cursor, table, addr, level).cursor <= cursor + level,
    decreases level,
{
    let index = table_index(addr, level);
    let bits = read(mem, table, index);
    if level > 1 {
        if bits != 0 {
            lemma_map_cursor(mem, frames, cursor, frame_of(bits), addr, (level - 1) as nat);
        } else if cursor < frames.len() {
            let frame = frames[cursor as int];
            lemma_map_cursor(
                cleared(mem, frame).insert((table, index), fresh_entry(frame)),
                frames,
                cursor + 1,
                frame,
                addr,
                (level - 1) as nat,
            );
        }
    }
}

/// Whether every frame from `cursor` on is page aligned and below 2^52,
/// so that an entry can hold it.
pub open spec fn frames_encodable(frames: Seq<u64>, cursor: nat) -> bool {
    forall|k: int|
        cursor <= k < frames.len() ==> (#[trigger] frames[k]) % 4096 == 0 && frames[k]
            < 0x10_0000_0000_0000
}

/// Whether no frame that the mapping walk for `addr` takes for a new table
/// is a table that the walk has left behind: one above the table at which
/// it takes the frame. `passed` holds the tables above `table`.
pub open spec fn walk_apart(
    mem: Memory,
    frames: Seq<u64>,
    cursor: nat,
    table: u64,
    addr: u64,
    level: nat,
    passed: Set<u64>,
) -> bool
    decreases level,
{
    let index = table_index(addr, level);
    let bits = read(mem, table, index);
    if level <= 1 {
        true
    } else if bits != 0 {
        walk_apart(
            mem,
            frames,
            cursor,
            frame_of(bits),
            addr,
            (level - 1) as nat,
            passed.insert(table),
        )
    } else if cursor >= frames.len() {
        true
    } else {
        let frame = frames[cursor as int];
        !passed.contains(frame) && walk_apart(
            cleared(mem, frame).insert((table, index), fresh_entry(frame)),
            frames,
            cursor + 1,
            frame,
            addr,
            (level - 1) as nat,
            passed.insert(table),
        )
    }
}

/// An address whose entry in the root table is unused translates to
/// nothing.
pub proof fn lemma_unbuilt_translates_to_none(mem: Memory, root: u64, addr: u64)
    requires
        read(mem, root, table_index(addr, 4)) == 0,
    ensures
        translate(mem, root, addr) is None,
{
}

/// Whatever translation finds is the frame named at level 1 plus the
/// offset within the page; for a page-aligned address it is page aligned.
pub proof fn lemma_translation_aligned(mem: Memory, root: u64, addr: u64)
    requires
        page_aligned(addr),
        translate(mem, root, addr) is Some,
    ensures
        page_aligned(translate(mem, root, addr)->0),
{
    lemma_translation_aligned_from(mem, root, addr, 4);
}

/// The same from any table and level on.
proof fn lemma_translation_aligned_from(
    mem: Memory,
    table: u64,
    addr: u64,
    level: nat,
)
    requires
        page_aligned(addr),
        translate_from(mem, table, addr, level) is Some,
    ensures
        page_aligned(translate_from(mem, table, addr, level)->0),
    decreases level,
{
    let bits = read(mem, table, table_index(addr, level));
    if level <= 1 {
        lemma_leaf_address(bits, addr);
    } else {
        lemma_translation_aligned_from(mem, frame_of(bits), addr, (level - 1) as nat);
    }
}

/// The frame address of an entry plus an offset within the page stays
/// below 2^52; with the offset of a page-aligned address it is the frame
/// address itself.
proof fn lemma_leaf_address(bits: u64, addr: u64)
    by (bit_vector)
    ensures
        frame_of(bits) + page_offset(addr) < 0x10_0000_0000_0000,
        page_offset(addr) < 4096,
        addr % 4096 == 0 ==> page_offset(addr) == 0,
        frame_of(bits) % 4096 == 0,
{
}

/// After a page has been mapped with success, its address translates to
/// the frame that the mapping returned, and that frame is page aligned.
///
/// This holds where the frames can be stored in entries and no frame taken
/// for a new table is a table that the walk has left behind. Such a frame
/// would be zeroed, and the way from the root to the page with it.
pub proof fn lemma_map_then_translate(
    mem: Memory,
    frames: Seq<u64>,
    cursor: nat,
    root: u64,
    addr: u64,
)
    requires
        page_aligned(addr),
        frames_encodable(frames, cursor),
        walk_apart(mem, frames, cursor, root, addr, 4, Set::empty()),
        map_page(mem, frames, cursor, root, addr).result is Ok,
    ensures
        translate(map_page(mem, frames, cursor, root, addr).mem, root, addr) == Some(
            map_page(mem, frames, cursor, root, addr).result->Ok_0,
        ),
        page_aligned(map_page(mem, frames, cursor, root, addr).result->Ok_0),
{
    lemma_map_from_reaches(mem, frames, cursor, root, addr, 4, Set::empty());
    lemma_leaf_address(0, addr);
    lemma_translation_aligned(map_page(mem, frames, cursor, root, addr).mem, root, addr);
}

/// After a page has been mapped with success, its address translates to
/// the frame that the mapping returned plus the offset within the page,
/// provided no frame taken for a new table is a table that the walk has
/// left behind.
pub proof fn lemma_map_reaches(
    mem: Memory,
    frames: Seq<u64>,
    cursor: nat,
    root: u64,
    addr: u64,
)
    requires
        frames_encodable(frames, cursor),
        walk_apart(mem, frames, cursor, root, addr, 4, Set::empty()),
        map_page(mem, frames, cursor, root, addr).result is Ok,
    ensures
        translate(map_page(mem, frames, cursor, root, addr).mem, root, addr) == Some(
            (map_page(mem, frames, cursor, root, addr).result->Ok_0 + page_offset(addr)) as u64,
        ),
{
    lemma_map_from_reaches(mem, frames, cursor, root, addr, 4, Set::empty());
}

/// The mapping walk from `table` on, when it succeeds, leaves a memory in
/// which translating `addr` from `table` on finds the frame it returned, and in
/// which every entry that was in use in a table of `passed` is as before.
proof fn lemma_map_from_reaches(
    mem: Memory,
    frames: Seq<u64>,
    cursor: nat,
    table: u64,
    addr: u64,
    level: nat,
    passed: Set<u64>,
)
    requires
        1 <= level <= 4,
        frames_encodable(frames, cursor),
        walk_apart(mem, frames, cursor, table, addr, level, passed),
        map_from(mem, frames, cursor, table, addr, level).result is Ok,
    ensures
        translate_from(map_from(mem, frames, cursor, table, addr, level).mem, table, addr, level)
            == Some(
            (map_from(mem, frames, cursor, table, addr, level).result->Ok_0 + page_offset(
                addr,
            )) as u64,
        ),
        forall|t: u64, i: int|
            passed.contains(t) && read(mem, t, i) != 0 ==> #[trigger] read(
                map_from(mem, frames, cursor, table, addr, level).mem,
                t,
                i,
            ) == read(mem, t, i),
    decreases level,
{
    let index = table_index(addr, level);
    let bits = read(mem, table, index);
    let out = map_from(mem, frames, cursor, table, addr, level);
    if bits != 0 {
        if level > 1 {
            lemma_map_from_reaches(
                mem,
                frames,
                cursor,
                frame_of(bits),
                addr,
                (level - 1) as nat,
                passed.insert(table),
            );
            assert(read(out.mem, table, index) == bits);
        }
    } else {
        let frame = frames[cursor as int];
        lemma_aligned_frame_encodable(frame);
        if level > 1 {
            let grown = cleared(mem, frame).insert((table, index), fresh_entry(frame));
            lemma_map_from_reaches(
                grown,
                frames,
                cursor + 1,
                frame,
                addr,
                (level - 1) as nat,
                passed.insert(table),
            );
            assert(read(grown, table, index) == fresh_entry(frame));
            assert(read(out.mem, table, index) == fresh_entry(frame));
            assert forall|t: u64, i: int| passed.contains(t) && read(mem, t, i) != 0 implies (
            #[trigger] read(out.mem, t, i)) == read(mem, t, i) by {
                assert(read(grown, t, i) == read(mem, t, i));
            }
        }
    }
}

/// Translating an address gives the frame behind its page plus the offset
/// of the address within the page, and nothing where there is no frame.
pub proof fn lemma_translate_by_frame(
    mem: Memory,
    table: u64,
    addr: u64,
    level: nat,
)
    ensures
        translate_from(mem, table, addr, level) == match backing_frame(mem, table, addr, level) {
            Some(frame) => Some((frame + page_offset(addr)) as u64),
            None => None,
        },
        backing_frame(mem, table, addr, level) is Some ==> backing_frame(
            mem,
            table,
            addr,
            level,
        )->0 % 4096 == 0 && backing_frame(mem, table, addr, level)->0 < 0x10_0000_0000_0000,
        page_offset(addr) < 4096,
    decreases level,
{
    let bits = read(mem, table, table_index(addr, level));
    lemma_leaf_address(bits, addr);
    if bits != 0 {
        if level > 1 {
            lemma_translate_by_frame(mem, frame_of(bits), addr, (level - 1) as nat);
        } else {
            lemma_leaf_address(bits, addr);
        }
    }
}

/// A translated address falls apart again into the frame and the word
/// within it.
pub proof fn lemma_found_parts(frame: u64, addr: u64, found: u64)
    by (bit_vector)
    requires
        frame % 4096 == 0,
        frame < 0x10_0000_0000_0000,
        addr % 8 == 0,
        found == frame + (addr & 0xfff),
    ensures
        found - found % 4096 == frame,
        (found % 4096) / 8 == (addr & 0xfff) >> 3,
        (addr & 0xfff) >> 3 < 512,
{
}

/// Whether `frame` is none of the tables that translating `addr` passes
/// through from `table` on.
pub open spec fn path_avoids(
    mem: Memory,
    table: u64,
    addr: u64,
    level: nat,
    frame: u64,
) -> bool
    decreases level,
{
    let bits = read(mem, table, table_index(addr, level));
    table != frame && (bits == 0 || level <= 1 || path_avoids(
        mem,
        frame_of(bits),
        addr,
        (level - 1) as nat,
        frame,
    ))
}

/// `mem` after `values` have been written through the virtual addresses
/// of the page at `page`, one to each word of the page from the first
/// on.
pub open spec fn page_written(
    mem: Memory,
    root: u64,
    page: u64,
    values: Seq<u64>,
) -> Memory
    decreases values.len(),
{
    if values.len() == 0 {
        mem
    } else {
        with_word(
            page_written(mem, root, page, values.drop_last()),
            root,
            (page + 8 * (values.len() - 1)) as u64,
            values.last(),
        )
    }
}

/// A write into a frame that is none of the tables on the way to an
/// address changes nothing about the way.
proof fn lemma_write_keeps_path(
    mem: Memory,
    table: u64,
    addr: u64,
    level: nat,
    frame: u64,
    index: int,
    value: u64,
)
    requires
        path_avoids(mem, table, addr, level, frame),
    ensures
        backing_frame(mem.insert((frame, index), value), table, addr, level) == backing_frame(
            mem,
            table,
            addr,
            level,
        ),
        path_avoids(mem.insert((frame, index), value), table, addr, level, frame),
    decreases level,
{
    let bits = read(mem, table, table_index(addr, level));
    if bits != 0 && level > 1 {
        lemma_write_keeps_path(mem, frame_of(bits), addr, (level - 1) as nat, frame, index, value);
    }
}

/// Every address of a page has the same frame behind it and the same
/// tables on the way to it.
proof fn lemma_same_page_same_path(
    mem: Memory,
    table: u64,
    page: u64,
    addr: u64,
    level: nat,
    frame: u64,
)
    requires
        page >> 12 == addr >> 12,
    ensures
        backing_frame(mem, table, addr, level) == backing_frame(mem, table, page, level),
        path_avoids(mem, table, addr, level, frame) == path_avoids(mem, table, page, level, frame),
    decreases level,
{
    lemma_same_page_same_indexes(page, addr);
    let bits = read(mem, table, table_index(page, level));
    if bits != 0 && level > 1 {
        lemma_same_page_same_path(mem, frame_of(bits), page, addr, (level - 1) as nat, frame);
    }
}

/// Word `i` of a page lies at the page's address plus 8 times `i`: within
/// the page and in word `i`.
proof fn lemma_word_of_page(page: u64, i: u64, addr: u64)
    by (bit_vector)
    requires
        page % 4096 == 0,
        i < 512,
        addr == page + 8 * i,
    ensures
        addr >> 12 == page >> 12,
        (addr & 0xfff) >> 3 == i,
{
}

/// What has been written to the words of a mapped page through its
/// virtual addresses is read back through them unchanged, word for word
/// over the whole page; provided that the frame behind the page is none
/// of the tables on the way to it.
pub proof fn lemma_page_round_trip(
    mem: Memory,
    root: u64,
    page: u64,
    values: Seq<u64>,
    i: int,
)
    requires
        page_aligned(page),
        page <= 0xffff_ffff_ffff_f000,
        values.len() <= 512,
        backing_frame(mem, root, page, 4) is Some,
        path_avoids(mem, root, page, 4, backing_frame(mem, root, page, 4)->0),
        0 <= i < values.len(),
    ensures
        word_at(page_written(mem, root, page, values), root, (page + 8 * i) as u64) == Some(
            values[i],
        ),
{
    lemma_page_written(mem, root, page, values);
    lemma_word_of_page(page, i as u64, (page + 8 * i) as u64);
    let frame = backing_frame(mem, root, page, 4)->0;
    lemma_same_page_same_path(
        page_written(mem, root, page, values),
        root,
        page,
        (page + 8 * i) as u64,
        4,
        frame,
    );
}

/// After words have been written to a page, the page has the same frame
/// behind it, with every word written in its place.
proof fn lemma_page_written(mem: Memory, root: u64, page: u64, values: Seq<u64>)
    requires
        page_aligned(page),
        page <= 0xffff_ffff_ffff_f000,
        values.len() <= 512,
        backing_frame(mem, root, page, 4) is Some,
        path_avoids(mem, root, page, 4, backing_frame(mem, root, page, 4)->0),
    ensures
        backing_frame(page_written(mem, root, page, values), root, page, 4) == backing_frame(
            mem,
            root,
            page,
            4,
        ),
        path_avoids(
            page_written(mem, root, page, values),
            root,
            page,
            4,
            backing_frame(mem, root, page, 4)->0,
        ),
        forall|j: int|
            0 <= j < values.len() ==> read(
                page_written(mem, root, page, values),
                backing_frame(mem, root, page, 4)->0,
                j,
            ) == #[trigger] values[j],
    decreases values.len(),
{
    if values.len() > 0 {
        let frame = backing_frame(mem, root, page, 4)->0;
        let before = page_written(mem, root, page, values.drop_last());
        let last = (values.len() - 1) as u64;
        let addr = (page + 8 * last) as u64;
        lemma_page_written(mem, root, page, values.drop_last());
        lemma_word_of_page(page, last, addr);
        lemma_same_page_same_path(before, root, page, addr, 4, frame);
        lemma_write_keeps_path(before, root, page, 4, frame, word_index(addr), values.last());
        let after = page_written(mem, root, page, values);
        assert(after == before.insert((frame, last as int), values.last()));
        assert forall|j: int| 0 <= j < values.len() implies read(after, frame, j)
            == #[trigger] values[j] by {
            if j < values.len() - 1 {
                assert(values.drop_last()[j] == values[j]);
            }
        }
    }
}

/// While the frames to come are free, the frame that a page has been
/// mapped to is the frame behind the page and none of the tables on the
/// way to it, so that writing to the page leaves the page mapped.
pub proof fn lemma_mapped_frame_apart(
    mem: Memory,
    frames: Seq<u64>,
    cursor: nat,
    root: u64,
    addr: u64,
)
    requires
        frames_free(mem, frames, cursor, root),
        map_page(mem, frames, cursor, root, addr).result is Ok,
    ensures
        backing_frame(map_page(mem, frames, cursor, root, addr).mem, root, addr, 4) == Some(
            map_page(mem, frames, cursor, root, addr).result->Ok_0,
        ),
        path_avoids(
            map_page(mem, frames, cursor, root, addr).mem,
            root,
            addr,
            4,
            map_page(mem, frames, cursor, root, addr).result->Ok_0,
        ),
{
    lemma_mapped_from_apart(mem, frames, cursor, root, root, addr, 4);
}

/// The same from any table and level on, for a table that is none of
/// the frames to come; the frame returned is the last one taken.
proof fn lemma_mapped_from_apart(
    mem: Memory,
    frames: Seq<u64>,
    cursor: nat,
    root: u64,
    table: u64,
    addr: u64,
    level: nat,
)
    requires
        1 <= level <= 4,
        frames_free(mem, frames, cursor, root),
        forall|k: int| cursor <= k < frames.len() ==> #[trigger] frames[k] != table,
        map_from(mem, frames, cursor, table, addr, level).result is Ok,
    ensures
        cursor < map_from(mem, frames, cursor, table, addr, level).cursor <= frames.len(),
        map_from(mem, frames, cursor, table, addr, level).result->Ok_0 == frames[map_from(
            mem,
            frames,
            cursor,
            table,
            addr,
            level,
        ).cursor - 1],
        backing_frame(map_from(mem, frames, cursor, table, addr, level).mem, table, addr, level)
            == Some(map_from(mem, frames, cursor, table, addr, level).result->Ok_0),
        path_avoids(
            map_from(mem, frames, cursor, table, addr, level).mem,
            table,
            addr,
            level,
            map_from(mem, frames, cursor, table, addr, level).result->Ok_0,
        ),
    decreases level,
{
    let at = table_index(addr, level);
    let bits = read(mem, table, at);
    let out = map_from(mem, frames, cursor, table, addr, level);
    if bits != 0 {
        if level > 1 {
            lemma_mapped_from_apart(
                mem,
                frames,
                cursor,
                root,
                frame_of(bits),
                addr,
                (level - 1) as nat,
            );
            lemma_map_keeps_entries(
                mem,
                frames,
                cursor,
                frame_of(bits),
                addr,
                (level - 1) as nat,
                table,
                at,
            );
        }
    } else {
        let frame = frames[cursor as int];
        lemma_aligned_frame_encodable(frame);
        if level > 1 {
            let grown = cleared(mem, frame).insert((table, at), fresh_entry(frame));
            lemma_step_keeps_frames_free(mem, frames, cursor, root, table, at, true);
            lemma_mapped_from_apart(
                grown,
                frames,
                cursor + 1,
                root,
                frame,
                addr,
                (level - 1) as nat,
            );
            assert(read(grown, table, at) == fresh_entry(frame));
            lemma_map_keeps_entries(
                grown,
                frames,
                cursor + 1,
                frame,
                addr,
                (level - 1) as nat,
                table,
                at,
            );
        }
    }
}

/// A page-aligned address below 2^52 can be stored in an entry, and the
/// entry made for it is in use and gives the address back.
pub proof fn lemma_aligned_frame_encodable(frame: u64)
    by (bit_vector)
    requires
        frame % 4096 == 0,
        frame < 0x10_0000_0000_0000,
    ensures
        frame_encodable(frame),
        fresh_entry(frame) != 0,
        frame_of(fresh_entry(frame)) == frame,
{
}


/// The start of a page has offset 0 within it.
pub proof fn lemma_page_start(addr: u64)
    by (bit_vector)
    requires
        addr % 4096 == 0,
    ensures
        page_offset(addr) == 0,
{
}


/// Whether the frames from `cursor` on are free: each can be stored in an
/// entry, no two are the same, none is the root table, and no entry in
/// use names one of them.
pub open spec fn frames_free(mem: Memory, frames: Seq<u64>, cursor: nat, root: u64)
    -> bool {
    &&& frames_encodable(frames, cursor)
    &&& forall|k: int| cursor <= k < frames.len() ==> #[trigger] frames[k] != root
    &&& forall|j: int, k: int|
        cursor <= j < k < frames.len() ==> #[trigger] frames[j] != #[trigger] frames[k]
    &&& forall|k: int, t: u64, i: int|
        cursor <= k < frames.len() && #[trigger] read(mem, t, i) != 0 ==> frame_of(read(mem, t, i))
            != #[trigger] frames[k]
}

/// In a memory of zeros, the frames of a memory map are free from the
/// first on, if its usable regions ascend without overlapping, end below
/// 2^52 and do not hold the root table.
pub proof fn lemma_frames_free_at_start(
    mem: Memory,
    regions: Seq<Region>,
    cursor: nat,
    root: u64,
)
    requires
        regions_within(regions, MAX_ENTRY_FRAME_NUMBER),
        regions_ascending(regions),
        forall|t: u64, i: int| read(mem, t, i) == 0,
        forall|k: int|
            0 <= k < usable_frames(regions).len() ==> #[trigger] usable_frames(regions)[k] != root,
    ensures
        frames_free(mem, usable_frames(regions), cursor, root),
{
    let frames = usable_frames(regions);
    lemma_frames_ascending(regions);
    assert forall|k: int| cursor <= k < frames.len() implies (#[trigger] frames[k]) % 4096 == 0
        && frames[k] < 0x10_0000_0000_0000 by {
        lemma_frame_bounds(regions, MAX_ENTRY_FRAME_NUMBER, k);
    }
}

/// A mapping walk leaves every entry in use as it is, unless the entry
/// lies in a frame that was still to be handed out.
pub proof fn lemma_map_keeps_entries(
    mem: Memory,
    frames: Seq<u64>,
    cursor: nat,
    table: u64,
    addr: u64,
    level: nat,
    kept: u64,
    index: int,
)
    requires
        read(mem, kept, index) != 0,
        forall|k: int| cursor <= k < frames.len() ==> #[trigger] frames[k] != kept,
    ensures
        read(map_from(mem, frames, cursor, table, addr, level).mem, kept, index) == read(
            mem,
            kept,
            index,
        ),
    decreases level,
{
    let at = table_index(addr, level);
    let bits = read(mem, table, at);
    if bits != 0 {
        if level > 1 {
            lemma_map_keeps_entries(
                mem,
                frames,
                cursor,
                frame_of(bits),
                addr,
                (level - 1) as nat,
                kept,
                index,
            );
        }
    } else if cursor < frames.len() {
        let frame = frames[cursor as int];
        if level > 1 {
            let grown = cleared(mem, frame).insert((table, at), fresh_entry(frame));
            assert(read(grown, kept, index) == read(mem, kept, index));
            lemma_map_keeps_entries(
                grown,
                frames,
                cursor + 1,
                frame,
                addr,
                (level - 1) as nat,
                kept,
                index,
            );
        }
    }
}

/// Taking the next free frame for an unused entry, zeroed or not, leaves
/// the frames after it free.
proof fn lemma_step_keeps_frames_free(
    mem: Memory,
    frames: Seq<u64>,
    cursor: nat,
    root: u64,
    table: u64,
    index: int,
    zeroed: bool,
)
    requires
        frames_free(mem, frames, cursor, root),
        cursor < frames.len(),
        read(mem, table, index) == 0,
    ensures
        frames_free(
            (if zeroed {
                cleared(mem, frames[cursor as int])
            } else {
                mem
            }).insert((table, index), fresh_entry(frames[cursor as int])),
            frames,
            cursor + 1,
            root,
        ),
{
    let frame = frames[cursor as int];
    let base = if zeroed {
        cleared(mem, frame)
    } else {
        mem
    };
    let after = base.insert((table, index), fresh_entry(frame));
    lemma_aligned_frame_encodable(frame);
    assert forall|k: int, t: u64, i: int|
        cursor + 1 <= k < frames.len() && #[trigger] read(after, t, i) != 0 implies frame_of(
        read(after, t, i),
    ) != #[trigger] frames[k] by {
        if t == table && i == index {
            assert(frames[cursor as int] != frames[k]);
        } else {
            assert(read(after, t, i) == read(mem, t, i));
        }
    }
}

/// A mapping walk, however it ends, leaves the frames it did not take
/// free.
pub proof fn lemma_map_keeps_frames_free(
    mem: Memory,
    frames: Seq<u64>,
    cursor: nat,
    root: u64,
    table: u64,
    addr: u64,
    level: nat,
)
    requires
        frames_free(mem, frames, cursor, root),
    ensures
        frames_free(
            map_from(mem, frames, cursor, table, addr, level).mem,
            frames,
            map_from(mem, frames, cursor, table, addr, level).cursor,
            root,
        ),
    decreases level,
{
    let at = table_index(addr, level);
    let bits = read(mem, table, at);
    if bits != 0 {
        if level > 1 {
            lemma_map_keeps_frames_free(
                mem,
                frames,
                cursor,
                root,
                frame_of(bits),
                addr,
                (level - 1) as nat,
            );
        }
    } else if cursor < frames.len() {
        let frame = frames[cursor as int];
        if level > 1 {
            lemma_step_keeps_frames_free(mem, frames, cursor, root, table, at, true);
            lemma_map_keeps_frames_free(
                cleared(mem, frame).insert((table, at), fresh_entry(frame)),
                frames,
                cursor + 1,
                root,
                frame,
                addr,
                (level - 1) as nat,
            );
        } else {
            lemma_step_keeps_frames_free(mem, frames, cursor, root, table, at, false);
        }
    }
}

/// While the frames to come are free, a walk that starts at a table that
/// is none of them never takes a frame that it has passed through.
pub proof fn lemma_free_frames_walk_apart(
    mem: Memory,
    frames: Seq<u64>,
    cursor: nat,
    root: u64,
    table: u64,
    addr: u64,
    level: nat,
    passed: Set<u64>,
)
    requires
        frames_free(mem, frames, cursor, root),
        forall|k: int|
            cursor <= k < frames.len() ==> #[trigger] frames[k] != table && !passed.contains(
                frames[k],
            ),
    ensures
        walk_apart(mem, frames, cursor, table, addr, level, passed),
    decreases level,
{
    let at = table_index(addr, level);
    let bits = read(mem, table, at);
    if level > 1 {
        if bits != 0 {
            lemma_free_frames_walk_apart(
                mem,
                frames,
                cursor,
                root,
                frame_of(bits),
                addr,
                (level - 1) as nat,
                passed.insert(table),
            );
        } else if cursor < frames.len() {
            let frame = frames[cursor as int];
            lemma_step_keeps_frames_free(mem, frames, cursor, root, table, at, true);
            lemma_free_frames_walk_apart(
                cleared(mem, frame).insert((table, at), fresh_entry(frame)),
                frames,
                cursor + 1,
                root,
                frame,
                addr,
                (level - 1) as nat,
                passed.insert(table),
            );
        }
    }
}

/// While the frames to come are free, a page that has been mapped with
/// success translates to the frame that the mapping returned, and every
/// address within the page to the same place within that frame.
pub proof fn lemma_mapped_page_translates(
    mem: Memory,
    frames: Seq<u64>,
    cursor: nat,
    root: u64,
    addr: u64,
)
    requires
        frames_free(mem, frames, cursor, root),
        map_page(mem, frames, cursor, root, addr).result is Ok,
    ensures
        translate(map_page(mem, frames, cursor, root, addr).mem, root, addr) == Some(
            (map_page(mem, frames, cursor, root, addr).result->Ok_0 + page_offset(addr)) as u64,
        ),
{
    lemma_free_frames_walk_apart(mem, frames, cursor, root, root, addr, 4, Set::empty());
    lemma_map_reaches(mem, frames, cursor, root, addr);
}

/// While the frames to come are free, a mapping walk changes nothing
/// about an address that translated before it, whichever page the walk
/// is for.
pub proof fn lemma_map_keeps_translations(
    mem: Memory,
    frames: Seq<u64>,
    cursor: nat,
    root: u64,
    table: u64,
    addr: u64,
    level: nat,
    other_table: u64,
    other: u64,
    other_level: nat,
)
    requires
        frames_free(mem, frames, cursor, root),
        forall|k: int| cursor <= k < frames.len() ==> #[trigger] frames[k] != other_table,
        translate_from(mem, other_table, other, other_level) is Some,
    ensures
        translate_from(
            map_from(mem, frames, cursor, table, addr, level).mem,
            other_table,
            other,
            other_level,
        ) == translate_from(mem, other_table, other, other_level),
    decreases other_level,
{
    let at = table_index(other, other_level);
    let bits = read(mem, other_table, at);
    lemma_map_keeps_entries(mem, frames, cursor, table, addr, level, other_table, at);
    if other_level > 1 {
        lemma_map_keeps_translations(
            mem,
            frames,
            cursor,
            root,
            table,
            addr,
            level,
            frame_of(bits),
            other,
            (other_level - 1) as nat,
        );
    }
}

/// Mapping a run of pages, however it ends, leaves the frames it did not
/// take free.
pub proof fn lemma_range_keeps_frames_free(
    mem: Memory,
    frames: Seq<u64>,
    cursor: nat,
    root: u64,
    first: u64,
    count: nat,
)
    requires
        frames_free(mem, frames, cursor, root),
    ensures
        frames_free(
            map_range(mem, frames, cursor, root, first, count).mem,
            frames,
            map_range(mem, frames, cursor, root, first, count).cursor,
            root,
        ),
    decreases count,
{
    if count > 0 {
        let one = map_page(mem, frames, cursor, root, first);
        lemma_map_keeps_frames_free(mem, frames, cursor, root, root, first, 4);
        if one.result is Ok {
            lemma_range_keeps_frames_free(
                one.mem,
                frames,
                one.cursor,
                root,
                (first + 4096) as u64,
                (count - 1) as nat,
            );
        }
    }
}

/// While the frames to come are free, mapping a run of pages changes
/// nothing about an address that translated before.
pub proof fn lemma_range_keeps_translations(
    mem: Memory,
    frames: Seq<u64>,
    cursor: nat,
    root: u64,
    first: u64,
    count: nat,
    other: u64,
)
    requires
        frames_free(mem, frames, cursor, root),
        translate(mem, root, other) is Some,
    ensures
        translate(map_range(mem, frames, cursor, root, first, count).mem, root, other)
            == translate(mem, root, other),
    decreases count,
{
    if count > 0 {
        let one = map_page(mem, frames, cursor, root, first);
        lemma_map_keeps_frames_free(mem, frames, cursor, root, root, first, 4);
        lemma_map_keeps_translations(mem, frames, cursor, root, root, first, 4, root, other, 4);
        if one.result is Ok {
            lemma_range_keeps_translations(
                one.mem,
                frames,
                one.cursor,
                root,
                (first + 4096) as u64,
                (count - 1) as nat,
                other,
            );
        }
    }
}

/// Two addresses in one page select the same entry at every level.
pub proof fn lemma_same_page_same_indexes(a: u64, b: u64)
    by (bit_vector)
    requires
        a >> 12 == b >> 12,
    ensures
        (a >> 39) & 0x1ff == (b >> 39) & 0x1ff,
        (a >> 30) & 0x1ff == (b >> 30) & 0x1ff,
        (a >> 21) & 0x1ff == (b >> 21) & 0x1ff,
        (a >> 12) & 0x1ff == (b >> 12) & 0x1ff,
{
}

/// An address translates where the start of its page does.
pub proof fn lemma_same_page_translates(
    mem: Memory,
    table: u64,
    page: u64,
    addr: u64,
    level: nat,
)
    requires
        page >> 12 == addr >> 12,
        translate_from(mem, table, page, level) is Some,
    ensures
        translate_from(mem, table, addr, level) is Some,
    decreases level,
{
    lemma_same_page_same_indexes(page, addr);
    if level > 1 {
        let bits = read(mem, table, table_index(page, level));
        lemma_same_page_translates(mem, frame_of(bits), page, addr, (level - 1) as nat);
    }
}

/// The addresses of a page are those from its start up to 4095 above it.
proof fn lemma_within_page(page: u64, addr: u64)
    by (bit_vector)
    requires
        page % 4096 == 0,
        page <= addr,
        addr - page < 4096,
    ensures
        page >> 12 == addr >> 12,
{
}

/// While the frames to come are free, a run of pages that has been
/// mapped without an error leaves every address of every one of its
/// pages translating.
pub proof fn lemma_range_mapped(
    mem: Memory,
    frames: Seq<u64>,
    cursor: nat,
    root: u64,
    first: u64,
    count: nat,
    addr: u64,
)
    requires
        frames_free(mem, frames, cursor, root),
        page_aligned(first),
        first + count * 4096 <= u64::MAX,
        map_range(mem, frames, cursor, root, first, count).error is None,
        first <= addr < first + count * 4096,
    ensures
        translate(map_range(mem, frames, cursor, root, first, count).mem, root, addr) is Some,
    decreases count,
{
    let one = map_page(mem, frames, cursor, root, first);
    lemma_map_keeps_frames_free(mem, frames, cursor, root, root, first, 4);
    if addr >= first + 4096 {
        lemma_range_mapped(
            one.mem,
            frames,
            one.cursor,
            root,
            (first + 4096) as u64,
            (count - 1) as nat,
            addr,
        );
    } else {
        lemma_mapped_page_translates(mem, frames, cursor, root, first);
        lemma_within_page(first, addr);
        lemma_same_page_translates(one.mem, root, first, addr, 4);
        lemma_range_keeps_translations(
            one.mem,
            frames,
            one.cursor,
            root,
            (first + 4096) as u64,
            (count - 1) as nat,
            addr,
        );
    }
}

} // verus!
