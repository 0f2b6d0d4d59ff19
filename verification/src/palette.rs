//! The palettes of PNG images.
//!
//! A PNG is a signature of eight bytes and then a run of chunks. A chunk is the length of its
//! contents in four bytes, its type in four letters, its contents, and a checksum of four bytes. The
//! first chunk is the header. An image whose colors are indices into a palette has its palette in a
//! chunk `PLTE`, three bytes per color, somewhere before the image data in the chunks `IDAT`.
use vstd::prelude::*;

verus! {

/// Where a header says what the pixels are made of.
pub const COLOR_TYPE: usize = 25;

/// The color type of pixels that are indices into a palette.
pub const INDEXED: u8 = 3;

/// Where the first chunk after the header starts.
pub const AFTER_HEADER: usize = 33;

/// The length that the chunk at a position says its contents have.
pub open spec fn chunk_len(data: Seq<u8>, at: int) -> int {
    data[at] * 0x100_0000 + data[at + 1] * 0x1_0000 + data[at + 2] * 0x100 + data[at + 3]
}

/// Whether the chunk at a position is of the type that these letters name.
pub open spec fn is_chunk(data: Seq<u8>, at: int, a: u8, b: u8, c: u8, d: u8) -> bool {
    data[at + 4] == a && data[at + 5] == b && data[at + 6] == c && data[at + 7] == d
}

/// Whether the chunk at a position holds image data.
pub open spec fn is_idat(data: Seq<u8>, at: int) -> bool {
    is_chunk(data, at, 73, 68, 65, 84)
}

/// Whether the chunk at a position holds a palette.
pub open spec fn is_plte(data: Seq<u8>, at: int) -> bool {
    is_chunk(data, at, 80, 76, 84, 69)
}

/// Whether the palettes from this chunk on, up to the image data, are made of whole colors.
pub open spec fn palettes_are_whole(data: Seq<u8>, at: int) -> bool
    decreases data.len() - at,
{
    if at < 0 || data.len() < at + 8 || is_idat(data, at) {
        true
    } else {
        &&& is_plte(data, at) ==> chunk_len(data, at) % 3 == 0
        &&& at + 12 + chunk_len(data, at) <= data.len() ==> palettes_are_whole(
            data,
            at + 12 + chunk_len(data, at),
        )
    }
}

/// Whether a PNG is one of indexed colors with a palette that breaks off in the middle of a color.
pub open spec fn has_broken_palette(data: Seq<u8>) -> bool {
    data.len() > COLOR_TYPE && data[COLOR_TYPE as int] == INDEXED && !palettes_are_whole(
        data,
        AFTER_HEADER as int,
    )
}

/// Tells whether a PNG has a palette that breaks off in the middle of a color.
pub fn palette_is_broken(data: &[u8]) -> (broken: bool)
    ensures
        broken == has_broken_palette(data@),
{
    if data.len() <= COLOR_TYPE || data[COLOR_TYPE] != INDEXED {
        return false;
    }
    let mut at: usize = AFTER_HEADER;
    while at <= data.len() && data.len() - at >= 8
        invariant
            data.len() > COLOR_TYPE,
            data[COLOR_TYPE as int] == INDEXED,
            palettes_are_whole(data@, at as int) == palettes_are_whole(data@, AFTER_HEADER as int),
        decreases data.len() - at,
    {
        if data[at + 4] == 73 && data[at + 5] == 68 && data[at + 6] == 65 && data[at + 7] == 84 {
            return false;
        }
        let len: u32 = data[at] as u32 * 0x100_0000 + data[at + 1] as u32 * 0x1_0000 + data[at + 2] as u32
            * 0x100 + data[at + 3] as u32;
        if data[at + 4] == 80 && data[at + 5] == 76 && data[at + 6] == 84 && data[at + 7] == 69 && len
            % 3 != 0 {
            return true;
        }
        let left: usize = data.len() - at;
        if (left as u64) < len as u64 + 12 {
            return false;
        }
        at = at + 12 + len as usize;
    }
    false
}

/// The palette of an indexed PNG is broken exactly if some chunk before the image data is a palette
/// whose length is no multiple of three, however long it is; a PNG of another kind has no broken
/// palette. The chunks are given by where they start: the first one after the header, each next one
/// behind the contents and the checksum of the one before, up to the image data or the end of the
/// file.
pub proof fn law_a_palette_is_broken_exactly_if_a_color_is_cut(data: Seq<u8>, chunks: Seq<int>)
    requires
        chunks.len() > 0,
        chunks[0] == 33,
        forall|k: int|
            #![trigger chunks[k]]
            0 <= k < chunks.len() - 1 ==> {
                let at = chunks[k];
                let len = data[at] * 0x100_0000 + data[at + 1] * 0x1_0000 + data[at + 2] * 0x100
                    + data[at + 3];
                &&& at + 8 <= data.len()
                &&& !(data[at + 4] == 73 && data[at + 5] == 68 && data[at + 6] == 65 && data[at + 7]
                    == 84)
                &&& chunks[k + 1] == at + 12 + len
                &&& at + 12 + len <= data.len()
            },
        ({
            let at = chunks.last();
            let len = data[at] * 0x100_0000 + data[at + 1] * 0x1_0000 + data[at + 2] * 0x100
                + data[at + 3];
            ||| at + 8 > data.len()
            ||| data[at + 4] == 73 && data[at + 5] == 68 && data[at + 6] == 65 && data[at + 7] == 84
            ||| at + 12 + len > data.len()
        }),
    ensures
        has_broken_palette(data) <==> data.len() > 25 && data[25] == 3 && exists|k: int|
            0 <= k < chunks.len() && {
                let at = #[trigger] chunks[k];
                let len = data[at] * 0x100_0000 + data[at + 1] * 0x1_0000 + data[at + 2] * 0x100
                    + data[at + 3];
                &&& at + 8 <= data.len()
                &&& data[at + 4] == 80 && data[at + 5] == 76 && data[at + 6] == 84 && data[at + 7]
                    == 69
                &&& len % 3 != 0
            },
{
    assert forall|k: int| 0 <= k < chunks.len() - 1 implies #[trigger] is_followed(
        data,
        chunks,
        k,
    ) by {
        assert(chunks[k] == chunks[k]);
    }
    lemma_palettes_from(data, chunks, 0);
    if exists|k: int| 0 <= k < chunks.len() && cut_palette(data, #[trigger] chunks[k]) {
        let k = choose|k: int| 0 <= k < chunks.len() && cut_palette(data, #[trigger] chunks[k]);
        assert(chunks[k] + 8 <= data.len());
    }
}

/// A chunk is followed by the next one, and holds no image data.
spec fn is_followed(data: Seq<u8>, chunks: Seq<int>, k: int) -> bool {
    let at = chunks[k];
    &&& at + 8 <= data.len()
    &&& !is_idat(data, at)
    &&& chunks[k + 1] == at + 12 + chunk_len(data, at)
    &&& at + 12 + chunk_len(data, at) <= data.len()
}

/// What stands at a position is a palette that breaks off in the middle of a color.
spec fn cut_palette(data: Seq<u8>, at: int) -> bool {
    at + 8 <= data.len() && is_plte(data, at) && chunk_len(data, at) % 3 != 0
}

proof fn lemma_palettes_from(data: Seq<u8>, chunks: Seq<int>, m: int)
    requires
        0 <= m < chunks.len(),
        chunks[0] == 33,
        forall|k: int|
            0 <= k < chunks.len() - 1 ==> #[trigger] is_followed(data, chunks, k),
        chunks.last() + 8 > data.len() || is_idat(data, chunks.last()) || chunks.last() + 12
            + chunk_len(data, chunks.last()) > data.len(),
    ensures
        chunks[m] >= 33 ==> palettes_are_whole(data, chunks[m]) == !(exists|k: int|
            m <= k < chunks.len() && cut_palette(data, #[trigger] chunks[k])),
    decreases chunks.len() - m,
{
    let at = chunks[m];
    if at >= 33 {
        if m + 1 < chunks.len() {
            let next = chunks[m + 1];
            assert(is_followed(data, chunks, m));
            assert(next == at + 12 + chunk_len(data, at));
            lemma_palettes_from(data, chunks, m + 1);
            if exists|k: int| m + 1 <= k < chunks.len() && cut_palette(data, #[trigger] chunks[k]) {
                let k = choose|k: int|
                    m + 1 <= k < chunks.len() && cut_palette(data, #[trigger] chunks[k]);
                assert(m <= k < chunks.len() && cut_palette(data, chunks[k]));
            }
            if cut_palette(data, at) {
                assert(m <= m < chunks.len() && cut_palette(data, chunks[m]));
            }
        } else {
            assert(chunks.last() == at);
            if cut_palette(data, at) {
                assert(m <= m < chunks.len() && cut_palette(data, chunks[m]));
            }
        }
    }
}

/// Every file has such a list of chunks.
pub proof fn law_every_file_is_a_run_of_chunks(data: Seq<u8>) -> (chunks: Seq<int>)
    ensures
        chunks.len() > 0,
        chunks[0] == 33,
        forall|k: int|
            #![trigger chunks[k]]
            0 <= k < chunks.len() - 1 ==> {
                let at = chunks[k];
                let len = data[at] * 0x100_0000 + data[at + 1] * 0x1_0000 + data[at + 2] * 0x100
                    + data[at + 3];
                &&& at + 8 <= data.len()
                &&& !(data[at + 4] == 73 && data[at + 5] == 68 && data[at + 6] == 65 && data[at + 7]
                    == 84)
                &&& chunks[k + 1] == at + 12 + len
                &&& at + 12 + len <= data.len()
            },
        ({
            let at = chunks.last();
            let len = data[at] * 0x100_0000 + data[at + 1] * 0x1_0000 + data[at + 2] * 0x100
                + data[at + 3];
            ||| at + 8 > data.len()
            ||| data[at + 4] == 73 && data[at + 5] == 68 && data[at + 6] == 65 && data[at + 7] == 84
            ||| at + 12 + len > data.len()
        }),
{
    let chunks = lemma_chunks_from(data, 33);
    assert forall|k: int| #![trigger chunks[k]] 0 <= k < chunks.len() - 1 implies ({
        let at = chunks[k];
        &&& at + 8 <= data.len()
        &&& !is_idat(data, at)
        &&& chunks[k + 1] == at + 12 + chunk_len(data, at)
        &&& at + 12 + chunk_len(data, at) <= data.len()
    }) by {
        assert(is_followed(data, chunks, k));
    }
    chunks
}

proof fn lemma_chunks_from(data: Seq<u8>, at: int) -> (chunks: Seq<int>)
    requires
        at >= 0,
    ensures
        chunks.len() > 0,
        chunks[0] == at,
        forall|k: int|
            0 <= k < chunks.len() - 1 ==> #[trigger] is_followed(data, chunks, k),
        chunks.last() + 8 > data.len() || is_idat(data, chunks.last()) || chunks.last() + 12
            + chunk_len(data, chunks.last()) > data.len(),
    decreases (if at <= data.len() { data.len() - at } else { 0 }),
{
    let next = at + 12 + chunk_len(data, at);
    if at + 8 > data.len() || is_idat(data, at) || next > data.len() {
        seq![at]
    } else {
        let rest = lemma_chunks_from(data, next);
        let chunks = seq![at] + rest;
        assert(chunks.last() == rest.last());
        assert forall|k: int| 0 <= k < chunks.len() - 1 implies #[trigger] is_followed(
            data,
            chunks,
            k,
        ) by {
            assert(chunks[k + 1] == rest[k]);
            if k > 0 {
                assert(chunks[k] == rest[k - 1]);
                assert(is_followed(data, rest, k - 1));
            }
        }
        chunks
    }
}

} // verus!
