//! Text rendering: the character sets of glyph caches and the layout of glyphs in a font atlas.
use vstd::prelude::*;

verus! {

/// The set of characters a font's glyph cache is filled with. `AsciiSubset` is the subset of
/// ASCII that gives alphanumeric characters plus symbols.
#[derive(Clone, Copy, Debug, PartialEq, Eq, Structural, PartialOrd, Ord, Hash)]
pub enum CharacterListType {
    AsciiSubset,
    Ascii,
    ExtendedAscii,
    Cyrillic,
    Thai,
    Vietnamese,
    Chinese,
    Japanese,
}


/// A character set whose fonts cannot be laid out yet.
#[derive(Clone, Copy, Debug, PartialEq, Eq, Structural)]
pub struct UnsupportedCharacterList(pub CharacterListType);

impl UnsupportedCharacterList {
    /// The error's message.
    pub fn message(&self) -> (text: &'static str)
        ensures
            text@ == if self.0 == CharacterListType::Chinese {
                "Chinese fonts not yet supported"@
            } else {
                "Japanese fonts not yet supported"@
            },
    {
        if self.0 == CharacterListType::Chinese {
            proof {
                reveal_strlit("Chinese fonts not yet supported");
            }
            "Chinese fonts not yet supported"
        } else {
            proof {
                reveal_strlit("Japanese fonts not yet supported");
            }
            "Japanese fonts not yet supported"
        }
    }
}

/// The ranges of code points (each from its first up to, not including, its second) that a
/// character set is made of; `None` for the sets whose fonts are not supported.
pub open spec fn code_ranges(list: CharacterListType) -> Option<Seq<(u32, u32)>> {
    match list {
        CharacterListType::AsciiSubset => Some(seq![(0x20u32, 0x7Fu32)]),
        CharacterListType::Ascii => Some(seq![(0x00u32, 0x7Fu32)]),
        CharacterListType::ExtendedAscii => Some(seq![(0x00u32, 0xFFu32)]),
        CharacterListType::Cyrillic => Some(
            seq![
                (0x0020u32, 0x00FFu32),
                (0x0400u32, 0x052Fu32),
                (0x2DE0u32, 0x2DFFu32),
                (0xA640u32, 0xA69Fu32),
            ],
        ),
        CharacterListType::Thai => Some(
            seq![(0x0020u32, 0x00FFu32), (0x2010u32, 0x205Eu32), (0x0E00u32, 0x0E7Fu32)],
        ),
        CharacterListType::Vietnamese => Some(
            seq![
                (0x0020u32, 0x00FFu32),
                (0x0102u32, 0x0103u32),
                (0x0110u32, 0x0111u32),
                (0x0128u32, 0x0129u32),
                (0x0168u32, 0x0169u32),
                (0x01A0u32, 0x01A1u32),
                (0x01AFu32, 0x01B0u32),
                (0x1EA0u32, 0x1EF9u32),
            ],
        ),
        _ => None,
    }
}

/// The code points of the ranges, range after range, each in increasing order.
pub open spec fn range_codes(ranges: Seq<(u32, u32)>) -> Seq<u32>
    decreases ranges.len(),
{
    if ranges.len() == 0 {
        Seq::empty()
    } else {
        let (lo, hi) = ranges.last();
        range_codes(ranges.drop_last()) + Seq::new(
            (if lo <= hi { hi - lo } else { 0int }) as nat,
            |j: int| (lo + j) as u32,
        )
    }
}

/// Whether a number is the code point of a character.
pub open spec fn is_scalar_value(code: u32) -> bool {
    code < 0xD800 || (0xE000 <= code && code <= 0x10FFFF)
}

/// `char::from_u32`: the character with the given code point, if there is one.
#[verifier::external_body]
fn char_from_u32(code: u32) -> (c: Option<char>)
    ensures
        c is Some <==> is_scalar_value(code),
        c matches Some(x) ==> x as u32 == code,
{
    char::from_u32(code)
}

/// The characters a font's glyph cache is filled with for a character set: those of its code
/// point ranges, range after range. The Chinese and Japanese sets are not supported yet.
pub fn get_char_list(list: CharacterListType) -> (chars: Result<Vec<char>, UnsupportedCharacterList>)
    ensures
        match code_ranges(list) {
            Some(ranges) => chars matches Ok(v) && v@.len() == range_codes(ranges).len() && forall|
                i: int,
            |
                0 <= i < v@.len() ==> #[trigger] (v@[i] as u32) == range_codes(ranges)[i],
            None => chars == Err::<Vec<char>, _>(UnsupportedCharacterList(list)),
        },
{
    let ranges: Vec<(u32, u32)> = match list {
        CharacterListType::AsciiSubset => vec![(0x20u32, 0x7Fu32)],
        CharacterListType::Ascii => vec![(0x00u32, 0x7Fu32)],
        CharacterListType::ExtendedAscii => vec![(0x00u32, 0xFFu32)],
        CharacterListType::Cyrillic => vec![
            (0x0020u32, 0x00FFu32),
            (0x0400u32, 0x052Fu32),
            (0x2DE0u32, 0x2DFFu32),
            (0xA640u32, 0xA69Fu32),
        ],
        CharacterListType::Thai => vec![
            (0x0020u32, 0x00FFu32),
            (0x2010u32, 0x205Eu32),
            (0x0E00u32, 0x0E7Fu32),
        ],
        CharacterListType::Vietnamese => vec![
            (0x0020u32, 0x00FFu32),
            (0x0102u32, 0x0103u32),
            (0x0110u32, 0x0111u32),
            (0x0128u32, 0x0129u32),
            (0x0168u32, 0x0169u32),
            (0x01A0u32, 0x01A1u32),
            (0x01AFu32, 0x01B0u32),
            (0x1EA0u32, 0x1EF9u32),
        ],
        _ => {
            return Err(UnsupportedCharacterList(list));
        },
    };
    let ghost all = ranges@;
    assert(code_ranges(list) == Some(all));
    let mut chars: Vec<char> = Vec::new();
    let mut r: usize = 0;
    assert(all.take(0) =~= Seq::<(u32, u32)>::empty());
    while r < ranges.len()
        invariant
            ranges@ == all,
            r <= all.len(),
            forall|k: int| 0 <= k < all.len() ==> (#[trigger] all[k]).1 < 0xD800,
            chars@.len() == range_codes(all.take(r as int)).len(),
            forall|i: int|
                0 <= i < chars@.len() ==> #[trigger] (chars@[i] as u32) == range_codes(
                    all.take(r as int),
                )[i],
        decreases all.len() - r,
    {
        let (lo, hi) = ranges[r];
        let ghost prev = range_codes(all.take(r as int));
        let ghost base = chars@.len();
        let mut code: u32 = lo;
        while code < hi
            invariant
                lo <= code || hi <= lo,
                code == lo || code <= hi,
                hi < 0xD800,
                hi <= lo ==> code == lo,
                chars@.len() == base + (code - lo),
                forall|i: int|
                    0 <= i < base ==> #[trigger] (chars@[i] as u32) == prev[i],
                forall|i: int|
                    base <= i < chars@.len() ==> #[trigger] (chars@[i] as u32) == lo + (i - base),
                base == prev.len(),
            decreases hi - code,
        {
            match char_from_u32(code) {
                Some(c) => chars.push(c),
                None => {
                    assert(false);
                },
            }
            code = code + 1;
        }
        proof {
            let t = all.take(r + 1);
            assert(t.drop_last() =~= all.take(r as int));
            assert(t.last() == (lo, hi));
            let codes = range_codes(t);
            assert(codes.len() == chars@.len());
            assert forall|i: int| 0 <= i < chars@.len() implies #[trigger] (chars@[i] as u32)
                == codes[i] by {}
        }
        r = r + 1;
    }
    assert(all.take(r as int) =~= all);
    Ok(chars)
}

/// The glyph at packing position `p`: glyphs are packed from the last (tallest) box backward.
pub open spec fn packed_box(boxes: Seq<(u32, u32)>, p: int) -> (u32, u32) {
    boxes[boxes.len() - 1 - p]
}

/// The indices of the glyphs at packing positions `start` to `end`, in packing order.
pub open spec fn packed_indices(n: int, start: int, end: int) -> Seq<usize> {
    Seq::new((end - start) as nat, |j: int| (n - 1 - (start + j)) as usize)
}

/// The rows of an atlas from packing position `start` on: runs of `k` glyphs (the last one
/// shorter), in packing order.
pub open spec fn atlas_rows(n: int, k: int, start: int) -> Seq<Seq<usize>>
    decreases n - start,
{
    if k <= 0 || start >= n {
        Seq::empty()
    } else if start + k < n {
        seq![packed_indices(n, start, start + k)] + atlas_rows(n, k, start + k)
    } else {
        seq![packed_indices(n, start, n)]
    }
}

/// The total width of the glyphs at packing positions `from` to `to`.
pub open spec fn widths_between(boxes: Seq<(u32, u32)>, from: int, to: int) -> int
    decreases to - from,
{
    if to <= from {
        0
    } else {
        widths_between(boxes, from, to - 1) + packed_box(boxes, to - 1).0
    }
}

/// The sum of the heights of the first glyphs of the rows from packing position `start` on.
pub open spec fn row_heights(boxes: Seq<(u32, u32)>, k: int, start: int) -> int
    decreases boxes.len() - start,
{
    if k <= 0 || start >= boxes.len() {
        0
    } else if start + k < boxes.len() {
        packed_box(boxes, start).1 + row_heights(boxes, k, start + k)
    } else {
        packed_box(boxes, start).1 as int
    }
}

/// The widest of the rows from packing position `start` on, leaving out the last row (0 when
/// there is only one).
pub open spec fn widest_row(boxes: Seq<(u32, u32)>, k: int, start: int) -> int
    decreases boxes.len() - start,
{
    if k <= 0 || start + k >= boxes.len() {
        0
    } else {
        let w = widths_between(boxes, start, start + k);
        let rest = widest_row(boxes, k, start + k);
        if w > rest {
            w
        } else {
            rest
        }
    }
}

/// Whether every row from packing position `start` on has a total width that fits in `u32`.
pub open spec fn rows_fit(boxes: Seq<(u32, u32)>, k: int, start: int) -> bool
    decreases boxes.len() - start,
{
    if k <= 0 || start >= boxes.len() {
        true
    } else if start + k < boxes.len() {
        widths_between(boxes, start, start + k) <= u32::MAX && rows_fit(boxes, k, start + k)
    } else {
        widths_between(boxes, start, boxes.len() as int) <= u32::MAX
    }
}

proof fn lemma_widths_monotone(boxes: Seq<(u32, u32)>, from: int, mid: int, to: int)
    requires
        from <= mid <= to,
    ensures
        0 <= widths_between(boxes, from, mid) <= widths_between(boxes, from, to),
    decreases to - mid,
{
    if mid < to {
        lemma_widths_monotone(boxes, from, mid, to - 1);
    } else {
        lemma_widths_nonneg(boxes, from, mid);
    }
}

proof fn lemma_widths_nonneg(boxes: Seq<(u32, u32)>, from: int, to: int)
    ensures
        widths_between(boxes, from, to) >= 0,
    decreases to - from,
{
    if to > from {
        lemma_widths_nonneg(boxes, from, to - 1);
    }
}

proof fn lemma_row_heights_nonneg(boxes: Seq<(u32, u32)>, k: int, start: int)
    ensures
        row_heights(boxes, k, start) >= 0,
    decreases boxes.len() - start,
{
    if k > 0 && start + k < boxes.len() {
        lemma_row_heights_nonneg(boxes, k, start + k);
    }
}

proof fn lemma_widest_row_nonneg(boxes: Seq<(u32, u32)>, k: int, start: int)
    ensures
        widest_row(boxes, k, start) >= 0,
    decreases boxes.len() - start,
{
    if k > 0 && start + k < boxes.len() {
        lemma_widest_row_nonneg(boxes, k, start + k);
    }
}

/// Lays the glyphs of a font atlas out in rows. `boxes` are the glyphs' bounding box sizes
/// (width, height), sorted by height, shortest first. Going from the tallest glyph backward,
/// each row takes `chars_per_row + 1` glyphs (the last row the rest). The atlas is as wide as the
/// widest row but the last, and as tall as the first glyphs of the rows together, each plus
/// `chars_per_row` margins. Returns the rows, as indices into `boxes`, and the width and height.
pub fn glyph_rows(boxes: &Vec<(u32, u32)>, chars_per_row: u32, margin: u32) -> (packed: (
    Vec<Vec<usize>>,
    u32,
    u32,
))
    requires
        boxes@.len() >= 1,
        chars_per_row < u32::MAX,
        rows_fit(boxes@, chars_per_row + 1, 0),
        row_heights(boxes@, chars_per_row + 1, 0) + chars_per_row * margin <= u32::MAX,
        widest_row(boxes@, chars_per_row + 1, 0) + chars_per_row * margin <= u32::MAX,
    ensures
        packed.0@.len() == atlas_rows(boxes@.len() as int, chars_per_row + 1, 0).len(),
        forall|r: int|
            0 <= r < packed.0@.len() ==> #[trigger] packed.0@[r]@ == atlas_rows(
                boxes@.len() as int,
                chars_per_row + 1,
                0,
            )[r],
        packed.1 == widest_row(boxes@, chars_per_row + 1, 0) + chars_per_row * margin,
        packed.2 == row_heights(boxes@, chars_per_row + 1, 0) + chars_per_row * margin,
{
    let n = boxes.len();
    let ghost nn = n as int;
    let ghost k = chars_per_row + 1;
    let ghost bs = boxes@;
    let mut texture_height: u32 = boxes[n - 1].1;
    let mut current_row: u32 = 0;
    let mut widest: u32 = 0;
    let mut row_sum: u32 = 0;
    let mut char_rows: Vec<Vec<usize>> = Vec::new();
    let mut cur_row: Vec<usize> = Vec::new();
    let ghost mut rs: int = 0;
    proof {
        lemma_row_heights_nonneg(bs, k, k);
        lemma_widest_row_nonneg(bs, k, 0);
    }
    let mut p: usize = 0;
    while p < n
        invariant
            n == boxes@.len(),
            bs == boxes@,
            nn == n,
            k == chars_per_row + 1,
            chars_per_row < u32::MAX,
            0 <= rs <= p <= n,
            p < n ==> p - rs <= k,
            p == n ==> p - rs <= k && p > rs,
            p > 0 ==> p > rs,
            current_row == p - rs,
            rs < n,
            rows_fit(bs, k, rs),
            row_heights(bs, k, 0) + chars_per_row * margin <= u32::MAX,
            widest_row(bs, k, 0) + chars_per_row * margin <= u32::MAX,
            texture_height + row_heights(bs, k, rs + k) == row_heights(bs, k, 0),
            row_heights(bs, k, rs + k) >= 0,
            (if widest > widest_row(bs, k, rs) { widest as int } else { widest_row(bs, k, rs) })
                == widest_row(bs, k, 0),
            row_sum == widths_between(bs, rs, p as int),
            cur_row@ == packed_indices(nn, rs, p as int),
            atlas_rows(nn, k, 0) == char_rows@.map_values(|v: Vec<usize>| v@) + atlas_rows(
                nn,
                k,
                rs,
            ),
        decreases n - p,
    {
        if current_row > chars_per_row {
            // the row from `rs` is full: close it and start the next at `p`
            proof {
                assert(p == rs + k);
                let end = if rs + k < nn { rs + k } else { nn };
                assert(end == rs + k);
                assert(atlas_rows(nn, k, rs) == seq![packed_indices(nn, rs, rs + k)] + atlas_rows(nn, k, rs + k));
                assert(widest_row(bs, k, rs) == if widths_between(bs, rs, rs + k) > widest_row(bs, k, rs + k) { widths_between(bs, rs, rs + k) } else { widest_row(bs, k, rs + k) });
                assert(row_heights(bs, k, rs + k) == packed_box(bs, rs + k).1 + row_heights(bs, k, rs + k + k));
                lemma_row_heights_nonneg(bs, k, rs + k + k);
            }
            current_row = 0;
            texture_height = texture_height + boxes[n - 1 - p].1;
            if row_sum > widest {
                widest = row_sum;
            }
            row_sum = 0;
            let mut done: Vec<usize> = Vec::new();
            std::mem::swap(&mut done, &mut cur_row);
            let ghost before = char_rows@.map_values(|v: Vec<usize>| v@);
            char_rows.push(done);
            proof {
                assert(char_rows@.map_values(|v: Vec<usize>| v@) =~= before.push(packed_indices(nn, rs, rs + k)));
                assert(atlas_rows(nn, k, 0) =~= char_rows@.map_values(|v: Vec<usize>| v@) + atlas_rows(nn, k, rs + k));
                rs = rs + k;
                assert(cur_row@ =~= packed_indices(nn, rs, p as int));
                assert(widths_between(bs, rs, p as int) == 0);
            }
        }
        proof {
            let end = if rs + k < nn { rs + k } else { nn };
            assert(rows_fit(bs, k, rs) ==> widths_between(bs, rs, end) <= u32::MAX);
            lemma_widths_monotone(bs, rs, p + 1, end);
        }
        cur_row.push(n - 1 - p);
        row_sum = row_sum + boxes[n - 1 - p].0;
        current_row = current_row + 1;
        proof {
            assert(cur_row@ =~= packed_indices(nn, rs, p + 1));
            assert(widths_between(bs, rs, p + 1) == widths_between(bs, rs, p as int) + packed_box(bs, p as int).0);
        }
        p = p + 1;
    }
    proof {
        assert(rs + k >= nn);
        assert(atlas_rows(nn, k, rs) == seq![packed_indices(nn, rs, nn)] + atlas_rows(nn, k, rs + k));
        assert(atlas_rows(nn, k, rs + k) =~= Seq::<Seq<usize>>::empty());
        assert(row_heights(bs, k, rs + k) == 0);
        assert(widest_row(bs, k, rs) == 0);
    }
    let ghost before = char_rows@.map_values(|v: Vec<usize>| v@);
    char_rows.push(cur_row);
    proof {
        assert(char_rows@.map_values(|v: Vec<usize>| v@) =~= before.push(packed_indices(nn, rs, nn)));
        assert(atlas_rows(nn, k, 0) =~= char_rows@.map_values(|v: Vec<usize>| v@));
    }
    let width = widest + chars_per_row * margin;
    let height = texture_height + chars_per_row * margin;
    (char_rows, width, height)
}

} // verus!
