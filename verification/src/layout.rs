//! Layout engine: deterministic partitioning of a terminal rectangle.
//!
//! A `Rect` is a rectangle of terminal cells. The engine is pure: from a root
//! rectangle and the item counts of the current snapshot it computes the
//! regions of every dashboard section. The generic `split` slices a rectangle
//! along one axis by a list of constraints; the dedicated functions below it
//! build the section regions the dashboard needs. Sizes are integer cell
//! counts; where requested sizes exceed the space, chunks are clipped to what
//! is left, and a zero item count simply yields no sub-regions.

use vstd::arithmetic::div_mod::lemma_fundamental_div_mod;
use vstd::prelude::*;

verus! {

/// A rectangle of terminal cells: position of the top-left corner and size.
#[derive(Clone, Copy, Debug, PartialEq, Eq, Structural)]
pub struct Rect {
    pub x: u16,
    pub y: u16,
    pub width: u16,
    pub height: u16,
}

/// The rectangle's far edges stay within the coordinate type.
pub open spec fn rect_fits(r: Rect) -> bool {
    r.x + r.width <= u16::MAX && r.y + r.height <= u16::MAX
}

/// Axis along which a rectangle is sliced.
#[derive(Clone, Copy, Debug, PartialEq, Eq, Structural)]
pub enum Direction {
    Horizontal,
    Vertical,
}

/// Size request for one chunk of a split: a share of the whole axis extent
/// (capped at 100 %), or a fixed number of cells.
#[derive(Clone, Copy, Debug, PartialEq, Eq, Structural)]
pub enum Constraint {
    Percentage(u16),
    Length(u16),
}

/// Cells granted to one constraint: the requested extent, clipped to what
/// remains. Percentages are taken of the whole axis extent `total`.
pub open spec fn spec_chunk_extent(c: Constraint, total: int, remaining: int) -> int {
    let want = match c {
        Constraint::Percentage(p) => total * (if p > 100 {
            100int
        } else {
            p as int
        }) / 100,
        Constraint::Length(l) => l as int,
    };
    if want > remaining {
        remaining
    } else {
        want
    }
}

/// Chunks of `area` for the constraints, allocated front to back; `total`
/// is the axis extent percentages refer to. The last chunk takes whatever
/// is left, so the chunks together cover the area exactly.
pub open spec fn spec_split_rec(area: Rect, dir: Direction, total: int, cs: Seq<Constraint>) -> Seq<
    Rect,
>
    decreases cs.len(),
{
    if cs.len() == 0 {
        Seq::empty()
    } else {
        match dir {
            Direction::Horizontal => {
                let s = if cs.len() == 1 {
                    area.width as int
                } else {
                    spec_chunk_extent(cs[0], total, area.width as int)
                };
                let first = Rect { x: area.x, y: area.y, width: s as u16, height: area.height };
                let rest = Rect {
                    x: (area.x + s) as u16,
                    y: area.y,
                    width: (area.width - s) as u16,
                    height: area.height,
                };
                seq![first] + spec_split_rec(rest, dir, total, cs.drop_first())
            },
            Direction::Vertical => {
                let s = if cs.len() == 1 {
                    area.height as int
                } else {
                    spec_chunk_extent(cs[0], total, area.height as int)
                };
                let first = Rect { x: area.x, y: area.y, width: area.width, height: s as u16 };
                let rest = Rect {
                    x: area.x,
                    y: (area.y + s) as u16,
                    width: area.width,
                    height: (area.height - s) as u16,
                };
                seq![first] + spec_split_rec(rest, dir, total, cs.drop_first())
            },
        }
    }
}

/// Result of slicing `area` along `dir` by the constraint list.
pub open spec fn spec_split(area: Rect, dir: Direction, cs: Seq<Constraint>) -> Seq<Rect> {
    match dir {
        Direction::Horizontal => spec_split_rec(area, dir, area.width as int, cs),
        Direction::Vertical => spec_split_rec(area, dir, area.height as int, cs),
    }
}

fn chunk_extent(c: Constraint, total: u16, remaining: u16) -> (s: u16)
    requires
        remaining <= total,
    ensures
        s as int == spec_chunk_extent(c, total as int, remaining as int),
        s <= remaining,
{
    let want: u16 = match c {
        Constraint::Percentage(p) => {
            let capped: u16 = if p > 100 {
                100
            } else {
                p
            };
            proof {
                assert(total as int * (capped as int) <= 6_553_500) by (nonlinear_arith)
                    requires
                        0 <= total as int <= 65535,
                        0 <= capped as int <= 100,
                ;
            }
            let w: u32 = (total as u32) * (capped as u32) / 100;
            proof {
                assert(total as int * (capped as int) / 100 <= total as int) by (nonlinear_arith)
                    requires
                        0 <= capped as int <= 100,
                        0 <= total as int,
                ;
            }
            w as u16
        },
        Constraint::Length(l) => l,
    };
    if want > remaining {
        remaining
    } else {
        want
    }
}

/// Slice `area` along `dir`: each constraint receives its extent in turn,
/// clipped to the space still free, and each chunk starts where the one
/// before it ends. The last chunk absorbs whatever space is left, so the
/// chunks cover the area exactly.
pub fn split(area: Rect, dir: Direction, constraints: &Vec<Constraint>) -> (out: Vec<Rect>)
    requires
        rect_fits(area),
    ensures
        out@ == spec_split(area, dir, constraints@),
        out@.len() == constraints@.len(),
        forall|j: int| 0 <= j < out@.len() ==> rect_fits(#[trigger] out@[j]),
{
    let total: u16 = match dir {
        Direction::Horizontal => area.width,
        Direction::Vertical => area.height,
    };
    let mut out: Vec<Rect> = Vec::new();
    let mut cur: Rect = area;
    let mut i: usize = 0;
    proof {
        assert(constraints@.skip(0) =~= constraints@);
        assert(out@ + spec_split_rec(cur, dir, total as int, constraints@) =~= spec_split_rec(
            cur,
            dir,
            total as int,
            constraints@,
        ));
    }
    while i < constraints.len()
        invariant
            i <= constraints@.len(),
            rect_fits(area),
            rect_fits(cur),
            total == (match dir {
                Direction::Horizontal => area.width,
                Direction::Vertical => area.height,
            }),
            match dir {
                Direction::Horizontal => cur.y == area.y && cur.height == area.height && cur.width
                    <= total,
                Direction::Vertical => cur.x == area.x && cur.width == area.width && cur.height
                    <= total,
            },
            out@.len() == i,
            forall|j: int| 0 <= j < out@.len() ==> rect_fits(#[trigger] out@[j]),
            out@ + spec_split_rec(cur, dir, total as int, constraints@.skip(i as int))
                == spec_split(area, dir, constraints@),
        decreases constraints@.len() - i,
    {
        let ghost prev_out = out@;
        let ghost prev_cur = cur;
        let c = constraints[i];
        let last = i + 1 == constraints.len();
        match dir {
            Direction::Horizontal => {
                let s = if last {
                    cur.width
                } else {
                    chunk_extent(c, total, cur.width)
                };
                let first = Rect { x: cur.x, y: cur.y, width: s, height: cur.height };
                out.push(first);
                cur = Rect { x: cur.x + s, y: cur.y, width: cur.width - s, height: cur.height };
            },
            Direction::Vertical => {
                let s = if last {
                    cur.height
                } else {
                    chunk_extent(c, total, cur.height)
                };
                let first = Rect { x: cur.x, y: cur.y, width: cur.width, height: s };
                out.push(first);
                cur = Rect { x: cur.x, y: cur.y + s, width: cur.width, height: cur.height - s };
            },
        }
        proof {
            let cs = constraints@;
            assert(cs.skip(i as int).drop_first() =~= cs.skip(i as int + 1));
            assert(cs.skip(i as int)[0] == cs[i as int]);
            assert(out@ + spec_split_rec(cur, dir, total as int, cs.skip(i as int + 1)) =~= prev_out
                + spec_split_rec(prev_cur, dir, total as int, cs.skip(i as int)));
        }
        i += 1;
    }
    proof {
        assert(out@ + spec_split_rec(cur, dir, total as int, constraints@.skip(i as int)) =~= out@);
    }
    out
}

/// The rectangle shrunk by a horizontal and a vertical margin on each side;
/// an extent smaller than its two margins collapses to zero.
pub open spec fn spec_inner(r: Rect, h_margin: int, v_margin: int) -> Rect {
    Rect {
        x: (r.x + (if h_margin > r.width as int {
            r.width as int
        } else {
            h_margin
        })) as u16,
        y: (r.y + (if v_margin > r.height as int {
            r.height as int
        } else {
            v_margin
        })) as u16,
        width: (if r.width as int >= 2 * h_margin {
            r.width as int - 2 * h_margin
        } else {
            0
        }) as u16,
        height: (if r.height as int >= 2 * v_margin {
            r.height as int - 2 * v_margin
        } else {
            0
        }) as u16,
    }
}

/// Shrink a rectangle by margins on all four sides.
pub fn inner(r: Rect, h_margin: u16, v_margin: u16) -> (s: Rect)
    requires
        rect_fits(r),
    ensures
        s == spec_inner(r, h_margin as int, v_margin as int),
        rect_fits(s),
        s.x >= r.x,
        s.y >= r.y,
        s.x + s.width <= r.x + r.width,
        s.y + s.height <= r.y + r.height,
{
    let hm = if h_margin > r.width {
        r.width
    } else {
        h_margin
    };
    let vm = if v_margin > r.height {
        r.height
    } else {
        v_margin
    };
    let w = if h_margin <= u16::MAX / 2 && r.width >= 2 * h_margin {
        r.width - 2 * h_margin
    } else {
        0
    };
    let h = if v_margin <= u16::MAX / 2 && r.height >= 2 * v_margin {
        r.height - 2 * v_margin
    } else {
        0
    };
    Rect { x: r.x + hm, y: r.y + vm, width: w, height: h }
}

/// Single-line rows stacked from the top of `area`: as many as `count`
/// asks for, clipped to the rows that fit the height.
pub open spec fn spec_line_rows(area: Rect, count: int) -> Seq<Rect> {
    let n = if count > area.height as int {
        area.height as int
    } else {
        count
    };
    Seq::new(
        (if n < 0 {
            0int
        } else {
            n
        }) as nat,
        |i: int| Rect { x: area.x, y: (area.y + i) as u16, width: area.width, height: 1 },
    )
}

/// One single-line row per item, from the top of `area`, clipped to the
/// height.
pub fn line_rows(area: Rect, count: usize) -> (rows: Vec<Rect>)
    requires
        rect_fits(area),
    ensures
        rows@ == spec_line_rows(area, count as int),
        rows@.len() <= area.height,
        forall|j: int| 0 <= j < rows@.len() ==> rect_fits(#[trigger] rows@[j]),
{
    let n: usize = if count > area.height as usize {
        area.height as usize
    } else {
        count
    };
    let mut rows: Vec<Rect> = Vec::new();
    let mut i: usize = 0;
    while i < n
        invariant
            i <= n,
            n <= area.height,
            rect_fits(area),
            rows@ =~= spec_line_rows(area, n as int).take(i as int),
            forall|j: int| 0 <= j < rows@.len() ==> rect_fits(#[trigger] rows@[j]),
        decreases n - i,
    {
        rows.push(Rect { x: area.x, y: area.y + (i as u16), width: area.width, height: 1 });
        proof {
            assert(rows@ =~= spec_line_rows(area, n as int).take(i as int + 1));
        }
        i += 1;
    }
    proof {
        assert(rows@ =~= spec_line_rows(area, count as int));
    }
    rows
}

/// Left and right halves of a rectangle: the label column takes half the
/// width rounded down, the value column the rest.
pub open spec fn spec_columns(area: Rect) -> (Rect, Rect) {
    let half = area.width as int / 2;
    (
        Rect { x: area.x, y: area.y, width: half as u16, height: area.height },
        Rect {
            x: (area.x + half) as u16,
            y: area.y,
            width: (area.width - half) as u16,
            height: area.height,
        },
    )
}

/// Split a rectangle into a label column and a value column.
pub fn columns(area: Rect) -> (cols: (Rect, Rect))
    requires
        rect_fits(area),
    ensures
        cols == spec_columns(area),
        rect_fits(cols.0),
        rect_fits(cols.1),
{
    let half = area.width / 2;
    (
        Rect { x: area.x, y: area.y, width: half, height: area.height },
        Rect { x: area.x + half, y: area.y, width: area.width - half, height: area.height },
    )
}


/// The four vertically stacked bands of the stats column.
#[derive(Clone, Copy, Debug, PartialEq, Eq, Structural)]
pub struct StatsBands {
    pub cpu: Rect,
    pub memory: Rect,
    pub disks: Rect,
    pub system: Rect,
}

/// Share of the stats column the CPU band claims, in percent: a base of
/// 10 plus 2 per core, capped at the whole column.
pub open spec fn spec_cpu_band_percent(cores: int) -> int {
    if 10 + 2 * cores > 100 {
        100int
    } else {
        10 + 2 * cores
    }
}

/// The stats column divided into the CPU, memory, disks and system bands.
/// The CPU band's share grows with the core count; the space left is
/// distributed among the other three in the fixed proportion 15 : 50 : 10,
/// the system band absorbing the rounding remainder.
pub open spec fn spec_stats_bands(area: Rect, cores: int) -> StatsBands {
    let h = area.height as int;
    let cpu_h = h * spec_cpu_band_percent(cores) / 100;
    let rem = h - cpu_h;
    let mem_h = rem * 15 / 75;
    let disks_h = rem * 50 / 75;
    let sys_h = rem - mem_h - disks_h;
    StatsBands {
        cpu: Rect { x: area.x, y: area.y, width: area.width, height: cpu_h as u16 },
        memory: Rect {
            x: area.x,
            y: (area.y + cpu_h) as u16,
            width: area.width,
            height: mem_h as u16,
        },
        disks: Rect {
            x: area.x,
            y: (area.y + cpu_h + mem_h) as u16,
            width: area.width,
            height: disks_h as u16,
        },
        system: Rect {
            x: area.x,
            y: (area.y + cpu_h + mem_h + disks_h) as u16,
            width: area.width,
            height: sys_h as u16,
        },
    }
}

proof fn lemma_stats_band_heights(h: int, cores: int)
    requires
        0 <= h <= 65535,
        0 <= cores,
    ensures
        0 <= h * spec_cpu_band_percent(cores) / 100 <= h,
        ({
            let rem = h - h * spec_cpu_band_percent(cores) / 100;
            let mem_h = rem * 15 / 75;
            let disks_h = rem * 50 / 75;
            0 <= mem_h && 0 <= disks_h && mem_h + disks_h <= rem
        }),
{
    let p = spec_cpu_band_percent(cores);
    assert(0 <= p <= 100);
    assert(0 <= h * p / 100 <= h) by (nonlinear_arith)
        requires
            0 <= h && 0 <= p <= 100,
    ;
    let rem = h - h * p / 100;
    let mem_h = rem * 15 / 75;
    let disks_h = rem * 50 / 75;
    assert(0 <= mem_h <= rem && 0 <= disks_h) by (nonlinear_arith)
        requires
            0 <= rem && mem_h == rem * 15 / 75 && disks_h == rem * 50 / 75,
    ;
    lemma_fundamental_div_mod(rem * 15, 75);
    lemma_fundamental_div_mod(rem * 50, 75);
    assert(mem_h + disks_h <= rem) by (nonlinear_arith)
        requires
            0 <= rem,
            rem * 15 == 75 * mem_h + (rem * 15) % 75,
            rem * 50 == 75 * disks_h + (rem * 50) % 75,
            0 <= (rem * 15) % 75 < 75,
            0 <= (rem * 50) % 75 < 75,
    ;
}

/// Divide the stats column into its four bands.
pub fn stats_bands(area: Rect, cores: usize) -> (bands: StatsBands)
    requires
        rect_fits(area),
    ensures
        bands == spec_stats_bands(area, cores as int),
        rect_fits(bands.cpu),
        rect_fits(bands.memory),
        rect_fits(bands.disks),
        rect_fits(bands.system),
{
    let pct: u16 = if cores >= 45 {
        100
    } else {
        10 + 2 * (cores as u16)
    };
    proof {
        assert(pct as int == spec_cpu_band_percent(cores as int));
        lemma_stats_band_heights(area.height as int, cores as int);
        assert(area.height as int * (pct as int) <= 6_553_500) by (nonlinear_arith)
            requires
                0 <= area.height as int <= 65535,
                0 <= pct as int <= 100,
        ;
    }
    let cpu_h: u16 = ((area.height as u32) * (pct as u32) / 100) as u16;
    let rem: u16 = area.height - cpu_h;
    let mem_h: u16 = ((rem as u32) * 15 / 75) as u16;
    let disks_h: u16 = ((rem as u32) * 50 / 75) as u16;
    let sys_h: u16 = rem - mem_h - disks_h;
    StatsBands {
        cpu: Rect { x: area.x, y: area.y, width: area.width, height: cpu_h },
        memory: Rect { x: area.x, y: area.y + cpu_h, width: area.width, height: mem_h },
        disks: Rect { x: area.x, y: area.y + cpu_h + mem_h, width: area.width, height: disks_h },
        system: Rect {
            x: area.x,
            y: area.y + cpu_h + mem_h + disks_h,
            width: area.width,
            height: sys_h,
        },
    }
}

/// The CPU band's sub-rows: the single-line global usage row at the top
/// (absent only when the band has no height), then one single-line row per
/// core, clipped to the lines that fit below the global row.
pub open spec fn spec_cpu_rows(band: Rect, cores: int) -> (Rect, Seq<Rect>) {
    if band.height == 0 {
        (Rect { x: band.x, y: band.y, width: band.width, height: 0 }, Seq::empty())
    } else {
        let below = Rect {
            x: band.x,
            y: (band.y + 1) as u16,
            width: band.width,
            height: (band.height - 1) as u16,
        };
        (
            Rect { x: band.x, y: band.y, width: band.width, height: 1 },
            spec_line_rows(below, cores),
        )
    }
}

/// The global usage row and the per-core rows of the CPU band.
pub fn cpu_rows(band: Rect, cores: usize) -> (r: (Rect, Vec<Rect>))
    requires
        rect_fits(band),
    ensures
        (r.0, r.1@) == spec_cpu_rows(band, cores as int),
        rect_fits(r.0),
        forall|j: int| 0 <= j < r.1@.len() ==> rect_fits(#[trigger] r.1@[j]),
{
    if band.height == 0 {
        (Rect { x: band.x, y: band.y, width: band.width, height: 0 }, Vec::new())
    } else {
        let below = Rect { x: band.x, y: band.y + 1, width: band.width, height: band.height - 1 };
        let rows = line_rows(below, cores);
        (Rect { x: band.x, y: band.y, width: band.width, height: 1 }, rows)
    }
}

/// The disks band divided into one block per disk: equal heights by
/// integer division, the last block absorbing the remainder; no disks, no
/// blocks.
pub open spec fn spec_disk_blocks(band: Rect, disks: int) -> Seq<Rect> {
    if disks <= 0 {
        Seq::empty()
    } else {
        let base = band.height as int / disks;
        Seq::new(
            disks as nat,
            |i: int|
                Rect {
                    x: band.x,
                    y: (band.y + i * base) as u16,
                    width: band.width,
                    height: (if i == disks - 1 {
                        band.height as int - (disks - 1) * base
                    } else {
                        base
                    }) as u16,
                },
        )
    }
}

proof fn lemma_disk_base_bound(h: int, n: int, i: int)
    requires
        0 <= h,
        1 <= n,
        0 <= i <= n - 1,
    ensures
        i * (h / n) <= (n - 1) * (h / n) <= h,
        0 <= i * (h / n),
        n * (h / n) <= h,
{
    let base = h / n;
    lemma_fundamental_div_mod(h, n);
    assert(0 <= base && n * base <= h) by (nonlinear_arith)
        requires
            0 <= h && 1 <= n && h == n * base + h % n && 0 <= h % n,
    ;
    assert(0 <= i * base <= (n - 1) * base <= n * base) by (nonlinear_arith)
        requires
            0 <= base && 0 <= i <= n - 1,
    ;
}

/// One block per disk within the disks band.
pub fn disk_blocks(band: Rect, disks: usize) -> (blocks: Vec<Rect>)
    requires
        rect_fits(band),
    ensures
        blocks@ == spec_disk_blocks(band, disks as int),
        blocks@.len() == disks,
        forall|j: int| 0 <= j < blocks@.len() ==> rect_fits(#[trigger] blocks@[j]),
{
    let mut blocks: Vec<Rect> = Vec::new();
    if disks == 0 {
        proof {
            assert(blocks@ =~= spec_disk_blocks(band, disks as int));
        }
        return blocks;
    }
    let base: u16 = if disks > band.height as usize {
        0
    } else {
        band.height / (disks as u16)
    };
    proof {
        if disks > band.height as usize {
            assert(band.height as int / (disks as int) == 0) by {
                vstd::arithmetic::div_mod::lemma_basic_div(band.height as int, disks as int);
            }
        }
        assert(base as int == band.height as int / (disks as int));
    }
    let mut cur_y: u16 = band.y;
    let mut i: usize = 0;
    while i < disks
        invariant
            i <= disks,
            1 <= disks,
            rect_fits(band),
            base as int == band.height as int / (disks as int),
            cur_y as int == band.y + i * (base as int),
            blocks@ =~= spec_disk_blocks(band, disks as int).take(i as int),
            forall|j: int| 0 <= j < blocks@.len() ==> rect_fits(#[trigger] blocks@[j]),
        decreases disks - i,
    {
        proof {
            lemma_disk_base_bound(band.height as int, disks as int, i as int);
            if i < disks - 1 {
                lemma_disk_base_bound(band.height as int, disks as int, i as int + 1);
            }
            assert((i as int + 1) * (base as int) == i as int * (base as int) + base as int)
                by (nonlinear_arith);
        }
        let height: u16 = if i == disks - 1 {
            band.height - (cur_y - band.y)
        } else {
            base
        };
        blocks.push(Rect { x: band.x, y: cur_y, width: band.width, height });
        proof {
            assert(blocks@ =~= spec_disk_blocks(band, disks as int).take(i as int + 1));
        }
        cur_y = cur_y + base;
        i += 1;
    }
    proof {
        assert(blocks@ =~= spec_disk_blocks(band, disks as int));
    }
    blocks
}


/// Header row and table body of the processes region: a single header
/// line, one blank line below it, and the rest for the body.
pub open spec fn spec_header_body(area: Rect) -> (Rect, Rect) {
    let head_h = if area.height as int >= 1 {
        1int
    } else {
        0int
    };
    let gap = if area.height as int >= 2 {
        2int
    } else {
        area.height as int
    };
    (
        Rect { x: area.x, y: area.y, width: area.width, height: head_h as u16 },
        Rect {
            x: area.x,
            y: (area.y + gap) as u16,
            width: area.width,
            height: (area.height - gap) as u16,
        },
    )
}

/// Split a region into its header row and the body below it.
pub fn header_body(area: Rect) -> (r: (Rect, Rect))
    requires
        rect_fits(area),
    ensures
        r == spec_header_body(area),
        rect_fits(r.0),
        rect_fits(r.1),
{
    let head_h: u16 = if area.height >= 1 {
        1
    } else {
        0
    };
    let gap: u16 = if area.height >= 2 {
        2
    } else {
        area.height
    };
    (
        Rect { x: area.x, y: area.y, width: area.width, height: head_h },
        Rect { x: area.x, y: area.y + gap, width: area.width, height: area.height - gap },
    )
}

/// The rectangle's top line, where a block paints its title; empty when
/// the rectangle has no height.
pub open spec fn spec_title_row(r: Rect) -> Rect {
    Rect {
        x: r.x,
        y: r.y,
        width: r.width,
        height: if r.height >= 1 {
            1u16
        } else {
            0u16
        },
    }
}

/// The top line of a rectangle.
pub fn title_row(r: Rect) -> (t: Rect)
    requires
        rect_fits(r),
    ensures
        t == spec_title_row(r),
        rect_fits(t),
{
    Rect {
        x: r.x,
        y: r.y,
        width: r.width,
        height: if r.height >= 1 {
            1
        } else {
            0
        },
    }
}

/// The regions of one dashboard frame, computed from the root rectangle
/// and the item counts of the current snapshot.
pub struct LayoutTree {
    pub stats: Rect,
    pub processes: Rect,
    pub cpu_global: Rect,
    pub cpu_core_rows: Vec<Rect>,
    pub memory_band: Rect,
    pub disks_band: Rect,
    pub disk_blocks: Vec<Rect>,
    pub system_band: Rect,
    pub process_header: Rect,
    pub process_body: Rect,
}

/// Mathematical model of a layout tree.
pub struct LayoutModel {
    pub stats: Rect,
    pub processes: Rect,
    pub cpu_global: Rect,
    pub cpu_core_rows: Seq<Rect>,
    pub memory_band: Rect,
    pub disks_band: Rect,
    pub disk_blocks: Seq<Rect>,
    pub system_band: Rect,
    pub process_header: Rect,
    pub process_body: Rect,
}

impl View for LayoutTree {
    type V = LayoutModel;

    open spec fn view(&self) -> LayoutModel {
        LayoutModel {
            stats: self.stats,
            processes: self.processes,
            cpu_global: self.cpu_global,
            cpu_core_rows: self.cpu_core_rows@,
            memory_band: self.memory_band,
            disks_band: self.disks_band,
            disk_blocks: self.disk_blocks@,
            system_band: self.system_band,
            process_header: self.process_header,
            process_body: self.process_body,
        }
    }
}

/// Stats and processes columns of the root rectangle, in that order.
pub open spec fn spec_main_columns(root: Rect) -> Seq<Rect> {
    spec_split(
        root,
        Direction::Horizontal,
        seq![Constraint::Percentage(28), Constraint::Percentage(72)],
    )
}

/// The full layout of one frame. The root is split into the stats and
/// processes columns; the stats column, behind its margins, is divided
/// into the four bands; the CPU band gets its global row and per-core
/// rows, the disks band one block per disk; the processes column, behind
/// its border and margins, gets a header row and the table body.
pub open spec fn spec_compute_layout(root: Rect, cores: int, disks: int) -> LayoutModel {
    let main = spec_main_columns(root);
    let stats = main[0];
    let processes = main[1];
    let stats_inner = spec_inner(stats, 3, 2);
    let bands = spec_stats_bands(stats_inner, cores);
    let cpu = spec_cpu_rows(bands.cpu, cores);
    let blocks = spec_disk_blocks(bands.disks, disks);
    let proc_inner = spec_inner(processes, 4, 3);
    let hb = spec_header_body(proc_inner);
    LayoutModel {
        stats: stats,
        processes: processes,
        cpu_global: cpu.0,
        cpu_core_rows: cpu.1,
        memory_band: bands.memory,
        disks_band: bands.disks,
        disk_blocks: blocks,
        system_band: bands.system,
        process_header: hb.0,
        process_body: hb.1,
    }
}

/// Compute the layout of one frame from the root rectangle, the core
/// count and the disk count of the current snapshot.
pub fn compute_layout(root: Rect, cpu_core_count: usize, disk_count: usize) -> (t: LayoutTree)
    requires
        rect_fits(root),
    ensures
        t@ == spec_compute_layout(root, cpu_core_count as int, disk_count as int),
        rect_fits(t.stats),
        rect_fits(t.processes),
        rect_fits(t.cpu_global),
        forall|j: int| 0 <= j < t.cpu_core_rows@.len() ==> rect_fits(#[trigger] t.cpu_core_rows@[j]),
        rect_fits(t.memory_band),
        rect_fits(t.disks_band),
        forall|j: int| 0 <= j < t.disk_blocks@.len() ==> rect_fits(#[trigger] t.disk_blocks@[j]),
        rect_fits(t.system_band),
        rect_fits(t.process_header),
        rect_fits(t.process_body),
{
    let mut cs: Vec<Constraint> = Vec::new();
    cs.push(Constraint::Percentage(28));
    cs.push(Constraint::Percentage(72));
    proof {
        assert(cs@ =~= seq![Constraint::Percentage(28), Constraint::Percentage(72)]);
    }
    let main = split(root, Direction::Horizontal, &cs);
    let stats = main[0];
    let processes = main[1];
    let stats_inner = inner(stats, 3, 2);
    let bands = stats_bands(stats_inner, cpu_core_count);
    let cpu = cpu_rows(bands.cpu, cpu_core_count);
    let blocks = disk_blocks(bands.disks, disk_count);
    let proc_inner = inner(processes, 4, 3);
    let hb = header_body(proc_inner);
    let t = LayoutTree {
        stats: stats,
        processes: processes,
        cpu_global: cpu.0,
        cpu_core_rows: cpu.1,
        memory_band: bands.memory,
        disks_band: bands.disks,
        disk_blocks: blocks,
        system_band: bands.system,
        process_header: hb.0,
        process_body: hb.1,
    };
    proof {
        assert(t@ == spec_compute_layout(root, cpu_core_count as int, disk_count as int));
    }
    t
}

/// One rectangle lies entirely within another.
pub open spec fn rect_within(r: Rect, outer: Rect) -> bool {
    outer.x <= r.x && r.x + r.width <= outer.x + outer.width && outer.y <= r.y && r.y + r.height
        <= outer.y + outer.height
}

proof fn lemma_split_rec_chunks(area: Rect, dir: Direction, total: int, cs: Seq<Constraint>)
    requires
        rect_fits(area),
        0 <= total,
    ensures
        forall|i: int|
            0 <= i < spec_split_rec(area, dir, total, cs).len() ==> rect_within(
                #[trigger] spec_split_rec(area, dir, total, cs)[i],
                area,
            ),
        forall|i: int|
            0 <= i && i + 1 < spec_split_rec(area, dir, total, cs).len() ==> (match dir {
                Direction::Horizontal => spec_split_rec(area, dir, total, cs)[i + 1].x
                    == spec_split_rec(area, dir, total, cs)[i].x + spec_split_rec(
                    area,
                    dir,
                    total,
                    cs,
                )[i].width && spec_split_rec(area, dir, total, cs)[i + 1].y == area.y,
                Direction::Vertical => spec_split_rec(area, dir, total, cs)[i + 1].y
                    == spec_split_rec(area, dir, total, cs)[i].y + spec_split_rec(
                    area,
                    dir,
                    total,
                    cs,
                )[i].height && spec_split_rec(area, dir, total, cs)[i + 1].x == area.x,
            }),
        cs.len() > 0 ==> (match dir {
            Direction::Horizontal => spec_split_rec(area, dir, total, cs).last().x
                + spec_split_rec(area, dir, total, cs).last().width == area.x + area.width,
            Direction::Vertical => spec_split_rec(area, dir, total, cs).last().y + spec_split_rec(
                area,
                dir,
                total,
                cs,
            ).last().height == area.y + area.height,
        }),
    decreases cs.len(),
{
    if cs.len() > 0 {
        let r = spec_split_rec(area, dir, total, cs);
        match dir {
            Direction::Horizontal => {
                let s = if cs.len() == 1 {
                    area.width as int
                } else {
                    spec_chunk_extent(cs[0], total, area.width as int)
                };
                let rest = Rect {
                    x: (area.x + s) as u16,
                    y: area.y,
                    width: (area.width - s) as u16,
                    height: area.height,
                };
                lemma_split_rec_chunks(rest, dir, total, cs.drop_first());
                assert forall|i: int| 0 <= i < r.len() implies rect_within(#[trigger] r[i], area) by {
                    if i > 0 {
                        assert(r[i] == spec_split_rec(rest, dir, total, cs.drop_first())[i - 1]);
                    }
                }
                if cs.len() > 1 {
                    assert(r.last() == spec_split_rec(rest, dir, total, cs.drop_first()).last());
                }
            },
            Direction::Vertical => {
                let s = if cs.len() == 1 {
                    area.height as int
                } else {
                    spec_chunk_extent(cs[0], total, area.height as int)
                };
                let rest = Rect {
                    x: area.x,
                    y: (area.y + s) as u16,
                    width: area.width,
                    height: (area.height - s) as u16,
                };
                lemma_split_rec_chunks(rest, dir, total, cs.drop_first());
                assert forall|i: int| 0 <= i < r.len() implies rect_within(#[trigger] r[i], area) by {
                    if i > 0 {
                        assert(r[i] == spec_split_rec(rest, dir, total, cs.drop_first())[i - 1]);
                    }
                }
                if cs.len() > 1 {
                    assert(r.last() == spec_split_rec(rest, dir, total, cs.drop_first()).last());
                }
            },
        }
    }
}

/// The chunks of a split tile the rectangle: each chunk lies within the
/// sliced area, along the split axis each chunk begins exactly where the
/// previous one ends, and the last chunk ends exactly at the area's far
/// edge, so the chunks neither overlap nor leave a gap.
pub proof fn lemma_split_non_overlapping(area: Rect, dir: Direction, cs: Seq<Constraint>)
    requires
        rect_fits(area),
    ensures
        forall|i: int|
            0 <= i < spec_split(area, dir, cs).len() ==> rect_within(
                #[trigger] spec_split(area, dir, cs)[i],
                area,
            ),
        forall|i: int|
            0 <= i && i + 1 < spec_split(area, dir, cs).len() ==> (match dir {
                Direction::Horizontal => spec_split(area, dir, cs)[i + 1].x == spec_split(
                    area,
                    dir,
                    cs,
                )[i].x + spec_split(area, dir, cs)[i].width,
                Direction::Vertical => spec_split(area, dir, cs)[i + 1].y == spec_split(
                    area,
                    dir,
                    cs,
                )[i].y + spec_split(area, dir, cs)[i].height,
            }),
        cs.len() > 0 ==> (match dir {
            Direction::Horizontal => spec_split(area, dir, cs).last().x + spec_split(
                area,
                dir,
                cs,
            ).last().width == area.x + area.width,
            Direction::Vertical => spec_split(area, dir, cs).last().y + spec_split(
                area,
                dir,
                cs,
            ).last().height == area.y + area.height,
        }),
{
    match dir {
        Direction::Horizontal => lemma_split_rec_chunks(area, dir, area.width as int, cs),
        Direction::Vertical => lemma_split_rec_chunks(area, dir, area.height as int, cs),
    }
}

/// The disk blocks tile their band: each block lies within the band, each
/// begins where the one before it ends, and the last one ends exactly at
/// the band's bottom edge, absorbing the division remainder.
pub proof fn lemma_disk_blocks_tile(band: Rect, disks: int)
    requires
        rect_fits(band),
        0 < disks,
    ensures
        forall|i: int|
            0 <= i < spec_disk_blocks(band, disks).len() ==> rect_within(
                #[trigger] spec_disk_blocks(band, disks)[i],
                band,
            ),
        forall|i: int|
            #![trigger spec_disk_blocks(band, disks)[i]]
            0 <= i && i + 1 < spec_disk_blocks(band, disks).len() ==> spec_disk_blocks(band, disks)[i
                + 1].y == spec_disk_blocks(band, disks)[i].y + spec_disk_blocks(band, disks)[i].height,
        spec_disk_blocks(band, disks).last().y + spec_disk_blocks(band, disks).last().height
            == band.y + band.height,
{
    let base = band.height as int / disks;
    let blocks = spec_disk_blocks(band, disks);
    assert forall|i: int| 0 <= i < disks implies rect_within(#[trigger] blocks[i], band) by {
        lemma_disk_base_bound(band.height as int, disks, i);
        if i < disks - 1 {
            lemma_disk_base_bound(band.height as int, disks, i + 1);
            assert((i + 1) * base == i * base + base) by (nonlinear_arith);
        }
    }
    assert forall|i: int| 0 <= i && i + 1 < disks implies #[trigger] blocks[i + 1].y == blocks[i].y
        + blocks[i].height by {
        lemma_disk_base_bound(band.height as int, disks, i);
        lemma_disk_base_bound(band.height as int, disks, i + 1);
        assert((i + 1) * base == i * base + base) by (nonlinear_arith);
    }
    lemma_disk_base_bound(band.height as int, disks, disks - 1);
}

/// The layout is a function of the root rectangle and the item counts
/// alone: two layouts of the same inputs are identical, so recomputing a
/// frame's layout cannot change it.
pub proof fn lemma_compute_layout_deterministic(
    root: Rect,
    cores: int,
    disks: int,
    t1: LayoutModel,
    t2: LayoutModel,
)
    requires
        t1 == spec_compute_layout(root, cores, disks),
        t2 == spec_compute_layout(root, cores, disks),
    ensures
        t1 == t2,
{
}

/// With no disks the disks band holds no sub-blocks at all.
pub proof fn lemma_disk_blocks_empty(band: Rect)
    ensures
        spec_disk_blocks(band, 0).len() == 0,
{
}

/// A CPU band with any height reserves a single-line global usage row
/// plus exactly one single-line row per core, clipped to the lines that
/// fit below the global row.
pub proof fn lemma_cpu_rows_reserved(band: Rect, cores: int)
    requires
        band.height >= 1,
        0 <= cores,
    ensures
        spec_cpu_rows(band, cores).0.height == 1,
        spec_cpu_rows(band, cores).1.len() == (if cores > band.height - 1 {
            band.height - 1
        } else {
            cores
        }),
        forall|i: int|
            0 <= i < spec_cpu_rows(band, cores).1.len() ==> spec_cpu_rows(
                band,
                cores,
            ).1[i].height == 1,
{
}

} // verus!
