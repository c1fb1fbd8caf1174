use vstd::prelude::*;

verus! {

/// A rectangle on screen: top-left corner, width and height.
#[derive(Clone, Copy, Debug, PartialEq, Eq, Structural)]
pub struct Region {
    pub x: u32,
    pub y: u32,
    pub w: u32,
    pub h: u32,
}

/// The right and bottom edges are representable.
pub open spec fn fits(r: Region) -> bool {
    r.x + r.w <= u32::MAX && r.y + r.h <= u32::MAX
}

/// `inner` lies inside `outer`.
pub open spec fn within(inner: Region, outer: Region) -> bool {
    &&& outer.x <= inner.x
    &&& inner.x + inner.w <= outer.x + outer.w
    &&& outer.y <= inner.y
    &&& inner.y + inner.h <= outer.y + outer.h
}

/// The two columns of `r` when the first is `k` wide.
pub open spec fn split_w(r: Region, k: u32) -> (Region, Region) {
    (Region { w: k, ..r }, Region { x: (r.x + k) as u32, w: (r.w - k) as u32, ..r })
}

/// The two rows of `r` when the first is `k` high.
pub open spec fn split_h(r: Region, k: u32) -> (Region, Region) {
    (Region { h: k, ..r }, Region { y: (r.y + k) as u32, h: (r.h - k) as u32, ..r })
}

impl Region {
    pub fn new(x: u32, y: u32, w: u32, h: u32) -> (r: Region)
        ensures
            r == (Region { x, y, w, h }),
    {
        Region { x, y, w, h }
    }

    /// Divides the region into two columns, the first `new_width` wide;
    /// `None` if the region is narrower than that.
    pub fn split_at_width(&self, new_width: u32) -> (r: Option<(Region, Region)>)
        requires
            fits(*self),
        ensures
            r is Some <==> new_width <= self.w,
            r matches Some(p) ==> p == split_w(*self, new_width),
    {
        if new_width > self.w {
            None
        } else {
            Some(
                (
                    Region { w: new_width, ..*self },
                    Region { x: self.x + new_width, w: self.w - new_width, ..*self },
                ),
            )
        }
    }

    /// Divides the region into two rows, the first `new_height` high;
    /// `None` if the region is lower than that.
    pub fn split_at_height(&self, new_height: u32) -> (r: Option<(Region, Region)>)
        requires
            fits(*self),
        ensures
            r is Some <==> new_height <= self.h,
            r matches Some(p) ==> p == split_h(*self, new_height),
    {
        if new_height > self.h {
            None
        } else {
            Some(
                (
                    Region { h: new_height, ..*self },
                    Region { y: self.y + new_height, h: self.h - new_height, ..*self },
                ),
            )
        }
    }
}

/// The halves of `r`: split across its width when `horizontal`, else across
/// its height, the first half rounded down.
pub open spec fn halves(r: Region, horizontal: bool) -> (Region, Region) {
    if horizontal {
        split_w(r, r.w / 2)
    } else {
        split_h(r, r.h / 2)
    }
}

/// The dwindle layout: the last window takes the first half of the region,
/// the others share the second half the same way with the split direction
/// turned; once a region is smaller than `min_size` either way, its first
/// window takes all of it and the rest are not shown.
pub open spec fn dwindle_spec(ids: Seq<u32>, r: Region, horizontal: bool, min_size: u32) -> Seq<
    (u32, Option<Region>),
>
    decreases ids.len(),
{
    if ids.len() > 1 {
        if r.w < min_size || r.h < min_size {
            Seq::new(ids.len(), |i: int| (ids[i], if i == 0 { Some(r) } else { None }))
        } else {
            dwindle_spec(ids.drop_last(), halves(r, horizontal).1, !horizontal, min_size).push(
                (ids.last(), Some(halves(r, horizontal).0)),
            )
        }
    } else if ids.len() == 1 {
        seq![(ids[0], Some(r))]
    } else {
        Seq::empty()
    }
}

/// Each window keeps its place in the order, and every region handed out
/// lies inside the region laid out.
pub proof fn lemma_dwindle_shape(ids: Seq<u32>, r: Region, horizontal: bool, min_size: u32)
    requires
        fits(r),
    ensures
        dwindle_spec(ids, r, horizontal, min_size).len() == ids.len(),
        forall|i: int|
            0 <= i < ids.len() ==> #[trigger] dwindle_spec(ids, r, horizontal, min_size)[i].0
                == ids[i],
        forall|i: int|
            0 <= i < ids.len() ==> match #[trigger] dwindle_spec(ids, r, horizontal, min_size)[i].1 {
                Some(q) => within(q, r),
                None => true,
            },
    decreases ids.len(),
{
    if ids.len() > 1 && !(r.w < min_size || r.h < min_size) {
        lemma_dwindle_shape(ids.drop_last(), halves(r, horizontal).1, !horizontal, min_size);
    }
}

fn dwindle_prefix(ids: &[u32], n: usize, r: Region, horizontal: bool, min_size: u32) -> (out: Vec<
    (u32, Option<Region>),
>)
    requires
        n <= ids@.len(),
        fits(r),
    ensures
        out@ == dwindle_spec(ids@.take(n as int), r, horizontal, min_size),
    decreases n,
{
    let ghost pre = ids@.take(n as int);
    if n > 1 {
        if r.w < min_size || r.h < min_size {
            let mut out: Vec<(u32, Option<Region>)> = Vec::new();
            let mut i: usize = 0;
            while i < n
                invariant
                    i <= n <= ids@.len(),
                    pre == ids@.take(n as int),
                    out@.len() == i,
                    forall|j: int|
                        0 <= j < i ==> out@[j] == (pre[j], if j == 0 { Some(r) } else { None }),
                decreases n - i,
            {
                out.push((ids[i], if i == 0 { Some(r) } else { None }));
                i += 1;
            }
            assert(out@ =~= dwindle_spec(pre, r, horizontal, min_size));
            out
        } else {
            let parts = if horizontal {
                r.split_at_width(r.w / 2)
            } else {
                r.split_at_height(r.h / 2)
            };
            match parts {
                Some((main, other)) => {
                    assert(pre.drop_last() =~= ids@.take(n - 1));
                    let mut out = dwindle_prefix(ids, n - 1, other, !horizontal, min_size);
                    out.push((ids[n - 1], Some(main)));
                    out
                },
                None => Vec::new(),
            }
        }
    } else if n == 1 {
        let mut out: Vec<(u32, Option<Region>)> = Vec::new();
        out.push((ids[0], Some(r)));
        assert(out@ =~= dwindle_spec(pre, r, horizontal, min_size));
        out
    } else {
        assert(pre =~= Seq::<u32>::empty());
        Vec::new()
    }
}

/// Lays the windows `ids` out over `region` in the dwindle pattern,
/// starting with a split across the width and stopping at 50 pixels.
pub fn dwindle(ids: &[u32], _focused: Option<u32>, region: &Region, _max_main: u32) -> (out: Vec<
    (u32, Option<Region>),
>)
    requires
        fits(*region),
    ensures
        out@ == dwindle_spec(ids@, *region, true, 50),
{
    assert(ids@.take(ids@.len() as int) =~= ids@);
    dwindle_prefix(ids, ids.len(), *region, true, 50)
}

/// A step by which the focused window is resized, a fifth of its size.
#[derive(Clone, Copy, Debug, PartialEq, Eq, Structural)]
pub enum Resize {
    /// Grow to the right and down.
    Grow,
    /// Shrink towards the top left.
    Shrink,
    /// Grow on all sides, keeping the centre.
    GrowCentered,
    /// Shrink on all sides, keeping the centre.
    ShrinkCentered,
}

/// The region of a `w` by `h` window at `(x, y)` after `how`; `None` where
/// an edge would leave the coordinate range.
pub open spec fn resize_spec(x: u32, y: u32, w: u16, h: u16, how: Resize) -> Option<Region> {
    let dx = w as int / 5;
    let dy = h as int / 5;
    match how {
        Resize::Grow => Some(Region { x, y, w: (w + dx) as u32, h: (h + dy) as u32 }),
        Resize::Shrink => Some(Region { x, y, w: (w - dx) as u32, h: (h - dy) as u32 }),
        Resize::GrowCentered => if x >= dx / 2 && y >= dy / 2 {
            Some(
                Region {
                    x: (x - dx / 2) as u32,
                    y: (y - dy / 2) as u32,
                    w: (w + dx) as u32,
                    h: (h + dy) as u32,
                },
            )
        } else {
            None
        },
        Resize::ShrinkCentered => if x + dx / 2 <= u32::MAX && y + dy / 2 <= u32::MAX {
            Some(
                Region {
                    x: (x + dx / 2) as u32,
                    y: (y + dy / 2) as u32,
                    w: (w - dx) as u32,
                    h: (h - dy) as u32,
                },
            )
        } else {
            None
        },
    }
}

/// Resizes the region of a `w` by `h` window at `(x, y)` by a fifth.
pub fn resized(x: u32, y: u32, w: u16, h: u16, how: Resize) -> (r: Option<Region>)
    ensures
        r == resize_spec(x, y, w, h, how),
{
    let w = w as u32;
    let h = h as u32;
    let dx = w / 5;
    let dy = h / 5;
    match how {
        Resize::Grow => Some(Region { x, y, w: w + dx, h: h + dy }),
        Resize::Shrink => Some(Region { x, y, w: w - dx, h: h - dy }),
        Resize::GrowCentered => if x >= dx / 2 && y >= dy / 2 {
            Some(Region { x: x - dx / 2, y: y - dy / 2, w: w + dx, h: h + dy })
        } else {
            None
        },
        Resize::ShrinkCentered => if x <= u32::MAX - dx / 2 && y <= u32::MAX - dy / 2 {
            Some(Region { x: x + dx / 2, y: y + dy / 2, w: w - dx, h: h - dy })
        } else {
            None
        },
    }
}

/// The width and height of an overlay that shows `len` characters.
pub fn label_box(len: u16) -> (r: (u16, u16))
    requires
        len <= 7000,
    ensures
        r.0 == 9 * len + 6,
        r.1 == 18,
{
    (len * 9 + 6, 18)
}

} // verus!
