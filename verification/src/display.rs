use vstd::prelude::*;

verus! {

/// One attached display's reported geometry: the position of its top-left
/// corner on the virtual desktop and its size, in physical pixels.
#[derive(Debug, Clone, Copy)]
pub struct DisplayBounds {
    pub x: i32,
    pub y: i32,
    pub width: u32,
    pub height: u32,
}

impl DisplayBounds {
    /// The display's right edge.
    pub open spec fn right(self) -> int {
        self.x + self.width
    }

    /// The display's bottom edge.
    pub open spec fn bottom(self) -> int {
        self.y + self.height
    }
}

/// The virtual desktop's bounding box. Coordinates are wide enough to hold
/// any display position plus its size.
#[derive(Debug, Clone, Copy, PartialEq, Eq, Structural)]
pub struct DesktopBounds {
    pub min_x: i64,
    pub min_y: i64,
    pub max_x: i64,
    pub max_y: i64,
}

impl DesktopBounds {
    /// The degenerate zero-size box returned when no display is enumerable;
    /// callers treat it as non-fatal and fall back to a default size.
    pub open spec fn zero() -> DesktopBounds {
        DesktopBounds { min_x: 0, min_y: 0, max_x: 0, max_y: 0 }
    }

    /// The box contains the whole of the given display.
    pub open spec fn covers(self, d: DisplayBounds) -> bool {
        &&& self.min_x <= d.x
        &&& d.right() <= self.max_x
        &&& self.min_y <= d.y
        &&& d.bottom() <= self.max_y
    }

}

/// The minimal rectangle covering every attached display's reported position
/// and size: every display lies within the result, and each of the four
/// edges is attained by some display. With no displays enumerable the result
/// is the degenerate zero-size box.
pub fn virtual_desktop_bounds(displays: &Vec<DisplayBounds>) -> (r: DesktopBounds)
    ensures
        displays@.len() == 0 ==> r == DesktopBounds::zero(),
        forall|j: int| 0 <= j < displays@.len() ==> r.covers(#[trigger] displays@[j]),
        displays@.len() > 0 ==> exists|j: int|
            0 <= j < displays@.len() && r.min_x == (#[trigger] displays@[j]).x,
        displays@.len() > 0 ==> exists|j: int|
            0 <= j < displays@.len() && r.min_y == (#[trigger] displays@[j]).y,
        displays@.len() > 0 ==> exists|j: int|
            0 <= j < displays@.len() && r.max_x == (#[trigger] displays@[j]).right(),
        displays@.len() > 0 ==> exists|j: int|
            0 <= j < displays@.len() && r.max_y == (#[trigger] displays@[j]).bottom(),
{
    let n = displays.len();
    if n == 0 {
        return DesktopBounds { min_x: 0, min_y: 0, max_x: 0, max_y: 0 };
    }
    let d0 = displays[0];
    let mut min_x: i64 = d0.x as i64;
    let mut min_y: i64 = d0.y as i64;
    let mut max_x: i64 = d0.x as i64 + d0.width as i64;
    let mut max_y: i64 = d0.y as i64 + d0.height as i64;
    let mut i: usize = 1;
    while i < n
        invariant
            1 <= i <= n,
            n == displays@.len(),
            forall|j: int| 0 <= j < i ==> (DesktopBounds { min_x, min_y, max_x, max_y }).covers(
                #[trigger] displays@[j],
            ),
            exists|j: int| 0 <= j < i && min_x == (#[trigger] displays@[j]).x,
            exists|j: int| 0 <= j < i && min_y == (#[trigger] displays@[j]).y,
            exists|j: int| 0 <= j < i && max_x == (#[trigger] displays@[j]).right(),
            exists|j: int| 0 <= j < i && max_y == (#[trigger] displays@[j]).bottom(),
        decreases n - i,
    {
        let d = displays[i];
        if (d.x as i64) < min_x {
            min_x = d.x as i64;
        }
        if (d.y as i64) < min_y {
            min_y = d.y as i64;
        }
        let right = d.x as i64 + d.width as i64;
        if right > max_x {
            max_x = right;
        }
        let bottom = d.y as i64 + d.height as i64;
        if bottom > max_y {
            max_y = bottom;
        }
        i += 1;
    }
    DesktopBounds { min_x, min_y, max_x, max_y }
}

/// Minimality, pointwise: any box that covers every display is at least as
/// large as one whose edges are attained by displays, on each of the four
/// edges.
pub proof fn lemma_attained_bounds_minimal(
    r: DesktopBounds,
    other: DesktopBounds,
    displays: Seq<DisplayBounds>,
    jx: int,
    jy: int,
    kx: int,
    ky: int,
)
    requires
        forall|j: int| 0 <= j < displays.len() ==> other.covers(#[trigger] displays[j]),
        0 <= jx < displays.len() && r.min_x == displays[jx].x,
        0 <= jy < displays.len() && r.min_y == displays[jy].y,
        0 <= kx < displays.len() && r.max_x == displays[kx].right(),
        0 <= ky < displays.len() && r.max_y == displays[ky].bottom(),
    ensures
        other.min_x <= r.min_x,
        other.min_y <= r.min_y,
        r.max_x <= other.max_x,
        r.max_y <= other.max_y,
{
}

} // verus!
