use vstd::prelude::*;
use crate::geometry::Region;

verus! {

/// What to do with a newly managed window.
#[derive(Clone, Copy, Debug, PartialEq, Eq, Structural)]
pub struct Placement {
    /// Make the window translucent.
    pub translucent: bool,
    /// Centre the window on the active screen.
    pub centered: bool,
}

/// Window classes that are centred on arrival, and those kept opaque.
pub struct ClassRules {
    center: Vec<String>,
    opaque: Vec<String>,
}

pub open spec fn listed(names: Seq<String>, class: Seq<char>) -> bool {
    exists|i: int| 0 <= i < names.len() && (#[trigger] names[i])@ == class
}

fn contains(names: &Vec<String>, class: &String) -> (r: bool)
    ensures
        r == listed(names@, class@),
{
    let mut i: usize = 0;
    while i < names.len()
        invariant
            i <= names.len(),
            forall|j: int| 0 <= j < i ==> (#[trigger] names@[j])@ != class@,
        decreases names.len() - i,
    {
        if names[i] == *class {
            return true;
        }
        i += 1;
    }
    false
}

impl ClassRules {
    pub closed spec fn centered_classes(&self) -> Seq<String> {
        self.center@
    }

    pub closed spec fn opaque_classes(&self) -> Seq<String> {
        self.opaque@
    }

    pub fn new(center: Vec<String>, opaque: Vec<String>) -> (r: ClassRules)
        ensures
            r.centered_classes() == center@,
            r.opaque_classes() == opaque@,
    {
        ClassRules { center, opaque }
    }

    /// How a new window of class `class` is placed: translucent unless its
    /// class is kept opaque, centred if its class is listed for that.
    pub fn placement(&self, class: &String) -> (r: Placement)
        ensures
            r.translucent == !listed(self.opaque_classes(), class@),
            r.centered == listed(self.centered_classes(), class@),
    {
        Placement { translucent: !contains(&self.opaque, class), centered: contains(&self.center, class) }
    }
}

/// A `w` by `h` window centred on `screen`, rounding towards the top left.
pub fn centered_region(screen: &Region, w: u32, h: u32) -> (r: Region)
    requires
        w <= screen.w,
        h <= screen.h,
        screen.x + screen.w <= u32::MAX,
        screen.y + screen.h <= u32::MAX,
    ensures
        r == (Region {
            x: (screen.x + (screen.w - w) / 2) as u32,
            y: (screen.y + (screen.h - h) / 2) as u32,
            w,
            h,
        }),
{
    Region { x: screen.x + (screen.w - w) / 2, y: screen.y + (screen.h - h) / 2, w, h }
}

} // verus!
