use vstd::prelude::*;

verus! {

/// Workspace `j` is shown on no screen.
pub open spec fn free(shown: Seq<usize>, j: usize) -> bool {
    !shown.contains(j)
}

fn is_shown(shown: &Vec<usize>, j: usize) -> (r: bool)
    ensures
        r == shown@.contains(j),
{
    let mut k: usize = 0;
    while k < shown.len()
        invariant
            k <= shown.len(),
            forall|m: int| 0 <= m < k ==> shown@[m] != j,
        decreases shown.len() - k,
    {
        if shown[k] == j {
            assert(shown@[k as int] == j);
            return true;
        }
        k += 1;
    }
    false
}

/// The workspace to show next among `count`: the first after `active` that
/// no screen shows, else the first overall that no screen shows.
pub fn next_free_workspace(count: usize, active: usize, shown: &Vec<usize>) -> (r: Option<usize>)
    ensures
        r matches Some(i) ==> i < count && free(shown@, i),
        (exists|j: usize| active < j < count && free(shown@, j)) ==> (r matches Some(i) && active
            < i && forall|j: usize| active < j < i ==> !free(shown@, j)),
        !(exists|j: usize| active < j < count && free(shown@, j)) ==> {
            &&& (r matches Some(i) ==> forall|j: usize| j < i ==> !free(shown@, j))
            &&& (r is None <==> forall|j: usize| j < count ==> !free(shown@, j))
        },
{
    if active < count {
        let mut i: usize = active + 1;
        while i < count
            invariant
                active < i <= count,
                forall|j: usize| active < j < i ==> !free(shown@, j),
            decreases count - i,
        {
            if !is_shown(shown, i) {
                assert(free(shown@, i));
                return Some(i);
            }
            i += 1;
        }
    }
    let mut i: usize = 0;
    while i < count
        invariant
            i <= count,
            forall|j: usize| j < i ==> !free(shown@, j),
            !(exists|j: usize| active < j < count && free(shown@, j)),
        decreases count - i,
    {
        if !is_shown(shown, i) {
            assert(free(shown@, i));
            return Some(i);
        }
        i += 1;
    }
    None
}

/// The workspace to show before `active` among `count`: the nearest one
/// below it that no screen shows, else the last overall that no screen shows.
pub fn previous_free_workspace(count: usize, active: usize, shown: &Vec<usize>) -> (r: Option<usize>)
    ensures
        r matches Some(i) ==> i < count && free(shown@, i),
        (exists|j: usize| j < active && j < count && free(shown@, j)) ==> (r matches Some(i) && i
            < active && forall|j: usize| i < j < active && j < count ==> !free(shown@, j)),
        !(exists|j: usize| j < active && j < count && free(shown@, j)) ==> {
            &&& (r matches Some(i) ==> forall|j: usize| i < j < count ==> !free(shown@, j))
            &&& (r is None <==> forall|j: usize| j < count ==> !free(shown@, j))
        },
{
    let top = if active < count {
        active
    } else {
        count
    };
    let mut i: usize = top;
    while i > 0
        invariant
            i <= top,
            top <= active,
            top <= count,
            top == active || top == count,
            forall|j: usize| i <= j < top ==> !free(shown@, j),
        decreases i,
    {
        if !is_shown(shown, i - 1) {
            assert(free(shown@, (i - 1) as usize));
            return Some(i - 1);
        }
        i -= 1;
    }
    let mut i: usize = count;
    while i > 0
        invariant
            i <= count,
            forall|j: usize| i <= j < count ==> !free(shown@, j),
            !(exists|j: usize| j < active && j < count && free(shown@, j)),
        decreases i,
    {
        if !is_shown(shown, i - 1) {
            assert(free(shown@, (i - 1) as usize));
            return Some(i - 1);
        }
        i -= 1;
    }
    None
}

} // verus!
