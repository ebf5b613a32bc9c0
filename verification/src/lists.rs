//! Lists on the screen: which item is selected, and how the selection moves.

use vstd::prelude::*;

verus! {

/// The views of the items of a list.
pub open spec fn views<T: View>(s: Seq<T>) -> Seq<T::V> {
    s.map_values(|t: T| t@)
}

/// A list with two of its items exchanged.
pub open spec fn swapped<T>(s: Seq<T>, a: int, b: int) -> Seq<T> {
    s.update(a, s[b]).update(b, s[a])
}

/// `<[T]>::swap` exchanges two items, and panics where one of them is not there.
pub assume_specification<X>[ <[X]>::swap ](s: &mut [X], a: usize, b: usize)
    requires
        a < old(s)@.len(),
        b < old(s)@.len(),
    ensures
        final(s)@ == swapped(old(s)@, a as int, b as int),
;

/// The selection in a list, and the first item that the screen shows.
#[derive(Debug, Clone, Copy, PartialEq, Eq, Structural)]
pub struct ListState {
    pub offset: usize,
    pub selected: Option<usize>,
}

/// The state of a list where `index` is selected. Without a selection the list is shown
/// from its start.
pub open spec fn select(state: ListState, index: Option<usize>) -> ListState {
    ListState {
        offset: if index is None {
            0
        } else {
            state.offset
        },
        selected: index,
    }
}

/// The first item, where there is one.
pub open spec fn first(len: nat) -> Option<usize> {
    if len == 0 {
        None
    } else {
        Some(0)
    }
}

/// A number brought into `0..len`.
pub open spec fn clamp(i: int, len: nat) -> int {
    if i < 0 {
        0
    } else if i >= len {
        len - 1
    } else {
        i
    }
}

/// The selection moved by `delta`, and kept inside a list that is not empty.
pub open spec fn moved(selected: Option<usize>, delta: int, len: nat) -> Option<usize> {
    let current = match selected {
        Some(i) => i as int,
        None => 0,
    };
    Some(clamp(current + delta, len) as usize)
}

/// A selection brought into a list: none where it is empty, else the selected item, the
/// last one, or the first where there was none.
pub open spec fn in_range(selected: Option<usize>, len: nat) -> Option<usize> {
    if len == 0 {
        None
    } else {
        match selected {
            None => Some(0),
            Some(i) => if i >= len {
                Some((len - 1) as usize)
            } else {
                Some(i)
            },
        }
    }
}

/// Whether a selection, if there is one, is an item of a list of `len` items.
pub open spec fn is_place(selected: Option<usize>, len: nat) -> bool {
    selected matches Some(i) ==> i < len
}

/// The selection one item up.
pub open spec fn up(selected: Option<usize>) -> Option<usize> {
    match selected {
        Some(i) => if i > 0 {
            Some((i - 1) as usize)
        } else {
            Some(0)
        },
        None => Some(0),
    }
}

/// The last item, where there is one.
pub open spec fn last(len: nat) -> Option<usize> {
    if len == 0 {
        None
    } else {
        Some((len - 1) as usize)
    }
}

/// The first place from `from` on that holds a number; the length where none does.
pub open spec fn place_from(ids: Seq<i64>, id: i64, from: int) -> int
    decreases ids.len() - from,
{
    if from >= ids.len() || ids[from] == id {
        from
    } else {
        place_from(ids, id, from + 1)
    }
}

/// The first place that holds a number, if one does.
pub open spec fn place_of(ids: Seq<i64>, id: i64) -> Option<usize> {
    let i = place_from(ids, id, 0);
    if i < ids.len() {
        Some(i as usize)
    } else {
        None
    }
}

/// What came of an attempt: a list, or why there is none.
pub open spec fn fetched<T: View>(r: Result<Vec<T>, String>) -> Result<Seq<T::V>, Seq<char>> {
    match r {
        Ok(v) => Ok(views(v@)),
        Err(e) => Err(e@),
    }
}

/// What came of an attempt: a value, or why there is none.
pub open spec fn got<T: View>(r: Result<T, String>) -> Result<T::V, Seq<char>> {
    match r {
        Ok(v) => Ok(v@),
        Err(e) => Err(e@),
    }
}

/// What came of an attempt that gives nothing: why it failed, if it did.
pub open spec fn done(r: Result<(), String>) -> Result<(), Seq<char>> {
    match r {
        Ok(_) => Ok(()),
        Err(e) => Err(e@),
    }
}

impl ListState {
    /// No selection.
    pub fn new() -> (r: Self)
        ensures
            r == (ListState { offset: 0, selected: None }),
    {
        ListState { offset: 0, selected: None }
    }

    /// Selects an item, or none.
    pub fn select(&mut self, index: Option<usize>)
        ensures
            *final(self) == select(*old(self), index),
    {
        self.selected = index;
        if index.is_none() {
            self.offset = 0;
        }
    }
}

/// The first item, where there is one.
pub fn first_of(len: usize) -> (r: Option<usize>)
    ensures
        r == first(len as nat),
{
    if len == 0 {
        None
    } else {
        Some(0)
    }
}

/// The selection moved by `delta`, and kept inside the list.
pub fn move_by(selected: Option<usize>, delta: i32, len: usize) -> (r: Option<usize>)
    requires
        len > 0,
    ensures
        r == moved(selected, delta as int, len as nat),
{
    let current: usize = match selected {
        Some(i) => i,
        None => 0,
    };
    let wanted: usize = if delta >= 0 {
        let step: usize = delta as usize;
        if current >= len || step >= len - current {
            len - 1
        } else {
            current + step
        }
    } else {
        let step: usize = (-(delta + 1)) as usize + 1;
        if current < step {
            0
        } else {
            current - step
        }
    };
    if wanted >= len {
        Some(len - 1)
    } else {
        Some(wanted)
    }
}

/// The selection one item up.
pub fn move_up(selected: Option<usize>) -> (r: Option<usize>)
    ensures
        r == up(selected),
{
    match selected {
        Some(i) => if i > 0 {
            Some(i - 1)
        } else {
            Some(0)
        },
        None => Some(0),
    }
}

/// The last item, where there is one.
pub fn last_of(len: usize) -> (r: Option<usize>)
    ensures
        r == last(len as nat),
{
    if len == 0 {
        None
    } else {
        Some(len - 1)
    }
}

/// The first place that holds a number, if one does.
pub fn find(ids: &Vec<i64>, id: i64) -> (r: Option<usize>)
    ensures
        r == place_of(ids@, id),
        r matches Some(i) ==> i < ids@.len() && ids@[i as int] == id,
{
    for i in 0..ids.len()
        invariant
            place_from(ids@, id, 0) == place_from(ids@, id, i as int),
    {
        if ids[i] == id {
            return Some(i);
        }
    }
    None
}

/// A selection brought into a list of `len` items.
pub fn bring_in_range(selected: Option<usize>, len: usize) -> (r: Option<usize>)
    ensures
        r == in_range(selected, len as nat),
{
    if len == 0 {
        None
    } else {
        match selected {
            None => Some(0),
            Some(i) => if i >= len {
                Some(len - 1)
            } else {
                Some(i)
            },
        }
    }
}

} // verus!
