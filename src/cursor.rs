//! Wrap-around selection over a list of known length.
use vstd::prelude::*;

verus! {

/// The successor of a selection in a list of `len` items.
pub open spec fn next_spec(current: Option<usize>, len: nat) -> Option<usize> {
    if len == 0 {
        None
    } else {
        match current {
            None => Some(0usize),
            Some(i) => Some(((i + 1) % (len as int)) as usize),
        }
    }
}

/// The predecessor of a selection in a list of `len` items.
pub open spec fn previous_spec(current: Option<usize>, len: nat) -> Option<usize> {
    if len == 0 {
        None
    } else {
        match current {
            None => Some(0usize),
            Some(i) => Some(((i - 1 + len) % (len as int)) as usize),
        }
    }
}

/// `next_spec` applied `k` times.
pub open spec fn next_iter(current: Option<usize>, len: nat, k: nat) -> Option<usize>
    decreases k,
{
    if k == 0 {
        current
    } else {
        next_iter(next_spec(current, len), len, (k - 1) as nat)
    }
}

/// A selection is in range: nothing is selected in an empty list, and a
/// selected index is below the length.
pub open spec fn in_range(current: Option<usize>, len: nat) -> bool {
    match current {
        None => true,
        Some(i) => i < len,
    }
}

proof fn lemma_mod_step_up(i: int, len: int)
    requires
        i >= 0,
        len > 0,
    ensures
        (i + 1) % len == (if i % len + 1 == len { 0 } else { i % len + 1 }),
        0 <= i % len < len,
{
    vstd::arithmetic::div_mod::lemma_add_mod_noop(i, 1, len);
    vstd::arithmetic::div_mod::lemma_mod_bound(i, len);
    if len == 1 {
        vstd::arithmetic::div_mod::lemma_mod_self_0(1);
        assert(1int % 1 == 0);
        assert((i % len + 1int % len) % len == 0);
    } else {
        vstd::arithmetic::div_mod::lemma_small_mod(1, len as nat);
        if i % len + 1 == len {
            vstd::arithmetic::div_mod::lemma_mod_self_0(len);
        } else {
            vstd::arithmetic::div_mod::lemma_small_mod((i % len + 1) as nat, len as nat);
        }
    }
}

proof fn lemma_mod_step_down(i: int, len: int)
    requires
        i >= 0,
        len > 0,
    ensures
        (i - 1 + len) % len == (if i % len == 0 { len - 1 } else { i % len - 1 }),
        0 <= i % len < len,
{
    vstd::arithmetic::div_mod::lemma_add_mod_noop(i, len - 1, len);
    vstd::arithmetic::div_mod::lemma_mod_bound(i, len);
    vstd::arithmetic::div_mod::lemma_small_mod((len - 1) as nat, len as nat);
    if i % len == 0 {
        vstd::arithmetic::div_mod::lemma_small_mod((len - 1) as nat, len as nat);
    } else {
        vstd::arithmetic::div_mod::lemma_mod_add_multiples_vanish(i % len - 1, len);
        vstd::arithmetic::div_mod::lemma_small_mod((i % len - 1) as nat, len as nat);
    }
}

/// The selection of a list on screen: the selected item, if any, and the
/// first item in view.
#[derive(Clone, Copy, Debug, PartialEq, Eq, Structural)]
pub struct ListCursor {
    pub selected: Option<usize>,
    pub offset: usize,
}

impl ListCursor {
    /// Nothing selected, the view at the top.
    pub fn new() -> (r: ListCursor)
        ensures
            r.selected is None,
            r.offset == 0,
    {
        ListCursor { selected: None, offset: 0 }
    }

    /// Moves the selection forward in a list of `len` items.
    pub fn select_next(&mut self, len: usize)
        ensures
            final(self).selected == next_spec(old(self).selected, len as nat),
            final(self).offset == old(self).offset,
    {
        self.selected = next(self.selected, len);
    }

    /// Moves the selection back in a list of `len` items.
    pub fn select_previous(&mut self, len: usize)
        ensures
            final(self).selected == previous_spec(old(self).selected, len as nat),
            final(self).offset == old(self).offset,
    {
        self.selected = previous(self.selected, len);
    }

    /// Drops the selection and keeps the view where it is.
    pub fn unselect(&mut self)
        ensures
            final(self).selected is None,
            final(self).offset == old(self).offset,
    {
        self.selected = None;
    }
}

/// Selects the item after `current`, wrapping from the last item to the first.
pub fn next(current: Option<usize>, len: usize) -> (r: Option<usize>)
    ensures
        r == next_spec(current, len as nat),
        len == 0 ==> r is None,
        len > 0 ==> r is Some && r.unwrap() < len,
{
    if len == 0 {
        return None;
    }
    match current {
        None => Some(0),
        Some(i) => {
            proof {
                lemma_mod_step_up(i as int, len as int);
            }
            let j = i % len;
            if j + 1 == len {
                Some(0)
            } else {
                Some(j + 1)
            }
        },
    }
}

/// Selects the item before `current`, wrapping from the first item to the last.
pub fn previous(current: Option<usize>, len: usize) -> (r: Option<usize>)
    ensures
        r == previous_spec(current, len as nat),
        len == 0 ==> r is None,
        len > 0 ==> r is Some && r.unwrap() < len,
{
    if len == 0 {
        return None;
    }
    match current {
        None => Some(0),
        Some(i) => {
            proof {
                lemma_mod_step_down(i as int, len as int);
            }
            let j = i % len;
            if j == 0 {
                Some(len - 1)
            } else {
                Some(j - 1)
            }
        },
    }
}

proof fn lemma_next_iter_from(i: usize, len: nat, k: nat)
    requires
        i < len <= usize::MAX,
    ensures
        next_iter(Some(i), len, k) == Some(((i + k) % (len as int)) as usize),
    decreases k,
{
    vstd::arithmetic::div_mod::lemma_small_mod(i as nat, len);
    if k > 0 {
        lemma_mod_step_up(i as int, len as int);
        let j = ((i + 1) % (len as int)) as usize;
        lemma_next_iter_from(j, len, (k - 1) as nat);
        vstd::arithmetic::div_mod::lemma_add_mod_noop(i + 1, k - 1, len as int);
        vstd::arithmetic::div_mod::lemma_mod_twice(k - 1, len as int);
        vstd::arithmetic::div_mod::lemma_add_mod_noop(j as int, k - 1, len as int);
    } else {
        vstd::arithmetic::div_mod::lemma_small_mod(i as nat, len);
    }
}

/// In a list of `len` items, taking `next` `len` times from any selected item
/// comes back to that item; from no selection, taking it `len + 1` times comes
/// back to the first item that `next` selects.
pub proof fn lemma_next_cycles(len: nat, i: usize)
    requires
        0 < len <= usize::MAX,
        i < len,
    ensures
        next_iter(Some(i), len, len) == Some(i),
        next_iter(None, len, len + 1) == next_spec(None, len),
{
    lemma_next_iter_from(i, len, len);
    vstd::arithmetic::div_mod::lemma_mod_add_multiples_vanish(i as int, len as int);
    vstd::arithmetic::div_mod::lemma_small_mod(i as nat, len);
    lemma_next_iter_from(0, len, len);
    vstd::arithmetic::div_mod::lemma_mod_self_0(len as int);
    assert(next_iter(None, len, len + 1) == next_iter(Some(0usize), len, len));
}

/// `previous` undoes `next`, and `next` undoes `previous`, on every selected
/// item of a non-empty list.
pub proof fn lemma_previous_inverts_next(len: nat, i: usize)
    requires
        0 < len <= usize::MAX,
        i < len,
    ensures
        previous_spec(next_spec(Some(i), len), len) == Some(i),
        next_spec(previous_spec(Some(i), len), len) == Some(i),
{
    vstd::arithmetic::div_mod::lemma_small_mod(i as nat, len);
    lemma_mod_step_up(i as int, len as int);
    lemma_mod_step_down(i as int, len as int);
    let n = ((i + 1) % (len as int)) as usize;
    let p = ((i - 1 + len) % (len as int)) as usize;
    lemma_mod_step_down(n as int, len as int);
    lemma_mod_step_up(p as int, len as int);
    vstd::arithmetic::div_mod::lemma_small_mod(n as nat, len);
    vstd::arithmetic::div_mod::lemma_small_mod(p as nat, len);
}

/// In an empty list nothing is ever selected, whatever the current selection.
pub proof fn lemma_empty_list_selects_nothing(current: Option<usize>)
    ensures
        next_spec(current, 0) is None,
        previous_spec(current, 0) is None,
{
}

} // verus!
