//! An ordered collection with a single focused position, plus the
//! direction and selector values used to drive it.

use crate::types::WinId;
use vstd::prelude::*;
use vstd::std_specs::iter::IteratorSpec;

verus! {

broadcast use vstd::std_specs::slice::axiom_spec_slice_iter;

/// A direction to permute a Ring.
#[derive(Debug, Copy, Clone, PartialEq, Eq, Structural)]
pub enum Direction {
    /// Increase the index, wrapping if needed.
    Forward,
    /// Decrease the index, wrapping if needed.
    Backward,
}

impl Direction {
    /// The opposite of this Direction.
    pub open spec fn spec_reverse(self) -> Direction {
        match self {
            Direction::Forward => Direction::Backward,
            Direction::Backward => Direction::Forward,
        }
    }

    /// Invert this Direction.
    pub fn reverse(&self) -> (d: Direction)
        ensures
            d == self.spec_reverse(),
    {
        match self {
            Direction::Forward => Direction::Backward,
            Direction::Backward => Direction::Forward,
        }
    }
}

/// Reversing a Direction twice yields the Direction itself: `reverse` is an
/// involution.
pub proof fn lemma_reverse_involutive(d: Direction)
    ensures
        d.spec_reverse().spec_reverse() == d,
{
}

/// Used with window manager helper functions to select an element from the
/// known workspaces or clients. The element type is fixed by the predicate
/// type `F` carried by the `Condition` variant.
pub enum Selector<F> {
    /// The focused element of the target collection.
    Focused,
    /// The element at this index.
    Index(usize),
    /// The element with/containing this client ID.
    WinId(WinId),
    /// The first element satisfying this condition.
    Condition(F),
}

/// The sequence `s` shifted one slot in `direction`, wrapping the boundary
/// element around. `Forward` carries the last element to the front;
/// `Backward` carries the first element to the back.
pub open spec fn spec_rotate<T>(s: Seq<T>, direction: Direction) -> Seq<T> {
    if s.len() == 0 {
        s
    } else {
        match direction {
            Direction::Forward => seq![s.last()] + s.drop_last(),
            Direction::Backward => s.subrange(1, s.len() as int).push(s[0]),
        }
    }
}

/// The index adjacent to `focused` in `direction`, wrapping modulo `len`.
/// Meaningful only for `0 <= focused < len`.
pub open spec fn spec_next_index(len: int, focused: int, direction: Direction) -> int {
    match direction {
        Direction::Forward => if focused == len - 1 {
            0
        } else {
            focused + 1
        },
        Direction::Backward => if focused == 0 {
            len - 1
        } else {
            focused - 1
        },
    }
}

/// The focused index after a removal left the ring `new_len` elements long:
/// decremented when it would otherwise point at or past the new end.
pub open spec fn spec_clamp_focus(focused: int, new_len: int) -> int {
    if focused > 0 && focused >= new_len {
        focused - 1
    } else {
        focused
    }
}

/// The sequence `s` after the element at index `focused` moved one logical
/// position in `direction`: a rotation when the move crosses the sequence
/// boundary, and a plain two-element exchange with the adjacent index
/// otherwise. Meaningful only for `0 <= focused < s.len()`.
pub open spec fn spec_drag<T>(s: Seq<T>, focused: int, direction: Direction) -> Seq<T> {
    if focused == 0 && direction is Backward {
        spec_rotate(s, direction)
    } else if focused == s.len() - 1 && direction is Forward {
        spec_rotate(s, direction)
    } else {
        let n = spec_next_index(s.len() as int, focused, direction);
        s.update(focused, s[n]).update(n, s[focused])
    }
}

/// A collection that has both an order for its elements and a focused
/// element at some index.
///
/// Supports rotating the position of the elements and rotating which
/// element is focused independently of one another.
#[derive(Debug)]
pub struct Ring<T> {
    elements: Vec<T>,
    focused: usize,
}

impl<T> View for Ring<T> {
    type V = Seq<T>;

    closed spec fn view(&self) -> Seq<T> {
        self.elements@
    }
}

impl<T> Ring<T> {
    /// The focused index, as a mathematical integer.
    pub closed spec fn spec_focused_index(&self) -> int {
        self.focused as int
    }

    /// The ring's invariant: the focused index addresses an element whenever
    /// the ring is non-empty, and rests at zero when it is empty. Every
    /// constructor establishes this and every operation preserves it.
    pub open spec fn wf(&self) -> bool {
        &&& self@.len() == 0 ==> self.spec_focused_index() == 0
        &&& self@.len() > 0 ==> self.spec_focused_index() < self@.len()
    }

    /// Create a new Ring holding `elements`, focused on position 0.
    pub fn new(elements: Vec<T>) -> (r: Ring<T>)
        ensures
            r@ == elements@,
            r.spec_focused_index() == 0,
            r.wf(),
    {
        Ring { elements, focused: 0 }
    }

    /// True iff moving the focus one step in `direction` would cross the
    /// sequence boundary. False on an empty ring.
    pub open spec fn spec_would_wrap(&self, direction: Direction) -> bool {
        self@.len() > 0 && ((self.spec_focused_index() == 0 && direction is Backward) || (
        self.spec_focused_index() == self@.len() - 1 && direction is Forward))
    }

    /// Whether moving the focus one step in `direction` would wrap around
    /// the end of the ring. Pure query: no state is changed.
    pub fn would_wrap(&self, direction: Direction) -> (b: bool)
        ensures
            b == self.spec_would_wrap(direction),
    {
        if self.elements.len() == 0 {
            return false;
        }
        let wrap_back = self.focused == 0 && direction == Direction::Backward;
        let wrap_forward = self.focused == self.elements.len() - 1 && direction
            == Direction::Forward;

        wrap_back || wrap_forward
    }

    /// The raw focused index, for diagnostics and testing.
    pub fn focused_index(&self) -> (i: usize)
        ensures
            i == self.spec_focused_index(),
    {
        self.focused
    }

    /// The focused element, or nothing if the ring is empty. Does not
    /// change the focused index.
    pub fn focused(&self) -> (r: Option<&T>)
        ensures
            match r {
                Some(e) => self.spec_focused_index() < self@.len() && *e == self@[self.spec_focused_index()],
                None => self.spec_focused_index() >= self@.len(),
            },
    {
        if self.focused < self.elements.len() {
            Some(&self.elements[self.focused])
        } else {
            None
        }
    }

    /// Mutable access to the focused element, or nothing if the ring is
    /// empty. Does not change the focused index.
    pub fn focused_mut(&mut self) -> (r: Option<&mut T>)
        ensures
            final(self).spec_focused_index() == old(self).spec_focused_index(),
            old(self).spec_focused_index() < old(self)@.len() ==> r.is_some()
                && *r.unwrap() == old(self)@[old(self).spec_focused_index()]
                && final(self)@ == old(self)@.update(
                old(self).spec_focused_index(),
                *final(r.unwrap()),
            ),
            old(self).spec_focused_index() >= old(self)@.len() ==> r.is_none() && *final(self)
                == *old(self),
            old(self).wf() ==> final(self).wf(),
    {
        if self.focused < self.elements.len() {
            Some(&mut self.elements[self.focused])
        } else {
            None
        }
    }

    /// The number of elements in the ring.
    pub fn len(&self) -> (n: usize)
        ensures
            n == self@.len(),
    {
        self.elements.len()
    }

    /// Permute the entire sequence one position in `direction`, leaving the
    /// focused index untouched: rotation changes which element occupies the
    /// focused slot, not the slot itself. No-op on an empty ring.
    pub fn rotate(&mut self, direction: Direction)
        ensures
            final(self)@ == spec_rotate(old(self)@, direction),
            final(self).spec_focused_index() == old(self).spec_focused_index(),
            old(self).wf() ==> final(self).wf(),
    {
        let n = self.elements.len();
        if n == 0 {
            return ;
        }
        match direction {
            Direction::Forward => {
                let x = self.elements.remove(n - 1);
                self.elements.insert(0, x);
            },
            Direction::Backward => {
                let x = self.elements.remove(0);
                self.elements.push(x);
            },
        }
        proof {
            assert(self.elements@ =~= spec_rotate(old(self)@, direction));
        }
    }

    /// The index adjacent to the focused index in `direction`, wrapping at
    /// the ends of the ring.
    fn next_index(&self, direction: Direction) -> (i: usize)
        requires
            self.wf(),
            self@.len() > 0,
        ensures
            i == spec_next_index(self@.len() as int, self.spec_focused_index(), direction),
            i < self@.len(),
    {
        let max = self.elements.len() - 1;
        match direction {
            Direction::Forward => {
                if self.focused == max {
                    0
                } else {
                    self.focused + 1
                }
            },
            Direction::Backward => {
                if self.focused == 0 {
                    max
                } else {
                    self.focused - 1
                }
            },
        }
    }

    /// Move the focused index to the adjacent position in `direction`,
    /// wrapping at the ends. The order of the elements is untouched. Returns
    /// the newly focused element, or nothing if the ring is empty.
    pub fn cycle_focus(&mut self, direction: Direction) -> (r: Option<&T>)
        requires
            old(self).wf(),
        ensures
            final(self)@ == old(self)@,
            final(self).wf(),
            old(self)@.len() == 0 ==> final(self).spec_focused_index() == old(self).spec_focused_index()
                && r is None,
            old(self)@.len() > 0 ==> {
                &&& final(self).spec_focused_index() == spec_next_index(
                    old(self)@.len() as int,
                    old(self).spec_focused_index(),
                    direction,
                )
                &&& match r {
                    Some(e) => *e == final(self)@[final(self).spec_focused_index()],
                    None => false,
                }
            },
    {
        if self.elements.len() == 0 {
            return None;
        }
        self.focused = self.next_index(direction);
        self.focused()
    }

    /// Move the currently focused element one logical position in
    /// `direction`, keeping the focus attached to that element rather than
    /// to its slot: a rotation when the move crosses the sequence boundary,
    /// a swap with the adjacent element otherwise. Returns the moved
    /// element, or nothing if the ring is empty.
    pub fn drag_focused(&mut self, direction: Direction) -> (r: Option<&T>)
        requires
            old(self).wf(),
        ensures
            final(self).wf(),
            old(self)@.len() == 0 ==> final(self)@ == old(self)@
                && final(self).spec_focused_index() == old(self).spec_focused_index()
                && r is None,
            old(self)@.len() > 0 ==> ({
                let f = old(self).spec_focused_index();
                let n = spec_next_index(old(self)@.len() as int, f, direction);
                &&& final(self)@ == spec_drag(old(self)@, f, direction)
                &&& final(self).spec_focused_index() == n
                &&& final(self)@[n] == old(self)@[f]
                &&& match r {
                    Some(e) => *e == old(self)@[f],
                    None => false,
                }
            }),
    {
        if self.elements.len() == 0 {
            return None;
        }
        let focused = self.focused;
        let next = self.next_index(direction);
        if focused == 0 && direction == Direction::Backward {
            self.rotate(direction);
        } else if next == 0 && direction == Direction::Forward {
            self.rotate(direction);
        } else {
            let lo = if focused < next {
                focused
            } else {
                next
            };
            let x = self.elements.remove(lo);
            self.elements.insert(lo + 1, x);
            proof {
                assert(self.elements@ =~= spec_drag(
                    old(self)@,
                    old(self).spec_focused_index(),
                    direction,
                ));
            }
        }
        self.cycle_focus(direction)
    }

    /// An iterator over the ring's elements in ring order.
    pub fn iter(&self) -> (it: std::slice::Iter<'_, T>)
        ensures
            it.remaining() == self@.as_ref(),
    {
        self.elements.as_slice().iter()
    }

    /// Insert `element` at absolute position `index`, shifting subsequent
    /// elements back by one. The focused index is not adjusted, so an
    /// insertion at or before it silently changes which element is focused.
    pub fn insert(&mut self, index: usize, element: T)
        requires
            index <= old(self)@.len(),
        ensures
            final(self)@ == old(self)@.insert(index as int, element),
            final(self).spec_focused_index() == old(self).spec_focused_index(),
            old(self).wf() ==> final(self).wf(),
    {
        self.elements.insert(index, element);
    }

    /// Decrement the focused index when a removal has left it pointing at or
    /// past the new end of the sequence.
    fn clamp_focus(&mut self)
        ensures
            final(self)@ == old(self)@,
            final(self).spec_focused_index() == spec_clamp_focus(
                old(self).spec_focused_index(),
                old(self)@.len() as int,
            ),
    {
        if self.focused > 0 && self.focused >= self.elements.len() {
            self.focused = self.focused - 1;
        }
    }

    /// The first element (in ring order) satisfying `cond`, with its index.
    fn element_by<F: Fn(&T) -> bool>(&self, cond: F) -> (r: Option<(usize, &T)>)
        requires
            forall|k: int| 0 <= k < self@.len() ==> call_requires(cond, (&self@[k],)),
        ensures
            match r {
                Some((i, e)) => {
                    &&& i < self@.len()
                    &&& *e == self@[i as int]
                    &&& call_ensures(cond, (&self@[i as int],), true)
                    &&& forall|j: int| 0 <= j < i ==> call_ensures(cond, (&self@[j],), false)
                },
                None => forall|j: int|
                    0 <= j < self@.len() ==> call_ensures(cond, (&self@[j],), false),
            },
    {
        let mut i: usize = 0;
        while i < self.elements.len()
            invariant
                i <= self@.len(),
                forall|k: int| 0 <= k < self@.len() ==> call_requires(cond, (&self@[k],)),
                forall|j: int| 0 <= j < i ==> call_ensures(cond, (&self@[j],), false),
            decreases self@.len() - i,
        {
            if cond(&self.elements[i]) {
                return Some((i, &self.elements[i]));
            }
            i = i + 1;
        }
        None
    }

    /// Look an element up per `s` without changing any state. `WinId`
    /// selectors are not interpreted by the generic ring and never match.
    pub fn element<F: Fn(&T) -> bool>(&self, s: Selector<F>) -> (r: Option<&T>)
        requires
            s matches Selector::Condition(f) ==> forall|k: int|
                0 <= k < self@.len() ==> call_requires(f, (&self@[k],)),
        ensures
            match s {
                Selector::WinId(_) => r is None,
                Selector::Focused => match r {
                    Some(e) => self.spec_focused_index() < self@.len() && *e == self@[self.spec_focused_index()],
                    None => self.spec_focused_index() >= self@.len(),
                },
                Selector::Index(i) => match r {
                    Some(e) => i < self@.len() && *e == self@[i as int],
                    None => i >= self@.len(),
                },
                Selector::Condition(f) => match r {
                    Some(e) => exists|i: int|
                        {
                            &&& 0 <= i < self@.len()
                            &&& *e == self@[i]
                            &&& call_ensures(f, (&self@[i],), true)
                            &&& forall|j: int| 0 <= j < i ==> call_ensures(f, (&self@[j],), false)
                        },
                    None => forall|j: int|
                        0 <= j < self@.len() ==> call_ensures(f, (&self@[j],), false),
                },
            },
    {
        match s {
            Selector::WinId(_) => None,
            Selector::Focused => self.focused(),
            Selector::Index(i) => {
                if i < self.elements.len() {
                    Some(&self.elements[i])
                } else {
                    None
                }
            },
            Selector::Condition(f) => {
                match self.element_by(f) {
                    Some((_, e)) => Some(e),
                    None => None,
                }
            },
        }
    }

    /// Mutable lookup of an element per `s`; neither the element order nor
    /// the focused index is changed. `WinId` selectors never match.
    pub fn element_mut<F: Fn(&T) -> bool>(&mut self, s: Selector<F>) -> (r: Option<&mut T>)
        requires
            s matches Selector::Condition(f) ==> forall|k: int|
                0 <= k < old(self)@.len() ==> call_requires(f, (&old(self)@[k],)),
        ensures
            final(self).spec_focused_index() == old(self).spec_focused_index(),
            old(self).wf() ==> final(self).wf(),
            match s {
                Selector::WinId(_) => r.is_none() && *final(self) == *old(self),
                Selector::Focused => if old(self).spec_focused_index() < old(self)@.len() {
                    r.is_some() && *r.unwrap() == old(self)@[old(self).spec_focused_index()]
                        && final(self)@ == old(self)@.update(
                        old(self).spec_focused_index(),
                        *final(r.unwrap()),
                    )
                } else {
                    r.is_none() && *final(self) == *old(self)
                },
                Selector::Index(i) => if i < old(self)@.len() {
                    r.is_some() && *r.unwrap() == old(self)@[i as int]
                        && final(self)@ == old(self)@.update(i as int, *final(r.unwrap()))
                } else {
                    r.is_none() && *final(self) == *old(self)
                },
                Selector::Condition(f) => if r.is_some() {
                    exists|i: int|
                        {
                            &&& 0 <= i < old(self)@.len()
                            &&& *r.unwrap() == old(self)@[i]
                            &&& call_ensures(f, (&old(self)@[i],), true)
                            &&& forall|j: int|
                                0 <= j < i ==> call_ensures(f, (&old(self)@[j],), false)
                            &&& final(self)@ == old(self)@.update(i, *final(r.unwrap()))
                        }
                } else {
                    *final(self) == *old(self) && forall|j: int|
                        0 <= j < old(self)@.len() ==> call_ensures(f, (&old(self)@[j],), false)
                },
            },
    {
        match s {
            Selector::WinId(_) => None,
            Selector::Focused => self.focused_mut(),
            Selector::Index(i) => {
                if i < self.elements.len() {
                    Some(&mut self.elements[i])
                } else {
                    None
                }
            },
            Selector::Condition(f) => {
                let found = match self.element_by(f) {
                    Some((i, _)) => Some(i),
                    None => None,
                };
                match found {
                    Some(i) => Some(&mut self.elements[i]),
                    None => None,
                }
            },
        }
    }

    /// Find the element per `s` and, on a match, set the focused index to
    /// its position and return it. On no match the focused index is
    /// unchanged and nothing is returned. The element order is untouched.
    pub fn focus<F: Fn(&T) -> bool>(&mut self, s: Selector<F>) -> (r: Option<&T>)
        requires
            old(self).wf(),
            s matches Selector::Condition(f) ==> forall|k: int|
                0 <= k < old(self)@.len() ==> call_requires(f, (&old(self)@[k],)),
        ensures
            final(self)@ == old(self)@,
            final(self).wf(),
            match s {
                Selector::WinId(_) => r is None && final(self).spec_focused_index() == old(self).spec_focused_index(),
                Selector::Focused => final(self).spec_focused_index() == old(self).spec_focused_index()
                    && (match r {
                    Some(e) => old(self)@.len() > 0 && *e == old(self)@[old(self).spec_focused_index()],
                    None => old(self)@.len() == 0,
                }),
                Selector::Index(i) => if i < old(self)@.len() {
                    final(self).spec_focused_index() == i && (match r {
                        Some(e) => *e == old(self)@[i as int],
                        None => false,
                    })
                } else {
                    final(self).spec_focused_index() == old(self).spec_focused_index() && r is None
                },
                Selector::Condition(f) => match r {
                    Some(e) => exists|i: int|
                        {
                            &&& 0 <= i < old(self)@.len()
                            &&& final(self).spec_focused_index() == i
                            &&& *e == old(self)@[i]
                            &&& call_ensures(f, (&old(self)@[i],), true)
                            &&& forall|j: int|
                                0 <= j < i ==> call_ensures(f, (&old(self)@[j],), false)
                        },
                    None => final(self).spec_focused_index() == old(self).spec_focused_index()
                        && forall|j: int|
                        0 <= j < old(self)@.len() ==> call_ensures(f, (&old(self)@[j],), false),
                },
            },
    {
        match s {
            Selector::WinId(_) => None,
            Selector::Focused => self.focused(),
            Selector::Index(i) => {
                if i < self.elements.len() {
                    self.focused = i;
                    self.focused()
                } else {
                    None
                }
            },
            Selector::Condition(f) => {
                let found = match self.element_by(f) {
                    Some((i, _)) => Some(i),
                    None => None,
                };
                match found {
                    Some(i) => {
                        self.focused = i;
                        self.focused()
                    },
                    None => None,
                }
            },
        }
    }

    /// Whether this ring is `before` with the element at index `i` removed:
    /// the sequence loses that element and the focused index is clamped so
    /// that it stays within the shorter sequence.
    pub open spec fn spec_removed_from(&self, before: Ring<T>, i: int) -> bool {
        &&& self@ == before@.remove(i)
        &&& self.spec_focused_index() == spec_clamp_focus(
            before.spec_focused_index(),
            before@.len() - 1,
        )
    }

    /// Locate the target element per `s`, remove it from the sequence and
    /// return ownership of it; the focused index is then clamped so that it
    /// stays valid (or the ring is empty). On no match nothing is removed
    /// and the focused index is unchanged.
    pub fn remove<F: Fn(&T) -> bool>(&mut self, s: Selector<F>) -> (r: Option<T>)
        requires
            old(self).wf(),
            s matches Selector::Condition(f) ==> forall|k: int|
                0 <= k < old(self)@.len() ==> call_requires(f, (&old(self)@[k],)),
        ensures
            final(self).wf(),
            match s {
                Selector::WinId(_) => r is None && *final(self) == *old(self),
                Selector::Focused => if old(self)@.len() > 0 {
                    r == Some(old(self)@[old(self).spec_focused_index()])
                        && final(self).spec_removed_from(*old(self), old(self).spec_focused_index())
                } else {
                    r is None && *final(self) == *old(self)
                },
                Selector::Index(i) => if i < old(self)@.len() {
                    r == Some(old(self)@[i as int]) && final(self).spec_removed_from(
                        *old(self),
                        i as int,
                    )
                } else {
                    r is None && *final(self) == *old(self)
                },
                Selector::Condition(f) => match r {
                    Some(x) => exists|i: int|
                        {
                            &&& 0 <= i < old(self)@.len()
                            &&& x == old(self)@[i]
                            &&& call_ensures(f, (&old(self)@[i],), true)
                            &&& forall|j: int|
                                0 <= j < i ==> call_ensures(f, (&old(self)@[j],), false)
                            &&& final(self).spec_removed_from(*old(self), i)
                        },
                    None => *final(self) == *old(self) && forall|j: int|
                        0 <= j < old(self)@.len() ==> call_ensures(f, (&old(self)@[j],), false),
                },
            },
    {
        match s {
            Selector::WinId(_) => None,
            Selector::Focused => {
                if self.focused < self.elements.len() {
                    let c = self.elements.remove(self.focused);
                    self.clamp_focus();
                    Some(c)
                } else {
                    None
                }
            },
            Selector::Index(i) => {
                if i < self.elements.len() {
                    let c = self.elements.remove(i);
                    self.clamp_focus();
                    Some(c)
                } else {
                    None
                }
            },
            Selector::Condition(f) => {
                let found = match self.element_by(f) {
                    Some((i, _)) => Some(i),
                    None => None,
                };
                match found {
                    Some(i) => {
                        let c = self.elements.remove(i);
                        self.clamp_focus();
                        Some(c)
                    },
                    None => None,
                }
            },
        }
    }
}

impl<T: Clone> Ring<T> {
    /// The elements of the ring, cloned, in ring order.
    pub fn as_vec(&self) -> (v: Vec<T>)
        ensures
            v@.len() == self@.len(),
            forall|i: int|
                #![all_triggers]
                0 <= i < self@.len() ==> vstd::pervasive::cloned::<T>(self@[i], v@[i]),
    {
        self.elements.clone()
    }
}

/// Rotating a sequence one step in a direction and then one step in the
/// reversed direction restores the original sequence; together with the
/// fact that `rotate` never changes the focused index, a rotation followed
/// by its reverse restores a ring exactly.
pub proof fn lemma_rotate_round_trip<T>(s: Seq<T>, direction: Direction)
    ensures
        spec_rotate(spec_rotate(s, direction), direction.spec_reverse()) == s,
{
    assert(spec_rotate(spec_rotate(s, direction), direction.spec_reverse()) =~= s);
}

} // verus!
