//! A list of items with a single cursor that moves round it.
//!
//! The cursor of a list with items always points at one of them; stepping past
//! either end carries on at the other. A list without items has no cursor.

use vstd::prelude::*;

verus! {

/// One movement of the cursor.
pub enum Step {
    Next,
    Previous,
}

/// A list as its users see it: the items in order, and the index under the
/// cursor.
pub struct ListModel<T> {
    pub items: Seq<T>,
    pub cursor: Option<nat>,
}

impl<T> ListModel<T> {
    /// The cursor points at an item, or the list has neither items nor cursor.
    pub open spec fn wf(self) -> bool {
        match self.cursor {
            Some(i) => i < self.items.len(),
            None => self.items.len() == 0,
        }
    }

    /// The list after the cursor moved one item on, from the last to the first.
    pub open spec fn next(self) -> Self {
        match self.cursor {
            Some(i) if self.items.len() > 0 => ListModel {
                items: self.items,
                cursor: Some(((i as int + 1) % (self.items.len() as int)) as nat),
            },
            _ => self,
        }
    }

    /// The list after the cursor moved one item back, from the first to the
    /// last.
    pub open spec fn previous(self) -> Self {
        match self.cursor {
            Some(i) if self.items.len() > 0 => ListModel {
                items: self.items,
                cursor: Some(
                    ((i as int - 1 + self.items.len() as int) % (self.items.len() as int)) as nat,
                ),
            },
            _ => self,
        }
    }

    /// The list after one movement.
    pub open spec fn step(self, step: Step) -> Self {
        match step {
            Step::Next => self.next(),
            Step::Previous => self.previous(),
        }
    }

    /// The list after the movements of `steps`, first to last.
    pub open spec fn run(self, steps: Seq<Step>) -> Self
        decreases steps.len(),
    {
        if steps.len() == 0 {
            self
        } else {
            self.run(steps.drop_last()).step(steps.last())
        }
    }

    /// The list after `n` movements forward.
    pub open spec fn next_n(self, n: nat) -> Self
        decreases n,
    {
        if n == 0 {
            self
        } else {
            self.next_n((n - 1) as nat).next()
        }
    }
}

impl<T> ListModel<T> {
    /// A movement keeps the items, and keeps the cursor on one of them.
    pub proof fn lemma_step_keeps_wf(self, step: Step)
        requires
            self.wf(),
        ensures
            self.step(step).wf(),
            self.step(step).items == self.items,
    {
        let len = self.items.len() as int;
        if let Some(i) = self.cursor {
            vstd::arithmetic::div_mod::lemma_mod_bound(i as int + 1, len);
            vstd::arithmetic::div_mod::lemma_mod_bound(i as int - 1 + len, len);
        }
    }

    /// Whatever movements are made on a list with items, the items stay and
    /// the cursor stays on one of them.
    pub proof fn lemma_cursor_stays_in_range(self, steps: Seq<Step>)
        requires
            self.wf(),
            self.items.len() >= 1,
        ensures
            self.run(steps).items == self.items,
            self.run(steps).cursor is Some,
            0 <= self.run(steps).cursor.unwrap() < self.items.len(),
        decreases steps.len(),
    {
        if steps.len() > 0 {
            self.lemma_cursor_stays_in_range(steps.drop_last());
            self.run(steps.drop_last()).lemma_step_keeps_wf(steps.last());
        }
    }

    /// Whatever movements are made on a list without items, it stays without
    /// a cursor.
    pub proof fn lemma_empty_list_stays_unselected(self, steps: Seq<Step>)
        requires
            self.wf(),
            self.items.len() == 0,
        ensures
            self.run(steps) == self,
            self.run(steps).cursor is None,
        decreases steps.len(),
    {
        if steps.len() > 0 {
            self.lemma_empty_list_stays_unselected(steps.drop_last());
        }
    }

    /// Moving forward from the last item arrives at the first.
    pub proof fn lemma_next_from_last_is_first(self)
        requires
            self.wf(),
            self.items.len() >= 1,
            self.cursor == Some((self.items.len() - 1) as nat),
        ensures
            self.next().cursor == Some(0nat),
    {
        vstd::arithmetic::div_mod::lemma_mod_self_0(self.items.len() as int);
    }

    /// Moving back from the first item arrives at the last.
    pub proof fn lemma_previous_from_first_is_last(self)
        requires
            self.wf(),
            self.items.len() >= 1,
            self.cursor == Some(0nat),
        ensures
            self.previous().cursor == Some((self.items.len() - 1) as nat),
    {
        vstd::arithmetic::div_mod::lemma_small_mod(
            (self.items.len() - 1) as nat,
            self.items.len(),
        );
    }

    /// Where the cursor is after `n` movements forward.
    proof fn lemma_next_n_cursor(self, n: nat)
        requires
            self.wf(),
            self.items.len() >= 1,
        ensures
            self.next_n(n).items == self.items,
            self.next_n(n).cursor == Some(
                ((self.cursor.unwrap() as int + n as int) % (self.items.len() as int)) as nat,
            ),
        decreases n,
    {
        let len = self.items.len() as int;
        let start = self.cursor.unwrap() as int;
        if n == 0 {
            vstd::arithmetic::div_mod::lemma_small_mod(start as nat, len as nat);
        } else {
            self.lemma_next_n_cursor((n - 1) as nat);
            vstd::arithmetic::div_mod::lemma_mod_bound(start + n - 1, len);
            vstd::arithmetic::div_mod::lemma_add_mod_noop_right(1, start + n - 1, len);
        }
    }

    /// As many movements forward as the list has items bring the cursor back
    /// to where it was.
    pub proof fn lemma_full_round_returns(self)
        requires
            self.wf(),
            self.items.len() >= 1,
        ensures
            self.next_n(self.items.len()) == self,
    {
        let len = self.items.len();
        let start = self.cursor.unwrap();
        self.lemma_next_n_cursor(len);
        vstd::arithmetic::div_mod::lemma_mod_add_multiples_vanish(start as int, len as int);
        vstd::arithmetic::div_mod::lemma_small_mod(start, len);
    }
}

/// An ordered collection of items with one cursor.
pub struct SelectableList<T> {
    items: Vec<T>,
    cursor: Option<usize>,
}

impl<T> View for SelectableList<T> {
    type V = ListModel<T>;

    closed spec fn view(&self) -> ListModel<T> {
        ListModel {
            items: self.items@,
            cursor: match self.cursor {
                Some(i) => Some(i as nat),
                None => None,
            },
        }
    }
}

impl<T> SelectableList<T> {
    #[verifier::type_invariant]
    spec fn inv(&self) -> bool {
        self@.wf()
    }

    /// A list of `items` with the cursor on the first of them, if there is one.
    pub fn new(items: Vec<T>) -> (list: Self)
        ensures
            list@.items == items@,
            list@.cursor == (if items@.len() == 0 { None::<nat> } else { Some(0nat) }),
            list@.wf(),
    {
        let cursor = if items.len() == 0 { None } else { Some(0) };
        SelectableList { items, cursor }
    }

    /// The number of items.
    pub fn len(&self) -> (n: usize)
        ensures
            n == self@.items.len(),
    {
        self.items.len()
    }

    /// Whether the list has no items.
    pub fn is_empty(&self) -> (empty: bool)
        ensures
            empty == (self@.items.len() == 0),
    {
        self.items.len() == 0
    }

    /// The items in order.
    pub fn items(&self) -> (items: &Vec<T>)
        ensures
            items@ == self@.items,
    {
        &self.items
    }

    /// The index under the cursor: none if and only if the list is empty, and
    /// otherwise the index of an item.
    pub fn selected(&self) -> (cursor: Option<usize>)
        ensures
            self@.wf(),
            match cursor {
                Some(i) => self@.cursor == Some(i as nat),
                None => self@.cursor is None,
            },
        no_unwind
    {
        proof {
            use_type_invariant(self);
        }
        self.cursor
    }

    /// Moves the cursor one item on, and from the last item to the first. An
    /// empty list stays as it is.
    pub fn select_next(&mut self)
        ensures
            final(self)@ == old(self)@.next(),
            old(self)@.wf(),
            final(self)@.wf(),
        no_unwind
    {
        proof {
            use_type_invariant(&*self);
        }
        if let Some(i) = self.cursor {
            let len = self.items.len();
            let moved: usize = if i + 1 == len { 0 } else { i + 1 };
            proof {
                if i + 1 == len {
                    vstd::arithmetic::div_mod::lemma_mod_self_0(len as int);
                } else {
                    vstd::arithmetic::div_mod::lemma_small_mod((i + 1) as nat, len as nat);
                }
            }
            self.cursor = Some(moved);
        }
    }

    /// Moves the cursor one item back, and from the first item to the last. An
    /// empty list stays as it is.
    pub fn select_previous(&mut self)
        ensures
            final(self)@ == old(self)@.previous(),
            old(self)@.wf(),
            final(self)@.wf(),
        no_unwind
    {
        proof {
            use_type_invariant(&*self);
        }
        if let Some(i) = self.cursor {
            let len = self.items.len();
            let moved: usize = if i == 0 { len - 1 } else { i - 1 };
            proof {
                if i == 0 {
                    vstd::arithmetic::div_mod::lemma_small_mod((len - 1) as nat, len as nat);
                } else {
                    vstd::arithmetic::div_mod::lemma_mod_add_multiples_vanish(
                        (i - 1) as int,
                        len as int,
                    );
                    vstd::arithmetic::div_mod::lemma_small_mod((i - 1) as nat, len as nat);
                }
            }
            self.cursor = Some(moved);
        }
    }
}

} // verus!
