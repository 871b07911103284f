use vstd::prelude::*;
use crate::error::{AppError, Result};

verus! {

broadcast use vstd::std_specs::vec::axiom_spec_len;

/// What a [`SelectionList`] holds: its items, in order, and the index that is selected.
pub struct ListState<T> {
    pub items: Seq<T>,
    pub selection: Option<usize>,
}

impl<T> ListState<T> {
    /// The selection, where there is one, points at an item, and the number of items fits a
    /// `usize`.
    pub open spec fn wf(self) -> bool {
        &&& self.selection matches Some(i) ==> i < self.items.len()
        &&& self.items.len() <= usize::MAX
    }

    /// The same items with another selection.
    pub open spec fn with_selection(self, selection: Option<usize>) -> ListState<T> {
        ListState { items: self.items, selection }
    }

    /// The items of `self` followed by those of `other`, with nothing selected.
    pub open spec fn merged(self, other: ListState<T>) -> ListState<T> {
        ListState { items: self.items + other.items, selection: None }
    }

    /// `other` is this list with its selected item changed as `step` says, or this list
    /// itself where no item is selected.
    pub open spec fn selected_changed(self, other: ListState<T>, step: spec_fn(T, T) -> bool) -> bool {
        match self.position(None) {
            Some(i) => {
                &&& other == self.with_items(self.items.update(i as int, other.items[i as int]))
                &&& step(self.items[i as int], other.items[i as int])
            },
            None => other == self,
        }
    }

    /// Other items with the same selection.
    pub open spec fn with_items(self, items: Seq<T>) -> ListState<T> {
        ListState { items, selection: self.selection }
    }

    /// The index that an optional index stands for: itself, or else the selection.
    pub open spec fn resolve(self, index: Option<usize>) -> Option<usize> {
        match index {
            Some(i) => Some(i),
            None => self.selection,
        }
    }

    /// The index that `index` stands for, where it points at an item.
    pub open spec fn position(self, index: Option<usize>) -> Option<usize> {
        match self.resolve(index) {
            Some(i) => if i < self.items.len() { Some(i) } else { None },
            None => None,
        }
    }

    /// The index after the selection, going round to the first item.
    pub open spec fn next_index(self) -> Option<usize> {
        match self.selection {
            None => if self.items.len() == 0 { None } else { Some(0) },
            Some(i) => if i + 1 < self.items.len() { Some((i + 1) as usize) } else { Some(0) },
        }
    }

    /// The index before the selection, going round to the last item.
    pub open spec fn prev_index(self) -> Option<usize> {
        match self.selection {
            None => if self.items.len() == 0 { None } else { Some((self.items.len() - 1) as usize) },
            Some(i) => if i == 0 {
                Some((self.items.len() - 1) as usize)
            } else {
                Some((i - 1) as usize)
            },
        }
    }

    /// The items with the two at `i` and `j` exchanged.
    pub open spec fn swapped(items: Seq<T>, i: int, j: int) -> Seq<T> {
        items.update(i, items[j]).update(j, items[i])
    }

    /// The items with the last one moved to the front.
    pub open spec fn rotated_right(items: Seq<T>) -> Seq<T> {
        seq![items.last()] + items.drop_last()
    }

    /// The items with the first one moved to the back.
    pub open spec fn rotated_left(items: Seq<T>) -> Seq<T> {
        items.drop_first().push(items[0])
    }

    /// After inserting `item` at `index` (the front where it is `None`), selected where
    /// `select` holds.
    pub open spec fn after_insert(self, index: Option<usize>, item: T, select: bool) -> ListState<T> {
        let at: usize = match index {
            Some(i) => i,
            None => 0,
        };
        ListState {
            items: self.items.insert(at as int, item),
            selection: if select { Some(at) } else { self.selection },
        }
    }

    /// After adding `item` just after the selection, or at the end where nothing is selected
    /// or the selection is on (or past) the last item; selected where `select` holds.
    pub open spec fn after_add(self, item: T, select: bool) -> ListState<T> {
        match self.selection {
            Some(i) if i + 1 < self.items.len() => self.after_insert(
                Some((i + 1) as usize),
                item,
                select,
            ),
            _ => ListState {
                items: self.items.push(item),
                selection: if select { Some(self.items.len() as usize) } else { self.selection },
            },
        }
    }

    /// After moving the selected item one place on, the last one going round to the front.
    pub open spec fn after_shift_next(self) -> ListState<T> {
        match self.selection {
            None => self,
            Some(i) => if i + 1 < self.items.len() {
                ListState {
                    items: Self::swapped(self.items, i as int, i + 1),
                    selection: Some((i + 1) as usize),
                }
            } else {
                ListState { items: Self::rotated_right(self.items), selection: Some(0) }
            },
        }
    }

    /// After moving the selected item one place back, the first one going round to the end.
    pub open spec fn after_shift_prev(self) -> ListState<T> {
        match self.selection {
            None => self,
            Some(i) => if i > 0 {
                ListState {
                    items: Self::swapped(self.items, i as int, i - 1),
                    selection: Some((i - 1) as usize),
                }
            } else {
                ListState {
                    items: Self::rotated_left(self.items),
                    selection: Some((self.items.len() - 1) as usize),
                }
            },
        }
    }

    /// After removing the selected item: the selection stays at its index, moves to the new
    /// last item where it was on the last one, and goes where no item is left.
    pub open spec fn after_pop(self) -> ListState<T> {
        match self.selection {
            None => self,
            Some(i) => {
                let items = self.items.remove(i as int);
                ListState {
                    items,
                    selection: if items.len() == 0 {
                        None
                    } else if i >= items.len() {
                        Some((items.len() - 1) as usize)
                    } else {
                        Some(i)
                    },
                }
            },
        }
    }
}

/// Items in order, with at most one of them selected.
pub struct SelectionList<T> {
    items: Vec<T>,
    selection: Option<usize>,
}

impl<T> View for SelectionList<T> {
    type V = ListState<T>;

    closed spec fn view(&self) -> ListState<T> {
        ListState { items: self.items@, selection: self.selection }
    }
}

impl<T> SelectionList<T> {
    /// A list of the given items with nothing selected.
    pub fn from_vec(items: Vec<T>) -> (r: SelectionList<T>)
        ensures
            r@.items == items@,
            r@.selection is None,
    {
        SelectionList { items, selection: None }
    }

    /// A list of the given items with the given selection, taken as it is.
    pub fn from_parts(items: Vec<T>, selection: Option<usize>) -> (r: SelectionList<T>)
        ensures
            r@.items == items@,
            r@.selection == selection,
    {
        SelectionList { items, selection }
    }

    /// The items, in order.
    pub fn items(&self) -> (r: &[T])
        ensures
            r@ == self@.items,
    {
        self.items.as_slice()
    }

    pub fn len(&self) -> (r: usize)
        ensures
            r == self@.items.len(),
    {
        self.items.len()
    }

    /// The item at `index`, or at the selection where `index` is `None`.
    pub fn get_item(&self, index: Option<usize>) -> (r: Option<&T>)
        ensures
            r is Some <==> self@.position(index) is Some,
            r matches Some(x) ==> *x == self@.items[self@.position(index).unwrap() as int],
    {
        let i = match index {
            Some(i) => i,
            None => match self.selection {
                Some(i) => i,
                None => return None,
            },
        };
        if i < self.items.len() {
            Some(&self.items[i])
        } else {
            None
        }
    }

    /// The item at `index`, or at the selection where `index` is `None`, to change in place.
    pub fn get_item_mut(&mut self, index: Option<usize>) -> (r: Option<&mut T>)
        ensures
            r is Some <==> old(self)@.position(index) is Some,
            r matches Some(x) ==> {
                &&& *x == old(self)@.items[old(self)@.position(index).unwrap() as int]
                &&& final(self)@.items == old(self)@.items.update(
                    old(self)@.position(index).unwrap() as int,
                    *final(x),
                )
                &&& final(self)@.selection == old(self)@.selection
            },
            r is None ==> *final(self) == *old(self),
    {
        let i = match index {
            Some(i) => i,
            None => match self.selection {
                Some(i) => i,
                None => return None,
            },
        };
        if i < self.items.len() {
            Some(&mut self.items[i])
        } else {
            None
        }
    }
}


impl<T> SelectionList<T> {
    pub fn push_item(&mut self, item: T)
        ensures
            final(self)@.items == old(self)@.items.push(item),
            final(self)@.selection == old(self)@.selection,
    {
        self.items.push(item);
    }

    /// Adds `item` just after the selection, or at the end where nothing is selected or the
    /// selection is at (or past) the last item; selects it where `select` holds.
    pub fn add_item(&mut self, item: T, select: bool)
        requires
            old(self)@.selection is Some ==> old(self)@.items.len() > 0,
        ensures
            final(self)@ == old(self)@.after_add(item, select),
            old(self)@.wf() ==> final(self)@.wf(),
    {
        proof {
            assert(self.items@.len() == self.items.len());
        }
        match self.selection {
            Some(index) => {
                if index >= self.len() - 1 {
                    self.push_item(item);
                    if select {
                        self.selection = Some(self.len() - 1);
                    }
                } else {
                    self.insert_item(Some(index + 1), item, false);
                    if select {
                        self.selection = Some(index + 1);
                    }
                }
            },
            None => {
                self.push_item(item);
                if select {
                    self.selection = Some(self.len() - 1);
                }
            },
        }
        assert(self.items@.len() == self.items.len());
    }

    /// Inserts `item` at `index` (at the front where `index` is `None`); selects it where
    /// `select` holds.
    pub fn insert_item(&mut self, index: Option<usize>, item: T, select: bool)
        requires
            index matches Some(i) ==> i <= old(self)@.items.len(),
        ensures
            final(self)@ == old(self)@.after_insert(index, item, select),
            old(self)@.wf() ==> final(self)@.wf(),
    {
        let index = match index {
            Some(i) => i,
            None => 0,
        };
        self.items.insert(index, item);
        if select {
            self.selection = Some(index);
        }
        assert(self.items@.len() == self.items.len());
    }

    /// Removes every item; the selection is left as it was.
    pub fn clear_items(&mut self)
        ensures
            final(self)@.items == Seq::<T>::empty(),
            final(self)@.selection == old(self)@.selection,
    {
        self.items = Vec::new();
    }

    /// The selected item.
    pub fn selected(&self) -> (r: Option<&T>)
        ensures
            r is Some <==> self@.position(None) is Some,
            r matches Some(x) ==> *x == self@.items[self@.selection.unwrap() as int],
    {
        self.get_item(None)
    }

    pub fn selection(&self) -> (r: Option<usize>)
        ensures
            r == self@.selection,
    {
        self.selection
    }

    /// Selects the item at `index`; fails, changing nothing, where there is none.
    pub fn select(&mut self, index: usize) -> (r: Result<()>)
        ensures
            r is Ok <==> index < old(self)@.items.len(),
            r is Ok ==> final(self)@ == old(self)@.with_selection(Some(index)),
            old(self)@.wf() ==> final(self)@.wf(),
            r matches Err(e) ==> final(self)@ == old(self)@ && e.message@ == "index out of range"@,
    {
        if index >= self.items.len() {
            return Err(AppError::new("index out of range"));
        };
        self.selection = Some(index);
        Ok(())
    }

    pub fn deselect(&mut self)
        ensures
            final(self)@ == old(self)@.with_selection(None),
    {
        self.selection = None;
    }

    /// The index after the selection, going round to the first item; the first item where
    /// nothing is selected.
    pub fn next_index(&self) -> (r: Option<usize>)
        requires
            self@.selection != Some(usize::MAX),
        ensures
            r == self@.next_index(),
    {
        match self.selection {
            None => if self.items.is_empty() {
                None
            } else {
                Some(0)
            },
            Some(index) => if index + 1 >= self.len() {
                Some(0)
            } else {
                Some(index + 1)
            },
        }
    }

    /// The index before the selection, going round to the last item; the last item where
    /// nothing is selected.
    pub fn prev_index(&self) -> (r: Option<usize>)
        requires
            self@.selection == Some(0usize) ==> self@.items.len() > 0,
        ensures
            r == self@.prev_index(),
    {
        match self.selection {
            None => if self.items.is_empty() {
                None
            } else {
                Some(self.len() - 1)
            },
            Some(index) => if index == 0 {
                Some(self.len() - 1)
            } else {
                Some(index - 1)
            },
        }
    }

    pub fn select_next(&mut self)
        requires
            old(self)@.selection != Some(usize::MAX),
        ensures
            final(self)@ == old(self)@.with_selection(old(self)@.next_index()),
            old(self)@.wf() ==> final(self)@.wf(),
    {
        self.selection = self.next_index()
    }

    pub fn select_prev(&mut self)
        requires
            old(self)@.selection == Some(0usize) ==> old(self)@.items.len() > 0,
        ensures
            final(self)@ == old(self)@.with_selection(old(self)@.prev_index()),
            old(self)@.wf() ==> final(self)@.wf(),
    {
        self.selection = self.prev_index()
    }
}


impl<T> SelectionList<T> {
    /// Moves the selected item one place towards the end, the last one going round to the
    /// front; the selection follows it. Fails, changing nothing, where nothing is selected.
    pub fn shift_next(&mut self) -> (r: Result<usize>)
        requires
            old(self)@.selection is Some ==> old(self)@.items.len() > 0,
        ensures
            final(self)@ == old(self)@.after_shift_next(),
            r is Ok <==> old(self)@.selection is Some,
            r matches Ok(k) ==> final(self)@.selection == Some(k),
            r matches Err(e) ==> e.message@ == "no item selected"@,
            old(self)@.wf() ==> final(self)@.wf(),
    {
        if let Some(selected) = self.selection {
            if selected < self.items.len() - 1 {
                let new_index = selected + 1;
                let ghost pre = self.items@;
                let next = self.items.remove(new_index);
                self.items.insert(selected, next);
                assert(self.items@ =~= ListState::swapped(pre, selected as int, new_index as int));
                self.selection = Some(new_index);
                Ok(new_index)
            } else {
                let ghost pre = self.items@;
                let element = match self.items.pop() {
                    Some(e) => e,
                    None => return Err(AppError::new("selection is Some, should have at least one item")),
                };
                self.items.insert(0, element);
                assert(self.items@ =~= ListState::rotated_right(pre));
                self.selection = Some(0);
                Ok(0)
            }
        } else {
            Err(AppError::new("no item selected"))
        }
    }

    /// Moves the selected item one place towards the front, the first one going round to the
    /// end; the selection follows it. Fails, changing nothing, where nothing is selected.
    pub fn shift_prev(&mut self) -> (r: Result<usize>)
        requires
            old(self)@.selection matches Some(i) ==> i < old(self)@.items.len(),
        ensures
            final(self)@ == old(self)@.after_shift_prev(),
            r is Ok <==> old(self)@.selection is Some,
            r matches Ok(k) ==> final(self)@.selection == Some(k),
            r matches Err(e) ==> e.message@ == "no item selected"@,
            final(self)@.wf(),
    {
        assert(self.items@.len() == self.items.len());
        if let Some(selected) = self.selection {
            if selected > 0 {
                let new_index = selected - 1;
                let ghost pre = self.items@;
                let current = self.items.remove(selected);
                self.items.insert(new_index, current);
                assert(self.items@ =~= ListState::swapped(pre, selected as int, new_index as int));
                self.selection = Some(new_index);
                Ok(new_index)
            } else {
                let ghost pre = self.items@;
                let element = self.items.remove(selected);
                self.items.push(element);
                assert(self.items@ =~= ListState::rotated_left(pre));
                self.selection = Some(self.items.len() - 1);
                assert(self.items@.len() == self.items.len());
                Ok(self.items.len() - 1)
            }
        } else {
            Err(AppError::new("no item selected"))
        }
    }

    /// Removes and returns the selected item. The selection stays at its index, moves to the
    /// new last item where it was on the last one, and goes where the list becomes empty.
    pub fn pop_selected(&mut self) -> (r: Option<T>)
        requires
            old(self)@.selection matches Some(i) ==> i < old(self)@.items.len(),
        ensures
            final(self)@ == old(self)@.after_pop(),
            r == match old(self)@.selection {
                Some(i) => Some(old(self)@.items[i as int]),
                None => None::<T>,
            },
            final(self)@.wf(),
    {
        assert(self.items@.len() == self.items.len());
        match self.selection {
            None => None,
            Some(index) => {
                let result = self.items.remove(index);
                assert(self.items@.len() == self.items.len());
                if self.items.is_empty() {
                    self.selection = None;
                } else if index >= self.items.len() {
                    self.selection = Some(self.items.len() - 1);
                }
                Some(result)
            },
        }
    }

    /// The items of `self` followed by those of `rhs`, with nothing selected.
    fn append_list(self, rhs: SelectionList<T>) -> (r: SelectionList<T>)
        ensures
            r@.items == self@.items + rhs@.items,
            r@.selection is None,
    {
        let mut items = self.items;
        let mut rhs_items = rhs.items;
        items.append(&mut rhs_items);
        SelectionList::from_vec(items)
    }
}

impl<T> Default for SelectionList<T> {
    fn default() -> (r: SelectionList<T>)
        ensures
            r@.items == Seq::<T>::empty(),
            r@.selection is None,
    {
        SelectionList { items: Vec::new(), selection: None }
    }
}

impl<T> core::ops::Add<SelectionList<T>> for SelectionList<T> {
    type Output = SelectionList<T>;

    fn add(self, rhs: SelectionList<T>) -> (r: SelectionList<T>)
        ensures
            r@.items == self@.items + rhs@.items,
            r@.selection is None,
    {
        self.append_list(rhs)
    }
}

impl<T> vstd::std_specs::ops::AddSpecImpl<SelectionList<T>> for SelectionList<T> {
    /// The generic law of `+` is not claimed: the sum is described by the `ensures` of `add`.
    open spec fn obeys_add_spec() -> bool {
        false
    }

    open spec fn add_req(self, rhs: SelectionList<T>) -> bool {
        true
    }

    open spec fn add_spec(self, rhs: SelectionList<T>) -> SelectionList<T> {
        self
    }
}


impl<T> From<Vec<T>> for SelectionList<T> {
    fn from(vec: Vec<T>) -> (r: SelectionList<T>)
        ensures
            r@.items == vec@,
            r@.selection is None,
    {
        SelectionList { items: vec, selection: None }
    }
}

impl<T> vstd::std_specs::convert::FromSpecImpl<Vec<T>> for SelectionList<T> {
    open spec fn obeys_from_spec() -> bool {
        true
    }

    closed spec fn from_spec(v: Vec<T>) -> SelectionList<T> {
        SelectionList { items: v, selection: None }
    }
}

/// A value that a list shows as one line of text.
pub trait ListLabel {
    /// The text that stands for the value.
    spec fn label_view(&self) -> Seq<char>;

    fn label(&self) -> (r: String)
        ensures
            r@ == self.label_view(),
    ;
}

impl ListLabel for String {
    open spec fn label_view(&self) -> Seq<char> {
        self@
    }

    fn label(&self) -> (r: String) {
        self.clone()
    }
}

impl<T> SelectionList<T> {
    /// An iterator over the items, in order.
    pub fn iter(&self) -> (r: std::slice::Iter<'_, T>)
        ensures
            vstd::std_specs::iter::IteratorSpec::remaining(&r) == self@.items.as_ref(),
    {
        proof {
            broadcast use vstd::std_specs::slice::axiom_spec_slice_iter;
        }
        self.items.as_slice().iter()
    }
}

impl<T: ListLabel> SelectionList<T> {
    /// The text of each item, in order.
    pub fn as_strings(&self) -> (r: Vec<String>)
        ensures
            r@.len() == self@.items.len(),
            forall|i: int| 0 <= i < r@.len() ==> #[trigger] r@[i]@ == self@.items[i].label_view(),
    {
        let mut out: Vec<String> = Vec::new();
        let n = self.items.len();
        for i in 0..n
            invariant
                n == self@.items.len(),
                out@.len() == i,
                forall|j: int| 0 <= j < i ==> #[trigger] out@[j]@ == self@.items[j].label_view(),
        {
            out.push(self.items[i].label());
        }
        out
    }
}


impl<T> SelectionList<T> {
    /// Whether the selection, where there is one, points at an item.
    pub fn is_wf(&self) -> (r: bool)
        ensures
            r == self@.wf(),
    {
        assert(self.items@.len() == self.items.len());
        match self.selection {
            Some(i) => i < self.items.len(),
            None => true,
        }
    }
}

/// An operation on a list that takes no argument.
#[derive(Clone, Copy, PartialEq, Eq, Structural, Debug)]
pub enum ListOp {
    SelectNext,
    SelectPrev,
    ShiftNext,
    ShiftPrev,
    PopSelected,
    Deselect,
}

impl ListOp {
    /// What the operation makes of a list.
    pub open spec fn effect<T>(self, s: ListState<T>) -> ListState<T> {
        match self {
            ListOp::SelectNext => s.with_selection(s.next_index()),
            ListOp::SelectPrev => s.with_selection(s.prev_index()),
            ListOp::ShiftNext => s.after_shift_next(),
            ListOp::ShiftPrev => s.after_shift_prev(),
            ListOp::PopSelected => s.after_pop(),
            ListOp::Deselect => s.with_selection(None),
        }
    }
}

impl<T> SelectionList<T> {
    /// Applies `op`; its result, where it has one, is dropped.
    pub fn apply(&mut self, op: ListOp)
        requires
            old(self)@.wf(),
        ensures
            final(self)@ == op.effect(old(self)@),
            final(self)@.wf(),
    {
        match op {
            ListOp::SelectNext => self.select_next(),
            ListOp::SelectPrev => self.select_prev(),
            ListOp::ShiftNext => {
                let _ = self.shift_next();
            },
            ListOp::ShiftPrev => {
                let _ = self.shift_prev();
            },
            ListOp::PopSelected => {
                let _ = self.pop_selected();
            },
            ListOp::Deselect => self.deselect(),
        }
    }
}

/// A list never holds more items than a `usize` counts.
pub broadcast proof fn lemma_list_len_fits<T>(l: &SelectionList<T>)
    ensures
        #[trigger] l@.items.len() <= usize::MAX,
{
    assert(l.items@.len() == l.items.len());
}

/// Moving the selected item on and then back leaves the list as it was.
pub proof fn lemma_shift_prev_undoes_shift_next<T>(s: ListState<T>)
    requires
        s.wf(),
        s.selection is Some,
    ensures
        s.after_shift_next().after_shift_prev() == s,
{
    let i = s.selection.unwrap();
    let t = s.after_shift_next();
    if i + 1 < s.items.len() {
        assert(t.after_shift_prev().items =~= s.items);
    } else {
        assert(t.after_shift_prev().items =~= s.items);
    }
}

/// Moving the selected item back and then on leaves the list as it was.
pub proof fn lemma_shift_next_undoes_shift_prev<T>(s: ListState<T>)
    requires
        s.wf(),
        s.selection is Some,
    ensures
        s.after_shift_prev().after_shift_next() == s,
{
    let i = s.selection.unwrap();
    let t = s.after_shift_prev();
    if i > 0 {
        assert(t.after_shift_next().items =~= s.items);
    } else {
        assert(t.after_shift_next().items =~= s.items);
    }
}

/// Moving the selected item, either way, keeps the same items and the same number of them.
pub proof fn lemma_shift_keeps_items<T>(s: ListState<T>)
    requires
        s.wf(),
    ensures
        s.after_shift_next().items.to_multiset() == s.items.to_multiset(),
        s.after_shift_prev().items.to_multiset() == s.items.to_multiset(),
        s.after_shift_next().items.len() == s.items.len(),
        s.after_shift_prev().items.len() == s.items.len(),
{
    broadcast use vstd::seq_lib::group_to_multiset_ensures;

    if let Some(i) = s.selection {
        let n = s.items.len();
        if i + 1 < n {
            let j = i + 1;
            let w = s.items.remove(j).insert(i as int, s.items[j]);
            assert(w =~= ListState::swapped(s.items, i as int, j));
            vstd::seq_lib::to_multiset_remove(s.items, j);
            vstd::seq_lib::to_multiset_insert(s.items.remove(j), i as int, s.items[j]);
        } else {
            let w = s.items.remove(n - 1).insert(0, s.items.last());
            assert(w =~= ListState::rotated_right(s.items));
            vstd::seq_lib::to_multiset_remove(s.items, n - 1);
            vstd::seq_lib::to_multiset_insert(s.items.remove(n - 1), 0, s.items.last());
        }
        if i > 0 {
            let w = s.items.remove(i as int).insert(i - 1, s.items[i as int]);
            assert(w =~= ListState::swapped(s.items, i as int, i - 1));
            vstd::seq_lib::to_multiset_remove(s.items, i as int);
            vstd::seq_lib::to_multiset_insert(s.items.remove(i as int), i - 1, s.items[i as int]);
        } else {
            let w = s.items.remove(0).insert(n - 1, s.items[0]);
            assert(w =~= ListState::rotated_left(s.items));
            vstd::seq_lib::to_multiset_remove(s.items, 0);
            vstd::seq_lib::to_multiset_insert(s.items.remove(0), n - 1, s.items[0]);
        }
    }
}

/// Selecting the next item and then the previous one comes back to the same selection, and
/// so does the other way round.
pub proof fn lemma_select_next_prev_inverse<T>(s: ListState<T>)
    requires
        s.wf(),
        s.selection is Some,
    ensures
        s.with_selection(s.next_index()).prev_index() == s.selection,
        s.with_selection(s.prev_index()).next_index() == s.selection,
{
}

/// Inserting the removed item back where it was, selected, undoes removing the selected item.
pub proof fn lemma_insert_undoes_pop<T>(s: ListState<T>)
    requires
        s.wf(),
        s.selection is Some,
    ensures
        s.after_pop().after_insert(s.selection, s.items[s.selection.unwrap() as int], true) == s,
{
    let i = s.selection.unwrap();
    assert(s.after_pop().after_insert(s.selection, s.items[i as int], true).items =~= s.items);
}

/// An item added with `select` is the selected one afterwards.
pub proof fn lemma_added_item_is_selected<T>(s: ListState<T>, item: T)
    requires
        s.wf(),
        s.items.len() < usize::MAX,
    ensures
        s.after_add(item, true).wf(),
        s.after_add(item, true).position(None) matches Some(k)
            && s.after_add(item, true).items[k as int] == item,
        s.after_add(item, true).items.len() == s.items.len() + 1,
{
}

/// The place before `i` and the place after it among `n` places, going round.
pub proof fn lemma_round_neighbours(i: int, n: int)
    requires
        0 <= i < n,
    ensures
        (i + n - 1) % n == if i == 0 { n - 1 } else { i - 1 },
        (i + 1) % n == if i + 1 < n { i + 1 } else { 0 },
{
    if i == 0 {
        vstd::arithmetic::div_mod::lemma_small_mod((n - 1) as nat, n as nat);
    } else {
        vstd::arithmetic::div_mod::lemma_mod_add_multiples_vanish(i - 1, n);
        vstd::arithmetic::div_mod::lemma_small_mod((i - 1) as nat, n as nat);
        assert(n + (i - 1) == i + n - 1);
    }
    if i + 1 < n {
        vstd::arithmetic::div_mod::lemma_small_mod((i + 1) as nat, n as nat);
    } else {
        vstd::arithmetic::div_mod::lemma_mod_self_0(n);
    }
}

/// `after` is `before` with its selection moved one place on (`forward`) or back, going
/// round, and its items as they were; with nothing selected, the first item (`forward`) or
/// the last one becomes selected.
pub open spec fn selection_stepped<T>(before: ListState<T>, after: ListState<T>, forward: bool) -> bool {
    let n = before.items.len() as int;
    &&& after.items == before.items
    &&& match before.selection {
        Some(i) => after.selection == Some((if forward { (i + 1) % n } else { (i + n - 1) % n }) as usize),
        None => after.selection == if n == 0 {
            None
        } else if forward {
            Some(0usize)
        } else {
            Some((n - 1) as usize)
        },
    }
}

/// `after` is `before` with its selected item `i` of `n` moved one place on (`forward`) or
/// back, going round, and still selected at its new place `(i + 1) mod n` or `(i - 1) mod n`.
/// Away from the ends it changes places with its neighbour and every other item stays; from
/// the last place it goes to the front, and from the first place to the end, the others
/// keeping their order. With nothing selected nothing changes.
pub open spec fn selected_moved<T>(before: ListState<T>, after: ListState<T>, forward: bool) -> bool {
    match before.selection {
        Some(i) => {
            let n = before.items.len() as int;
            let t = if forward { (i + 1) % n } else { (i + n - 1) % n };
            let wraps = if forward { i + 1 == n } else { i == 0 };
            &&& after.selection == Some(t as usize)
            &&& after.items.len() == n
            &&& after.items[t] == before.items[i as int]
            &&& !wraps ==> {
                &&& after.items[i as int] == before.items[t]
                &&& forall|k: int| 0 <= k < n && k != i && k != t ==> #[trigger] after.items[k] == before.items[k]
            }
            &&& (wraps && forward) ==> forall|k: int| 0 <= k < i ==> #[trigger] after.items[k + 1] == before.items[k]
            &&& (wraps && !forward) ==> forall|k: int| 0 < k < n ==> #[trigger] after.items[k - 1] == before.items[k]
        },
        None => after == before,
    }
}

/// Selecting the next or previous item steps the selection one place on or back, going
/// round; moving the selected item on or back takes it one place that way, going round.
pub proof fn lemma_list_steps<T>(s: ListState<T>)
    requires
        s.wf(),
    ensures
        selection_stepped(s, ListOp::SelectNext.effect(s), true),
        selection_stepped(s, ListOp::SelectPrev.effect(s), false),
        selected_moved(s, ListOp::ShiftNext.effect(s), true),
        selected_moved(s, ListOp::ShiftPrev.effect(s), false),
{
    if let Some(i) = s.selection {
        lemma_round_neighbours(i as int, s.items.len() as int);
    }
}

/// `after` is `before` with one item added just after the selected one, or at the end where
/// nothing is selected or the last item is, and selected; the item added satisfies `fresh`,
/// and the items `before` had keep their order.
pub open spec fn added_after_selection<T>(before: ListState<T>, after: ListState<T>, fresh: spec_fn(T) -> bool) -> bool {
    let n = before.items.len() as int;
    let at = match before.selection {
        Some(b) => if b + 1 < n { b + 1 } else { n },
        None => n,
    };
    &&& after.items.len() == n + 1
    &&& after.selection == Some(at as usize)
    &&& fresh(after.items[at])
    &&& after.items.remove(at) == before.items
}

/// `after` is `before` with its selected item changed as `change` says and every other item,
/// and the selection, as they were; with nothing selected nothing changes.
pub open spec fn selected_replaced<T>(before: ListState<T>, after: ListState<T>, change: spec_fn(T, T) -> bool) -> bool {
    match before.selection {
        Some(i) => {
            &&& after.selection == before.selection
            &&& after.items.len() == before.items.len()
            &&& change(before.items[i as int], after.items[i as int])
            &&& forall|k: int|
                0 <= k < before.items.len() && k != i ==> #[trigger] after.items[k] == before.items[k]
        },
        None => after == before,
    }
}

/// Adding an item, selected, puts it just after the selection or at the end.
pub proof fn lemma_add_goes_after_selection<T>(s: ListState<T>, item: T, fresh: spec_fn(T) -> bool)
    requires
        s.wf(),
        fresh(item),
    ensures
        added_after_selection(s, s.after_add(item, true), fresh),
{
    let n = s.items.len() as int;
    let at = match s.selection {
        Some(b) => if b + 1 < n { b + 1 } else { n },
        None => n,
    };
    assert(s.after_add(item, true).items =~= s.items.insert(at, item));
    assert(s.after_add(item, true).items.remove(at) =~= s.items);
}

/// `after` is `before` without its selected item `i`: the selection stays at `i`, moves to
/// the new last item where `i` was the last, and goes where no item is left; with nothing
/// selected nothing changes.
pub open spec fn selected_removed<T>(before: ListState<T>, after: ListState<T>) -> bool {
    match before.selection {
        Some(i) => {
            let m = before.items.len() - 1;
            &&& after.items == before.items.remove(i as int)
            &&& after.selection == if m == 0 {
                None
            } else if i < m {
                Some(i)
            } else {
                Some((m - 1) as usize)
            }
        },
        None => after == before,
    }
}

/// Removing the selected item takes it out and keeps the selection on a neighbour.
pub proof fn lemma_pop_removes_selected<T>(s: ListState<T>)
    requires
        s.wf(),
    ensures
        selected_removed(s, ListOp::PopSelected.effect(s)),
        ListOp::Deselect.effect(s).items == s.items && ListOp::Deselect.effect(s).selection is None,
{
}

} // verus!
