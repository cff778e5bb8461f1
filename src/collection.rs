use vstd::prelude::*;

verus! {

/// The selection after a list of `len` records replaces one whose
/// selection was `selected`: kept where it still points at a record,
/// else the last record, or 0 for an empty list.
pub open spec fn clamp_selection(selected: int, len: int) -> int {
    if len <= 0 {
        0
    } else if 0 <= selected < len {
        selected
    } else {
        len - 1
    }
}

/// A locally held list of records, with the selected position, whether a
/// load is under way, and the failure of the last load.
#[derive(Debug, Clone)]
pub struct CollectionState<T> {
    pub items: Vec<T>,
    pub selected: usize,
    pub loading: bool,
    pub last_error: Option<String>,
}

impl<T> CollectionState<T> {
    /// The selection points at a record, or is 0 when there is none.
    pub open spec fn wf(&self) -> bool {
        if self.items.len() == 0 {
            self.selected == 0
        } else {
            self.selected < self.items.len()
        }
    }

    /// The list after one move up in a well-formed state.
    pub open spec fn moved_up(self) -> CollectionState<T> {
        CollectionState {
            selected: (if self.selected > 0 {
                self.selected - 1
            } else {
                0
            }) as usize,
            ..self
        }
    }

    /// The list after one move down in a well-formed state.
    pub open spec fn moved_down(self) -> CollectionState<T> {
        CollectionState {
            selected: (if self.selected + 1 < self.items.len() {
                self.selected + 1
            } else {
                self.selected as int
            }) as usize,
            ..self
        }
    }

    pub fn new() -> (r: CollectionState<T>)
        ensures
            r.wf(),
            r.items@.len() == 0,
            r.selected == 0,
            !r.loading,
            r.last_error is None,
    {
        CollectionState { items: Vec::new(), selected: 0, loading: false, last_error: None }
    }

    pub fn is_empty(&self) -> (r: bool)
        ensures
            r == (self.items.len() == 0),
    {
        self.items.len() == 0
    }

    /// Moves the selection one record up, stopping at the first.
    pub fn move_up(&mut self)
        ensures
            final(self).wf(),
            final(self).items == old(self).items,
            final(self).loading == old(self).loading,
            final(self).last_error == old(self).last_error,
            old(self).wf() ==> *final(self) == old(self).moved_up(),
    {
        let len = self.items.len();
        if len == 0 {
            self.selected = 0;
        } else if self.selected >= len {
            self.selected = len - 1;
        } else if self.selected > 0 {
            self.selected = self.selected - 1;
        }
    }

    /// Moves the selection one record down, stopping at the last.
    pub fn move_down(&mut self)
        ensures
            final(self).wf(),
            final(self).items == old(self).items,
            final(self).loading == old(self).loading,
            final(self).last_error == old(self).last_error,
            old(self).wf() ==> *final(self) == old(self).moved_down(),
    {
        let len = self.items.len();
        if len == 0 {
            self.selected = 0;
        } else if self.selected >= len {
            self.selected = len - 1;
        } else if self.selected + 1 < len {
            self.selected = self.selected + 1;
        }
    }

    /// Marks a load as started: `loading` set, the last failure cleared.
    pub fn begin_load(&mut self)
        ensures
            final(self).items == old(self).items,
            final(self).selected == old(self).selected,
            final(self).loading,
            final(self).last_error is None,
    {
        self.loading = true;
        self.last_error = None;
    }

    /// Takes the records that a load returned; the selection is kept where
    /// it still points at a record.
    pub fn finish_load(&mut self, items: Vec<T>)
        ensures
            final(self).wf(),
            final(self).items == items,
            final(self).selected == clamp_selection(old(self).selected as int, items.len() as int),
            !final(self).loading,
            final(self).last_error is None,
    {
        let len = items.len();
        self.items = items;
        if len == 0 {
            self.selected = 0;
        } else if self.selected >= len {
            self.selected = len - 1;
        }
        self.loading = false;
        self.last_error = None;
    }

    /// Records a failed load; the records held stay as they were.
    pub fn fail_load(&mut self, error: String)
        ensures
            final(self).items == old(self).items,
            final(self).selected == old(self).selected,
            !final(self).loading,
            final(self).last_error == Some(error),
    {
        self.loading = false;
        self.last_error = Some(error);
    }
}

} // verus!
