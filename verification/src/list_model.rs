use vstd::prelude::*;

verus! {

/// An ordered, display-facing collection of adapter objects backing one
/// scrollable view. Items are keyed by display position: the position of an
/// item never changes except through a full `reset_and_populate`, and an
/// `append` leaves every prior position untouched.
pub struct ListModel<T> {
    items: Vec<T>,
}

impl<T> ListModel<T> {
    /// The items in display order.
    pub closed spec fn contents(self) -> Seq<T> {
        self.items@
    }

    pub fn new() -> (m: Self)
        ensures
            m.contents() == Seq::<T>::empty(),
    {
        ListModel { items: Vec::new() }
    }

    /// Clears the collection and inserts `items` in the order received: the
    /// source ordering is preserved verbatim, with no re-sorting.
    pub fn reset_and_populate(&mut self, items: Vec<T>)
        ensures
            final(self).contents() == items@,
    {
        self.items = items;
    }

    /// Appends one item at the end; every prior display position keeps its
    /// item.
    pub fn append(&mut self, item: T)
        ensures
            final(self).contents() == old(self).contents().push(item),
    {
        self.items.push(item);
    }

    /// The item at a display position, or nothing when the position is past
    /// the end of the collection.
    pub fn get(&self, index: usize) -> (r: Option<&T>)
        ensures
            index < self.contents().len() ==> r == Option::Some(
                &self.contents()[index as int],
            ),
            index >= self.contents().len() ==> r is None,
    {
        if index < self.items.len() {
            Some(&self.items[index])
        } else {
            None
        }
    }

    pub fn len(&self) -> (n: usize)
        ensures
            n == self.contents().len(),
    {
        self.items.len()
    }
}

} // verus!
