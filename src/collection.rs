use vstd::prelude::*;

verus! {

/// The cursor that a continuation token stands for: an empty token means that
/// no further pages exist.
pub open spec fn token_cursor(token: Seq<u8>) -> Option<Seq<u8>> {
    if token.len() == 0 {
        None
    } else {
        Some(token)
    }
}

/// The contents of a [`PaginatedCollection`]: its rows in order and the
/// cursor of the next page, `None` once every page has been seen.
pub struct CollectionView<T> {
    pub rows: Seq<T>,
    pub cursor: Option<Seq<u8>>,
}

/// Rows loaded page by page, with the opaque cursor of the next page.
pub struct PaginatedCollection<T> {
    rows: Vec<T>,
    cursor: Option<Vec<u8>>,
}

impl<T> View for PaginatedCollection<T> {
    type V = CollectionView<T>;

    closed spec fn view(&self) -> CollectionView<T> {
        CollectionView {
            rows: self.rows@,
            cursor: match self.cursor {
                Some(c) => Some(c@),
                None => None,
            },
        }
    }
}

impl<T> PaginatedCollection<T> {
    /// An empty collection; no page has been asked for yet.
    pub fn new() -> (r: Self)
        ensures
            r@.rows == Seq::<T>::empty(),
            r@.cursor is None,
    {
        PaginatedCollection { rows: Vec::new(), cursor: None }
    }

    /// Replaces every row and the cursor with those of a fresh first page.
    pub fn replace(&mut self, rows: Vec<T>, token: Vec<u8>)
        ensures
            final(self)@.rows == rows@,
            final(self)@.cursor == token_cursor(token@),
            final(self)@.cursor is None <==> token@.len() == 0,
    {
        self.rows = rows;
        self.cursor = if token.len() == 0 {
            None
        } else {
            Some(token)
        };
    }

    /// Appends the rows of a further page after the rows already held, and
    /// takes the page's cursor.
    pub fn append(&mut self, rows: Vec<T>, token: Vec<u8>)
        ensures
            final(self)@.rows == old(self)@.rows + rows@,
            final(self)@.cursor == token_cursor(token@),
            final(self)@.cursor is None <==> token@.len() == 0,
    {
        let mut rows = rows;
        self.rows.append(&mut rows);
        self.cursor = if token.len() == 0 {
            None
        } else {
            Some(token)
        };
    }

    /// True iff no further page can be fetched.
    pub fn is_exhausted(&self) -> (r: bool)
        ensures
            r == (self@.cursor is None),
    {
        self.cursor.is_none()
    }

    pub fn len(&self) -> (r: usize)
        ensures
            r == self@.rows.len(),
    {
        self.rows.len()
    }

    pub fn is_empty(&self) -> (r: bool)
        ensures
            r == (self@.rows.len() == 0),
    {
        self.rows.len() == 0
    }

    /// The rows, in the order they were loaded.
    pub fn rows(&self) -> (r: &Vec<T>)
        ensures
            r@ == self@.rows,
    {
        &self.rows
    }

    /// The row at `index`, if there is one.
    pub fn get(&self, index: usize) -> (r: Option<&T>)
        ensures
            index < self@.rows.len() ==> r == Some(&self@.rows[index as int]),
            index >= self@.rows.len() ==> r is None,
    {
        if index < self.rows.len() {
            Some(&self.rows[index])
        } else {
            None
        }
    }

    /// The cursor of the next page, if there is one.
    pub fn cursor(&self) -> (r: Option<&Vec<u8>>)
        ensures
            match r {
                Some(c) => self@.cursor == Some(c@),
                None => self@.cursor is None,
            },
    {
        match &self.cursor {
            Some(c) => Some(c),
            None => None,
        }
    }
}

} // verus!
