use vstd::prelude::*;

use crate::model::{Book, BookRequest, BookView, patched};

verus! {

/// Why a store operation failed.
#[derive(Debug, PartialEq, Eq, Structural)]
pub enum StoreError {
    /// A lookup by id matched no row.
    NotFound,
    /// An insert carried an id that a row already holds.
    DuplicateId,
}

/// The table of books. Its rows carry pairwise distinct ids; the order of
/// the rows is the order of insertion.
pub struct BookStore {
    rows: Vec<Book>,
}

/// The values of a sequence of books.
pub open spec fn books_view(v: Seq<Book>) -> Seq<BookView> {
    v.map_values(|b: Book| b@)
}

/// No two rows share an id.
pub open spec fn ids_unique(s: Seq<BookView>) -> bool {
    forall|i: int, j: int| 0 <= i < s.len() && 0 <= j < s.len() && i != j ==> s[i].id != s[j].id
}

/// Some row holds the id.
pub open spec fn has_id(s: Seq<BookView>, id: Seq<char>) -> bool {
    exists|i: int| 0 <= i < s.len() && s[i].id == id
}

/// The position of the row that holds the id (meaningful where `has_id`).
pub open spec fn pos_of(s: Seq<BookView>, id: Seq<char>) -> int {
    choose|i: int| 0 <= i < s.len() && s[i].id == id
}

/// In a table with distinct ids, the row that holds an id is the one that
/// `pos_of` names.
pub proof fn lemma_pos_of(s: Seq<BookView>, id: Seq<char>, i: int)
    requires
        ids_unique(s),
        0 <= i < s.len(),
        s[i].id == id,
    ensures
        pos_of(s, id) == i,
{
    assert(has_id(s, id));
}

impl View for BookStore {
    type V = Seq<BookView>;

    closed spec fn view(&self) -> Seq<BookView> {
        books_view(self.rows@)
    }
}

impl BookStore {
    /// The store's invariant: ids are unique.
    pub open spec fn wf(&self) -> bool {
        ids_unique(self@)
    }

    /// An empty table.
    pub fn new() -> (r: BookStore)
        ensures
            r.wf(),
            r@ == Seq::<BookView>::empty(),
    {
        let r = BookStore { rows: Vec::new() };
        assert(r@ =~= Seq::<BookView>::empty());
        r
    }

    /// The position of the row holding `key`, if any.
    fn position(&self, key: &String) -> (r: Option<usize>)
        requires
            self.wf(),
        ensures
            r is Some <==> has_id(self@, key@),
            r matches Some(i) ==> i < self@.len() && i == pos_of(self@, key@),
    {
        let mut i: usize = 0;
        while i < self.rows.len()
            invariant
                self.wf(),
                i <= self.rows@.len(),
                forall|k: int| 0 <= k < i ==> self@[k].id != key@,
            decreases self.rows@.len() - i,
        {
            if self.rows[i].id == *key {
                proof {
                    assert(self@[i as int] == self.rows@[i as int]@);
                    lemma_pos_of(self@, key@, i as int);
                }
                return Some(i);
            }
            i = i + 1;
        }
        None
    }

    /// Inserts one row. Fails, leaving the table as it was, when a row
    /// already holds the book's id; otherwise appends the book and reports
    /// one affected row.
    pub fn create_book(&mut self, new_book: Book) -> (r: Result<u64, StoreError>)
        requires
            old(self).wf(),
        ensures
            final(self).wf(),
            has_id(old(self)@, new_book@.id) ==> r == Err::<u64, StoreError>(StoreError::DuplicateId)
                && final(self)@ == old(self)@,
            !has_id(old(self)@, new_book@.id) ==> r == Ok::<u64, StoreError>(1)
                && final(self)@ == old(self)@.push(new_book@),
    {
        match self.position(&new_book.id) {
            Some(_) => Err(StoreError::DuplicateId),
            None => {
                let ghost before = self@;
                self.rows.push(new_book);
                assert(self@ =~= before.push(new_book@));
                Ok(1)
            },
        }
    }

    /// Every row, as copies owned by the caller.
    pub fn find_books(&self) -> (r: Vec<Book>)
        ensures
            books_view(r@) == self@,
    {
        let mut out: Vec<Book> = Vec::new();
        let mut i: usize = 0;
        while i < self.rows.len()
            invariant
                i <= self.rows@.len(),
                books_view(out@) =~= self@.subrange(0, i as int),
            decreases self.rows@.len() - i,
        {
            let ghost prev = out@;
            out.push(self.rows[i].copy());
            proof {
                assert(books_view(out@) =~= books_view(prev).push(self.rows@[i as int]@));
            }
            i = i + 1;
        }
        assert(self@.subrange(0, self@.len() as int) =~= self@);
        out
    }

    /// The row that holds `book_id`; `NotFound` when there is none.
    pub fn find_book(&self, book_id: &str) -> (r: Result<Book, StoreError>)
        requires
            self.wf(),
        ensures
            r is Ok <==> has_id(self@, book_id@),
            r matches Ok(b) ==> b@ == self@[pos_of(self@, book_id@)],
            r matches Err(e) ==> e == StoreError::NotFound,
    {
        let key = book_id.to_owned();
        match self.position(&key) {
            Some(i) => Ok(self.rows[i].copy()),
            None => Err(StoreError::NotFound),
        }
    }

    /// Replaces the name, author, language and page count of the row that
    /// holds `book_id`, keeping its id and creation instant. Returns the
    /// number of rows changed: 1, or 0 when no row holds the id.
    pub fn update_book(&mut self, book_id: &str, body: BookRequest) -> (r: u64)
        requires
            old(self).wf(),
        ensures
            final(self).wf(),
            has_id(old(self)@, book_id@) ==> r == 1 && final(self)@ == old(self)@.update(
                pos_of(old(self)@, book_id@),
                patched(old(self)@[pos_of(old(self)@, book_id@)], body),
            ),
            !has_id(old(self)@, book_id@) ==> r == 0 && final(self)@ == old(self)@,
    {
        let key = book_id.to_owned();
        match self.position(&key) {
            Some(i) => {
                let ghost before = self@;
                let ghost b = body;
                let row = &self.rows[i];
                let updated = Book {
                    id: row.id.clone(),
                    name: body.name,
                    author: body.author,
                    language: body.language,
                    pages: body.pages,
                    added_at: row.added_at,
                };
                self.rows.set(i, updated);
                assert(self@ =~= before.update(i as int, patched(before[i as int], b)));
                1
            },
            None => 0,
        }
    }

    /// Removes the row that holds `book_id`. Returns the number of rows
    /// removed: 1, or 0 when no row holds the id.
    pub fn delete_book(&mut self, book_id: &str) -> (r: u64)
        requires
            old(self).wf(),
        ensures
            final(self).wf(),
            has_id(old(self)@, book_id@) ==> r == 1 && final(self)@ == old(self)@.remove(
                pos_of(old(self)@, book_id@),
            ),
            !has_id(old(self)@, book_id@) ==> r == 0 && final(self)@ == old(self)@,
    {
        let key = book_id.to_owned();
        match self.position(&key) {
            Some(i) => {
                let ghost before = self@;
                self.rows.remove(i);
                assert(self@ =~= before.remove(i as int));
                1
            },
            None => 0,
        }
    }
}

} // verus!
