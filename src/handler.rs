use vstd::prelude::*;

use crate::model::{Book, BookRequest, ValidationError, book_from, name_ok, patched};
use crate::store::{BookStore, StoreError, books_view, has_id, pos_of};

verus! {

/// What a handler reports to the presentation layer when it cannot serve
/// the request as asked.
#[derive(Debug, PartialEq, Eq)]
pub enum AppError {
    /// The request payload broke a field constraint.
    Validation(ValidationError),
    /// A lookup by id matched no row.
    NotFound,
    /// The store refused a write.
    Persistence(StoreError),
}

/// The list view: every book in the store.
#[derive(Debug, PartialEq, Eq)]
pub struct BookListTemplate {
    pub books: Vec<Book>,
}

/// The empty creation form.
#[derive(Debug, PartialEq, Eq)]
pub struct NewBookTemplate {}

/// The edit form, filled with one book.
#[derive(Debug, PartialEq, Eq)]
pub struct EditBookTemplate {
    pub book: Book,
}

/// The welcome page.
#[derive(Debug, PartialEq, Eq)]
pub struct BaseTemplate {}

/// The outcome of a create request.
#[derive(Debug)]
pub enum CreateOutcome {
    /// The book was stored; the list view shows every row.
    Created { count: u64, books: Vec<Book> },
    /// Nothing was stored; the creation form is shown again with the error.
    Rejected(AppError),
}

/// The outcome of an update request.
#[derive(Debug)]
pub enum EditOutcome {
    /// The update ran; `count` rows changed and the list view shows every row.
    Updated { count: u64, books: Vec<Book> },
    /// The payload was refused; the edit form is shown again for the book
    /// that the path names, or the lookup's error.
    Invalid { error: ValidationError, form: Result<EditBookTemplate, AppError> },
}

/// The message of the fallback for unmatched routes.
pub fn handler_404() -> (r: String)
    ensures
        r@ == "Page not found!"@,
{
    "Page not found!".to_owned()
}

/// The welcome page.
pub fn welcome_handler() -> (r: BaseTemplate) {
    BaseTemplate {}
}

/// The empty creation form.
pub fn new_book_handler() -> (r: NewBookTemplate) {
    NewBookTemplate {}
}

/// The list view of every book in the store.
pub fn books_list_handler(store: &BookStore) -> (r: BookListTemplate)
    ensures
        books_view(r.books@) == store@,
{
    BookListTemplate { books: store.find_books() }
}

/// Deletes the book that the path names; removing nothing is no failure.
pub fn delete_book_handler(store: &mut BookStore, book_id: &str) -> (r: u64)
    requires
        old(store).wf(),
    ensures
        final(store).wf(),
        has_id(old(store)@, book_id@) ==> r == 1 && final(store)@ == old(store)@.remove(
            pos_of(old(store)@, book_id@),
        ),
        !has_id(old(store)@, book_id@) ==> r == 0 && final(store)@ == old(store)@,
{
    store.delete_book(book_id)
}

/// The edit form for the book that the path names, or `NotFound`.
pub fn edit_book_handler(store: &BookStore, book_id: &str) -> (r: Result<EditBookTemplate, AppError>)
    requires
        store.wf(),
    ensures
        r is Ok <==> has_id(store@, book_id@),
        r matches Ok(t) ==> t.book@ == store@[pos_of(store@, book_id@)],
        r matches Err(e) ==> e is NotFound,
{
    match store.find_book(book_id) {
        Ok(book) => Ok(EditBookTemplate { book }),
        Err(_) => Err(AppError::NotFound),
    }
}

/// Validates an update and applies it to the book that the path names.
/// A refused payload touches nothing and leads back to the edit form.
pub fn do_edit_book_handler(store: &mut BookStore, book_id: &str, body: BookRequest) -> (r:
    EditOutcome)
    requires
        old(store).wf(),
    ensures
        final(store).wf(),
        r is Updated <==> name_ok(body.name@),
        !name_ok(body.name@) ==> final(store)@ == old(store)@,
        r matches EditOutcome::Invalid { error, form } ==> error.field@ == "name"@ && (form is Ok
            <==> has_id(old(store)@, book_id@)) && (form matches Err(e) ==> e is NotFound) && (form matches Ok(t) ==> t.book@ == old(store)@[pos_of(
            old(store)@,
            book_id@,
        )]),
        r matches EditOutcome::Updated { count, books } ==> books_view(books@) == final(store)@ && (
        has_id(old(store)@, book_id@) ==> count == 1 && final(store)@ == old(store)@.update(
            pos_of(old(store)@, book_id@),
            patched(old(store)@[pos_of(old(store)@, book_id@)], body),
        )) && (!has_id(old(store)@, book_id@) ==> count == 0 && final(store)@ == old(store)@),
{
    match body.validate() {
        Ok(()) => {
            let count = store.update_book(book_id, body);
            let books = books_list_handler(store).books;
            EditOutcome::Updated { count, books }
        },
        Err(error) => {
            let form = edit_book_handler(store, book_id);
            EditOutcome::Invalid { error, form }
        },
    }
}

/// Relies on uuid's `Uuid::new_v4` and its `Display`: a random id, written
/// as 36 characters in the hyphenated form.
#[verifier::external_body]
fn new_book_id() -> (r: String)
    ensures
        r@.len() == 36,
{
    uuid::Uuid::new_v4().to_string()
}

/// Relies on chrono's `Utc::now` and `DateTime::timestamp_millis`: the
/// current instant in milliseconds since the Unix epoch. `Utc::now` panics
/// when the system clock reads a time before the epoch, so a value that
/// comes back is never negative.
#[verifier::external_body]
fn now_millis() -> (r: i64)
    ensures
        r >= 0,
{
    chrono::Utc::now().timestamp_millis()
}

/// Validates a create request and stores the book it describes, under a
/// freshly generated id and the current instant. A refused payload or a
/// refused insert leaves the store as it was.
pub fn create_book_handler(store: &mut BookStore, body: BookRequest) -> (r: CreateOutcome)
    requires
        old(store).wf(),
    ensures
        final(store).wf(),
        !name_ok(body.name@) ==> (r matches CreateOutcome::Rejected(AppError::Validation(v))
            && v.field@ == "name"@),
        r is Created ==> name_ok(body.name@) && exists|id: Seq<char>, t: i64|
            id.len() == 36 && t >= 0 && !has_id(old(store)@, id) && final(store)@ == old(
            store,
        )@.push(#[trigger] book_from(body, id, t)),
        r matches CreateOutcome::Created { count, books } ==> count == 1 && books_view(books@)
            == final(store)@,
        name_ok(body.name@) && !(r is Created) ==> exists|i: int|
            0 <= i < old(store)@.len() && #[trigger] old(store)@[i].id.len() == 36,
        r matches CreateOutcome::Rejected(e) ==> final(store)@ == old(store)@ && (name_ok(
            body.name@,
        ) ==> e == AppError::Persistence(StoreError::DuplicateId)),
{
    let id = new_book_id();
    let added_at = now_millis();
    create_book_with_id(store, body, id, added_at)
}

/// Validates a create request and stores the book it describes, under the
/// given id and creation instant. A refused payload or a refused insert
/// leaves the store as it was.
pub fn create_book_with_id(store: &mut BookStore, body: BookRequest, id: String, added_at: i64)
    -> (r: CreateOutcome)
    requires
        old(store).wf(),
    ensures
        final(store).wf(),
        r is Created <==> name_ok(body.name@) && !has_id(old(store)@, id@),
        r is Created ==> final(store)@ == old(store)@.push(book_from(body, id@, added_at)),
        !(r is Created) ==> final(store)@ == old(store)@,
        r matches CreateOutcome::Created { count, books } ==> count == 1 && books_view(books@)
            == final(store)@,
        r matches CreateOutcome::Rejected(e) ==> if name_ok(body.name@) {
            e == AppError::Persistence(StoreError::DuplicateId)
        } else {
            e matches AppError::Validation(v) && v.field@ == "name"@
        },
{
    match body.validate() {
        Ok(()) => {
            let new_book = Book::from_request(body, id, added_at);
            match store.create_book(new_book) {
                Ok(count) => {
                    let books = books_list_handler(store).books;
                    CreateOutcome::Created { count, books }
                },
                Err(e) => CreateOutcome::Rejected(AppError::Persistence(e)),
            }
        },
        Err(v) => CreateOutcome::Rejected(AppError::Validation(v)),
    }
}

} // verus!
