use bookshelf::handler::{
    books_list_handler, create_book_handler, create_book_with_id, delete_book_handler,
    do_edit_book_handler, edit_book_handler, handler_404, new_book_handler, welcome_handler,
    AppError, BaseTemplate, CreateOutcome, EditBookTemplate, EditOutcome, NewBookTemplate,
};
use bookshelf::model::{Book, BookRequest};
use bookshelf::store::{BookStore, StoreError};

fn request(name: &str, author: &str, language: &str, pages: i32) -> BookRequest {
    BookRequest {
        name: name.to_string(),
        author: author.to_string(),
        language: language.to_string(),
        pages,
    }
}

fn book(id: &str, name: &str, added_at: i64) -> Book {
    Book {
        id: id.to_string(),
        name: name.to_string(),
        author: "Author".to_string(),
        language: "en".to_string(),
        pages: 100,
        added_at,
    }
}

#[test]
fn validation_accepts_bounds() {
    assert!(request("abc", "a", "en", 1).validate().is_ok());
    assert!(request(&"x".repeat(100), "a", "en", 1).validate().is_ok());
    assert!(request("Dune", "", "", -5).validate().is_ok());
}

#[test]
fn validation_rejects_short_and_long_names() {
    for name in ["", "ab", &"x".repeat(101)] {
        let err = request(name, "a", "en", 1).validate().unwrap_err();
        assert_eq!(err.field, "name");
        assert_eq!(err.message, "Name must be greater than 3 and less than 100 chars");
    }
}

#[test]
fn validation_counts_characters_not_bytes() {
    // three characters, six bytes
    assert!(request("äöü", "a", "en", 1).validate().is_ok());
    // two characters, four bytes
    assert!(request("äö", "a", "en", 1).validate().is_err());
}

#[test]
fn create_then_find_round_trip() {
    let mut store = BookStore::new();
    let b = book("id-1", "Dune", 1_700_000_000_000);
    assert_eq!(store.create_book(b.clone()), Ok(1));
    assert_eq!(store.find_book("id-1"), Ok(b));
}

#[test]
fn find_unknown_id_is_not_found() {
    let mut store = BookStore::new();
    assert_eq!(store.find_book("nope"), Err(StoreError::NotFound));
    store.create_book(book("id-1", "Dune", 1)).unwrap();
    assert_eq!(store.find_book("nope"), Err(StoreError::NotFound));
    assert_eq!(edit_book_handler(&store, "nope"), Err(AppError::NotFound));
}

#[test]
fn duplicate_id_is_refused() {
    let mut store = BookStore::new();
    store.create_book(book("id-1", "Dune", 1)).unwrap();
    assert_eq!(store.create_book(book("id-1", "Emma", 2)), Err(StoreError::DuplicateId));
    assert_eq!(store.find_books().len(), 1);
    assert_eq!(store.find_book("id-1").unwrap().name, "Dune");
}

#[test]
fn update_changes_only_mutable_fields() {
    let mut store = BookStore::new();
    store.create_book(book("id-1", "Dune", 42)).unwrap();
    assert_eq!(store.update_book("id-1", request("Emma", "Austen", "fr", 7)), 1);
    let b = store.find_book("id-1").unwrap();
    assert_eq!(b.id, "id-1");
    assert_eq!(b.added_at, 42);
    assert_eq!(b.name, "Emma");
    assert_eq!(b.author, "Austen");
    assert_eq!(b.language, "fr");
    assert_eq!(b.pages, 7);
}

#[test]
fn update_unknown_id_affects_nothing() {
    let mut store = BookStore::new();
    store.create_book(book("id-1", "Dune", 42)).unwrap();
    assert_eq!(store.update_book("id-2", request("Emma", "Austen", "fr", 7)), 0);
    assert_eq!(store.find_book("id-1").unwrap(), book("id-1", "Dune", 42));
}

#[test]
fn delete_twice() {
    let mut store = BookStore::new();
    store.create_book(book("id-1", "Dune", 1)).unwrap();
    assert_eq!(store.delete_book("id-1"), 1);
    assert_eq!(store.delete_book("id-1"), 0);
    assert_eq!(delete_book_handler(&mut store, "id-1"), 0);
}

#[test]
fn find_all_counts_follow_create_and_delete() {
    let mut store = BookStore::new();
    assert_eq!(store.find_books().len(), 0);
    store.create_book(book("a", "Dune", 1)).unwrap();
    store.create_book(book("b", "Emma", 2)).unwrap();
    assert_eq!(store.find_books().len(), 2);
    store.create_book(book("c", "Ulysses", 3)).unwrap();
    assert_eq!(store.find_books().len(), 3);
    assert_eq!(store.delete_book("b"), 1);
    let ids: Vec<String> = store.find_books().into_iter().map(|b| b.id).collect();
    assert_eq!(ids, vec!["a".to_string(), "c".to_string()]);
}

#[test]
fn generated_ids_are_distinct() {
    let mut store = BookStore::new();
    let first = create_book_handler(&mut store, request("Dune", "Herbert", "en", 412));
    let second = create_book_handler(&mut store, request("Dune", "Herbert", "en", 412));
    assert!(matches!(first, CreateOutcome::Created { count: 1, .. }));
    assert!(matches!(second, CreateOutcome::Created { count: 1, .. }));
    let books = books_list_handler(&store).books;
    assert_eq!(books.len(), 2);
    assert_eq!(books[0].id.len(), 36);
    assert_ne!(books[0].id, books[1].id);
}

#[test]
fn dune_scenario() {
    let mut store = BookStore::new();
    let outcome = create_book_handler(&mut store, request("Dune", "Herbert", "en", 412));
    let books = match outcome {
        CreateOutcome::Created { count, books } => {
            assert_eq!(count, 1);
            books
        }
        CreateOutcome::Rejected(e) => panic!("rejected: {:?}", e),
    };
    assert_eq!(books.len(), 1);
    let b = &books[0];
    assert!(!b.id.is_empty());
    assert_eq!(b.name, "Dune");
    assert_eq!(b.author, "Herbert");
    assert_eq!(b.language, "en");
    assert_eq!(b.pages, 412);
    // the creation instant is the current time: after 2020-01-01
    assert!(b.added_at > 1_577_836_800_000);
    let id = b.id.clone();
    assert_eq!(books_list_handler(&store).books, books);
    assert_eq!(delete_book_handler(&mut store, &id), 1);
    assert_eq!(store.find_book(&id), Err(StoreError::NotFound));
}

#[test]
fn create_with_invalid_name_stores_nothing() {
    let mut store = BookStore::new();
    match create_book_handler(&mut store, request("ab", "x", "en", 1)) {
        CreateOutcome::Rejected(AppError::Validation(v)) => assert_eq!(v.field, "name"),
        other => panic!("unexpected {:?}", other),
    }
    assert!(books_list_handler(&store).books.is_empty());
}

#[test]
fn create_with_taken_id_is_a_persistence_error() {
    let mut store = BookStore::new();
    let r = create_book_with_id(&mut store, request("Dune", "Herbert", "en", 412), "k".to_string(), 5);
    match r {
        CreateOutcome::Created { count, books } => {
            assert_eq!(count, 1);
            assert_eq!(books, vec![Book {
                id: "k".to_string(),
                name: "Dune".to_string(),
                author: "Herbert".to_string(),
                language: "en".to_string(),
                pages: 412,
                added_at: 5,
            }]);
        }
        other => panic!("unexpected {:?}", other),
    }
    let again = create_book_with_id(&mut store, request("Emma", "Austen", "en", 1), "k".to_string(), 6);
    assert!(matches!(again, CreateOutcome::Rejected(AppError::Persistence(StoreError::DuplicateId))));
    assert_eq!(store.find_book("k").unwrap().name, "Dune");
}

#[test]
fn edit_handler_updates_or_shows_form_again() {
    let mut store = BookStore::new();
    store.create_book(book("id-1", "Dune", 9)).unwrap();
    match do_edit_book_handler(&mut store, "id-1", request("Emma", "Austen", "en", 3)) {
        EditOutcome::Updated { count, books } => {
            assert_eq!(count, 1);
            assert_eq!(books[0].name, "Emma");
            assert_eq!(books[0].added_at, 9);
        }
        other => panic!("unexpected {:?}", other),
    }
    match do_edit_book_handler(&mut store, "id-1", request("x", "Austen", "en", 3)) {
        EditOutcome::Invalid { error, form } => {
            assert_eq!(error.field, "name");
            assert_eq!(form.unwrap().book.name, "Emma");
        }
        other => panic!("unexpected {:?}", other),
    }
    match do_edit_book_handler(&mut store, "none", request("x", "Austen", "en", 3)) {
        EditOutcome::Invalid { form, .. } => assert_eq!(form, Err(AppError::NotFound)),
        other => panic!("unexpected {:?}", other),
    }
    match do_edit_book_handler(&mut store, "none", request("Valid", "Austen", "en", 3)) {
        EditOutcome::Updated { count, books } => {
            assert_eq!(count, 0);
            assert_eq!(books.len(), 1);
        }
        other => panic!("unexpected {:?}", other),
    }
}

#[test]
fn form_views() {
    assert_eq!(new_book_handler(), NewBookTemplate {});
    assert_eq!(welcome_handler(), BaseTemplate {});
    let mut store = BookStore::new();
    store.create_book(book("id-1", "Dune", 1)).unwrap();
    assert_eq!(edit_book_handler(&store, "id-1").unwrap(), EditBookTemplate { book: book("id-1", "Dune", 1) });
}

#[test]
fn fallback_message() {
    assert_eq!(handler_404(), "Page not found!");
}
