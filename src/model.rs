use vstd::prelude::*;
use vstd::string::*;

verus! {

/// Shortest name a book may carry, in characters.
pub const NAME_MIN: usize = 3;

/// Longest name a book may carry, in characters.
pub const NAME_MAX: usize = 100;

/// A persisted book record. `added_at` is the creation instant in
/// milliseconds since the Unix epoch (UTC).
#[derive(Debug, Clone, PartialEq, Eq)]
pub struct Book {
    pub id: String,
    pub name: String,
    pub author: String,
    pub language: String,
    pub pages: i32,
    pub added_at: i64,
}

/// The mathematical value of a `Book`.
pub struct BookView {
    pub id: Seq<char>,
    pub name: Seq<char>,
    pub author: Seq<char>,
    pub language: Seq<char>,
    pub pages: i32,
    pub added_at: i64,
}

impl View for Book {
    type V = BookView;

    open spec fn view(&self) -> BookView {
        BookView {
            id: self.id@,
            name: self.name@,
            author: self.author@,
            language: self.language@,
            pages: self.pages,
            added_at: self.added_at,
        }
    }
}

/// The inbound payload of a create or an update: never carries an id or a
/// creation instant. Only the name is constrained; the page count is taken
/// as given, negative values included.
#[derive(Debug, Clone, PartialEq, Eq)]
pub struct BookRequest {
    pub name: String,
    pub author: String,
    pub language: String,
    pub pages: i32,
}

/// A field-level validation failure.
#[derive(Debug, Clone, PartialEq, Eq)]
pub struct ValidationError {
    pub field: String,
    pub message: String,
}

/// Whether a name has an accepted length, counted in characters.
pub open spec fn name_ok(name: Seq<char>) -> bool {
    NAME_MIN <= name.len() <= NAME_MAX
}

/// The book that a request and a freshly chosen id and instant make.
pub open spec fn book_from(req: BookRequest, id: Seq<char>, added_at: i64) -> BookView {
    BookView {
        id,
        name: req.name@,
        author: req.author@,
        language: req.language@,
        pages: req.pages,
        added_at,
    }
}

/// A book with its mutable fields replaced by those of a request.
pub open spec fn patched(b: BookView, req: BookRequest) -> BookView {
    BookView {
        id: b.id,
        name: req.name@,
        author: req.author@,
        language: req.language@,
        pages: req.pages,
        added_at: b.added_at,
    }
}

impl Book {
    /// A copy of this book, field for field.
    pub fn copy(&self) -> (r: Book)
        ensures
            r@ == self@,
    {
        Book {
            id: self.id.clone(),
            name: self.name.clone(),
            author: self.author.clone(),
            language: self.language.clone(),
            pages: self.pages,
            added_at: self.added_at,
        }
    }

    /// The book built from a request, with the id and the creation instant
    /// chosen by the caller.
    pub fn from_request(req: BookRequest, id: String, added_at: i64) -> (r: Book)
        ensures
            r@ == book_from(req, id@, added_at),
    {
        Book {
            id,
            name: req.name,
            author: req.author,
            language: req.language,
            pages: req.pages,
            added_at,
        }
    }
}

impl BookRequest {
    /// A copy of this request, field for field.
    pub fn copy(&self) -> (r: BookRequest)
        ensures
            r.name@ == self.name@,
            r.author@ == self.author@,
            r.language@ == self.language@,
            r.pages == self.pages,
    {
        BookRequest {
            name: self.name.clone(),
            author: self.author.clone(),
            language: self.language.clone(),
            pages: self.pages,
        }
    }

    /// Checks the request's constraints: the name must be between 3 and 100
    /// characters long, both included. The other fields are unconstrained.
    pub fn validate(&self) -> (r: Result<(), ValidationError>)
        ensures
            r is Ok <==> name_ok(self.name@),
            r matches Err(e) ==> e.field@ == "name"@,
            r matches Err(e) ==> e.message@ == "Name must be greater than 3 and less than 100 chars"@,
    {
        let n = self.name.as_str().unicode_len();
        if NAME_MIN <= n && n <= NAME_MAX {
            Ok(())
        } else {
            Err(
                ValidationError {
                    field: "name".to_owned(),
                    message: "Name must be greater than 3 and less than 100 chars".to_owned(),
                },
            )
        }
    }
}

} // verus!
