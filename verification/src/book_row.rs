//! Rows of the `books` table and of the checkout shown with a book.

use vstd::prelude::*;

use crate::id::{BookId, CheckoutId, UserId};
use crate::model::{Book, BookCheckout, BookOwner, CheckoutUser};

verus! {

/// A book as read from the database, with its owner's name.
#[derive(Clone, Debug, PartialEq, Eq)]
pub struct BookRow {
    pub book_id: BookId,
    pub title: String,
    pub author: String,
    pub isbn: String,
    pub description: String,
    pub owned_by: UserId,
    pub owner_name: String,
}

/// One row of a page of books: the total count and a book's identifier.
#[derive(Clone, Copy, Debug, PartialEq, Eq)]
pub struct PaginatedBookRow {
    pub total: i64,
    pub id: BookId,
}

/// The current checkout of a book, with the borrower's name.
#[derive(Clone, Debug, PartialEq, Eq)]
pub struct BookCheckoutRow {
    pub checkout_id: CheckoutId,
    pub book_id: BookId,
    pub user_id: UserId,
    pub user_name: String,
    pub checked_out_at: i64,
}

/// The book that a row describes, shown with the given checkout.
pub open spec fn book_of_row(row: BookRow, checkout: Option<BookCheckout>) -> Book {
    Book {
        id: row.book_id,
        title: row.title,
        author: row.author,
        isbn: row.isbn,
        description: row.description,
        owner: BookOwner { id: row.owned_by, name: row.owner_name },
        checkout: checkout,
    }
}

/// The checkout that a row describes; the row's book identifier is not
/// part of it.
pub open spec fn checkout_of_row(row: BookCheckoutRow) -> BookCheckout {
    BookCheckout {
        checkout_id: row.checkout_id,
        checked_out_by: CheckoutUser { id: row.user_id, name: row.user_name },
        checked_out_at: row.checked_out_at,
    }
}

impl From<BookRow> for Book {
    fn from(value: BookRow) -> (book: Book) {
        let BookRow { book_id, title, author, isbn, description, owned_by, owner_name } = value;
        Book {
            id: book_id,
            title,
            author,
            isbn,
            description,
            owner: BookOwner { id: owned_by, name: owner_name },
            checkout: None,
        }
    }
}

impl vstd::std_specs::convert::FromSpecImpl<BookRow> for Book {
    open spec fn obeys_from_spec() -> bool {
        true
    }

    open spec fn from_spec(value: BookRow) -> Book {
        book_of_row(value, None)
    }
}

impl BookRow {
    /// The book of this row, shown with the given checkout.
    pub fn int_book(self, checkout: Option<BookCheckout>) -> (book: Book)
        ensures
            book == book_of_row(self, checkout),
    {
        let BookRow { book_id, title, author, isbn, description, owned_by, owner_name } = self;
        Book {
            id: book_id,
            title,
            author,
            isbn,
            description,
            owner: BookOwner { id: owned_by, name: owner_name },
            checkout,
        }
    }
}

impl From<BookCheckoutRow> for BookCheckout {
    fn from(value: BookCheckoutRow) -> (checkout: BookCheckout) {
        let BookCheckoutRow { checkout_id, book_id: _, user_id, user_name, checked_out_at } = value;
        BookCheckout {
            checkout_id,
            checked_out_by: CheckoutUser { id: user_id, name: user_name },
            checked_out_at,
        }
    }
}

impl vstd::std_specs::convert::FromSpecImpl<BookCheckoutRow> for BookCheckout {
    open spec fn obeys_from_spec() -> bool {
        true
    }

    open spec fn from_spec(value: BookCheckoutRow) -> BookCheckout {
        checkout_of_row(value)
    }
}

/// The books of the rows read from the database, in the same order.
pub fn books_from_rows(rows: Vec<BookRow>) -> (books: Vec<Book>)
    ensures
        books@.len() == rows@.len(),
        forall|i: int| 0 <= i < rows@.len() ==> books@[i] == book_of_row(#[trigger] rows@[i], None),
{
    let ghost source = rows@;
    let mut books: Vec<Book> = Vec::new();
    for row in it: rows.into_iter()
        invariant
            it.seq() == source,
            books@.len() == it.index(),
            forall|i: int| 0 <= i < it.index() ==> books@[i] == book_of_row(#[trigger] source[i], None),
    {
        books.push(Book::from(row));
    }
    books
}

/// A book read without its checkout is the book shown with no checkout.
pub proof fn lemma_book_from_row_is_unlent(row: BookRow)
    ensures
        <Book as vstd::std_specs::convert::FromSpec<BookRow>>::from_spec(row) == book_of_row(row, None),
{
}

/// A book shown from a row keeps the row's fields, its owner is the row's
/// owner whatever the checkout, and its checkout is the one given.
pub proof fn lemma_book_of_row_fields(row: BookRow, checkout: Option<BookCheckout>)
    ensures
        book_of_row(row, checkout).id == row.book_id,
        book_of_row(row, checkout).title == row.title,
        book_of_row(row, checkout).author == row.author,
        book_of_row(row, checkout).isbn == row.isbn,
        book_of_row(row, checkout).description == row.description,
        book_of_row(row, checkout).owner.id == row.owned_by,
        book_of_row(row, checkout).owner.name == row.owner_name,
        book_of_row(row, checkout).checkout == checkout,
        book_of_row(row, checkout).owner == book_of_row(row, None).owner,
{
}

/// A checkout shown with a book keeps the row's checkout, borrower and time.
pub proof fn lemma_checkout_of_row_fields(row: BookCheckoutRow)
    ensures
        checkout_of_row(row).checkout_id == row.checkout_id,
        checkout_of_row(row).checked_out_by.id == row.user_id,
        checkout_of_row(row).checked_out_by.name == row.user_name,
        checkout_of_row(row).checked_out_at == row.checked_out_at,
{
}

} // verus!
