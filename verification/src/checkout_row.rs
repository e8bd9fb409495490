//! Rows of the `checkouts` and `returned_checkouts` tables, joined with the
//! book, and the lending state of a book.

use vstd::prelude::*;

use crate::id::{BookId, CheckoutId, UserId};
use crate::model::{Checkout, CheckoutBook};

verus! {

/// A checkout that is still open, with its book.
#[derive(Clone, Debug, PartialEq, Eq)]
pub struct CheckoutRow {
    pub checkout_id: CheckoutId,
    pub book_id: BookId,
    pub user_id: UserId,
    pub checked_out_at: i64,
    pub title: String,
    pub author: String,
    pub isbn: String,
}

/// A checkout that was returned, with its book.
#[derive(Clone, Debug, PartialEq, Eq)]
pub struct ReturnedCheckoutRow {
    pub checkout_id: CheckoutId,
    pub book_id: BookId,
    pub user_id: UserId,
    pub checked_out_at: i64,
    pub returned_at: i64,
    pub title: String,
    pub author: String,
    pub isbn: String,
}

/// The lending state of a book: the book, and its open checkout if any.
#[derive(Clone, Copy, Debug, PartialEq, Eq)]
pub struct CheckoutStateRow {
    pub book_id: BookId,
    pub checkout_id: Option<CheckoutId>,
    pub user_id: Option<UserId>,
}

/// The open checkout that a row describes.
pub open spec fn checkout_of_open_row(row: CheckoutRow) -> Checkout {
    Checkout {
        id: row.checkout_id,
        checked_out_by: row.user_id,
        checked_out_at: row.checked_out_at,
        returned_at: None,
        book: CheckoutBook {
            book_id: row.book_id,
            title: row.title,
            author: row.author,
            isbn: row.isbn,
        },
    }
}

/// The returned checkout that a row describes.
pub open spec fn checkout_of_returned_row(row: ReturnedCheckoutRow) -> Checkout {
    Checkout {
        id: row.checkout_id,
        checked_out_by: row.user_id,
        checked_out_at: row.checked_out_at,
        returned_at: Some(row.returned_at),
        book: CheckoutBook {
            book_id: row.book_id,
            title: row.title,
            author: row.author,
            isbn: row.isbn,
        },
    }
}

impl From<CheckoutRow> for Checkout {
    fn from(value: CheckoutRow) -> (checkout: Checkout) {
        let CheckoutRow { checkout_id, book_id, user_id, checked_out_at, title, author, isbn } =
            value;
        Checkout {
            id: checkout_id,
            checked_out_by: user_id,
            checked_out_at,
            returned_at: None,
            book: CheckoutBook { book_id, title, author, isbn },
        }
    }
}

impl vstd::std_specs::convert::FromSpecImpl<CheckoutRow> for Checkout {
    open spec fn obeys_from_spec() -> bool {
        true
    }

    open spec fn from_spec(value: CheckoutRow) -> Checkout {
        checkout_of_open_row(value)
    }
}

impl From<ReturnedCheckoutRow> for Checkout {
    fn from(value: ReturnedCheckoutRow) -> (checkout: Checkout) {
        let ReturnedCheckoutRow {
            checkout_id,
            book_id,
            user_id,
            checked_out_at,
            returned_at,
            title,
            author,
            isbn,
        } = value;
        Checkout {
            id: checkout_id,
            checked_out_by: user_id,
            checked_out_at,
            returned_at: Some(returned_at),
            book: CheckoutBook { book_id, title, author, isbn },
        }
    }
}

impl vstd::std_specs::convert::FromSpecImpl<ReturnedCheckoutRow> for Checkout {
    open spec fn obeys_from_spec() -> bool {
        true
    }

    open spec fn from_spec(value: ReturnedCheckoutRow) -> Checkout {
        checkout_of_returned_row(value)
    }
}

/// The open checkouts of the rows read from the database, in order.
pub fn checkouts_from_rows(rows: Vec<CheckoutRow>) -> (checkouts: Vec<Checkout>)
    ensures
        checkouts@.len() == rows@.len(),
        forall|i: int|
            0 <= i < rows@.len() ==> checkouts@[i] == checkout_of_open_row(#[trigger] rows@[i]),
{
    let ghost source = rows@;
    let mut checkouts: Vec<Checkout> = Vec::new();
    for row in it: rows.into_iter()
        invariant
            it.seq() == source,
            checkouts@.len() == it.index(),
            forall|i: int|
                0 <= i < it.index() ==> checkouts@[i] == checkout_of_open_row(#[trigger] source[i]),
    {
        checkouts.push(Checkout::from(row));
    }
    checkouts
}

/// The returned checkouts of the rows read from the database, in order.
pub fn returned_checkouts_from_rows(rows: Vec<ReturnedCheckoutRow>) -> (checkouts: Vec<Checkout>)
    ensures
        checkouts@.len() == rows@.len(),
        forall|i: int|
            0 <= i < rows@.len() ==> checkouts@[i] == checkout_of_returned_row(#[trigger] rows@[i]),
{
    let ghost source = rows@;
    let mut checkouts: Vec<Checkout> = Vec::new();
    for row in it: rows.into_iter()
        invariant
            it.seq() == source,
            checkouts@.len() == it.index(),
            forall|i: int|
                0 <= i < it.index() ==> checkouts@[i] == checkout_of_returned_row(
                    #[trigger] source[i],
                ),
    {
        checkouts.push(Checkout::from(row));
    }
    checkouts
}

/// The lending history of a book: its open checkout, if any, first, then
/// the returned ones in the order given.
pub open spec fn history(current: Option<Checkout>, returned: Seq<Checkout>) -> Seq<Checkout> {
    match current {
        Some(c) => seq![c] + returned,
        None => returned,
    }
}

/// Puts a book's open checkout, if any, in front of its returned ones.
pub fn checkout_history(current: Option<Checkout>, returned: Vec<Checkout>) -> (all: Vec<Checkout>)
    ensures
        all@ == history(current, returned@),
{
    let mut all = returned;
    if let Some(checkout) = current {
        all.insert(0, checkout);
    }
    all
}

/// A checkout made from an open row keeps every field of the row and has
/// no return time.
pub proof fn lemma_open_row_fields(row: CheckoutRow)
    ensures
        checkout_of_open_row(row).id == row.checkout_id,
        checkout_of_open_row(row).checked_out_by == row.user_id,
        checkout_of_open_row(row).checked_out_at == row.checked_out_at,
        checkout_of_open_row(row).returned_at is None,
        checkout_of_open_row(row).book.book_id == row.book_id,
        checkout_of_open_row(row).book.title == row.title,
        checkout_of_open_row(row).book.author == row.author,
        checkout_of_open_row(row).book.isbn == row.isbn,
{
}

/// A checkout made from a returned row keeps every field of the row: it was
/// checked out when the row says and returned when the row says.
pub proof fn lemma_returned_row_fields(row: ReturnedCheckoutRow)
    ensures
        checkout_of_returned_row(row).id == row.checkout_id,
        checkout_of_returned_row(row).checked_out_by == row.user_id,
        checkout_of_returned_row(row).checked_out_at == row.checked_out_at,
        checkout_of_returned_row(row).returned_at == Some(row.returned_at),
        checkout_of_returned_row(row).book.book_id == row.book_id,
        checkout_of_returned_row(row).book.title == row.title,
        checkout_of_returned_row(row).book.author == row.author,
        checkout_of_returned_row(row).book.isbn == row.isbn,
{
}

/// A book's history has one entry more than its returned checkouts when the
/// book is lent and as many when it is not; the open checkout, if any, comes
/// first and is never dropped, and the returned ones follow in their order.
pub proof fn lemma_history_shape(current: Option<Checkout>, returned: Seq<Checkout>)
    ensures
        history(current, returned).len() == returned.len() + (if current is Some {
            1int
        } else {
            0int
        }),
        current matches Some(c) ==> history(current, returned)[0] == c,
        forall|i: int|
            0 <= i < returned.len() ==> #[trigger] returned[i] == history(current, returned)[i + (
            if current is Some {
                1int
            } else {
                0int
            })],
{
}

} // verus!
