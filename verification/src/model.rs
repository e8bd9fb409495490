//! The domain model: books, their owners and checkouts, access tokens, and
//! the events that ask for a change. Points in time are microseconds since
//! the Unix epoch, in UTC.

use vstd::prelude::*;

use crate::id::{BookId, CheckoutId, UserId};

verus! {

/// The user who owns a book.
#[derive(Clone, Debug, PartialEq, Eq)]
pub struct BookOwner {
    pub id: UserId,
    pub name: String,
}

/// The user who checked a book out.
#[derive(Clone, Debug, PartialEq, Eq)]
pub struct CheckoutUser {
    pub id: UserId,
    pub name: String,
}

/// The current checkout of a book, as shown with the book.
#[derive(Clone, Debug, PartialEq, Eq)]
pub struct BookCheckout {
    pub checkout_id: CheckoutId,
    pub checked_out_by: CheckoutUser,
    pub checked_out_at: i64,
}

/// A book, with its owner and, while it is lent, its checkout.
#[derive(Clone, Debug, PartialEq, Eq)]
pub struct Book {
    pub id: BookId,
    pub title: String,
    pub author: String,
    pub isbn: String,
    pub description: String,
    pub owner: BookOwner,
    pub checkout: Option<BookCheckout>,
}

/// The book of a checkout.
#[derive(Clone, Debug, PartialEq, Eq)]
pub struct CheckoutBook {
    pub book_id: BookId,
    pub title: String,
    pub author: String,
    pub isbn: String,
}

/// A checkout: a book lent to a user, returned or not.
#[derive(Clone, Debug, PartialEq, Eq)]
pub struct Checkout {
    pub id: CheckoutId,
    pub checked_out_by: UserId,
    pub checked_out_at: i64,
    pub returned_at: Option<i64>,
    pub book: CheckoutBook,
}

/// A request to register a book.
#[derive(Clone, Debug, PartialEq, Eq)]
pub struct CreateBook {
    pub title: String,
    pub author: String,
    pub isbn: String,
    pub description: String,
}

/// A request to check a book out.
#[derive(Clone, Copy, Debug, PartialEq, Eq)]
pub struct CreateCheckout {
    pub book_id: BookId,
    pub checked_out_by: UserId,
    pub checked_out_at: i64,
}

/// A request to return a checked-out book.
#[derive(Clone, Copy, Debug, PartialEq, Eq)]
pub struct UpdateReturned {
    pub checkout_id: CheckoutId,
    pub book_id: BookId,
    pub returned_by: UserId,
    pub returned_at: i64,
}

/// The token that a logged-in user presents.
#[derive(Clone, Debug, PartialEq, Eq)]
pub struct AccessToken(pub String);

/// A request to store a new access token for a user.
#[derive(Clone, Debug, PartialEq, Eq)]
pub struct CreateToken {
    pub user_id: UserId,
    pub access_token: String,
}

impl CreateToken {
    /// A new token for `user_id`: the hyphenated text of a random
    /// version-4 UUID.
    pub fn new(user_id: UserId) -> (event: CreateToken)
        ensures
            event.user_id == user_id,
            exists|v: u128|
                v & 0x0000_0000_0000_F000_C000_0000_0000_0000u128
                    == 0x0000_0000_0000_4000_8000_0000_0000_0000u128
                    && event.access_token@ == crate::id::uuid_text(v),
    {
        let v = crate::id::random_uuid();
        CreateToken { user_id, access_token: crate::id::format_uuid(v) }
    }
}

} // verus!
