use book_manager::auth::{from, AuhtorizedUserId, AuthorizationKey, UserItem};
use book_manager::book_row::{books_from_rows, BookCheckoutRow, BookRow, PaginatedBookRow};
use book_manager::checkout_row::{
    checkout_history, checkouts_from_rows, returned_checkouts_from_rows, CheckoutRow,
    ReturnedCheckoutRow,
};
use book_manager::error::AppError;
use book_manager::id::{BookId, CheckoutId, UserId};
use book_manager::kv_store::{RedisKey, RedisValue};
use book_manager::model::{
    AccessToken, Book, BookCheckout, BookOwner, Checkout, CheckoutBook, CheckoutUser, CreateToken,
};

const USER: u128 = 0x67e5504410b1426f9247bb680e5fe0c8;
const USER_TEXT: &str = "67e55044-10b1-426f-9247-bb680e5fe0c8";

fn book_row(n: u128) -> BookRow {
    BookRow {
        book_id: BookId(n),
        title: "The Rust Programming Language".to_string(),
        author: "Steve Klabnik and Carol Nichols".to_string(),
        isbn: "978-1593278281".to_string(),
        description: "The official book on Rust".to_string(),
        owned_by: UserId(USER),
        owner_name: "Alice".to_string(),
    }
}

#[test]
fn user_id_text_is_hyphenated_lower_case() {
    assert_eq!(UserId(USER).to_text(), USER_TEXT);
    assert_eq!(BookId(0).to_text(), "00000000-0000-0000-0000-000000000000");
    assert_eq!(
        CheckoutId(u128::MAX).to_text(),
        "ffffffff-ffff-ffff-ffff-ffffffffffff"
    );
}

#[test]
fn user_id_parses_its_text() {
    assert_eq!(UserId::from_text(USER_TEXT).unwrap(), UserId(USER));
    assert_eq!(
        UserId::from_text("67E5504410B1426F9247BB680E5FE0C8").unwrap(),
        UserId(USER)
    );
    assert!(UserId::from_text("not a uuid").is_err());
}

#[test]
fn stored_user_id_reads_back() {
    let value = AuhtorizedUserId(UserId(USER));
    let text = value.inner();
    assert_eq!(text, USER_TEXT);
    let back = AuhtorizedUserId::try_from(text).unwrap();
    assert_eq!(back, value);
    assert_eq!(back.into_inner(), UserId(USER));
}

#[test]
fn malformed_stored_value_is_a_conversion_error() {
    match AuhtorizedUserId::try_from("xyz".to_string()) {
        Err(AppError::ConversionEntityError(m)) => assert!(!m.is_empty()),
        other => panic!("unexpected {:?}", other),
    }
}

#[test]
fn token_event_gives_key_and_value() {
    let event = CreateToken { user_id: UserId(7), access_token: "secret-token".to_string() };
    let (key, value) = from(event);
    assert_eq!(key.inner(), "secret-token");
    assert_eq!(value, AuhtorizedUserId(UserId(7)));
}

#[test]
fn token_and_key_convert_both_ways() {
    let token = AccessToken("abc".to_string());
    let key_by_ref = AuthorizationKey::from(&token);
    assert_eq!(key_by_ref, AuthorizationKey("abc".to_string()));
    let key = AuthorizationKey::from(token.clone());
    assert_eq!(key.inner(), "abc");
    assert_eq!(AccessToken::from(key), token);
}

#[test]
fn new_token_is_a_uuid_text() {
    let event = CreateToken::new(UserId(9));
    assert_eq!(event.user_id, UserId(9));
    assert_eq!(event.access_token.len(), 36);
    assert!(UserId::from_text(&event.access_token).is_ok());
}

#[test]
fn new_checkout_id_is_version_four() {
    let id = CheckoutId::new();
    assert_eq!((id.0 >> 76) & 0xF, 4);
    assert_eq!((id.0 >> 62) & 0x3, 2);
}

#[test]
fn user_item_holds_its_fields() {
    let item = UserItem { user_id: UserId(1), password_hash: "h".to_string() };
    assert_eq!(item.user_id, UserId(1));
    assert_eq!(item.password_hash, "h");
}

#[test]
fn book_from_row_has_owner_and_no_checkout() {
    let book = Book::from(book_row(5));
    assert_eq!(book.id, BookId(5));
    assert_eq!(book.title, "The Rust Programming Language");
    assert_eq!(book.author, "Steve Klabnik and Carol Nichols");
    assert_eq!(book.isbn, "978-1593278281");
    assert_eq!(book.description, "The official book on Rust");
    assert_eq!(book.owner, BookOwner { id: UserId(USER), name: "Alice".to_string() });
    assert_eq!(book.checkout, None);
    assert_eq!(book, book_row(5).int_book(None));
}

#[test]
fn book_with_checkout_keeps_it() {
    let checkout = BookCheckout::from(BookCheckoutRow {
        checkout_id: CheckoutId(11),
        book_id: BookId(5),
        user_id: UserId(3),
        user_name: "Bob".to_string(),
        checked_out_at: 1_700_000_000_000_000,
    });
    assert_eq!(
        checkout,
        BookCheckout {
            checkout_id: CheckoutId(11),
            checked_out_by: CheckoutUser { id: UserId(3), name: "Bob".to_string() },
            checked_out_at: 1_700_000_000_000_000,
        }
    );
    let book = book_row(5).int_book(Some(checkout.clone()));
    assert_eq!(book.checkout, Some(checkout));
    assert_eq!(book.id, BookId(5));
}

#[test]
fn books_keep_row_order() {
    let books = books_from_rows(vec![book_row(1), book_row(2), book_row(3)]);
    let ids: Vec<BookId> = books.iter().map(|b| b.id).collect();
    assert_eq!(ids, vec![BookId(1), BookId(2), BookId(3)]);
    assert!(books_from_rows(vec![]).is_empty());
}

#[test]
fn paginated_row_holds_total() {
    let row = PaginatedBookRow { total: 42, id: BookId(1) };
    assert_eq!(row.total, 42);
}

fn open_row(n: u128) -> CheckoutRow {
    CheckoutRow {
        checkout_id: CheckoutId(n),
        book_id: BookId(100 + n),
        user_id: UserId(200 + n),
        checked_out_at: n as i64,
        title: "T".to_string(),
        author: "A".to_string(),
        isbn: "I".to_string(),
    }
}

fn returned_row(n: u128) -> ReturnedCheckoutRow {
    ReturnedCheckoutRow {
        checkout_id: CheckoutId(n),
        book_id: BookId(100 + n),
        user_id: UserId(200 + n),
        checked_out_at: n as i64,
        returned_at: 10 + n as i64,
        title: "T".to_string(),
        author: "A".to_string(),
        isbn: "I".to_string(),
    }
}

#[test]
fn open_checkouts_have_no_return_time() {
    let cs = checkouts_from_rows(vec![open_row(1), open_row(2)]);
    assert_eq!(cs.len(), 2);
    assert_eq!(
        cs[0],
        Checkout {
            id: CheckoutId(1),
            checked_out_by: UserId(201),
            checked_out_at: 1,
            returned_at: None,
            book: CheckoutBook {
                book_id: BookId(101),
                title: "T".to_string(),
                author: "A".to_string(),
                isbn: "I".to_string(),
            },
        }
    );
    assert_eq!(cs[1].id, CheckoutId(2));
}

#[test]
fn returned_checkouts_keep_return_time() {
    let cs = returned_checkouts_from_rows(vec![returned_row(3)]);
    assert_eq!(cs.len(), 1);
    assert_eq!(cs[0].returned_at, Some(13));
    assert_eq!(cs[0].checked_out_by, UserId(203));
    assert_eq!(cs[0].book.book_id, BookId(103));
}

#[test]
fn history_puts_open_checkout_first() {
    let returned = returned_checkouts_from_rows(vec![returned_row(1), returned_row(2)]);
    let current = Checkout::from(open_row(9));
    let all = checkout_history(Some(current.clone()), returned.clone());
    assert_eq!(all.len(), 3);
    assert_eq!(all[0], current);
    assert_eq!(all[1], returned[0]);
    assert_eq!(all[2], returned[1]);
    assert_eq!(checkout_history(None, returned.clone()), returned);
}

#[test]
fn conversion_error_message_is_the_parse_error_text() {
    let expected = uuid::Uuid::parse_str("xyz").unwrap_err().to_string();
    match AuhtorizedUserId::try_from("xyz".to_string()) {
        Err(AppError::ConversionEntityError(m)) => assert_eq!(m, expected),
        other => panic!("unexpected {:?}", other),
    }
}

#[test]
fn new_token_is_a_version_four_uuid() {
    let event = CreateToken::new(UserId(1));
    let v = UserId::from_text(&event.access_token).unwrap().0;
    assert_eq!((v >> 76) & 0xF, 4);
    assert_eq!((v >> 62) & 0x3, 2);
}
