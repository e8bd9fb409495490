use book_manager::checkout_flow::{
    CheckoutCommand, CheckoutCreation, CheckoutReturn, CreationStage, DbReply, FlowStep,
    ReturnStage,
};
use book_manager::checkout_row::CheckoutStateRow;
use book_manager::error::AppError;
use book_manager::id::{BookId, CheckoutId, UserId};
use book_manager::model::{CreateCheckout, UpdateReturned};

const BOOK: u128 = 0x550e8400e29b41d4a716446655440000;
const BOOK_TEXT: &str = "550e8400-e29b-41d4-a716-446655440000";

fn checkout_event() -> CreateCheckout {
    CreateCheckout { book_id: BookId(BOOK), checked_out_by: UserId(2), checked_out_at: 1000 }
}

fn return_event() -> UpdateReturned {
    UpdateReturned {
        checkout_id: CheckoutId(3),
        book_id: BookId(BOOK),
        returned_by: UserId(2),
        returned_at: 2000,
    }
}

fn free_book() -> DbReply {
    DbReply::StateRow(Some(CheckoutStateRow { book_id: BookId(BOOK), checkout_id: None, user_id: None }))
}

fn lent_book(c: u128, u: u128) -> DbReply {
    DbReply::StateRow(Some(CheckoutStateRow {
        book_id: BookId(BOOK),
        checkout_id: Some(CheckoutId(c)),
        user_id: Some(UserId(u)),
    }))
}

fn run_cmd(step: FlowStep) -> CheckoutCommand {
    match step {
        FlowStep::Run(c) => c,
        FlowStep::Finish(r) => panic!("finished early: {:?}", r),
    }
}

fn finish(step: FlowStep) -> Result<(), AppError> {
    match step {
        FlowStep::Finish(r) => r,
        FlowStep::Run(c) => panic!("still running: {:?}", c),
    }
}

#[test]
fn checkout_of_a_free_book_commits() {
    let (mut flow, first) = CheckoutCreation::new(checkout_event());
    assert_eq!(first, CheckoutCommand::Begin);
    assert_eq!(run_cmd(flow.step(DbReply::Done)), CheckoutCommand::SetSerializable);
    assert_eq!(
        run_cmd(flow.step(DbReply::Done)),
        CheckoutCommand::FetchState { book_id: BookId(BOOK) }
    );
    assert_eq!(
        run_cmd(flow.step_with_id(free_book(), CheckoutId(77))),
        CheckoutCommand::InsertCheckout {
            checkout_id: CheckoutId(77),
            book_id: BookId(BOOK),
            user_id: UserId(2),
            checked_out_at: 1000,
        }
    );
    assert_eq!(run_cmd(flow.step(DbReply::RowsAffected(1))), CheckoutCommand::Commit);
    assert!(finish(flow.step(DbReply::Done)).is_ok());
    assert_eq!(flow.stage, CreationStage::Finished);
    assert!(!flow.expects(&DbReply::Done));
}

fn creation_at_lookup() -> CheckoutCreation {
    let (mut flow, _) = CheckoutCreation::new(checkout_event());
    run_cmd(flow.step(DbReply::Done));
    run_cmd(flow.step(DbReply::Done));
    flow
}

#[test]
fn checkout_draws_a_fresh_id() {
    let mut flow = creation_at_lookup();
    match run_cmd(flow.step(free_book())) {
        CheckoutCommand::InsertCheckout { checkout_id, book_id, .. } => {
            assert_eq!((checkout_id.0 >> 76) & 0xF, 4);
            assert_eq!(book_id, BookId(BOOK));
        }
        other => panic!("unexpected {:?}", other),
    }
}

#[test]
fn checkout_of_a_missing_book_is_not_found() {
    let mut flow = creation_at_lookup();
    match finish(flow.step(DbReply::StateRow(None))) {
        Err(AppError::EntityNotFound(m)) => {
            assert_eq!(m, format!("The book ({}) was not found.", BOOK_TEXT))
        }
        other => panic!("unexpected {:?}", other),
    }
}

#[test]
fn checkout_of_a_lent_book_is_refused() {
    let mut flow = creation_at_lookup();
    match finish(flow.step(lent_book(5, 6))) {
        Err(AppError::UnprocessableEntity(m)) => {
            assert_eq!(m, format!("The book ({}) is already checked out.", BOOK_TEXT))
        }
        other => panic!("unexpected {:?}", other),
    }
    assert_eq!(flow.stage, CreationStage::Finished);
}

#[test]
fn checkout_that_records_nothing_fails() {
    let mut flow = creation_at_lookup();
    run_cmd(flow.step(free_book()));
    match finish(flow.step(DbReply::RowsAffected(0))) {
        Err(AppError::EntityNotFound(m)) => assert_eq!(m, "No checkout has been created"),
        other => panic!("unexpected {:?}", other),
    }
}

#[test]
fn checkout_failures_map_to_their_errors() {
    let (mut flow, _) = CheckoutCreation::new(checkout_event());
    assert!(matches!(
        finish(flow.step(DbReply::Failed(sqlx::Error::PoolTimedOut))),
        Err(AppError::TransactionError(_))
    ));
    let mut flow = creation_at_lookup();
    assert!(matches!(
        finish(flow.step(DbReply::Failed(sqlx::Error::RowNotFound))),
        Err(AppError::SpecificOperationError(_))
    ));
    let mut flow = creation_at_lookup();
    run_cmd(flow.step(free_book()));
    run_cmd(flow.step(DbReply::RowsAffected(1)));
    assert!(matches!(
        finish(flow.step(DbReply::Failed(sqlx::Error::PoolClosed))),
        Err(AppError::TransactionError(_))
    ));
}

#[test]
fn checkout_rejects_replies_of_the_wrong_kind() {
    let (flow, _) = CheckoutCreation::new(checkout_event());
    assert!(flow.expects(&DbReply::Done));
    assert!(!flow.expects(&DbReply::RowsAffected(1)));
    let flow = creation_at_lookup();
    assert!(flow.expects(&free_book()));
    assert!(!flow.expects(&DbReply::Done));
}

fn return_at_lookup() -> CheckoutReturn {
    let (mut flow, first) = CheckoutReturn::new(return_event());
    assert_eq!(first, CheckoutCommand::Begin);
    assert_eq!(run_cmd(flow.step(DbReply::Done)), CheckoutCommand::SetSerializable);
    assert_eq!(
        run_cmd(flow.step(DbReply::Done)),
        CheckoutCommand::FetchState { book_id: BookId(BOOK) }
    );
    flow
}

#[test]
fn return_by_the_borrower_commits() {
    let mut flow = return_at_lookup();
    assert_eq!(
        run_cmd(flow.step(lent_book(3, 2))),
        CheckoutCommand::InsertReturned { checkout_id: CheckoutId(3), returned_at: 2000 }
    );
    assert_eq!(
        run_cmd(flow.step(DbReply::RowsAffected(1))),
        CheckoutCommand::DeleteCheckout { checkout_id: CheckoutId(3) }
    );
    assert_eq!(run_cmd(flow.step(DbReply::RowsAffected(1))), CheckoutCommand::Commit);
    assert!(finish(flow.step(DbReply::Done)).is_ok());
    assert_eq!(flow.stage, ReturnStage::Finished);
}

#[test]
fn return_by_another_user_is_refused() {
    let mut flow = return_at_lookup();
    match finish(flow.step(lent_book(3, 99))) {
        Err(AppError::UnprocessableEntity(m)) => assert_eq!(
            m,
            format!(
                "The specified checkout (ID({}), User({}), Book({})) cannot be returned.",
                "00000000-0000-0000-0000-000000000003",
                "00000000-0000-0000-0000-000000000002",
                BOOK_TEXT
            )
        ),
        other => panic!("unexpected {:?}", other),
    }
}

#[test]
fn return_of_another_checkout_is_refused() {
    let mut flow = return_at_lookup();
    assert!(matches!(
        finish(flow.step(lent_book(4, 2))),
        Err(AppError::UnprocessableEntity(_))
    ));
}

#[test]
fn return_of_a_missing_book_is_not_found() {
    let mut flow = return_at_lookup();
    match finish(flow.step(DbReply::StateRow(None))) {
        Err(AppError::EntityNotFound(m)) => {
            assert_eq!(m, format!("The book ({}) was not found.", BOOK_TEXT))
        }
        other => panic!("unexpected {:?}", other),
    }
}

#[test]
fn return_of_an_unlent_book_finds_no_record() {
    let mut flow = return_at_lookup();
    assert_eq!(
        run_cmd(flow.step(free_book())),
        CheckoutCommand::InsertReturned { checkout_id: CheckoutId(3), returned_at: 2000 }
    );
    match finish(flow.step(DbReply::RowsAffected(0))) {
        Err(AppError::EntityNotFound(m)) => assert_eq!(m, "No returning record has been created"),
        other => panic!("unexpected {:?}", other),
    }
}

#[test]
fn return_that_removes_nothing_fails() {
    let mut flow = return_at_lookup();
    run_cmd(flow.step(lent_book(3, 2)));
    run_cmd(flow.step(DbReply::RowsAffected(1)));
    match finish(flow.step(DbReply::RowsAffected(0))) {
        Err(AppError::EntityNotFound(m)) => assert_eq!(m, "No checkout record has been deleted"),
        other => panic!("unexpected {:?}", other),
    }
}

#[test]
fn return_failures_map_to_their_errors() {
    let (mut flow, _) = CheckoutReturn::new(return_event());
    assert!(matches!(
        finish(flow.step(DbReply::Failed(sqlx::Error::PoolTimedOut))),
        Err(AppError::TransactionError(_))
    ));
    let mut flow = return_at_lookup();
    run_cmd(flow.step(lent_book(3, 2)));
    assert!(matches!(
        finish(flow.step(DbReply::Failed(sqlx::Error::RowNotFound))),
        Err(AppError::SpecificOperationError(_))
    ));
}
