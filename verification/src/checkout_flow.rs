//! The decisions taken while a book is checked out or returned.
//!
//! Both run as one serializable database transaction. The flow issues a
//! command, the caller runs it against the database and hands the reply
//! back, and the flow decides the next command or the final outcome. A
//! failed statement ends the flow with the error; a flow that ends before
//! its commit leaves the transaction to be rolled back.

use vstd::prelude::*;

use crate::checkout_row::CheckoutStateRow;
use crate::error::{AppError, AppErrorView};
use crate::id::{uuid_text, BookId, CheckoutId, UserId};
use crate::model::{CreateCheckout, UpdateReturned};

verus! {

/// A statement of the transaction.
#[derive(Clone, Copy, Debug, PartialEq, Eq, Structural)]
pub enum CheckoutCommand {
    /// Open the transaction.
    Begin,
    /// Make the transaction serializable.
    SetSerializable,
    /// Read the lending state of a book.
    FetchState { book_id: BookId },
    /// Record a new open checkout.
    InsertCheckout {
        checkout_id: CheckoutId,
        book_id: BookId,
        user_id: UserId,
        checked_out_at: i64,
    },
    /// Copy an open checkout into the returned checkouts, with its return
    /// time.
    InsertReturned { checkout_id: CheckoutId, returned_at: i64 },
    /// Remove an open checkout.
    DeleteCheckout { checkout_id: CheckoutId },
    /// Commit the transaction.
    Commit,
}

/// The database's answer to a command.
#[derive(Debug)]
pub enum DbReply {
    /// The statement ran and returns nothing.
    Done,
    /// The lending state of the book, if the book exists.
    StateRow(Option<CheckoutStateRow>),
    /// How many rows the statement changed.
    RowsAffected(u64),
    /// The statement failed.
    Failed(sqlx::Error),
}

/// What the flow asks for next.
#[derive(Debug)]
pub enum FlowStep {
    /// Run this command and hand its reply back.
    Run(CheckoutCommand),
    /// The flow is over, with this outcome.
    Finish(Result<(), AppError>),
}

/// A `FlowStep` with its error as a view.
pub enum FlowStepView {
    Run(CheckoutCommand),
    Finish(Result<(), AppErrorView>),
}

impl View for FlowStep {
    type V = FlowStepView;

    open spec fn view(&self) -> FlowStepView {
        match self {
            FlowStep::Run(c) => FlowStepView::Run(*c),
            FlowStep::Finish(Ok(())) => FlowStepView::Finish(Ok(())),
            FlowStep::Finish(Err(e)) => FlowStepView::Finish(Err(e@)),
        }
    }
}

// ---------------------------------------------------------------------------
// Messages

/// The message when a book does not exist.
pub open spec fn book_not_found_message(book_id: BookId) -> Seq<char> {
    "The book ("@ + uuid_text(book_id.0) + ") was not found."@
}

/// The message when a book is lent already.
pub open spec fn already_checked_out_message(book_id: BookId) -> Seq<char> {
    "The book ("@ + uuid_text(book_id.0) + ") is already checked out."@
}

/// The message when a return names another checkout or another user than
/// the open checkout of the book.
pub open spec fn cannot_return_message(event: UpdateReturned) -> Seq<char> {
    "The specified checkout (ID("@ + uuid_text(event.checkout_id.0) + "), User("@ + uuid_text(
        event.returned_by.0,
    ) + "), Book("@ + uuid_text(event.book_id.0) + ")) cannot be returned."@
}

fn book_not_found(book_id: BookId) -> (m: String)
    ensures
        m@ == book_not_found_message(book_id),
{
    let mut m = String::from_str("The book (");
    m.append(book_id.to_text().as_str());
    m.append(") was not found.");
    m
}

fn already_checked_out(book_id: BookId) -> (m: String)
    ensures
        m@ == already_checked_out_message(book_id),
{
    let mut m = String::from_str("The book (");
    m.append(book_id.to_text().as_str());
    m.append(") is already checked out.");
    m
}

fn cannot_return(event: UpdateReturned) -> (m: String)
    ensures
        m@ == cannot_return_message(event),
{
    let mut m = String::from_str("The specified checkout (ID(");
    m.append(event.checkout_id.to_text().as_str());
    m.append("), User(");
    m.append(event.returned_by.to_text().as_str());
    m.append("), Book(");
    m.append(event.book_id.to_text().as_str());
    m.append(")) cannot be returned.");
    m
}

/// The error for a failed statement: a failure to open or commit the
/// transaction is a transaction error, any other a failed operation.
pub open spec fn failure(opens_or_commits: bool, e: sqlx::Error) -> FlowStepView {
    if opens_or_commits {
        FlowStepView::Finish(Err(AppErrorView::TransactionError(e)))
    } else {
        FlowStepView::Finish(Err(AppErrorView::SpecificOperationError(e)))
    }
}

fn fail(opens_or_commits: bool, e: sqlx::Error) -> (out: FlowStep)
    ensures
        out@ == failure(opens_or_commits, e),
{
    if opens_or_commits {
        FlowStep::Finish(Err(AppError::TransactionError(e)))
    } else {
        FlowStep::Finish(Err(AppError::SpecificOperationError(e)))
    }
}

/// Whether a reply is of the kind that a statement gives: a lending state
/// for a lookup, a row count for a change, nothing for the others; or a
/// failure.
pub open spec fn reply_fits(expects_state: bool, expects_rows: bool, reply: DbReply) -> bool {
    match reply {
        DbReply::Failed(_) => true,
        DbReply::StateRow(_) => expects_state,
        DbReply::RowsAffected(_) => expects_rows,
        DbReply::Done => !expects_state && !expects_rows,
    }
}

fn fits(expects_state: bool, expects_rows: bool, reply: &DbReply) -> (b: bool)
    ensures
        b == reply_fits(expects_state, expects_rows, *reply),
{
    match reply {
        DbReply::Failed(_) => true,
        DbReply::StateRow(_) => expects_state,
        DbReply::RowsAffected(_) => expects_rows,
        DbReply::Done => !expects_state && !expects_rows,
    }
}

// ---------------------------------------------------------------------------
// Checking a book out

/// Where a checkout is in its transaction: the reply that it waits for.
#[derive(Clone, Copy, Debug, PartialEq, Eq, Structural)]
pub enum CreationStage {
    /// The reply to `Begin`.
    Begin,
    /// The reply to `SetSerializable`.
    Isolate,
    /// The lending state of the book.
    Lookup,
    /// The row count of the new checkout.
    Insert,
    /// The reply to `Commit`.
    Commit,
    /// Nothing: the flow is over.
    Finished,
}

/// Checking a book out: the request and the stage reached.
#[derive(Clone, Copy, Debug, PartialEq, Eq)]
pub struct CheckoutCreation {
    pub event: CreateCheckout,
    pub stage: CreationStage,
}

/// Whether a checkout at `stage` waits for a reply like `reply`.
pub open spec fn creation_expects(stage: CreationStage, reply: DbReply) -> bool {
    match stage {
        CreationStage::Begin | CreationStage::Isolate | CreationStage::Commit => reply_fits(
            false,
            false,
            reply,
        ),
        CreationStage::Lookup => reply_fits(true, false, reply),
        CreationStage::Insert => reply_fits(false, true, reply),
        CreationStage::Finished => false,
    }
}

/// The next stage and step of a checkout at `stage` that gets `reply`;
/// `fresh` is the identifier that a new checkout receives.
pub open spec fn creation_step(
    event: CreateCheckout,
    stage: CreationStage,
    reply: DbReply,
    fresh: CheckoutId,
) -> (CreationStage, FlowStepView) {
    match reply {
        DbReply::Failed(e) => (
            CreationStage::Finished,
            failure(stage is Begin || stage is Commit, e),
        ),
        DbReply::StateRow(state) => match state {
            None => (
                CreationStage::Finished,
                FlowStepView::Finish(
                    Err(AppErrorView::EntityNotFound(book_not_found_message(event.book_id))),
                ),
            ),
            Some(row) => if row.checkout_id is Some {
                (
                    CreationStage::Finished,
                    FlowStepView::Finish(
                        Err(
                            AppErrorView::UnprocessableEntity(
                                already_checked_out_message(event.book_id),
                            ),
                        ),
                    ),
                )
            } else {
                (
                    CreationStage::Insert,
                    FlowStepView::Run(
                        CheckoutCommand::InsertCheckout {
                            checkout_id: fresh,
                            book_id: event.book_id,
                            user_id: event.checked_out_by,
                            checked_out_at: event.checked_out_at,
                        },
                    ),
                )
            },
        },
        DbReply::RowsAffected(n) => if n < 1 {
            (
                CreationStage::Finished,
                FlowStepView::Finish(
                    Err(AppErrorView::EntityNotFound("No checkout has been created"@)),
                ),
            )
        } else {
            (CreationStage::Commit, FlowStepView::Run(CheckoutCommand::Commit))
        },
        DbReply::Done => match stage {
            CreationStage::Begin => (
                CreationStage::Isolate,
                FlowStepView::Run(CheckoutCommand::SetSerializable),
            ),
            CreationStage::Isolate => (
                CreationStage::Lookup,
                FlowStepView::Run(CheckoutCommand::FetchState { book_id: event.book_id }),
            ),
            _ => (CreationStage::Finished, FlowStepView::Finish(Ok(()))),
        },
    }
}

impl CheckoutCreation {
    /// Starts checking a book out: the first command opens the transaction.
    pub fn new(event: CreateCheckout) -> (res: (CheckoutCreation, CheckoutCommand))
        ensures
            res.0.event == event,
            res.0.stage == CreationStage::Begin,
            res.1 == CheckoutCommand::Begin,
    {
        (CheckoutCreation { event, stage: CreationStage::Begin }, CheckoutCommand::Begin)
    }

    /// Whether the flow waits for a reply like `reply`.
    pub fn expects(&self, reply: &DbReply) -> (b: bool)
        ensures
            b == creation_expects(self.stage, *reply),
    {
        match self.stage {
            CreationStage::Begin | CreationStage::Isolate | CreationStage::Commit => fits(
                false,
                false,
                reply,
            ),
            CreationStage::Lookup => fits(true, false, reply),
            CreationStage::Insert => fits(false, true, reply),
            CreationStage::Finished => false,
        }
    }

    /// Takes the reply to the last command; a new checkout gets `fresh`.
    pub fn step_with_id(&mut self, reply: DbReply, fresh: CheckoutId) -> (out: FlowStep)
        requires
            creation_expects(old(self).stage, reply),
        ensures
            final(self).event == old(self).event,
            (final(self).stage, out@) == creation_step(old(self).event, old(self).stage, reply, fresh),
    {
        let event = self.event;
        match reply {
            DbReply::Failed(e) => {
                let opens_or_commits = match self.stage {
                    CreationStage::Begin | CreationStage::Commit => true,
                    _ => false,
                };
                self.stage = CreationStage::Finished;
                fail(opens_or_commits, e)
            },
            DbReply::StateRow(None) => {
                self.stage = CreationStage::Finished;
                FlowStep::Finish(Err(AppError::EntityNotFound(book_not_found(event.book_id))))
            },
            DbReply::StateRow(Some(row)) => {
                if row.checkout_id.is_some() {
                    self.stage = CreationStage::Finished;
                    FlowStep::Finish(
                        Err(AppError::UnprocessableEntity(already_checked_out(event.book_id))),
                    )
                } else {
                    self.stage = CreationStage::Insert;
                    FlowStep::Run(
                        CheckoutCommand::InsertCheckout {
                            checkout_id: fresh,
                            book_id: event.book_id,
                            user_id: event.checked_out_by,
                            checked_out_at: event.checked_out_at,
                        },
                    )
                }
            },
            DbReply::RowsAffected(n) => {
                if n < 1 {
                    self.stage = CreationStage::Finished;
                    FlowStep::Finish(
                        Err(AppError::EntityNotFound(String::from_str("No checkout has been created"))),
                    )
                } else {
                    self.stage = CreationStage::Commit;
                    FlowStep::Run(CheckoutCommand::Commit)
                }
            },
            DbReply::Done => {
                match self.stage {
                    CreationStage::Begin => {
                        self.stage = CreationStage::Isolate;
                        FlowStep::Run(CheckoutCommand::SetSerializable)
                    },
                    CreationStage::Isolate => {
                        self.stage = CreationStage::Lookup;
                        FlowStep::Run(CheckoutCommand::FetchState { book_id: event.book_id })
                    },
                    _ => {
                        self.stage = CreationStage::Finished;
                        FlowStep::Finish(Ok(()))
                    },
                }
            },
        }
    }

    /// Takes the reply to the last command; a new checkout gets a fresh
    /// random version-4 identifier, drawn only once the reply shows the book
    /// free.
    pub fn step(&mut self, reply: DbReply) -> (out: FlowStep)
        requires
            creation_expects(old(self).stage, reply),
        ensures
            final(self).event == old(self).event,
            exists|fresh: CheckoutId|
                (reply matches DbReply::StateRow(Some(row)) && row.checkout_id is None ==> fresh.0
                    & 0x0000_0000_0000_F000_C000_0000_0000_0000u128
                    == 0x0000_0000_0000_4000_8000_0000_0000_0000u128)
                    && (final(self).stage, out@) == creation_step(
                    old(self).event,
                    old(self).stage,
                    reply,
                    fresh,
                ),
    {
        let book_is_free = match &reply {
            DbReply::StateRow(Some(row)) => row.checkout_id.is_none(),
            _ => false,
        };
        let fresh = if book_is_free {
            CheckoutId::new()
        } else {
            CheckoutId(0)
        };
        self.step_with_id(reply, fresh)
    }
}

// ---------------------------------------------------------------------------
// Returning a book

/// Where a return is in its transaction: the reply that it waits for.
#[derive(Clone, Copy, Debug, PartialEq, Eq, Structural)]
pub enum ReturnStage {
    /// The reply to `Begin`.
    Begin,
    /// The reply to `SetSerializable`.
    Isolate,
    /// The lending state of the book.
    Lookup,
    /// The row count of the returned-checkout record.
    Record,
    /// The row count of the removed open checkout.
    Remove,
    /// The reply to `Commit`.
    Commit,
    /// Nothing: the flow is over.
    Finished,
}

/// Returning a book: the request and the stage reached.
#[derive(Clone, Copy, Debug, PartialEq, Eq)]
pub struct CheckoutReturn {
    pub event: UpdateReturned,
    pub stage: ReturnStage,
}

/// Whether the book's open checkout, when its checkout and user are both
/// known, is another checkout or another user's than the request names.
pub open spec fn names_other_checkout(row: CheckoutStateRow, event: UpdateReturned) -> bool {
    match (row.checkout_id, row.user_id) {
        (Some(c), Some(u)) => c != event.checkout_id || u != event.returned_by,
        _ => false,
    }
}

/// Whether a return at `stage` waits for a reply like `reply`.
pub open spec fn return_expects(stage: ReturnStage, reply: DbReply) -> bool {
    match stage {
        ReturnStage::Begin | ReturnStage::Isolate | ReturnStage::Commit => reply_fits(
            false,
            false,
            reply,
        ),
        ReturnStage::Lookup => reply_fits(true, false, reply),
        ReturnStage::Record | ReturnStage::Remove => reply_fits(false, true, reply),
        ReturnStage::Finished => false,
    }
}

/// The next stage and step of a return at `stage` that gets `reply`.
pub open spec fn return_step(event: UpdateReturned, stage: ReturnStage, reply: DbReply) -> (
    ReturnStage,
    FlowStepView,
) {
    match reply {
        DbReply::Failed(e) => (
            ReturnStage::Finished,
            failure(stage is Begin || stage is Commit, e),
        ),
        DbReply::StateRow(state) => match state {
            None => (
                ReturnStage::Finished,
                FlowStepView::Finish(
                    Err(AppErrorView::EntityNotFound(book_not_found_message(event.book_id))),
                ),
            ),
            Some(row) => if names_other_checkout(row, event) {
                (
                    ReturnStage::Finished,
                    FlowStepView::Finish(
                        Err(AppErrorView::UnprocessableEntity(cannot_return_message(event))),
                    ),
                )
            } else {
                (
                    ReturnStage::Record,
                    FlowStepView::Run(
                        CheckoutCommand::InsertReturned {
                            checkout_id: event.checkout_id,
                            returned_at: event.returned_at,
                        },
                    ),
                )
            },
        },
        DbReply::RowsAffected(n) => if stage is Record {
            if n < 1 {
                (
                    ReturnStage::Finished,
                    FlowStepView::Finish(
                        Err(AppErrorView::EntityNotFound("No returning record has been created"@)),
                    ),
                )
            } else {
                (
                    ReturnStage::Remove,
                    FlowStepView::Run(
                        CheckoutCommand::DeleteCheckout { checkout_id: event.checkout_id },
                    ),
                )
            }
        } else {
            if n < 1 {
                (
                    ReturnStage::Finished,
                    FlowStepView::Finish(
                        Err(AppErrorView::EntityNotFound("No checkout record has been deleted"@)),
                    ),
                )
            } else {
                (ReturnStage::Commit, FlowStepView::Run(CheckoutCommand::Commit))
            }
        },
        DbReply::Done => match stage {
            ReturnStage::Begin => (
                ReturnStage::Isolate,
                FlowStepView::Run(CheckoutCommand::SetSerializable),
            ),
            ReturnStage::Isolate => (
                ReturnStage::Lookup,
                FlowStepView::Run(CheckoutCommand::FetchState { book_id: event.book_id }),
            ),
            _ => (ReturnStage::Finished, FlowStepView::Finish(Ok(()))),
        },
    }
}

impl CheckoutReturn {
    /// Starts returning a book: the first command opens the transaction.
    pub fn new(event: UpdateReturned) -> (res: (CheckoutReturn, CheckoutCommand))
        ensures
            res.0.event == event,
            res.0.stage == ReturnStage::Begin,
            res.1 == CheckoutCommand::Begin,
    {
        (CheckoutReturn { event, stage: ReturnStage::Begin }, CheckoutCommand::Begin)
    }

    /// Whether the flow waits for a reply like `reply`.
    pub fn expects(&self, reply: &DbReply) -> (b: bool)
        ensures
            b == return_expects(self.stage, *reply),
    {
        match self.stage {
            ReturnStage::Begin | ReturnStage::Isolate | ReturnStage::Commit => fits(
                false,
                false,
                reply,
            ),
            ReturnStage::Lookup => fits(true, false, reply),
            ReturnStage::Record | ReturnStage::Remove => fits(false, true, reply),
            ReturnStage::Finished => false,
        }
    }

    /// Takes the reply to the last command.
    pub fn step(&mut self, reply: DbReply) -> (out: FlowStep)
        requires
            return_expects(old(self).stage, reply),
        ensures
            final(self).event == old(self).event,
            (final(self).stage, out@) == return_step(old(self).event, old(self).stage, reply),
    {
        let event = self.event;
        match reply {
            DbReply::Failed(e) => {
                let opens_or_commits = match self.stage {
                    ReturnStage::Begin | ReturnStage::Commit => true,
                    _ => false,
                };
                self.stage = ReturnStage::Finished;
                fail(opens_or_commits, e)
            },
            DbReply::StateRow(None) => {
                self.stage = ReturnStage::Finished;
                FlowStep::Finish(Err(AppError::EntityNotFound(book_not_found(event.book_id))))
            },
            DbReply::StateRow(Some(row)) => {
                let other = match (row.checkout_id, row.user_id) {
                    (Some(c), Some(u)) => c != event.checkout_id || u != event.returned_by,
                    _ => false,
                };
                if other {
                    self.stage = ReturnStage::Finished;
                    FlowStep::Finish(Err(AppError::UnprocessableEntity(cannot_return(event))))
                } else {
                    self.stage = ReturnStage::Record;
                    FlowStep::Run(
                        CheckoutCommand::InsertReturned {
                            checkout_id: event.checkout_id,
                            returned_at: event.returned_at,
                        },
                    )
                }
            },
            DbReply::RowsAffected(n) => {
                if self.stage == ReturnStage::Record {
                    if n < 1 {
                        self.stage = ReturnStage::Finished;
                        FlowStep::Finish(
                            Err(
                                AppError::EntityNotFound(
                                    String::from_str("No returning record has been created"),
                                ),
                            ),
                        )
                    } else {
                        self.stage = ReturnStage::Remove;
                        FlowStep::Run(CheckoutCommand::DeleteCheckout { checkout_id: event.checkout_id })
                    }
                } else {
                    if n < 1 {
                        self.stage = ReturnStage::Finished;
                        FlowStep::Finish(
                            Err(
                                AppError::EntityNotFound(
                                    String::from_str("No checkout record has been deleted"),
                                ),
                            ),
                        )
                    } else {
                        self.stage = ReturnStage::Commit;
                        FlowStep::Run(CheckoutCommand::Commit)
                    }
                }
            },
            DbReply::Done => {
                match self.stage {
                    ReturnStage::Begin => {
                        self.stage = ReturnStage::Isolate;
                        FlowStep::Run(CheckoutCommand::SetSerializable)
                    },
                    ReturnStage::Isolate => {
                        self.stage = ReturnStage::Lookup;
                        FlowStep::Run(CheckoutCommand::FetchState { book_id: event.book_id })
                    },
                    _ => {
                        self.stage = ReturnStage::Finished;
                        FlowStep::Finish(Ok(()))
                    },
                }
            },
        }
    }
}

// ---------------------------------------------------------------------------
// Whole runs

/// The steps that a checkout at `stage` takes on the given replies, one
/// step per reply, until it finishes or a reply does not fit.
pub open spec fn creation_run(
    event: CreateCheckout,
    stage: CreationStage,
    replies: Seq<DbReply>,
    fresh: CheckoutId,
) -> Seq<FlowStepView>
    decreases replies.len(),
{
    if replies.len() == 0 || !creation_expects(stage, replies[0]) {
        Seq::empty()
    } else {
        let (next, out) = creation_step(event, stage, replies[0], fresh);
        seq![out] + creation_run(event, next, replies.drop_first(), fresh)
    }
}

/// The steps that a return at `stage` takes on the given replies, one step
/// per reply, until it finishes or a reply does not fit.
pub open spec fn return_run(event: UpdateReturned, stage: ReturnStage, replies: Seq<DbReply>) -> Seq<
    FlowStepView,
>
    decreases replies.len(),
{
    if replies.len() == 0 || !return_expects(stage, replies[0]) {
        Seq::empty()
    } else {
        let (next, out) = return_step(event, stage, replies[0]);
        seq![out] + return_run(event, next, replies.drop_first())
    }
}

/// The replies on which a checkout gets to commit: the transaction opens,
/// becomes serializable, the book exists and is not lent, and the new
/// checkout is recorded.
pub open spec fn creation_may_commit(replies: Seq<DbReply>) -> bool {
    &&& replies.len() >= 4
    &&& replies[0] is Done
    &&& replies[1] is Done
    &&& replies[2] matches DbReply::StateRow(Some(row)) && row.checkout_id is None
    &&& replies[3] matches DbReply::RowsAffected(n) && n >= 1
}

/// The replies on which a return gets to commit: the transaction opens,
/// becomes serializable, the book exists and its open checkout is not
/// another checkout or another user's, the return is recorded and the open
/// checkout removed.
pub open spec fn return_may_commit(event: UpdateReturned, replies: Seq<DbReply>) -> bool {
    &&& replies.len() >= 5
    &&& replies[0] is Done
    &&& replies[1] is Done
    &&& replies[2] matches DbReply::StateRow(Some(row)) && !names_other_checkout(row, event)
    &&& replies[3] matches DbReply::RowsAffected(n) && n >= 1
    &&& replies[4] matches DbReply::RowsAffected(n) && n >= 1
}

proof fn lemma_contains_cons<T>(a: T, t: Seq<T>, x: T)
    ensures
        (seq![a] + t).contains(x) <==> (a == x || t.contains(x)),
{
    let s = seq![a] + t;
    if t.contains(x) {
        let i = choose|i: int| 0 <= i < t.len() && t[i] == x;
        assert(s[i + 1] == x);
    }
    if a == x {
        assert(s[0] == x);
    }
    if s.contains(x) {
        let i = choose|i: int| 0 <= i < s.len() && s[i] == x;
        if i > 0 {
            assert(t[i - 1] == x);
        }
    }
}

proof fn lemma_creation_run_contains(
    event: CreateCheckout,
    stage: CreationStage,
    replies: Seq<DbReply>,
    fresh: CheckoutId,
    x: FlowStepView,
)
    ensures
        creation_run(event, stage, replies, fresh).contains(x) <==> (replies.len() > 0
            && creation_expects(stage, replies[0]) && (creation_step(
            event,
            stage,
            replies[0],
            fresh,
        ).1 == x || creation_run(
            event,
            creation_step(event, stage, replies[0], fresh).0,
            replies.drop_first(),
            fresh,
        ).contains(x))),
{
    if replies.len() > 0 && creation_expects(stage, replies[0]) {
        let (next, out) = creation_step(event, stage, replies[0], fresh);
        lemma_contains_cons(out, creation_run(event, next, replies.drop_first(), fresh), x);
    }
}

proof fn lemma_return_run_contains(
    event: UpdateReturned,
    stage: ReturnStage,
    replies: Seq<DbReply>,
    x: FlowStepView,
)
    ensures
        return_run(event, stage, replies).contains(x) <==> (replies.len() > 0 && return_expects(
            stage,
            replies[0],
        ) && (return_step(event, stage, replies[0]).1 == x || return_run(
            event,
            return_step(event, stage, replies[0]).0,
            replies.drop_first(),
        ).contains(x))),
{
    if replies.len() > 0 && return_expects(stage, replies[0]) {
        let (next, out) = return_step(event, stage, replies[0]);
        lemma_contains_cons(out, return_run(event, next, replies.drop_first()), x);
    }
}

/// Unfolds the first `k` steps of a checkout's run, giving the stage
/// reached after them.
proof fn creation_unfold(
    event: CreateCheckout,
    stage: CreationStage,
    replies: Seq<DbReply>,
    fresh: CheckoutId,
    x: FlowStepView,
    k: nat,
)
    ensures
        creation_run(event, stage, replies, fresh).contains(x) <==> creation_contains_within(
            event,
            stage,
            replies,
            fresh,
            x,
            k,
        ),
    decreases k,
{
    lemma_creation_run_contains(event, stage, replies, fresh, x);
    if k > 0 && replies.len() > 0 && creation_expects(stage, replies[0]) {
        creation_unfold(
            event,
            creation_step(event, stage, replies[0], fresh).0,
            replies.drop_first(),
            fresh,
            x,
            (k - 1) as nat,
        );
    }
}

/// Whether `x` occurs among the first `k` steps of a checkout's run, or
/// anywhere in what follows them.
spec fn creation_contains_within(
    event: CreateCheckout,
    stage: CreationStage,
    replies: Seq<DbReply>,
    fresh: CheckoutId,
    x: FlowStepView,
    k: nat,
) -> bool
    decreases k,
{
    if replies.len() > 0 && creation_expects(stage, replies[0]) {
        let (next, out) = creation_step(event, stage, replies[0], fresh);
        out == x || if k == 0 {
            creation_run(event, next, replies.drop_first(), fresh).contains(x)
        } else {
            creation_contains_within(event, next, replies.drop_first(), fresh, x, (k - 1) as nat)
        }
    } else {
        false
    }
}

/// A checkout issues its commit exactly when the transaction opened,
/// became serializable, the book was found and not lent, and the new
/// checkout was recorded.
pub proof fn lemma_creation_commits_only_after_checks(
    event: CreateCheckout,
    replies: Seq<DbReply>,
    fresh: CheckoutId,
)
    ensures
        creation_run(event, CreationStage::Begin, replies, fresh).contains(
            FlowStepView::Run(CheckoutCommand::Commit),
        ) <==> creation_may_commit(replies),
{
    let x = FlowStepView::Run(CheckoutCommand::Commit);
    creation_unfold(event, CreationStage::Begin, replies, fresh, x, 5);
    reveal_with_fuel(creation_contains_within, 6);
}

/// A checkout succeeds exactly when it gets to commit and the commit goes
/// through.
pub proof fn lemma_creation_succeeds_only_after_commit(
    event: CreateCheckout,
    replies: Seq<DbReply>,
    fresh: CheckoutId,
)
    ensures
        creation_run(event, CreationStage::Begin, replies, fresh).contains(
            FlowStepView::Finish(Ok(())),
        ) <==> (creation_may_commit(replies) && replies.len() >= 5 && replies[4] is Done),
{
    let x = FlowStepView::Finish(Ok(()));
    creation_unfold(event, CreationStage::Begin, replies, fresh, x, 5);
    reveal_with_fuel(creation_contains_within, 6);
}

/// A checkout is recorded only for a book that was found and not lent, and
/// the record is the request's book, borrower and time under the fresh
/// identifier.
pub proof fn lemma_creation_records_only_available_books(
    event: CreateCheckout,
    replies: Seq<DbReply>,
    fresh: CheckoutId,
    checkout_id: CheckoutId,
    book_id: BookId,
    user_id: UserId,
    checked_out_at: i64,
)
    ensures
        creation_run(event, CreationStage::Begin, replies, fresh).contains(
            FlowStepView::Run(
                CheckoutCommand::InsertCheckout { checkout_id, book_id, user_id, checked_out_at },
            ),
        ) <==> {
            &&& replies.len() >= 3
            &&& replies[0] is Done
            &&& replies[1] is Done
            &&& replies[2] matches DbReply::StateRow(Some(row)) && row.checkout_id is None
            &&& checkout_id == fresh
            &&& book_id == event.book_id
            &&& user_id == event.checked_out_by
            &&& checked_out_at == event.checked_out_at
        },
{
    let x = FlowStepView::Run(
        CheckoutCommand::InsertCheckout { checkout_id, book_id, user_id, checked_out_at },
    );
    creation_unfold(event, CreationStage::Begin, replies, fresh, x, 5);
    reveal_with_fuel(creation_contains_within, 6);
}

/// Whether `x` occurs among the first `k` steps of a return's run, or
/// anywhere in what follows them.
spec fn return_contains_within(
    event: UpdateReturned,
    stage: ReturnStage,
    replies: Seq<DbReply>,
    x: FlowStepView,
    k: nat,
) -> bool
    decreases k,
{
    if replies.len() > 0 && return_expects(stage, replies[0]) {
        let (next, out) = return_step(event, stage, replies[0]);
        out == x || if k == 0 {
            return_run(event, next, replies.drop_first()).contains(x)
        } else {
            return_contains_within(event, next, replies.drop_first(), x, (k - 1) as nat)
        }
    } else {
        false
    }
}

/// Unfolds the first `k` steps of a return's run.
proof fn return_unfold(
    event: UpdateReturned,
    stage: ReturnStage,
    replies: Seq<DbReply>,
    x: FlowStepView,
    k: nat,
)
    ensures
        return_run(event, stage, replies).contains(x) <==> return_contains_within(
            event,
            stage,
            replies,
            x,
            k,
        ),
    decreases k,
{
    lemma_return_run_contains(event, stage, replies, x);
    if k > 0 && replies.len() > 0 && return_expects(stage, replies[0]) {
        return_unfold(
            event,
            return_step(event, stage, replies[0]).0,
            replies.drop_first(),
            x,
            (k - 1) as nat,
        );
    }
}

/// A return issues its commit exactly when the transaction opened, became
/// serializable, the book was found and its open checkout is not another
/// checkout or another user's, the return was recorded and the open
/// checkout removed.
pub proof fn lemma_return_commits_only_after_checks(event: UpdateReturned, replies: Seq<DbReply>)
    ensures
        return_run(event, ReturnStage::Begin, replies).contains(
            FlowStepView::Run(CheckoutCommand::Commit),
        ) <==> return_may_commit(event, replies),
{
    let x = FlowStepView::Run(CheckoutCommand::Commit);
    return_unfold(event, ReturnStage::Begin, replies, x, 6);
    reveal_with_fuel(return_contains_within, 7);
}

/// A return succeeds exactly when it gets to commit and the commit goes
/// through.
pub proof fn lemma_return_succeeds_only_after_commit(event: UpdateReturned, replies: Seq<DbReply>)
    ensures
        return_run(event, ReturnStage::Begin, replies).contains(FlowStepView::Finish(Ok(())))
            <==> (return_may_commit(event, replies) && replies.len() >= 6 && replies[5] is Done),
{
    let x = FlowStepView::Finish(Ok(()));
    return_unfold(event, ReturnStage::Begin, replies, x, 6);
    reveal_with_fuel(return_contains_within, 7);
}

/// A return is recorded only when the book was found and its open checkout
/// is not another checkout or another user's; the record is the request's
/// checkout and return time.
pub proof fn lemma_return_records_only_own_checkout(
    event: UpdateReturned,
    replies: Seq<DbReply>,
    checkout_id: CheckoutId,
    returned_at: i64,
)
    ensures
        return_run(event, ReturnStage::Begin, replies).contains(
            FlowStepView::Run(CheckoutCommand::InsertReturned { checkout_id, returned_at }),
        ) <==> {
            &&& replies.len() >= 3
            &&& replies[0] is Done
            &&& replies[1] is Done
            &&& replies[2] matches DbReply::StateRow(Some(row)) && !names_other_checkout(row, event)
            &&& checkout_id == event.checkout_id
            &&& returned_at == event.returned_at
        },
{
    let x = FlowStepView::Run(CheckoutCommand::InsertReturned { checkout_id, returned_at });
    return_unfold(event, ReturnStage::Begin, replies, x, 6);
    reveal_with_fuel(return_contains_within, 7);
}

/// An open checkout is removed only after its return was recorded, and it
/// is the request's checkout.
pub proof fn lemma_return_removes_only_after_record(
    event: UpdateReturned,
    replies: Seq<DbReply>,
    checkout_id: CheckoutId,
)
    ensures
        return_run(event, ReturnStage::Begin, replies).contains(
            FlowStepView::Run(CheckoutCommand::DeleteCheckout { checkout_id }),
        ) <==> {
            &&& replies.len() >= 4
            &&& replies[0] is Done
            &&& replies[1] is Done
            &&& replies[2] matches DbReply::StateRow(Some(row)) && !names_other_checkout(row, event)
            &&& replies[3] matches DbReply::RowsAffected(n) && n >= 1
            &&& checkout_id == event.checkout_id
        },
{
    let x = FlowStepView::Run(CheckoutCommand::DeleteCheckout { checkout_id });
    return_unfold(event, ReturnStage::Begin, replies, x, 6);
    reveal_with_fuel(return_contains_within, 7);
}

/// A checkout finishes at most once, with its last step: every earlier step
/// is a command.
pub proof fn lemma_creation_finishes_last(
    event: CreateCheckout,
    stage: CreationStage,
    replies: Seq<DbReply>,
    fresh: CheckoutId,
)
    ensures
        forall|i: int|
            0 <= i < creation_run(event, stage, replies, fresh).len() - 1 ==> #[trigger] creation_run(
                event,
                stage,
                replies,
                fresh,
            )[i] is Run,
    decreases replies.len(),
{
    if replies.len() > 0 && creation_expects(stage, replies[0]) {
        let (next, out) = creation_step(event, stage, replies[0], fresh);
        let rest = creation_run(event, next, replies.drop_first(), fresh);
        lemma_creation_finishes_last(event, next, replies.drop_first(), fresh);
        if out is Finish {
            assert(next == CreationStage::Finished);
            assert(rest.len() == 0);
        }
        let run = creation_run(event, stage, replies, fresh);
        assert(run == seq![out] + rest);
        assert forall|i: int| 0 <= i < run.len() - 1 implies #[trigger] run[i] is Run by {
            if i > 0 {
                assert(run[i] == rest[i - 1]);
            }
        }
    }
}

/// A return finishes at most once, with its last step: every earlier step
/// is a command.
pub proof fn lemma_return_finishes_last(
    event: UpdateReturned,
    stage: ReturnStage,
    replies: Seq<DbReply>,
)
    ensures
        forall|i: int|
            0 <= i < return_run(event, stage, replies).len() - 1 ==> #[trigger] return_run(
                event,
                stage,
                replies,
            )[i] is Run,
    decreases replies.len(),
{
    if replies.len() > 0 && return_expects(stage, replies[0]) {
        let (next, out) = return_step(event, stage, replies[0]);
        let rest = return_run(event, next, replies.drop_first());
        lemma_return_finishes_last(event, next, replies.drop_first());
        if out is Finish {
            assert(next == ReturnStage::Finished);
            assert(rest.len() == 0);
        }
        let run = return_run(event, stage, replies);
        assert(run == seq![out] + rest);
        assert forall|i: int| 0 <= i < run.len() - 1 implies #[trigger] run[i] is Run by {
            if i > 0 {
                assert(run[i] == rest[i - 1]);
            }
        }
    }
}

/// What a return decides on the book's lending state: a missing book is not
/// found; an open checkout recorded with checkout `c` and user `u` lets the
/// return go on only when `c` is the requested checkout and `u` the
/// requesting user, and refuses it (422) when either differs; otherwise the
/// return goes on to record the requested checkout with its return time.
pub proof fn lemma_return_lookup_decision(event: UpdateReturned, state: Option<CheckoutStateRow>)
    ensures
        ({
            let (next, out) = return_step(event, ReturnStage::Lookup, DbReply::StateRow(state));
            let proceed = FlowStepView::Run(
                CheckoutCommand::InsertReturned {
                    checkout_id: event.checkout_id,
                    returned_at: event.returned_at,
                },
            );
            match state {
                None => next == ReturnStage::Finished && out == FlowStepView::Finish(Err(AppErrorView::EntityNotFound(book_not_found_message(event.book_id)))),
                Some(row) => match (row.checkout_id, row.user_id) {
                    (Some(c), Some(u)) => {
                        &&& (c == event.checkout_id && u == event.returned_by) ==> (next
                            == ReturnStage::Record && out == proceed)
                        &&& (c != event.checkout_id || u != event.returned_by) ==> (next
                            == ReturnStage::Finished && out == FlowStepView::Finish(Err(AppErrorView::UnprocessableEntity(cannot_return_message(event)))))
                    },
                    _ => next == ReturnStage::Record && out == proceed,
                },
            }
        }),
{
}

/// What a checkout decides on the book's lending state: a missing book is
/// not found; a book with an open checkout is refused (422); a free book
/// goes on to record a checkout of the requested book by the requesting
/// user at the requested time, under the given fresh identifier.
pub proof fn lemma_creation_lookup_decision(
    event: CreateCheckout,
    state: Option<CheckoutStateRow>,
    fresh: CheckoutId,
)
    ensures
        ({
            let (next, out) = creation_step(
                event,
                CreationStage::Lookup,
                DbReply::StateRow(state),
                fresh,
            );
            match state {
                None => next == CreationStage::Finished && out == FlowStepView::Finish(Err(AppErrorView::EntityNotFound(book_not_found_message(event.book_id)))),
                Some(row) => if row.checkout_id is Some {
                    next == CreationStage::Finished && out == FlowStepView::Finish(Err(AppErrorView::UnprocessableEntity(already_checked_out_message(event.book_id))))
                } else {
                    next == CreationStage::Insert && out == FlowStepView::Run(
                        CheckoutCommand::InsertCheckout {
                            checkout_id: fresh,
                            book_id: event.book_id,
                            user_id: event.checked_out_by,
                            checked_out_at: event.checked_out_at,
                        },
                    )
                },
            }
        }),
{
}

} // verus!
