//! The payloads that travel on the queue.
use crate::domain::User;
use vstd::prelude::*;

verus! {

/// A payload that names the operation it asks for.
pub trait QueueOperation {
    /// The operation's name.
    spec fn operation_name(&self) -> Seq<char>;

    fn operation(&self) -> (res: &str)
        ensures
            res@ == self.operation_name(),
    ;
}

/// An operation on a user: its name and, where it carries one, the user.
#[derive(Debug)]
pub struct QueueUser {
    pub operation: String,
    pub user: Option<User>,
}

impl QueueUser {
    /// An operation carrying the user.
    pub fn new(op: &str, user: User) -> (res: Self)
        ensures
            res.operation@ == op@,
            res.user == Some(user),
    {
        QueueUser { operation: op.to_owned(), user: Some(user) }
    }

    /// An operation without a user.
    pub fn delete(op: &str) -> (res: Self)
        ensures
            res.operation@ == op@,
            res.user is None,
    {
        QueueUser { operation: op.to_owned(), user: None }
    }
}

impl QueueOperation for QueueUser {
    open spec fn operation_name(&self) -> Seq<char> {
        self.operation@
    }

    fn operation(&self) -> (res: &str) {
        self.operation.as_str()
    }
}

} // verus!
