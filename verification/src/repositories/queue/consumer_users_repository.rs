//! The decisions of the user consumer: which messages it reads, in what
//! order it handles them and marks their sets consumed, and what each
//! operation on a user asks of the search index. Polling the queue,
//! committing offsets and indexing are the caller's.
use crate::domain::User;
use crate::errors::QueueOperationError;
use crate::models::queue::QueueUser;
use crate::text::{str_eq, string_from_utf8};
use vstd::prelude::*;
use vstd::utf8::*;

verus! {

/// What an operation on a user asks of the search index.
#[derive(Debug)]
pub enum UserOperation {
    /// Index the user.
    Create(User),
    /// Nothing is done yet for this operation.
    Ignore,
    /// No handler knows the operation; it is reported under its name.
    Unknown(String),
}

/// Decides an operation read from a message: `create` with its user indexes
/// it, `create` without one is an error; `update` and `delete` without a
/// user are left alone; anything else, `update` or `delete` with a user
/// among it, is unknown.
pub fn operate(value: QueueUser) -> (res: Result<UserOperation, QueueOperationError>)
    ensures
        value.operation@ == "create"@ && value.user is Some ==> (res matches Ok(
            UserOperation::Create(u),
        ) && Some(u) == value.user),
        value.operation@ == "create"@ && value.user is None ==> res matches Err(
            QueueOperationError::MissingUser,
        ),
        (value.operation@ == "update"@ || value.operation@ == "delete"@) && value.user is None
            ==> res matches Ok(UserOperation::Ignore),
        value.operation@ != "create"@ && !((value.operation@ == "update"@ || value.operation@
            == "delete"@) && value.user is None) ==> (res matches Ok(UserOperation::Unknown(op))
            && op@ == value.operation@),
{
    proof {
        reveal_strlit("create");
        reveal_strlit("update");
        reveal_strlit("delete");
        assert("create"@[0] != "update"@[0]);
        assert("create"@[0] != "delete"@[0]);
    }
    let is_create = str_eq(value.operation.as_str(), "create");
    let is_update = str_eq(value.operation.as_str(), "update");
    let is_delete = str_eq(value.operation.as_str(), "delete");
    match value.user {
        Some(user) => {
            if is_create {
                Ok(UserOperation::Create(user))
            } else {
                Ok(UserOperation::Unknown(value.operation))
            }
        },
        None => {
            if is_create {
                Err(QueueOperationError::MissingUser)
            } else if is_update || is_delete {
                Ok(UserOperation::Ignore)
            } else {
                Ok(UserOperation::Unknown(value.operation))
            }
        },
    }
}

/// Reads a message's value as text; a value that is not UTF-8 is reported
/// and skipped.
pub fn message_text(value: &[u8]) -> (res: Option<String>)
    ensures
        res is Some <==> valid_utf8(value@),
        res matches Some(s) ==> s@ == decode_utf8(value@),
{
    match string_from_utf8(vstd::slice::slice_to_vec(value)) {
        Ok(s) => Some(s),
        Err(_) => None,
    }
}

/// A step of handling a batch of message sets.
#[derive(Debug)]
pub enum ConsumerAction {
    /// Read the operation in this text and carry it out (see `operate`).
    Operate(String),
    /// The message is not UTF-8: report it and go on.
    SkipInvalid,
    /// Mark the message set of this index consumed.
    ConsumeSet(usize),
    /// Commit what was consumed.
    Commit,
}

/// A step of handling, taken by views.
pub enum ConsumerStep {
    Operate(Seq<char>),
    SkipInvalid,
    ConsumeSet(nat),
    Commit,
}

/// A step taken by its view.
pub open spec fn action_view(a: ConsumerAction) -> ConsumerStep {
    match a {
        ConsumerAction::Operate(t) => ConsumerStep::Operate(t@),
        ConsumerAction::SkipInvalid => ConsumerStep::SkipInvalid,
        ConsumerAction::ConsumeSet(i) => ConsumerStep::ConsumeSet(i as nat),
        ConsumerAction::Commit => ConsumerStep::Commit,
    }
}

/// What a message asks for: its text when it is UTF-8, else to be skipped.
pub open spec fn message_step(value: Seq<u8>) -> ConsumerStep {
    if valid_utf8(value) {
        ConsumerStep::Operate(decode_utf8(value))
    } else {
        ConsumerStep::SkipInvalid
    }
}

/// The steps of the first message sets: each message of a set in order,
/// then the set marked consumed.
pub open spec fn sets_steps(sets: Seq<Seq<Seq<u8>>>) -> Seq<ConsumerStep>
    decreases sets.len(),
{
    if sets.len() == 0 {
        Seq::empty()
    } else {
        sets_steps(sets.drop_last()) + sets.last().map_values(|m: Seq<u8>| message_step(m)) + seq![
            ConsumerStep::ConsumeSet((sets.len() - 1) as nat),
        ]
    }
}

/// The message sets of a batch, each taken by the values of its messages.
pub open spec fn batch_view(sets: Seq<Vec<Vec<u8>>>) -> Seq<Seq<Seq<u8>>> {
    sets.map_values(|ms: Vec<Vec<u8>>| ms@.map_values(|m: Vec<u8>| m@))
}

/// How a batch of message sets is handled: each message of each set in
/// order, a message that is not UTF-8 reported and skipped, each set marked
/// consumed after its messages, and the whole committed at the end.
pub fn plan_messages(sets: &Vec<Vec<Vec<u8>>>) -> (res: Vec<ConsumerAction>)
    ensures
        res@.map_values(|a: ConsumerAction| action_view(a)) == sets_steps(batch_view(sets@)) + seq![
            ConsumerStep::Commit,
        ],
{
    let mut plan: Vec<ConsumerAction> = Vec::new();
    let mut i: usize = 0;
    while i < sets.len()
        invariant
            i <= sets.len(),
            plan@.map_values(|a: ConsumerAction| action_view(a)) == sets_steps(
                batch_view(sets@).take(i as int),
            ),
        decreases sets.len() - i,
    {
        let set = &sets[i];
        let ghost before = plan@.map_values(|a: ConsumerAction| action_view(a));
        let ghost msgs = batch_view(sets@)[i as int];
        assert(msgs == set@.map_values(|m: Vec<u8>| m@));
        let mut j: usize = 0;
        while j < set.len()
            invariant
                j <= set.len(),
                msgs == set@.map_values(|m: Vec<u8>| m@),
                plan@.map_values(|a: ConsumerAction| action_view(a)) == before + msgs.take(
                    j as int,
                ).map_values(|m: Seq<u8>| message_step(m)),
            decreases set.len() - j,
        {
            let step = match message_text(set[j].as_slice()) {
                Some(text) => ConsumerAction::Operate(text),
                None => ConsumerAction::SkipInvalid,
            };
            assert(action_view(step) == message_step(msgs[j as int]));
            let ghost old_plan = plan@;
            plan.push(step);
            assert(plan@.map_values(|a: ConsumerAction| action_view(a)) =~= old_plan.map_values(
                |a: ConsumerAction| action_view(a),
            ).push(message_step(msgs[j as int])));
            assert(msgs.take(j + 1).map_values(|m: Seq<u8>| message_step(m)) =~= msgs.take(
                j as int,
            ).map_values(|m: Seq<u8>| message_step(m)).push(message_step(msgs[j as int])));
            assert(before + msgs.take(j + 1).map_values(|m: Seq<u8>| message_step(m)) =~= (before
                + msgs.take(j as int).map_values(|m: Seq<u8>| message_step(m))).push(
                message_step(msgs[j as int]),
            ));
            j = j + 1;
        }
        let ghost mid_plan = plan@;
        plan.push(ConsumerAction::ConsumeSet(i));
        proof {
            assert(plan@.map_values(|a: ConsumerAction| action_view(a)) =~= mid_plan.map_values(
                |a: ConsumerAction| action_view(a),
            ).push(ConsumerStep::ConsumeSet(i as nat)));
            let b = batch_view(sets@);
            assert(msgs.take(set.len() as int) =~= msgs);
            assert(b.take(i + 1).drop_last() =~= b.take(i as int));
            assert(b.take(i + 1).last() == msgs);
        }
        assert(plan@.map_values(|a: ConsumerAction| action_view(a)) =~= sets_steps(
            batch_view(sets@).take(i + 1),
        ));
        i = i + 1;
    }
    let ghost last_plan = plan@;
    plan.push(ConsumerAction::Commit);
    assert(plan@.map_values(|a: ConsumerAction| action_view(a)) =~= last_plan.map_values(
        |a: ConsumerAction| action_view(a),
    ).push(ConsumerStep::Commit));
    assert(batch_view(sets@).take(sets.len() as int) =~= batch_view(sets@));
    assert(plan@.map_values(|a: ConsumerAction| action_view(a)) =~= sets_steps(batch_view(sets@))
        + seq![ConsumerStep::Commit]);
    plan
}

} // verus!
