//! Handles of asynchronous tasks, and what is handed to the host runtime when
//! a task is created, queried, or raises an event.
//!
//! The host is reached only through the calls that the caller passes in: the
//! contracts say what each call is given and what is made of its answer.

use vstd::prelude::*;
use vstd::slice::*;
use vstd::string::*;

verus! {

/// Handle to an asynchronous task of the host: the number that the host
/// assigned to it. It confers no ownership.
#[derive(Debug)]
pub struct AsyncTaskObject(i64);

impl View for AsyncTaskObject {
    type V = i64;

    closed spec fn view(&self) -> i64 {
        self.0
    }
}

/// Why a text cannot name an event.
#[derive(Clone, Copy, Debug, PartialEq, Eq, Structural)]
pub enum EventNameError {
    /// The name is empty.
    Empty,
    /// The name holds a zero byte, first at this position.
    InteriorNul { position: usize },
}

/// Whether bytes can name an event: at least one byte, none of them zero.
pub open spec fn is_event_name(bytes: Seq<u8>) -> bool {
    bytes.len() > 0 && forall|i: int| 0 <= i < bytes.len() ==> bytes[i] != 0
}

/// Whether the first zero byte of `bytes` is at `position`.
pub open spec fn first_nul_at(bytes: Seq<u8>, position: int) -> bool {
    &&& 0 <= position < bytes.len()
    &&& bytes[position] == 0
    &&& forall|i: int| 0 <= i < position ==> bytes[i] != 0
}

/// The name as the host takes it: its bytes, then the terminator.
pub open spec fn terminated(bytes: Seq<u8>) -> Seq<u8> {
    bytes.push(0)
}

/// Checks that a text can name an event, and says why where it cannot.
pub fn check_event_name(name: &str) -> (r: Result<(), EventNameError>)
    ensures
        r is Ok <==> is_event_name(name.spec_bytes()),
        r == Err::<(), EventNameError>(EventNameError::Empty) <==> name.spec_bytes().len() == 0,
        forall|p: usize|
            r == Err::<(), EventNameError>(EventNameError::InteriorNul { position: p })
                <==> first_nul_at(name.spec_bytes(), p as int),
{
    let bytes = name.as_bytes();
    if bytes.len() == 0 {
        return Err(EventNameError::Empty);
    }
    let mut i: usize = 0;
    while i < bytes.len()
        invariant
            i <= bytes.len(),
            bytes@ == name.spec_bytes(),
            forall|j: int| 0 <= j < i ==> bytes@[j] != 0,
        decreases bytes.len() - i,
    {
        if bytes[i] == 0 {
            return Err(EventNameError::InteriorNul { position: i });
        }
        i += 1;
    }
    Ok(())
}

impl AsyncTaskObject {
    /// The handle for the number that the host assigned to a task.
    pub fn from_id(id: i64) -> (task: AsyncTaskObject)
        ensures
            task@ == id,
    {
        AsyncTaskObject(id)
    }

    /// The number that identifies the task to the host.
    pub fn id(&self) -> (id: i64)
        ensures
            id == self@,
    {
        let AsyncTaskObject(id) = *self;
        id
    }

    /// Whether the task is still alive: asks the host's liveness predicate
    /// about the number of the task, and reads any answer but zero as yes.
    pub fn is_alive<H: FnOnce(i64) -> i32>(&self, alive_q: H) -> (r: bool)
        requires
            alive_q.requires((self@,)),
        ensures
            exists|answer: i32| alive_q.ensures((self@,), answer) && r == (answer != 0),
    {
        let answer: i32 = alive_q(self.id());
        answer != 0
    }

    /// Whether the task has been started: asks the host's started predicate
    /// about the number of the task, and reads any answer but zero as yes.
    pub fn is_started<H: FnOnce(i64) -> i32>(&self, started_q: H) -> (r: bool)
        requires
            started_q.requires((self@,)),
        ensures
            exists|answer: i32| started_q.ensures((self@,), answer) && r == (answer != 0),
    {
        let answer: i32 = started_q(self.id());
        answer != 0
    }

    /// Raises a named event of the task: hands the host, once, the number of
    /// the task, the name with its terminator, and the payload, which moves
    /// to the host unchanged.
    pub fn raise_async_event<P, H: FnOnce(i64, Vec<u8>, P)>(&self, name: &str, data: P, raise: H)
        requires
            is_event_name(name.spec_bytes()),
            forall|c_name: Vec<u8>|
                c_name@ == terminated(name.spec_bytes()) ==> #[trigger] raise.requires(
                    (self@, c_name, data),
                ),
        ensures
            exists|c_name: Vec<u8>|
                c_name@ == terminated(name.spec_bytes()) && #[trigger] raise.ensures(
                    (self@, c_name, data),
                    (),
                ),
    {
        let mut c_name = slice_to_vec(name.as_bytes());
        c_name.push(0);
        raise(self.id(), c_name, data)
    }
}

/// Creates a task: asks the host, once, to register and start the worker,
/// and returns the handle for the number that the host assigned.
pub fn spawn_async_task_with_thread<H: FnOnce() -> i64>(create_task: H) -> (task: AsyncTaskObject)
    requires
        create_task.requires(()),
    ensures
        create_task.ensures((), task@),
{
    AsyncTaskObject(create_task())
}

} // verus!
