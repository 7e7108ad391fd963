//! Native addons: the status codes of their interface, and what the event
//! loop has to know about their pending work.

use vstd::prelude::*;

verus! {

/// Why a call of the addon interface failed.
#[derive(Clone, Copy, Debug, PartialEq, Eq, Structural)]
pub enum Error {
    InvalidArg,
    ObjectExpected,
    StringExpected,
    NameExpected,
    FunctionExpected,
    NumberExpected,
    BooleanExpected,
    ArrayExpected,
    GenericFailure,
    PendingException,
    Cancelled,
    EscapeCalledTwice,
    HandleScopeMismatch,
    CallbackScopeMismatch,
    QueueFull,
    Closing,
    BigIntExpected,
    DateExpected,
    ArrayBufferExpected,
    DetachableArraybufferExpected,
    WouldDeadlock,
}

/// The status code of a call that succeeded.
pub const NAPI_OK: i32 = 0;

impl Error {
    /// The status code that the interface gives to the error: the errors
    /// are numbered from 1 in the order in which they are declared.
    pub open spec fn spec_status(self) -> i32 {
        match self {
            Error::InvalidArg => 1,
            Error::ObjectExpected => 2,
            Error::StringExpected => 3,
            Error::NameExpected => 4,
            Error::FunctionExpected => 5,
            Error::NumberExpected => 6,
            Error::BooleanExpected => 7,
            Error::ArrayExpected => 8,
            Error::GenericFailure => 9,
            Error::PendingException => 10,
            Error::Cancelled => 11,
            Error::EscapeCalledTwice => 12,
            Error::HandleScopeMismatch => 13,
            Error::CallbackScopeMismatch => 14,
            Error::QueueFull => 15,
            Error::Closing => 16,
            Error::BigIntExpected => 17,
            Error::DateExpected => 18,
            Error::ArrayBufferExpected => 19,
            Error::DetachableArraybufferExpected => 20,
            Error::WouldDeadlock => 21,
        }
    }

    pub fn status(&self) -> (code: i32)
        ensures
            code == self.spec_status(),
            code != NAPI_OK,
    {
        match self {
            Error::InvalidArg => 1,
            Error::ObjectExpected => 2,
            Error::StringExpected => 3,
            Error::NameExpected => 4,
            Error::FunctionExpected => 5,
            Error::NumberExpected => 6,
            Error::BooleanExpected => 7,
            Error::ArrayExpected => 8,
            Error::GenericFailure => 9,
            Error::PendingException => 10,
            Error::Cancelled => 11,
            Error::EscapeCalledTwice => 12,
            Error::HandleScopeMismatch => 13,
            Error::CallbackScopeMismatch => 14,
            Error::QueueFull => 15,
            Error::Closing => 16,
            Error::BigIntExpected => 17,
            Error::DateExpected => 18,
            Error::ArrayBufferExpected => 19,
            Error::DetachableArraybufferExpected => 20,
            Error::WouldDeadlock => 21,
        }
    }
}

/// The status code of the result of a call.
pub fn status_of(result: Result<(), Error>) -> (code: i32)
    ensures
        code == (match result {
            Ok(_) => NAPI_OK,
            Err(e) => e.spec_status(),
        }),
{
    match result {
        Ok(_) => NAPI_OK,
        Err(e) => e.status(),
    }
}

/// News of a function that an addon may call from any thread.
#[derive(Clone, Copy, Debug, PartialEq, Eq, Structural)]
pub enum ThreadSafeFunctionStatus {
    Alive,
    Dead,
}

/// What the event loop knows of the addons: how many pieces of work wait
/// to be run, and how many thread-safe functions are alive.
#[derive(Clone, Copy, Debug, PartialEq, Eq, Structural)]
pub struct NapiState {
    pub pending_async_work: usize,
    pub active_threadsafe_functions: usize,
}

/// The number of functions alive after the first `n` pieces of news: one
/// more for each that came alive, one less for each that died, never below
/// zero and never more than a machine can count.
pub open spec fn spec_alive(start: usize, news: Seq<ThreadSafeFunctionStatus>, n: int) -> usize
    decreases n,
{
    if n <= 0 {
        start
    } else {
        let before = spec_alive(start, news, n - 1);
        match news[n - 1] {
            ThreadSafeFunctionStatus::Alive => if before < usize::MAX {
                (before + 1) as usize
            } else {
                before
            },
            ThreadSafeFunctionStatus::Dead => if before > 0 {
                (before - 1) as usize
            } else {
                before
            },
        }
    }
}

impl NapiState {
    /// Nothing waits and nothing is alive.
    pub fn new() -> (s: NapiState)
        ensures
            s == (NapiState { pending_async_work: 0, active_threadsafe_functions: 0 }),
    {
        NapiState { pending_async_work: 0, active_threadsafe_functions: 0 }
    }

    /// One turn of the event loop: `received` more pieces of work have
    /// come in and `news` has come of thread-safe functions. Returns how
    /// many pieces of work are to be run now, which is all that wait, and
    /// whether the loop has to come round again: it has if a function is
    /// alive or work was run, since work may schedule more.
    pub fn event_loop_turn(&mut self, received: usize, news: &Vec<ThreadSafeFunctionStatus>) -> (r: (
        usize,
        bool,
    ))
        requires
            old(self).pending_async_work + received <= usize::MAX,
        ensures
            r.0 == old(self).pending_async_work + received,
            final(self).pending_async_work == 0,
            final(self).active_threadsafe_functions == spec_alive(
                old(self).active_threadsafe_functions,
                news@,
                news@.len() as int,
            ),
            r.1 == (final(self).active_threadsafe_functions > 0 || r.0 > 0),
    {
        let mut i: usize = 0;
        while i < news.len()
            invariant
                i <= news@.len(),
                self.pending_async_work == old(self).pending_async_work,
                self.active_threadsafe_functions == spec_alive(
                    old(self).active_threadsafe_functions,
                    news@,
                    i as int,
                ),
            decreases news@.len() - i,
        {
            match news[i] {
                ThreadSafeFunctionStatus::Alive => {
                    if self.active_threadsafe_functions < usize::MAX {
                        self.active_threadsafe_functions += 1;
                    }
                },
                ThreadSafeFunctionStatus::Dead => {
                    if self.active_threadsafe_functions > 0 {
                        self.active_threadsafe_functions -= 1;
                    }
                },
            }
            i += 1;
        }
        let work = self.pending_async_work + received;
        self.pending_async_work = 0;
        (work, self.active_threadsafe_functions > 0 || work > 0)
    }
}

} // verus!
