//! Decisions at the service's edges: the module's entry points, the hidden
//! window, and activation.
use vstd::prelude::*;

use crate::calls::outcome_if_made;
use crate::guid::{guid_of, guids_equal, Guid};
use crate::registration::{clsid_tip, CLSID_TIP};
use crate::tip::TipModel;

verus! {

/// Success.
pub const S_OK: i32 = 0;

/// Success that answers no.
pub const S_FALSE: i32 = 1;

/// A pointer argument is null (0x80004003).
pub const E_POINTER: i32 = -2147467261;

/// The interface is not supported (0x80004002).
pub const E_NOINTERFACE: i32 = -2147467262;

/// The module does not serve the class (0x80040111).
pub const CLASS_E_CLASSNOTAVAILABLE: i32 = -2147221231;

/// The message of a timer that fires.
pub const WM_TIMER: u32 = 0x0113;

/// The message of a window that is destroyed.
pub const WM_DESTROY: u32 = 0x0002;

/// The status of an outcome: success, or the failure's code.
pub open spec fn status_of(outcome: Result<(), i32>) -> i32 {
    match outcome {
        Ok(_) => S_OK,
        Err(code) => code,
    }
}

/// The status of an outcome: success, or the failure's code.
pub fn server_status(outcome: Result<(), i32>) -> (status: i32)
    ensures
        status == status_of(outcome),
{
    match outcome {
        Ok(()) => S_OK,
        Err(code) => code,
    }
}

/// Whether the module may be unloaded: never.
pub fn can_unload_now() -> (status: i32)
    ensures
        status == S_FALSE,
{
    S_FALSE
}

/// What a request for a class object is answered.
pub open spec fn class_object_answer(
    clsid: Option<Guid>,
    has_iid: bool,
    has_target: bool,
) -> Result<(), i32> {
    if clsid is None || !has_iid || !has_target {
        Err(E_POINTER)
    } else if clsid->0 != guid_of(CLSID_TIP) {
        Err(CLASS_E_CLASSNOTAVAILABLE)
    } else {
        Ok(())
    }
}

/// Whether a class object is handed out: `clsid` is the class asked for, `has_iid`
/// and `has_target` say whether the other two pointers are there.
pub fn class_object_request(clsid: Option<Guid>, has_iid: bool, has_target: bool) -> (answer: Result<
    (),
    i32,
>)
    ensures
        answer == class_object_answer(clsid, has_iid, has_target),
{
    match clsid {
        None => Err(E_POINTER),
        Some(clsid) => if !has_iid || !has_target {
            Err(E_POINTER)
        } else if guids_equal(&clsid, &clsid_tip()) {
            Ok(())
        } else {
            Err(CLASS_E_CLASSNOTAVAILABLE)
        },
    }
}

/// Whether an instance is made: never as a part of another object.
pub fn create_instance_request(aggregated: bool) -> (answer: Result<(), i32>)
    ensures
        aggregated ==> answer == Err::<(), i32>(E_NOINTERFACE),
        !aggregated ==> answer == Ok::<(), i32>(()),
{
    if aggregated {
        Err(E_NOINTERFACE)
    } else {
        Ok(())
    }
}

/// What the hidden window does with a message.
#[derive(Clone, Copy, Debug, PartialEq, Eq, Structural)]
pub enum WindowAction {
    /// Hands the timer to the service.
    FireTimer { timer_id: usize },
    /// Nothing more.
    Done,
    /// Leaves the message to the system.
    Default,
}

/// What the hidden window does with a message: `user_data` is what was stored with
/// the window, zero before the service is.
pub fn window_message(message: u32, wparam: usize, user_data: isize) -> (action: WindowAction)
    ensures
        action == (if message == WM_TIMER && user_data != 0 {
            WindowAction::FireTimer { timer_id: wparam }
        } else if message == WM_TIMER || message == WM_DESTROY {
            WindowAction::Done
        } else {
            WindowAction::Default
        }),
{
    if message == WM_TIMER {
        if user_data != 0 {
            WindowAction::FireTimer { timer_id: wparam }
        } else {
            WindowAction::Done
        }
    } else if message == WM_DESTROY {
        WindowAction::Done
    } else {
        WindowAction::Default
    }
}

/// The service as the host holds it: `T` is the thread manager it was activated
/// with, `S` the key sink it advised.
pub struct TspTip<T, S> {
    pub thread_mgr: Option<T>,
    pub sink: Option<S>,
    pub tid: u32,
}

impl<T, S> TspTip<T, S> {
    /// A service that is not active.
    pub open spec fn inactive() -> Self {
        TspTip { thread_mgr: None, sink: None, tid: 0 }
    }

    /// The service after its thread manager is given up.
    pub open spec fn released(self) -> Self {
        TspTip { thread_mgr: None, ..self }
    }

    /// The thread manager to unadvise from, and the client id to do it under.
    pub open spec fn advised(self) -> Option<(T, u32)> {
        match self.thread_mgr {
            Some(thread_mgr) => Some((thread_mgr, self.tid)),
            None => None,
        }
    }

    /// The service after the key sink was, or could not be, unadvised.
    pub open spec fn unadvised(self, done: bool) -> Self {
        if done {
            TspTip { sink: None, ..self }
        } else {
            self
        }
    }

    /// A whole deactivation: the service after it and how it ends. `unadvise` is how
    /// unadvising the key sink ends if there is a thread manager to do it with.
    pub open spec fn deactivated<F>(self, unadvise: Result<(), F>) -> (Self, Result<(), F>) {
        let ended = outcome_if_made(
            if self.advised() is Some {
                Some(unadvise)
            } else {
                None
            },
        );
        (self.released().unadvised(ended is Ok), ended)
    }

    /// A service that is not active.
    pub fn new() -> (tip: Self)
        ensures
            tip == Self::inactive(),
    {
        TspTip { thread_mgr: None, sink: None, tid: 0 }
    }

    /// The service after an activation ended: nothing changes where it failed or
    /// the host gave no thread manager.
    pub open spec fn after_activation<F>(self, outcome: Result<Option<(T, S, u32)>, F>) -> Self {
        match outcome {
            Ok(Some((thread_mgr, sink, tid))) => TspTip {
                thread_mgr: Some(thread_mgr),
                sink: Some(sink),
                tid,
            },
            _ => self,
        }
    }

    /// Takes how an activation ended: with the thread manager, the key sink that was
    /// advised and the client id, with nothing where the host gave no thread
    /// manager, or with a failure, which is handed on. Hands out the client id if
    /// the service is active now.
    pub fn activation_ended<F>(&mut self, outcome: Result<Option<(T, S, u32)>, F>) -> (active: Result<
        Option<u32>,
        F,
    >)
        ensures
            *final(self) == old(self).after_activation(outcome),
            active == (match outcome {
                Ok(Some((_, _, tid))) => Ok(Some(tid)),
                Ok(None) => Ok(None),
                Err(error) => Err(error),
            }),
    {
        match outcome {
            Ok(Some((thread_mgr, sink, tid))) => {
                self.thread_mgr = Some(thread_mgr);
                self.sink = Some(sink);
                self.tid = tid;
                Ok(Some(tid))
            },
            Ok(None) => Ok(None),
            Err(error) => Err(error),
        }
    }

    /// Begins a deactivation: gives up the thread manager, with the client id
    /// under which the key sink is to be unadvised.
    pub fn begin_deactivation(&mut self) -> (advised: Option<(T, u32)>)
        ensures
            *final(self) == old(self).released(),
            advised == old(self).advised(),
    {
        match self.thread_mgr.take() {
            Some(thread_mgr) => Some((thread_mgr, self.tid)),
            None => None,
        }
    }

    /// Ends a deactivation: the key sink is dropped unless unadvising it failed,
    /// and a failure is handed on.
    pub fn end_deactivation<F>(&mut self, outcome: Result<(), F>) -> (ended: Result<(), F>)
        ensures
            *final(self) == old(self).unadvised(outcome is Ok),
            ended == outcome,
    {
        if outcome.is_ok() {
            self.sink = None;
        }
        outcome
    }
}

/// A deactivation unadvises from the thread manager of the activation, under its
/// client id; afterwards neither manager nor sink is held, and another
/// deactivation unadvises from nothing.
pub proof fn lemma_deactivation_undoes_activation<T, S, F>(
    before: TspTip<T, S>,
    thread_mgr: T,
    sink: S,
    tid: u32,
)
    ensures
        ({
            let active = before.after_activation(Ok::<_, F>(Some((thread_mgr, sink, tid))));
            let after = active.released().unadvised(true);
            &&& active.advised() == Some((thread_mgr, tid))
            &&& after.thread_mgr is None
            &&& after.sink is None
            &&& after.advised() is None
        }),
{
}

/// A deactivation that cannot unadvise the key sink fails with that failure. It gives
/// up the thread manager all the same, keeps the sink and leaves the window alone. The
/// next one has nothing to unadvise from, so it succeeds, drops the sink and destroys
/// the window.
pub proof fn lemma_deactivation_after_a_failure<T, S, C, M, E, F>(
    tip: TspTip<T, S>,
    state: TipModel<C, M, E>,
    error: F,
    unadvise: Result<(), F>,
)
    requires
        tip.thread_mgr is Some,
    ensures
        ({
            let (between, first) = tip.deactivated(Err(error));
            let (after, second) = between.deactivated(unadvise);
            &&& first == Err::<(), F>(error)
            &&& between == TspTip::<T, S> { thread_mgr: None, sink: tip.sink, tid: tip.tid }
            &&& state.window_after_deactivation(first is Ok) is None
            &&& between.advised() is None
            &&& second == Ok::<(), F>(())
            &&& after == TspTip::<T, S> { thread_mgr: None, sink: None, tid: tip.tid }
            &&& state.window_after_deactivation(second is Ok) == (if state.hwnd != 0 {
                Some(state.hwnd)
            } else {
                None
            })
        }),
{
}

/// A deactivation that can unadvise the key sink, or has nothing to unadvise from,
/// succeeds, holds neither manager nor sink afterwards and destroys the window.
pub proof fn lemma_good_deactivation<T, S, C, M, E, F>(
    tip: TspTip<T, S>,
    state: TipModel<C, M, E>,
    unadvise: Result<(), F>,
)
    requires
        tip.thread_mgr is Some ==> unadvise is Ok,
    ensures
        ({
            let (after, ended) = tip.deactivated(unadvise);
            &&& ended is Ok
            &&& after == TspTip::<T, S> { thread_mgr: None, sink: None, tid: tip.tid }
            &&& state.window_after_deactivation(ended is Ok) is Some <==> state.hwnd != 0
        }),
{
}

/// An activation that failed, or for which the host gave no thread manager, leaves
/// the service as it was: a deactivation then finds what it would have found
/// before.
pub proof fn lemma_failed_activation_changes_nothing<T, S, F>(before: TspTip<T, S>, error: F)
    ensures
        before.after_activation(Err(error)) == before,
        before.after_activation(Ok::<_, F>(None)) == before,
{
}

/// The module serves its own class and no other, and only where every pointer is
/// there.
pub proof fn lemma_serves_own_class_only(clsid: Option<Guid>, has_iid: bool, has_target: bool)
    ensures
        status_of(class_object_answer(clsid, has_iid, has_target)) == S_OK <==> (clsid == Some(
            guid_of(CLSID_TIP),
        ) && has_iid && has_target),
{
}

} // verus!
