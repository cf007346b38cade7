//! Laws of the service's edges: entry points, the hidden window, activation, and calls
//! that are made in turn.
use vstd::prelude::*;

use crate::calls::{next_call, optional_call, Next};
use crate::guid::Guid;
use crate::registration::clsid_tip;
use crate::server::{
    can_unload_now, class_object_request, create_instance_request, server_status, window_message,
    TspTip, WindowAction,
};

verus! {

/// A call that went well is reported as zero, and any other by its own code.
pub proof fn lemma_status_is_the_code(outcome: Result<(), i32>, status: i32)
    requires
        call_ensures(server_status, (outcome,), status),
    ensures
        outcome is Ok ==> status == 0,
        outcome is Err ==> status == outcome->Err_0,
{
}

/// The module is never unloaded.
pub proof fn lemma_module_stays(status: i32)
    requires
        call_ensures(can_unload_now, (), status),
    ensures
        status == 1,
{
}

/// A class object is handed out exactly for the module's own class and where every
/// pointer is there. A missing pointer is told before a wrong class.
pub proof fn lemma_class_object_is_for_the_own_class(
    own: Guid,
    clsid: Option<Guid>,
    has_iid: bool,
    has_target: bool,
    answer: Result<(), i32>,
)
    requires
        call_ensures(clsid_tip, (), own),
        call_ensures(class_object_request, (clsid, has_iid, has_target), answer),
    ensures
        answer is Ok <==> clsid == Some(own) && has_iid && has_target,
        clsid is None || !has_iid || !has_target ==> answer is Err && answer->Err_0 + 0x1_0000_0000
            == 0x8000_4003,
        clsid is Some && clsid->0 != own && has_iid && has_target ==> answer is Err
            && answer->Err_0 + 0x1_0000_0000 == 0x8004_0111,
{
}

/// An instance is refused exactly as a part of another object.
pub proof fn lemma_instances_stand_alone(aggregated: bool, answer: Result<(), i32>)
    requires
        call_ensures(create_instance_request, (aggregated,), answer),
    ensures
        answer is Err <==> aggregated,
        answer is Err ==> answer->Err_0 + 0x1_0000_0000 == 0x8000_4002,
{
}

/// The hidden window hands a timer to the service exactly when the message is a
/// timer's and the service is stored with the window, and under the id in the message.
/// It keeps timer and destruction messages to itself and leaves all others to the
/// system.
pub proof fn lemma_window_hands_on_timers(
    message: u32,
    wparam: usize,
    user_data: isize,
    action: WindowAction,
)
    requires
        call_ensures(window_message, (message, wparam, user_data), action),
    ensures
        action is FireTimer <==> message == 0x0113 && user_data != 0,
        action is FireTimer ==> action->timer_id == wparam,
        action is Default <==> message != 0x0113 && message != 0x0002,
{
}

/// A service is not active before an activation.
pub proof fn lemma_new_service_is_inactive<T, S>(tip: TspTip<T, S>)
    requires
        call_ensures(TspTip::<T, S>::new, (), tip),
    ensures
        tip.thread_mgr is None && tip.sink is None && tip.tid == 0,
{
}

/// An activation is kept as it was, whatever was kept before: its thread manager, its
/// key sink and its client id, which is handed out. Without a thread manager, and where
/// it failed, nothing changes and no client id is handed out; a failure is handed on.
pub proof fn lemma_activation_is_kept<T, S, F>(
    tip: &mut TspTip<T, S>,
    outcome: Result<Option<(T, S, u32)>, F>,
    active: Result<Option<u32>, F>,
)
    requires
        call_ensures(TspTip::<T, S>::activation_ended::<F>, (tip, outcome), active),
    ensures
        outcome matches Ok(Some((thread_mgr, sink, tid))) ==> {
            &&& final(tip).thread_mgr == Some(thread_mgr)
            &&& final(tip).sink == Some(sink)
            &&& final(tip).tid == tid
            &&& active is Ok && active->Ok_0 == Some(tid)
        },
        outcome matches Ok(None) ==> *final(tip) == *old(tip) && active is Ok
            && active->Ok_0 is None,
        outcome matches Err(error) ==> *final(tip) == *old(tip) && active is Err && active->Err_0
            == error,
{
}

/// A deactivation begins by giving up the thread manager: that one is handed out, with
/// the client id of the activation, and is no longer held. The sink stays for now.
pub proof fn lemma_manager_is_given_up<T, S>(
    tip: &mut TspTip<T, S>,
    advised: Option<(T, u32)>,
)
    requires
        call_ensures(TspTip::<T, S>::begin_deactivation, (tip,), advised),
    ensures
        advised is Some <==> old(tip).thread_mgr is Some,
        advised matches Some((thread_mgr, tid)) ==> thread_mgr == old(tip).thread_mgr->0 && tid
            == old(tip).tid,
        final(tip).thread_mgr is None,
        final(tip).sink == old(tip).sink,
        final(tip).tid == old(tip).tid,
{
}

/// A deactivation ends by dropping the sink, unless unadvising it failed; the failure
/// is handed on.
pub proof fn lemma_sink_is_dropped<T, S, F>(
    tip: &mut TspTip<T, S>,
    outcome: Result<(), F>,
    ended: Result<(), F>,
)
    requires
        call_ensures(TspTip::<T, S>::end_deactivation::<F>, (tip, outcome), ended),
    ensures
        outcome is Ok ==> final(tip).sink is None && ended is Ok,
        outcome is Err ==> final(tip).sink == old(tip).sink && ended is Err && ended->Err_0
            == outcome->Err_0,
        final(tip).thread_mgr == old(tip).thread_mgr,
        final(tip).tid == old(tip).tid,
{
}

/// A call that is made only where there is something to make it on fails exactly when
/// it is made and fails, and with its own failure.
pub proof fn lemma_unmade_calls_do_not_fail<F>(
    made: Option<Result<(), F>>,
    outcome: Result<(), F>,
)
    requires
        call_ensures(optional_call::<F>, (made,), outcome),
    ensures
        outcome is Err <==> made is Some && made->0 is Err,
        outcome is Err ==> outcome->Err_0 == made->0->Err_0,
{
}

/// Calls are made in turn, each once: after a success comes the next place, as long as
/// there is one, and after a failure comes none. The end hands the last outcome on.
pub proof fn lemma_calls_come_in_turn<F>(
    total: usize,
    made: usize,
    last: Result<(), F>,
    next: Next<F>,
)
    requires
        call_ensures(next_call::<F>, (total, made, last), next),
    ensures
        next is Call <==> last is Ok && made < total,
        next is Call ==> next->place == made,
        next is Ended ==> (next->result is Ok <==> last is Ok),
        last is Err ==> next is Ended && next->result->Err_0 == last->Err_0,
{
}

} // verus!
