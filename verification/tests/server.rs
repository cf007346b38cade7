//! Identifiers, registration and the module's edges.
use awaza::calls::{next_call, optional_call, Next};
use awaza::guid::{guid_to_reg_path, guids_equal, Guid};
use awaza::registration::{
    class_key_path, clsid_tip, profile_guid, register_plan, register_steps, server_key_path,
    unregister_progress, unregister_steps, Category, Manager, RegisterStep, UnregisterStep,
};
use awaza::server::{
    can_unload_now, class_object_request, create_instance_request, server_status, window_message,
    TspTip, WindowAction, CLASS_E_CLASSNOTAVAILABLE, E_NOINTERFACE, E_POINTER, S_FALSE, S_OK,
    WM_DESTROY, WM_TIMER,
};
use awaza::tip::TipState;
use awaza::utf16::wide;

const CLASS_KEY: &str = "CLSID\\{8F2C1A6E-3D47-4B8A-9E12-5A6F7C8D9E0F}";

#[test]
fn identifiers_are_cut_from_the_highest_bits() {
    let clsid = clsid_tip();
    assert_eq!(clsid.data1, 0x8f2c1a6e);
    assert_eq!(clsid.data2, 0x3d47);
    assert_eq!(clsid.data3, 0x4b8a);
    assert_eq!(clsid.data4, [0x9e, 0x12, 0x5a, 0x6f, 0x7c, 0x8d, 0x9e, 0x0f]);
    let profile = profile_guid();
    assert_eq!(profile.data1, 0x1b3d5f7a);
    assert_eq!(profile.data2, 0x9c2e);
    assert_eq!(profile.data3, 0x4f6b);
    assert_eq!(profile.data4, [0x8a, 0x1d, 0x3e, 0x5f, 0x7a, 0x9c, 0x2e, 0x4f]);
}

#[test]
fn registry_names_keep_leading_zeros() {
    let guid = Guid { data1: 0xA, data2: 0xB, data3: 0xC0, data4: [0, 1, 2, 3, 4, 5, 6, 0xFF] };
    assert_eq!(guid_to_reg_path(&guid), "{0000000A-000B-00C0-0001-0203040506FF}");
    assert_eq!(
        guid_to_reg_path(&profile_guid()),
        "{1B3D5F7A-9C2E-4F6B-8A1D-3E5F7A9C2E4F}"
    );
}

#[test]
fn registry_names_tell_identifiers_apart() {
    let clsid = clsid_tip();
    let mut near = clsid;
    near.data4[7] = 0x1f;
    assert!(guids_equal(&clsid, &clsid_tip()));
    assert!(!guids_equal(&clsid, &near));
    assert_ne!(guid_to_reg_path(&clsid), guid_to_reg_path(&near));
    assert_eq!(guid_to_reg_path(&near).chars().count(), 38);
    near = clsid;
    near.data2 += 1;
    assert!(!guids_equal(&clsid, &near));
}

fn told(step: &RegisterStep) -> String {
    match step {
        RegisterStep::CreateKey { path } => format!("create {path}"),
        RegisterStep::SetValue { path, value } => {
            format!("set {path} {:?} {}", value.name, value.data)
        }
        RegisterStep::CloseKey { path } => format!("close {path}"),
        RegisterStep::OpenManager { manager } => format!("open {manager:?}"),
        RegisterStep::AddCategory { clsid, category } => {
            format!("category {} {category:?}", guid_to_reg_path(clsid))
        }
        RegisterStep::AddService { clsid } => format!("service {}", guid_to_reg_path(clsid)),
        RegisterStep::AddProfile { clsid, langid, profile, .. } => format!(
            "profile {} {langid:#06x} {}",
            guid_to_reg_path(clsid),
            guid_to_reg_path(profile)
        ),
    }
}

#[test]
fn registration_writes_keys_categories_and_profile() {
    let clsid = "{8F2C1A6E-3D47-4B8A-9E12-5A6F7C8D9E0F}";
    let server = format!("{CLASS_KEY}\\InprocServer32");
    assert_eq!(server_key_path(), server);
    let steps = register_steps("C:\\awaza\\awaza.dll");
    let made: Vec<String> = steps.iter().map(told).collect();
    assert_eq!(
        made,
        vec![
            format!("create {CLASS_KEY}"),
            format!("set {CLASS_KEY} None awaza TIP"),
            format!("close {CLASS_KEY}"),
            format!("create {server}"),
            format!("set {server} None C:\\awaza\\awaza.dll"),
            format!("set {server} Some(\"ThreadingModel\") Apartment"),
            format!("close {server}"),
            "open Categories".to_string(),
            format!("category {clsid} Keyboard"),
            format!("category {clsid} ImmersiveSupport"),
            format!("category {clsid} SystraySupport"),
            "open Profiles".to_string(),
            format!("service {clsid}"),
            format!("profile {clsid} 0x0411 {{1B3D5F7A-9C2E-4F6B-8A1D-3E5F7A9C2E4F}}"),
        ]
    );
    match &steps[13] {
        RegisterStep::AddProfile { description, icon_file, icon_index, .. } => {
            assert_eq!(description, &wide("awaza"));
            assert_eq!(icon_file, &wide("C:\\awaza\\awaza.dll"));
            assert_eq!(*icon_index, 0);
        }
        other => panic!("unexpected {other:?}"),
    }
}

#[test]
fn without_a_module_nothing_is_registered() {
    assert!(matches!(register_plan(Err(-3)), Err(-3)));
    let plan = register_plan(Ok("x.dll".to_string())).unwrap();
    let made: Vec<String> = plan.iter().map(told).collect();
    let steps: Vec<String> = register_steps("x.dll").iter().map(told).collect();
    assert_eq!(made, steps);
}

#[test]
fn unregistration_takes_back_what_registration_wrote() {
    let mut keys = Vec::new();
    let mut categories = Vec::new();
    let mut service = false;
    for step in register_steps("x.dll") {
        match step {
            RegisterStep::CreateKey { path } => keys.push(path),
            RegisterStep::AddCategory { category, .. } => categories.push(category),
            RegisterStep::AddService { clsid } => service = clsid == clsid_tip(),
            _ => {}
        }
    }
    assert!(service);
    assert_eq!(keys.len(), 2);
    assert_eq!(categories.len(), 3);
    for step in unregister_steps() {
        match step {
            UnregisterStep::RemoveCategory { clsid, category } => {
                assert_eq!(clsid, clsid_tip());
                categories.retain(|kept: &Category| *kept != category);
            }
            UnregisterStep::RemoveService { clsid } => service = clsid != clsid_tip(),
            UnregisterStep::DeleteKeyTree { path } => {
                assert_eq!(path, class_key_path());
                let below = format!("{path}\\");
                keys.retain(|kept| *kept != path && !kept.starts_with(&below));
            }
            _ => {}
        }
    }
    assert!(!service);
    assert!(keys.is_empty());
    assert!(categories.is_empty());
}

/// Makes the calls of a registration of which the one at `failing` fails with `code`.
fn register_with(failing: usize, code: i32) -> (Vec<String>, Result<(), i32>) {
    let steps = register_steps("x.dll");
    let mut made = Vec::new();
    let mut last = Ok(());
    loop {
        match next_call(steps.len(), made.len(), last) {
            Next::Call { place } => {
                last = if place == failing { Err(code) } else { Ok(()) };
                made.push(told(&steps[place]));
            }
            Next::Ended { result } => return (made, result),
        }
    }
}

#[test]
fn registration_stops_at_the_first_failure() {
    let (all, ended) = register_with(usize::MAX, 0);
    assert_eq!(ended, Ok(()));
    assert_eq!(all.len(), 14);
    assert_eq!(server_status(ended), S_OK);
    for failing in 0..14 {
        let (made, result) = register_with(failing, -7 - failing as i32);
        assert_eq!(made, all[..failing + 1]);
        assert_eq!(result, Err(-7 - failing as i32));
        assert_eq!(server_status(result), -7 - failing as i32);
    }
}

#[test]
fn calls_go_on_until_one_fails() {
    assert_eq!(next_call(4, 0, Ok::<(), i32>(())), Next::Call { place: 0 });
    assert_eq!(next_call(4, 3, Ok::<(), i32>(())), Next::Call { place: 3 });
    assert_eq!(next_call(4, 4, Ok::<(), i32>(())), Next::Ended { result: Ok(()) });
    assert_eq!(next_call(4, 2, Err("refused")), Next::Ended { result: Err("refused") });
    assert_eq!(next_call(4, 4, Err("refused")), Next::Ended { result: Err("refused") });
    assert_eq!(next_call(0, 0, Ok::<(), i32>(())), Next::Ended { result: Ok(()) });
}

/// The places that an unregistration visits when the calls at `failing` fail.
fn unregister_with(failing: &[usize]) -> Vec<usize> {
    let steps = unregister_steps();
    let mut places = Vec::new();
    let mut done = 0;
    let mut last = Ok(());
    loop {
        match unregister_progress(&steps, done, last) {
            Next::Call { place } => {
                last = if failing.contains(&place) { Err(-1) } else { Ok(()) };
                places.push(place);
                done = place + 1;
            }
            Next::Ended { result } => {
                assert_eq!(result, Ok(()));
                return places;
            }
        }
    }
}

#[test]
fn unregistration_goes_on_to_the_end() {
    let steps = unregister_steps();
    assert_eq!(steps.len(), 8);
    assert!(matches!(&steps[0], UnregisterStep::OpenManager { manager: Manager::Profiles }));
    assert!(matches!(&steps[1], UnregisterStep::RemoveService { clsid } if *clsid == clsid_tip()));
    assert!(matches!(&steps[2], UnregisterStep::OpenManager { manager: Manager::Categories }));
    assert!(matches!(&steps[7], UnregisterStep::DropWindowClass));
    assert_eq!(unregister_with(&[]), vec![0, 1, 2, 3, 4, 5, 6, 7]);
    assert_eq!(unregister_with(&[1, 3, 4, 5, 6, 7]), vec![0, 1, 2, 3, 4, 5, 6, 7]);
}

#[test]
fn what_needs_an_unopened_part_is_left_out() {
    assert_eq!(unregister_with(&[0]), vec![0, 2, 3, 4, 5, 6, 7]);
    assert_eq!(unregister_with(&[2]), vec![0, 1, 2, 6, 7]);
    assert_eq!(unregister_with(&[0, 2, 6]), vec![0, 2, 6, 7]);
}

#[test]
fn codes_are_the_ones_of_the_system() {
    assert_eq!(S_OK, 0);
    assert_eq!(S_FALSE, 1);
    assert_eq!(windows_core::HRESULT(E_POINTER), windows_core::HRESULT(0x8000_4003_u32 as i32));
    assert_eq!(E_NOINTERFACE, 0x8000_4002_u32 as i32);
    assert_eq!(CLASS_E_CLASSNOTAVAILABLE, 0x8004_0111_u32 as i32);
    assert_eq!(server_status(Ok(())), S_OK);
    assert_eq!(server_status(Err(E_NOINTERFACE)), E_NOINTERFACE);
    assert_eq!(can_unload_now(), S_FALSE);
}

#[test]
fn class_objects_are_for_the_own_class() {
    let own = Some(clsid_tip());
    assert_eq!(class_object_request(own, true, true), Ok(()));
    assert_eq!(class_object_request(None, true, true), Err(E_POINTER));
    assert_eq!(class_object_request(own, false, true), Err(E_POINTER));
    assert_eq!(class_object_request(own, true, false), Err(E_POINTER));
    let other = Some(profile_guid());
    assert_eq!(class_object_request(other, true, true), Err(CLASS_E_CLASSNOTAVAILABLE));
    assert_eq!(class_object_request(other, false, true), Err(E_POINTER));
}

#[test]
fn instances_are_not_aggregated() {
    assert_eq!(create_instance_request(false), Ok(()));
    assert_eq!(create_instance_request(true), Err(E_NOINTERFACE));
}

#[test]
fn the_hidden_window_hands_on_timers() {
    assert_eq!(window_message(WM_TIMER, 3, 0x10), WindowAction::FireTimer { timer_id: 3 });
    assert_eq!(window_message(WM_TIMER, 3, 0), WindowAction::Done);
    assert_eq!(window_message(WM_DESTROY, 3, 0x10), WindowAction::Done);
    assert_eq!(window_message(0x000F, 3, 0x10), WindowAction::Default);
    assert_eq!(WM_TIMER, 275);
    assert_eq!(WM_DESTROY, 2);
}

#[test]
fn deactivation_undoes_activation() {
    let mut tip: TspTip<&str, u8> = TspTip::new();
    assert_eq!(tip.begin_deactivation(), None);
    assert_eq!(tip.activation_ended(Ok::<_, i32>(Some(("manager", 5, 77)))), Ok(Some(77)));
    assert_eq!(tip.begin_deactivation(), Some(("manager", 77)));
    assert_eq!(tip.end_deactivation(Err::<(), i32>(-1)), Err(-1));
    assert_eq!(tip.sink, Some(5));
    assert_eq!(tip.end_deactivation(Ok::<(), i32>(())), Ok(()));
    assert_eq!(tip.sink, None);
    assert_eq!(tip.begin_deactivation(), None);
}

#[test]
fn a_failed_activation_changes_nothing() {
    let mut tip: TspTip<&str, u8> = TspTip::new();
    assert_eq!(tip.activation_ended(Err(-9)), Err(-9));
    assert_eq!(tip.activation_ended(Ok::<_, i32>(None)), Ok(None));
    assert_eq!((tip.thread_mgr, tip.sink, tip.tid), (None, None, 0));
    assert_eq!(tip.activation_ended(Ok::<_, i32>(Some(("first", 1, 11)))), Ok(Some(11)));
    assert_eq!(tip.activation_ended(Err(-9)), Err(-9));
    assert_eq!((tip.thread_mgr, tip.sink, tip.tid), (Some("first"), Some(1), 11));
}

#[test]
fn a_call_that_is_not_made_does_not_fail() {
    assert_eq!(optional_call::<i32>(None), Ok(()));
    assert_eq!(optional_call(Some(Ok::<(), i32>(()))), Ok(()));
    assert_eq!(optional_call(Some(Err(-4))), Err(-4));
}

#[test]
fn a_failed_deactivation_leaves_the_window_to_the_next() {
    let mut state: TipState<u8, u8, u8> = TipState::new(Err(()));
    state.window_made(Ok::<isize, i32>(0x1234));
    let mut tip: TspTip<&str, u8> = TspTip::new();
    assert_eq!(tip.activation_ended(Ok::<_, i32>(Some(("manager", 5, 77)))), Ok(Some(77)));

    let advised = tip.begin_deactivation();
    assert_eq!(advised, Some(("manager", 77)));
    let first = tip.end_deactivation(optional_call(advised.map(|_| Err(-3))));
    assert_eq!(first, Err(-3));
    assert_eq!((tip.thread_mgr, tip.sink, tip.tid), (None, Some(5), 77));
    assert_eq!(state.window_after_deactivation(&first), None);

    let advised = tip.begin_deactivation();
    assert_eq!(advised, None);
    let second = tip.end_deactivation(optional_call(advised.map(|_| Err(-3))));
    assert_eq!(second, Ok(()));
    assert_eq!((tip.thread_mgr, tip.sink, tip.tid), (None, None, 77));
    assert_eq!(state.window_after_deactivation(&second), Some(0x1234));
}

#[test]
fn without_a_window_none_is_destroyed() {
    let state: TipState<u8, u8, u8> = TipState::new(Err(()));
    assert_eq!(state.window_after_deactivation(&Ok::<(), i32>(())), None);
    assert_eq!(state.window_after_deactivation(&Err::<(), i32>(-1)), None);
}
