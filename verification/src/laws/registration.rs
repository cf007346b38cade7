//! Laws of registration: what is entered for every module path, and what is taken back.
use vstd::prelude::*;

use crate::calls::Next;
use crate::guid::{guid_to_reg_path, Guid};
use crate::registration::{
    after_unregister, class_key_path, clsid_tip, place_after, place_without, profile_guid,
    register_models, register_plan, register_steps, registration, server_key_path,
    unregister_models, unregister_progress, unregister_steps, unregistration, Category, Manager,
    RegisterStep, UnregisterStep, UnregisterStepModel,
};
use crate::utf16::wide;

verus! {

/// The keys of the class and of its module are named after the class.
pub proof fn lemma_keys_are_named_after_the_class(
    clsid: Guid,
    name: String,
    class_path: String,
    server_path: String,
)
    requires
        call_ensures(clsid_tip, (), clsid),
        call_ensures(guid_to_reg_path, (&clsid,), name),
        call_ensures(class_key_path, (), class_path),
        call_ensures(server_key_path, (), server_path),
    ensures
        class_path@ == "CLSID\\"@ + name@,
        server_path@ == class_path@ + "\\InprocServer32"@,
{
}

/// Whether a call writes a value of a key.
pub open spec fn sets(
    step: RegisterStep,
    path: Seq<char>,
    name: Option<Seq<char>>,
    data: Seq<char>,
) -> bool {
    &&& step is SetValue
    &&& step->SetValue_path@ == path
    &&& step->value.data@ == data
    &&& name is Some <==> step->value.name is Some
    &&& name is Some ==> step->value.name->0@ == name->0
}

/// Whether a call puts a class into a category.
pub open spec fn enters(step: RegisterStep, clsid: Guid, category: Category) -> bool {
    step is AddCategory && step->AddCategory_clsid == clsid && step->category == category
}

proof fn lemma_register_step_is_faithful(steps: Seq<RegisterStep>, i: int)
    requires
        0 <= i < steps.len(),
    ensures
        register_models(steps).len() == steps.len(),
        register_models(steps)[i] == steps[i]@,
        ({
            let step = steps[i];
            let model = register_models(steps)[i];
            &&& model is CreateKey <==> step is CreateKey
            &&& model is SetValue <==> step is SetValue
            &&& model is CloseKey <==> step is CloseKey
            &&& model is OpenManager <==> step is OpenManager
            &&& model is AddCategory <==> step is AddCategory
            &&& model is AddService <==> step is AddService
            &&& model is AddProfile <==> step is AddProfile
        }),
{
}

/// Registering writes the class with its name, the module with its path and its
/// threading, every required category, the service, and its Japanese profile with the
/// module's icon, in this order and each once, for every path of the module.
pub proof fn lemma_registration_is_complete(
    dll_path: &str,
    steps: Vec<RegisterStep>,
    class_path: String,
    server_path: String,
    clsid: Guid,
    profile: Guid,
    description: Vec<u16>,
    icon_file: Vec<u16>,
)
    requires
        call_ensures(register_steps, (dll_path,), steps),
        call_ensures(class_key_path, (), class_path),
        call_ensures(server_key_path, (), server_path),
        call_ensures(clsid_tip, (), clsid),
        call_ensures(profile_guid, (), profile),
        call_ensures(wide, ("awaza",), description),
        call_ensures(wide, (dll_path,), icon_file),
    ensures
        steps@.len() == 14,
        steps@[0] is CreateKey && steps@[0]->CreateKey_path@ == class_path@,
        sets(steps@[1], class_path@, None, "awaza TIP"@),
        steps@[2] is CloseKey && steps@[2]->CloseKey_path@ == class_path@,
        steps@[3] is CreateKey && steps@[3]->CreateKey_path@ == server_path@,
        sets(steps@[4], server_path@, None, dll_path@),
        sets(steps@[5], server_path@, Some("ThreadingModel"@), "Apartment"@),
        steps@[6] is CloseKey && steps@[6]->CloseKey_path@ == server_path@,
        steps@[7] is OpenManager && steps@[7]->manager is Categories,
        enters(steps@[8], clsid, Category::Keyboard),
        enters(steps@[9], clsid, Category::ImmersiveSupport),
        enters(steps@[10], clsid, Category::SystraySupport),
        steps@[11] is OpenManager && steps@[11]->manager is Profiles,
        steps@[12] is AddService && steps@[12]->AddService_clsid == clsid,
        steps@[13] is AddProfile && steps@[13]->AddProfile_clsid == clsid && steps@[13]->langid
            == 0x0411 && steps@[13]->profile == profile,
        steps@[13]->description@ == description@ && steps@[13]->icon_file@ == icon_file@
            && steps@[13]->icon_index == 0,
{
    let all = register_models(steps@);
    assert(all == registration(dll_path@));
    assert(all.len() == 14);
    lemma_register_step_is_faithful(steps@, 0);
    lemma_register_step_is_faithful(steps@, 1);
    lemma_register_step_is_faithful(steps@, 2);
    lemma_register_step_is_faithful(steps@, 3);
    lemma_register_step_is_faithful(steps@, 4);
    lemma_register_step_is_faithful(steps@, 5);
    lemma_register_step_is_faithful(steps@, 6);
    lemma_register_step_is_faithful(steps@, 7);
    lemma_register_step_is_faithful(steps@, 8);
    lemma_register_step_is_faithful(steps@, 9);
    lemma_register_step_is_faithful(steps@, 10);
    lemma_register_step_is_faithful(steps@, 11);
    lemma_register_step_is_faithful(steps@, 12);
    lemma_register_step_is_faithful(steps@, 13);
}

/// A module that was found is registered from where it lies. For one that was not,
/// nothing is planned and the failure is handed on.
pub proof fn lemma_found_module_is_registered(
    module: Result<String, i32>,
    dll_path: &str,
    plan: Result<Vec<RegisterStep>, i32>,
    steps: Vec<RegisterStep>,
)
    requires
        module is Ok ==> dll_path@ == module->Ok_0@,
        call_ensures(register_plan, (module,), plan),
        call_ensures(register_steps, (dll_path,), steps),
    ensures
        plan is Ok <==> module is Ok,
        plan is Ok ==> register_models(plan->Ok_0@) == register_models(steps@),
        plan is Err ==> plan->Err_0 == module->Err_0,
{
}

/// Whether a call takes a class out of a category.
pub open spec fn leaves(step: UnregisterStep, clsid: Guid, category: Category) -> bool {
    step is RemoveCategory && step->RemoveCategory_clsid == clsid && step->category == category
}

proof fn lemma_unregister_step_is_faithful(steps: Seq<UnregisterStep>, i: int)
    requires
        0 <= i < steps.len(),
    ensures
        unregister_models(steps).len() == steps.len(),
        unregister_models(steps)[i] == steps[i]@,
{
}

/// Unregistering takes away the service, every category, the class with all below it
/// and the window's class, in this order and each once.
pub proof fn lemma_unregistration_is_complete(
    steps: Vec<UnregisterStep>,
    class_path: String,
    clsid: Guid,
)
    requires
        call_ensures(unregister_steps, (), steps),
        call_ensures(class_key_path, (), class_path),
        call_ensures(clsid_tip, (), clsid),
    ensures
        steps@.len() == 8,
        steps@[0] is OpenManager && steps@[0]->manager is Profiles,
        steps@[1] is RemoveService && steps@[1]->RemoveService_clsid == clsid,
        steps@[2] is OpenManager && steps@[2]->manager is Categories,
        leaves(steps@[3], clsid, Category::Keyboard),
        leaves(steps@[4], clsid, Category::ImmersiveSupport),
        leaves(steps@[5], clsid, Category::SystraySupport),
        steps@[6] is DeleteKeyTree && steps@[6]->path@ == class_path@,
        steps@[7] is DropWindowClass,
{
    let all = unregister_models(steps@);
    assert(all == unregistration());
    assert(all.len() == 8);
    lemma_unregister_step_is_faithful(steps@, 0);
    lemma_unregister_step_is_faithful(steps@, 1);
    lemma_unregister_step_is_faithful(steps@, 2);
    lemma_unregister_step_is_faithful(steps@, 3);
    lemma_unregister_step_is_faithful(steps@, 4);
    lemma_unregister_step_is_faithful(steps@, 5);
    lemma_unregister_step_is_faithful(steps@, 6);
    lemma_unregister_step_is_faithful(steps@, 7);
}

/// Whether a call works on a part of the system.
pub open spec fn works_on(step: UnregisterStep, manager: Manager) -> bool {
    match manager {
        Manager::Profiles => step is RemoveService,
        Manager::Categories => step is RemoveCategory,
    }
}

/// Whether the call just before `done` should have opened a part of the system and
/// failed.
pub open spec fn unopened(
    steps: Seq<UnregisterStep>,
    done: int,
    last: Result<(), i32>,
    manager: Manager,
) -> bool {
    &&& 0 < done <= steps.len()
    &&& last is Err
    &&& steps[done - 1] is OpenManager
    &&& steps[done - 1]->manager == manager
}

proof fn lemma_place_without(steps: Seq<UnregisterStepModel>, from: int, missing: Manager)
    requires
        0 <= from <= steps.len(),
    ensures
        from <= place_without(steps, from, missing) <= steps.len(),
        forall|i: int|
            from <= i < place_without(steps, from, missing) ==> #[trigger] steps[i].needs()
                == Some(missing),
        place_without(steps, from, missing) < steps.len() ==> steps[place_without(
            steps,
            from,
            missing,
        )].needs() != Some(missing),
    decreases steps.len() - from,
{
    if from < steps.len() && steps[from].needs() == Some(missing) {
        lemma_place_without(steps, from + 1, missing);
    }
}

/// Unregistering, of whatever calls, goes on to the end and never fails. Every call is
/// made, except that after a part of the system could not be opened the calls that work
/// on it are passed over, up to the first that does not.
pub proof fn lemma_unregistration_passes_over_little(
    steps: &Vec<UnregisterStep>,
    done: usize,
    last: Result<(), i32>,
    next: Next<i32>,
)
    requires
        done <= steps@.len(),
        call_ensures(unregister_progress, (steps, done, last), next),
    ensures
        next is Ended ==> next->result is Ok,
        next is Call ==> done <= next->place < steps@.len(),
        (forall|manager: Manager| !unopened(steps@, done as int, last, manager)) ==> (if done
            < steps@.len() {
            next is Call && next->place == done
        } else {
            next is Ended
        }),
        forall|manager: Manager| #[trigger]
            unopened(steps@, done as int, last, manager) ==> {
                let place = if next is Call {
                    next->place as int
                } else {
                    steps@.len() as int
                };
                &&& forall|i: int| done <= i < place ==> works_on(#[trigger] steps@[i], manager)
                &&& next is Call ==> !works_on(steps@[place], manager)
            },
{
    let all = unregister_models(steps@);
    assert(all.len() == steps@.len() && steps@.len() == steps.len());
    assert forall|i: int| 0 <= i < steps@.len() implies #[trigger] all[i] == steps@[i]@ by {}
    assert(next == after_unregister(all, done as int, last));
    let place = place_after(all, done as int, last);
    if 0 < done && last is Err && all[done - 1].opens() is Some {
        let missing = all[done - 1].opens()->0;
        assert(all[done - 1] == steps@[done - 1]@);
        assert(unopened(steps@, done as int, last, missing));
        lemma_place_without(all, done as int, missing);
        assert forall|i: int| done <= i < place implies works_on(#[trigger] steps@[i], missing) by {
            assert(all[i] == steps@[i]@);
            assert(all[i].needs() == Some(missing));
        }
        if place < steps@.len() {
            assert(all[place] == steps@[place]@);
        }
    } else {
        assert forall|manager: Manager| !unopened(steps@, done as int, last, manager) by {
            if unopened(steps@, done as int, last, manager) {
                assert(all[done - 1] == steps@[done - 1]@);
            }
        }
    }
}

} // verus!
