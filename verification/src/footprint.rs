//! What registering leaves on a system and what unregistering takes away, as
//! the calls ask for it.
use vstd::prelude::*;

use crate::calls::{
    all_succeed, is_first_failure, lemma_first_failure_ends, run_calls, Next,
};
use crate::guid::{guid_of, Guid};
use crate::registration::{
    after_unregister, class_key, place_after, place_without, registration, required_categories,
    server_key, unregistration, Category, Manager, RegisterStepModel, UnregisterStepModel,
    CLSID_TIP, GUID_PROFILE, LANGID_JA_JP,
};
use crate::utf16::wide_units;

verus! {

/// The values of a registry key by name; no name is the default value.
pub type KeyValues = Map<Option<Seq<char>>, Seq<char>>;

/// The part of a system that registration is about.
#[verifier::ext_equal]
pub struct Footprint {
    /// Keys below the classes root, by path.
    pub keys: Map<Seq<char>, KeyValues>,
    /// Which class is in which category.
    pub categories: Set<(Guid, Category)>,
    /// Classes that are text services.
    pub services: Set<Guid>,
    /// Description, icon file and icon index of each language profile, by class,
    /// language and profile identifier.
    pub profiles: Map<(Guid, u16, Guid), (Seq<u16>, Seq<u16>, u32)>,
}

/// Whether a key is `root` or lies below it.
pub open spec fn is_at_or_below(path: Seq<char>, root: Seq<char>) -> bool {
    path == root || (root + "\\"@).is_prefix_of(path)
}

impl Footprint {
    /// What a registering call leaves when it succeeds. Creating a key that is
    /// there keeps its values.
    pub open spec fn with_step(self, step: RegisterStepModel) -> Self {
        match step {
            RegisterStepModel::CreateKey { path } => if self.keys.dom().contains(path) {
                self
            } else {
                Footprint { keys: self.keys.insert(path, Map::empty()), ..self }
            },
            RegisterStepModel::SetValue { path, value } => if self.keys.dom().contains(path) {
                Footprint {
                    keys: self.keys.insert(path, self.keys[path].insert(value.name, value.data)),
                    ..self
                }
            } else {
                self
            },
            RegisterStepModel::CloseKey { .. } => self,
            RegisterStepModel::OpenManager { .. } => self,
            RegisterStepModel::AddCategory { clsid, category } => Footprint {
                categories: self.categories.insert((clsid, category)),
                ..self
            },
            RegisterStepModel::AddService { clsid } => Footprint {
                services: self.services.insert(clsid),
                ..self
            },
            RegisterStepModel::AddProfile {
                clsid,
                langid,
                profile,
                description,
                icon_file,
                icon_index,
            } => Footprint {
                profiles: self.profiles.insert(
                    (clsid, langid, profile),
                    (description, icon_file, icon_index),
                ),
                ..self
            },
        }
    }

    /// What an unregistering call leaves when it succeeds.
    pub open spec fn without_step(self, step: UnregisterStepModel) -> Self {
        match step {
            UnregisterStepModel::OpenManager { .. } => self,
            UnregisterStepModel::RemoveService { clsid } => Footprint {
                services: self.services.remove(clsid),
                profiles: Map::new(
                    |entry: (Guid, u16, Guid)|
                        self.profiles.dom().contains(entry) && entry.0 != clsid,
                    |entry: (Guid, u16, Guid)| self.profiles[entry],
                ),
                ..self
            },
            UnregisterStepModel::RemoveCategory { clsid, category } => Footprint {
                categories: self.categories.remove((clsid, category)),
                ..self
            },
            UnregisterStepModel::DeleteKeyTree { path } => Footprint {
                keys: Map::new(
                    |key: Seq<char>|
                        self.keys.dom().contains(key) && !is_at_or_below(key, path),
                    |key: Seq<char>| self.keys[key],
                ),
                ..self
            },
            UnregisterStepModel::DropWindowClass => self,
        }
    }

    /// What registering calls leave, in order.
    pub open spec fn with_steps(self, steps: Seq<RegisterStepModel>) -> Self
        decreases steps.len(),
    {
        if steps.len() == 0 {
            self
        } else {
            self.with_steps(steps.drop_last()).with_step(steps.last())
        }
    }

    /// What unregistering calls leave, in order.
    pub open spec fn without_steps(self, steps: Seq<UnregisterStepModel>) -> Self
        decreases steps.len(),
    {
        if steps.len() == 0 {
            self
        } else {
            self.without_steps(steps.drop_last()).without_step(steps.last())
        }
    }

    /// What a registration leaves, where `module` says where the module lies and
    /// `outcomes` how each call ends if it is made: what the calls before the
    /// first failure leave. A call that fails leaves nothing.
    pub open spec fn registered(
        self,
        module: Result<Seq<char>, i32>,
        outcomes: Seq<Result<(), i32>>,
    ) -> Self {
        match module {
            Err(_) => self,
            Ok(dll_path) => {
                let (made, result) = run_calls(registration(dll_path).len() as usize, outcomes);
                self.with_steps(
                    registration(dll_path).take(
                        if result is Ok {
                            made as int
                        } else {
                            made - 1
                        },
                    ),
                )
            },
        }
    }

    /// Nothing of the service is on the system.
    pub open spec fn is_clean(self) -> bool {
        &&& forall|key: Seq<char>|
            #![trigger self.keys.dom().contains(key)]
            self.keys.dom().contains(key) ==> !is_at_or_below(key, class_key())
        &&& forall|entry: (Guid, Category)| #[trigger]
            self.categories.contains(entry) ==> entry.0 != guid_of(CLSID_TIP)
        &&& !self.services.contains(guid_of(CLSID_TIP))
        &&& forall|entry: (Guid, u16, Guid)|
            #![trigger self.profiles.dom().contains(entry)]
            self.profiles.dom().contains(entry) ==> entry.0 != guid_of(CLSID_TIP)
    }

    /// Apart from the service, the system holds the same as `other`.
    pub open spec fn same_elsewhere(self, other: Self) -> bool {
        &&& forall|key: Seq<char>|
            #![trigger self.keys.dom().contains(key)]
            #![trigger self.keys[key]]
            !is_at_or_below(key, class_key()) ==> {
                &&& self.keys.dom().contains(key) == other.keys.dom().contains(key)
                &&& self.keys.dom().contains(key) ==> self.keys[key] == other.keys[key]
            }
        &&& forall|entry: (Guid, Category)|
            entry.0 != guid_of(CLSID_TIP) ==> #[trigger] self.categories.contains(entry)
                == other.categories.contains(entry)
        &&& forall|clsid: Guid|
            clsid != guid_of(CLSID_TIP) ==> #[trigger] self.services.contains(clsid)
                == other.services.contains(clsid)
        &&& forall|entry: (Guid, u16, Guid)|
            #![trigger self.profiles.dom().contains(entry)]
            #![trigger self.profiles[entry]]
            entry.0 != guid_of(CLSID_TIP) ==> {
                &&& self.profiles.dom().contains(entry) == other.profiles.dom().contains(entry)
                &&& self.profiles.dom().contains(entry) ==> self.profiles[entry]
                    == other.profiles[entry]
            }
    }
}

/// How a registration ends: with the first failure, that of finding the module
/// before any other.
pub open spec fn registration_result(
    module: Result<Seq<char>, i32>,
    outcomes: Seq<Result<(), i32>>,
) -> Result<(), i32> {
    match module {
        Err(code) => Err(code),
        Ok(dll_path) => run_calls(registration(dll_path).len() as usize, outcomes).1,
    }
}

/// Whether a registering call is about the service and nothing else.
pub open spec fn is_own(step: RegisterStepModel) -> bool {
    match step {
        RegisterStepModel::CreateKey { path } => is_at_or_below(path, class_key()),
        RegisterStepModel::SetValue { path, .. } => is_at_or_below(path, class_key()),
        RegisterStepModel::CloseKey { path } => is_at_or_below(path, class_key()),
        RegisterStepModel::OpenManager { .. } => true,
        RegisterStepModel::AddCategory { clsid, .. } => clsid == guid_of(CLSID_TIP),
        RegisterStepModel::AddService { clsid } => clsid == guid_of(CLSID_TIP),
        RegisterStepModel::AddProfile { clsid, .. } => clsid == guid_of(CLSID_TIP),
    }
}

proof fn lemma_with_one_more(before: Footprint, steps: Seq<RegisterStepModel>, count: int)
    requires
        0 <= count < steps.len(),
    ensures
        before.with_steps(steps.take(count + 1)) == before.with_steps(
            steps.take(count),
        ).with_step(steps[count]),
{
    assert(steps.take(count + 1).drop_last() =~= steps.take(count));
}

proof fn lemma_without_one_more(before: Footprint, steps: Seq<UnregisterStepModel>, count: int)
    requires
        0 <= count < steps.len(),
    ensures
        before.without_steps(steps.take(count + 1)) == before.without_steps(
            steps.take(count),
        ).without_step(steps[count]),
{
    assert(steps.take(count + 1).drop_last() =~= steps.take(count));
}

proof fn lemma_server_key_below_class_key()
    ensures
        class_key() != server_key(),
        is_at_or_below(class_key(), class_key()),
        is_at_or_below(server_key(), class_key()),
{
    reveal_strlit("\\");
    reveal_strlit("\\InprocServer32");
    let prefix = class_key() + "\\"@;
    assert(server_key().len() == class_key().len() + 15);
    assert(prefix =~= server_key().subrange(0, prefix.len() as int));
}

/// What a whole unregistration leaves.
pub open spec fn unregistered(before: Footprint) -> Footprint {
    Footprint {
        keys: before.without_step(UnregisterStepModel::DeleteKeyTree { path: class_key() }).keys,
        categories: before.categories.remove((guid_of(CLSID_TIP), Category::Keyboard)).remove(
            (guid_of(CLSID_TIP), Category::ImmersiveSupport),
        ).remove((guid_of(CLSID_TIP), Category::SystraySupport)),
        services: before.services.remove(guid_of(CLSID_TIP)),
        profiles: before.without_step(
            UnregisterStepModel::RemoveService { clsid: guid_of(CLSID_TIP) },
        ).profiles,
    }
}

proof fn lemma_unregistration_unfolds(before: Footprint)
    ensures
        before.without_steps(unregistration()) == unregistered(before),
{
    let steps = unregistration();
    assert(steps.take(0) =~= Seq::<UnregisterStepModel>::empty());
    lemma_without_one_more(before, steps, 0);
    lemma_without_one_more(before, steps, 1);
    lemma_without_one_more(before, steps, 2);
    lemma_without_one_more(before, steps, 3);
    lemma_without_one_more(before, steps, 4);
    lemma_without_one_more(before, steps, 5);
    lemma_without_one_more(before, steps, 6);
    lemma_without_one_more(before, steps, 7);
    assert(steps.take(8) =~= steps);
    assert(before.without_steps(steps).keys =~= unregistered(before).keys);
    assert(before.without_steps(steps).profiles =~= unregistered(before).profiles);
}

/// Registering enters all that the system needs to offer the service: the class
/// and its apartment-threaded module, every required category, and the Japanese
/// profile.
pub proof fn lemma_registration_enters_all(before: Footprint, dll_path: Seq<char>)
    ensures
        ({
            let after = before.with_steps(registration(dll_path));
            &&& after.keys.dom().contains(class_key())
            &&& after.keys[class_key()].contains_pair(None, "awaza TIP"@)
            &&& after.keys.dom().contains(server_key())
            &&& after.keys[server_key()].contains_pair(None, dll_path)
            &&& after.keys[server_key()].contains_pair(Some("ThreadingModel"@), "Apartment"@)
            &&& forall|category: Category|
                #![trigger after.categories.contains((guid_of(CLSID_TIP), category))]
                required_categories().contains(category) ==> after.categories.contains(
                    (guid_of(CLSID_TIP), category),
                )
            &&& after.services.contains(guid_of(CLSID_TIP))
            &&& after.profiles.contains_pair(
                (guid_of(CLSID_TIP), LANGID_JA_JP, guid_of(GUID_PROFILE)),
                (wide_units("awaza"@), wide_units(dll_path), 0u32),
            )
        }),
{
    let steps = registration(dll_path);
    lemma_server_key_below_class_key();
    assert(steps.take(0) =~= Seq::<RegisterStepModel>::empty());
    lemma_with_one_more(before, steps, 0);
    lemma_with_one_more(before, steps, 1);
    lemma_with_one_more(before, steps, 2);
    lemma_with_one_more(before, steps, 3);
    lemma_with_one_more(before, steps, 4);
    lemma_with_one_more(before, steps, 5);
    lemma_with_one_more(before, steps, 6);
    lemma_with_one_more(before, steps, 7);
    lemma_with_one_more(before, steps, 8);
    lemma_with_one_more(before, steps, 9);
    lemma_with_one_more(before, steps, 10);
    lemma_with_one_more(before, steps, 11);
    lemma_with_one_more(before, steps, 12);
    lemma_with_one_more(before, steps, 13);
    assert(steps.take(14) =~= steps);
}

/// A registration ends well exactly when the module is found and every call
/// succeeds, and then it leaves all that its calls ask for. Where the module is not
/// found, nothing is written. Where a call fails, its code is the result, no later
/// call is made, and what the calls before it wrote stays as they wrote it.
pub proof fn lemma_registration_stops_at_first_failure(
    before: Footprint,
    module: Result<Seq<char>, i32>,
    outcomes: Seq<Result<(), i32>>,
)
    requires
        module is Ok ==> outcomes.len() == registration(module->Ok_0).len(),
    ensures
        registration_result(module, outcomes) is Ok <==> module is Ok && all_succeed(outcomes),
        module matches Err(code) ==> {
            &&& registration_result(module, outcomes) == Err::<(), i32>(code)
            &&& before.registered(module, outcomes) == before
        },
        module matches Ok(dll_path) ==> {
            &&& all_succeed(outcomes) ==> before.registered(module, outcomes)
                == before.with_steps(registration(dll_path))
            &&& forall|at: int| #[trigger]
                is_first_failure(outcomes, at) ==> {
                    &&& registration_result(module, outcomes) == outcomes[at]
                    &&& run_calls(registration(dll_path).len() as usize, outcomes).0 == at + 1
                    &&& before.registered(module, outcomes) == before.with_steps(
                        registration(dll_path).take(at),
                    )
                }
        },
{
    match module {
        Ok(dll_path) => {
            let steps = registration(dll_path);
            lemma_first_failure_ends(steps.len() as usize, outcomes);
            assert(steps.take(steps.len() as int) =~= steps);
        },
        Err(_) => {},
    }
}

proof fn lemma_registration_is_own(dll_path: Seq<char>, at: int)
    requires
        0 <= at < registration(dll_path).len(),
    ensures
        is_own(registration(dll_path)[at]),
{
    lemma_server_key_below_class_key();
}

/// Whether the call at `at` finds open what it works on: a value or a closing the
/// key that was opened last, an entry the part of the system that keeps it.
pub open spec fn is_prepared(steps: Seq<RegisterStepModel>, at: int) -> bool {
    match steps[at] {
        RegisterStepModel::SetValue { path, .. } => opened_last(steps, at, path),
        RegisterStepModel::CloseKey { path } => opened_last(steps, at, path),
        RegisterStepModel::AddCategory { .. } => steps.take(at).contains(
            RegisterStepModel::OpenManager { manager: Manager::Categories },
        ),
        RegisterStepModel::AddService { .. } => steps.take(at).contains(
            RegisterStepModel::OpenManager { manager: Manager::Profiles },
        ),
        RegisterStepModel::AddProfile { .. } => steps.take(at).contains(
            RegisterStepModel::OpenManager { manager: Manager::Profiles },
        ),
        _ => true,
    }
}

/// Whether the key at `path` is opened before `at` and since then only written to.
pub open spec fn opened_last(steps: Seq<RegisterStepModel>, at: int, path: Seq<char>) -> bool {
    exists|opening: int|
        {
            &&& 0 <= opening < at
            &&& #[trigger] steps[opening] == RegisterStepModel::CreateKey { path }
            &&& forall|i: int| opening < i < at ==> #[trigger] steps[i] is SetValue
        }
}

/// Every registering call finds open what it works on.
pub proof fn lemma_calls_are_prepared(dll_path: Seq<char>, at: int)
    requires
        0 <= at < registration(dll_path).len(),
    ensures
        is_prepared(registration(dll_path), at),
{
    let steps = registration(dll_path);
    if at < 3 {
        assert(steps[0] == RegisterStepModel::CreateKey { path: class_key() });
    } else if at < 7 {
        assert(steps[3] == RegisterStepModel::CreateKey { path: server_key() });
    } else if 7 < at < 11 {
        assert(steps.take(at)[7] == steps[7]);
    } else if 11 < at {
        assert(steps.take(at)[11] == steps[11]);
    }
}

/// Registering touches nothing but the service, however far it gets.
pub proof fn lemma_registration_is_local(before: Footprint, dll_path: Seq<char>, count: int)
    requires
        0 <= count <= registration(dll_path).len(),
    ensures
        before.with_steps(registration(dll_path).take(count)).same_elsewhere(before),
    decreases count,
{
    let steps = registration(dll_path);
    if count == 0 {
        assert(steps.take(0) =~= Seq::<RegisterStepModel>::empty());
    } else {
        lemma_registration_is_local(before, dll_path, count - 1);
        lemma_with_one_more(before, steps, count - 1);
        lemma_registration_is_own(dll_path, count - 1);
        let shorter = before.with_steps(steps.take(count - 1));
        let longer = before.with_steps(steps.take(count));
        assert(longer == shorter.with_step(steps[count - 1]));
        assert(longer.same_elsewhere(shorter));
    }
}

/// Unregistering takes back all that registering entered, however far it got: on a
/// system that had nothing of the service, both together change nothing.
pub proof fn lemma_unregistration_undoes_registration(
    before: Footprint,
    dll_path: Seq<char>,
    count: int,
)
    requires
        before.is_clean(),
        0 <= count <= registration(dll_path).len(),
    ensures
        before.with_steps(registration(dll_path).take(count)).without_steps(unregistration())
            == before,
{
    let after = before.with_steps(registration(dll_path).take(count));
    let end = after.without_steps(unregistration());
    lemma_registration_is_local(before, dll_path, count);
    lemma_unregistration_unfolds(after);
    lemma_unregistration_cleans(after);
    assert(end.same_elsewhere(after));
    assert(end.keys =~= before.keys);
    assert(end.categories =~= before.categories);
    assert(end.services =~= before.services);
    assert(end.profiles =~= before.profiles);
}

/// Unregistering leaves nothing of the service, whatever was on the system, and
/// so it can be repeated.
pub proof fn lemma_unregistration_cleans(before: Footprint)
    ensures
        before.without_steps(unregistration()).is_clean(),
        before.is_clean() ==> before.without_steps(unregistration()) == before,
{
    let end = before.without_steps(unregistration());
    lemma_unregistration_unfolds(before);
    assert forall|entry: (Guid, Category)| #[trigger] end.categories.contains(entry) implies entry.0
        != guid_of(CLSID_TIP) by {
        match entry.1 {
            Category::Keyboard => {},
            Category::ImmersiveSupport => {},
            Category::SystraySupport => {},
        }
    }
    if before.is_clean() {
        assert(end.keys =~= before.keys);
        assert(end.categories =~= before.categories);
        assert(end.services =~= before.services);
        assert(end.profiles =~= before.profiles);
    }
}

/// Leaving calls out never goes back.
pub proof fn lemma_place_without_goes_on(
    steps: Seq<UnregisterStepModel>,
    from: int,
    missing: Manager,
)
    ensures
        place_without(steps, from, missing) >= from,
    decreases steps.len() - from,
{
    if 0 <= from < steps.len() && steps[from].needs() == Some(missing) {
        lemma_place_without_goes_on(steps, from + 1, missing);
    }
}

/// The places of the unregistering calls that are made, in order, once those before
/// `done` are past and the one just before it ended with `last`; `outcomes` holds
/// how each call ends if it is made.
pub open spec fn unregistering_places(
    steps: Seq<UnregisterStepModel>,
    done: int,
    last: Result<(), i32>,
    outcomes: Seq<Result<(), i32>>,
) -> Seq<int>
    decreases steps.len() - done,
{
    let place = place_after(steps, done, last);
    if place < steps.len() {
        proof {
            if 0 < done <= steps.len() && steps[done - 1].opens() is Some {
                lemma_place_without_goes_on(steps, done, steps[done - 1].opens()->0);
            }
        }
        seq![place] + unregistering_places(steps, place + 1, outcomes[place], outcomes)
    } else {
        Seq::empty()
    }
}

/// Unregistering makes every call, however the others end, except those that need a
/// part of the system that could not be opened: the service is left in place then,
/// or its categories are. It always ends well.
pub proof fn lemma_unregistration_goes_on(outcomes: Seq<Result<(), i32>>)
    requires
        outcomes.len() == unregistration().len(),
    ensures
        unregistering_places(unregistration(), 0, Ok(()), outcomes) == seq![0int] + (
        if outcomes[0] is Ok {
            seq![1int]
        } else {
            Seq::empty()
        }) + seq![2int] + (if outcomes[2] is Ok {
            seq![3int, 4int, 5int]
        } else {
            Seq::empty()
        }) + seq![6int, 7int],
        forall|done: int, last: Result<(), i32>|
            #[trigger] after_unregister(unregistration(), done, last) matches Next::Ended {
                result,
            } ==> result is Ok,
{
    let steps = unregistration();
    assert(place_without(steps, 1, Manager::Profiles) == 2) by {
        reveal_with_fuel(place_without, 2);
    }
    assert(place_without(steps, 3, Manager::Categories) == 6) by {
        reveal_with_fuel(place_without, 4);
    }
    let from_eight = unregistering_places(steps, 8, outcomes[7], outcomes);
    assert(from_eight =~= Seq::<int>::empty());
    let from_seven = unregistering_places(steps, 7, outcomes[6], outcomes);
    assert(from_seven =~= seq![7int]);
    assert forall|last: Result<(), i32>| #[trigger]
        unregistering_places(steps, 6, last, outcomes) == seq![6int, 7int] by {
        assert(unregistering_places(steps, 6, last, outcomes) =~= seq![6int] + from_seven);
    }
    let from_six = unregistering_places(steps, 6, outcomes[5], outcomes);
    let from_five = unregistering_places(steps, 5, outcomes[4], outcomes);
    assert(from_five == seq![5int] + from_six);
    let from_four = unregistering_places(steps, 4, outcomes[3], outcomes);
    assert(from_four == seq![4int] + from_five);
    let from_three = unregistering_places(steps, 3, outcomes[2], outcomes);
    if outcomes[2] is Ok {
        assert(from_three == seq![3int] + from_four);
        assert(from_three =~= seq![3int, 4int, 5int] + seq![6int, 7int]);
    } else {
        assert(from_three =~= seq![6int, 7int]);
    }
    let from_two = unregistering_places(steps, 2, outcomes[1], outcomes);
    assert(from_two == seq![2int] + from_three);
    let from_one = unregistering_places(steps, 1, outcomes[0], outcomes);
    if outcomes[0] is Ok {
        assert(from_one == seq![1int] + from_two);
    } else {
        assert(from_one == seq![2int] + from_three);
    }
    assert(unregistering_places(steps, 0, Ok(()), outcomes) == seq![0int] + from_one);
}

} // verus!
