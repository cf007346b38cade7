//! What the service enters on the system when it is registered, and takes back
//! when it is unregistered.
use vstd::prelude::*;

use crate::calls::Next;
use crate::guid::{guid_of, guid_to_reg_path, reg_path, Guid};
use crate::utf16::{wide, wide_units};

verus! {

/// The service's class identifier, as a number.
pub const CLSID_TIP: u128 = 0x8f2c1a6e_3d47_4b8a_9e12_5a6f7c8d9e0f;

/// The identifier of the service's language profile, as a number.
pub const GUID_PROFILE: u128 = 0x1b3d5f7a_9c2e_4f6b_8a1d_3e5f7a9c2e4f;

/// Japanese (Japan).
pub const LANGID_JA_JP: u16 = 0x0411;

/// The service's class identifier.
pub fn clsid_tip() -> (clsid: Guid)
    ensures
        clsid == guid_of(CLSID_TIP),
{
    Guid::from_u128(CLSID_TIP)
}

/// The identifier of the service's language profile.
pub fn profile_guid() -> (profile: Guid)
    ensures
        profile == guid_of(GUID_PROFILE),
{
    Guid::from_u128(GUID_PROFILE)
}

/// A category of text services.
#[derive(Clone, Copy, Debug, PartialEq, Eq, Structural)]
pub enum Category {
    /// Keyboard services.
    Keyboard,
    /// Services that run in immersive applications.
    ImmersiveSupport,
    /// Services that show in the system tray.
    SystraySupport,
}

/// The categories that the service needs: without any one of them the system
/// lists the service but does not let the user choose it.
pub open spec fn required_categories() -> Seq<Category> {
    seq![Category::Keyboard, Category::ImmersiveSupport, Category::SystraySupport]
}

/// The registry key of the service's class.
pub open spec fn class_key() -> Seq<char> {
    "CLSID\\"@ + reg_path(guid_of(CLSID_TIP))
}

/// The registry key of the module that serves the class.
pub open spec fn server_key() -> Seq<char> {
    class_key() + "\\InprocServer32"@
}

/// A string value of a registry key; no name is the key's default value.
#[derive(Debug)]
pub struct RegValue {
    pub name: Option<String>,
    pub data: String,
}

/// A string value, with its texts as characters.
#[verifier::ext_equal]
pub struct RegValueModel {
    pub name: Option<Seq<char>>,
    pub data: Seq<char>,
}

impl View for RegValue {
    type V = RegValueModel;

    open spec fn view(&self) -> RegValueModel {
        RegValueModel {
            name: match self.name {
                Some(name) => Some(name@),
                None => None,
            },
            data: self.data@,
        }
    }
}

/// A part of the system that text services are entered with.
#[derive(Clone, Copy, Debug, PartialEq, Eq, Structural)]
pub enum Manager {
    /// Keeps which class is in which category.
    Categories,
    /// Keeps the text services and their language profiles.
    Profiles,
}

/// One call of registering the service.
#[derive(Debug)]
pub enum RegisterStep {
    /// Creates a key below the classes root, or opens the one that is there.
    CreateKey { path: String },
    /// Writes a value of the key that was opened last, the one at `path`.
    SetValue { path: String, value: RegValue },
    /// Closes the key that was opened last.
    CloseKey { path: String },
    /// Opens a part of the system for the calls that follow.
    OpenManager { manager: Manager },
    /// Puts the class into a category.
    AddCategory { clsid: Guid, category: Category },
    /// Enters the class as a text service.
    AddService { clsid: Guid },
    /// Gives the text service a language profile.
    AddProfile {
        clsid: Guid,
        langid: u16,
        profile: Guid,
        description: Vec<u16>,
        icon_file: Vec<u16>,
        icon_index: u32,
    },
}

/// One call of registering, with its texts as characters and code units.
#[verifier::ext_equal]
pub enum RegisterStepModel {
    CreateKey { path: Seq<char> },
    SetValue { path: Seq<char>, value: RegValueModel },
    CloseKey { path: Seq<char> },
    OpenManager { manager: Manager },
    AddCategory { clsid: Guid, category: Category },
    AddService { clsid: Guid },
    AddProfile {
        clsid: Guid,
        langid: u16,
        profile: Guid,
        description: Seq<u16>,
        icon_file: Seq<u16>,
        icon_index: u32,
    },
}

impl View for RegisterStep {
    type V = RegisterStepModel;

    open spec fn view(&self) -> RegisterStepModel {
        match self {
            RegisterStep::CreateKey { path } => RegisterStepModel::CreateKey { path: path@ },
            RegisterStep::SetValue { path, value } => RegisterStepModel::SetValue {
                path: path@,
                value: value@,
            },
            RegisterStep::CloseKey { path } => RegisterStepModel::CloseKey { path: path@ },
            RegisterStep::OpenManager { manager } => RegisterStepModel::OpenManager {
                manager: *manager,
            },
            RegisterStep::AddCategory { clsid, category } => RegisterStepModel::AddCategory {
                clsid: *clsid,
                category: *category,
            },
            RegisterStep::AddService { clsid } => RegisterStepModel::AddService { clsid: *clsid },
            RegisterStep::AddProfile {
                clsid,
                langid,
                profile,
                description,
                icon_file,
                icon_index,
            } => RegisterStepModel::AddProfile {
                clsid: *clsid,
                langid: *langid,
                profile: *profile,
                description: description@,
                icon_file: icon_file@,
                icon_index: *icon_index,
            },
        }
    }
}

/// The models of registering calls, in order.
pub open spec fn register_models(steps: Seq<RegisterStep>) -> Seq<RegisterStepModel> {
    steps.map_values(|step: RegisterStep| step@)
}

/// The calls that register the service from the module at `dll_path`.
pub open spec fn registration(dll_path: Seq<char>) -> Seq<RegisterStepModel> {
    seq![
        RegisterStepModel::CreateKey { path: class_key() },
        RegisterStepModel::SetValue {
            path: class_key(),
            value: RegValueModel { name: None, data: "awaza TIP"@ },
        },
        RegisterStepModel::CloseKey { path: class_key() },
        RegisterStepModel::CreateKey { path: server_key() },
        RegisterStepModel::SetValue {
            path: server_key(),
            value: RegValueModel { name: None, data: dll_path },
        },
        RegisterStepModel::SetValue {
            path: server_key(),
            value: RegValueModel { name: Some("ThreadingModel"@), data: "Apartment"@ },
        },
        RegisterStepModel::CloseKey { path: server_key() },
        RegisterStepModel::OpenManager { manager: Manager::Categories },
        RegisterStepModel::AddCategory {
            clsid: guid_of(CLSID_TIP),
            category: Category::Keyboard,
        },
        RegisterStepModel::AddCategory {
            clsid: guid_of(CLSID_TIP),
            category: Category::ImmersiveSupport,
        },
        RegisterStepModel::AddCategory {
            clsid: guid_of(CLSID_TIP),
            category: Category::SystraySupport,
        },
        RegisterStepModel::OpenManager { manager: Manager::Profiles },
        RegisterStepModel::AddService { clsid: guid_of(CLSID_TIP) },
        RegisterStepModel::AddProfile {
            clsid: guid_of(CLSID_TIP),
            langid: LANGID_JA_JP,
            profile: guid_of(GUID_PROFILE),
            description: wide_units("awaza"@),
            icon_file: wide_units(dll_path),
            icon_index: 0,
        },
    ]
}

/// One call of unregistering the service.
#[derive(Debug)]
pub enum UnregisterStep {
    /// Opens a part of the system for the calls that follow.
    OpenManager { manager: Manager },
    /// Takes the class out of the text services, with its language profiles.
    RemoveService { clsid: Guid },
    /// Takes the class out of a category.
    RemoveCategory { clsid: Guid, category: Category },
    /// Deletes a key below the classes root and all below it.
    DeleteKeyTree { path: String },
    /// Drops the class of the hidden window.
    DropWindowClass,
}

/// One call of unregistering, with its text as characters.
#[verifier::ext_equal]
pub enum UnregisterStepModel {
    OpenManager { manager: Manager },
    RemoveService { clsid: Guid },
    RemoveCategory { clsid: Guid, category: Category },
    DeleteKeyTree { path: Seq<char> },
    DropWindowClass,
}

impl View for UnregisterStep {
    type V = UnregisterStepModel;

    open spec fn view(&self) -> UnregisterStepModel {
        match self {
            UnregisterStep::OpenManager { manager } => UnregisterStepModel::OpenManager {
                manager: *manager,
            },
            UnregisterStep::RemoveService { clsid } => UnregisterStepModel::RemoveService {
                clsid: *clsid,
            },
            UnregisterStep::RemoveCategory {
                clsid,
                category,
            } => UnregisterStepModel::RemoveCategory { clsid: *clsid, category: *category },
            UnregisterStep::DeleteKeyTree { path } => UnregisterStepModel::DeleteKeyTree {
                path: path@,
            },
            UnregisterStep::DropWindowClass => UnregisterStepModel::DropWindowClass,
        }
    }
}

/// The models of unregistering calls, in order.
pub open spec fn unregister_models(steps: Seq<UnregisterStep>) -> Seq<UnregisterStepModel> {
    steps.map_values(|step: UnregisterStep| step@)
}

/// The calls that unregister the service.
pub open spec fn unregistration() -> Seq<UnregisterStepModel> {
    seq![
        UnregisterStepModel::OpenManager { manager: Manager::Profiles },
        UnregisterStepModel::RemoveService { clsid: guid_of(CLSID_TIP) },
        UnregisterStepModel::OpenManager { manager: Manager::Categories },
        UnregisterStepModel::RemoveCategory {
            clsid: guid_of(CLSID_TIP),
            category: Category::Keyboard,
        },
        UnregisterStepModel::RemoveCategory {
            clsid: guid_of(CLSID_TIP),
            category: Category::ImmersiveSupport,
        },
        UnregisterStepModel::RemoveCategory {
            clsid: guid_of(CLSID_TIP),
            category: Category::SystraySupport,
        },
        UnregisterStepModel::DeleteKeyTree { path: class_key() },
        UnregisterStepModel::DropWindowClass,
    ]
}

/// The registry key of the service's class.
pub fn class_key_path() -> (path: String)
    ensures
        path@ == class_key(),
{
    let mut path: String = "CLSID\\".to_owned();
    let name: String = guid_to_reg_path(&clsid_tip());
    vstd::string::StringExecFns::append(&mut path, name.as_str());
    path
}

/// The registry key of the module that serves the class.
pub fn server_key_path() -> (path: String)
    ensures
        path@ == server_key(),
{
    let mut path: String = class_key_path();
    vstd::string::StringExecFns::append(&mut path, "\\InprocServer32");
    path
}

/// The calls that register the service from the module at `dll_path`.
pub fn register_steps(dll_path: &str) -> (steps: Vec<RegisterStep>)
    ensures
        register_models(steps@) == registration(dll_path@),
{
    let mut steps: Vec<RegisterStep> = Vec::new();
    steps.push(RegisterStep::CreateKey { path: class_key_path() });
    steps.push(
        RegisterStep::SetValue {
            path: class_key_path(),
            value: RegValue { name: None, data: "awaza TIP".to_owned() },
        },
    );
    steps.push(RegisterStep::CloseKey { path: class_key_path() });
    steps.push(RegisterStep::CreateKey { path: server_key_path() });
    steps.push(
        RegisterStep::SetValue {
            path: server_key_path(),
            value: RegValue { name: None, data: dll_path.to_owned() },
        },
    );
    steps.push(
        RegisterStep::SetValue {
            path: server_key_path(),
            value: RegValue {
                name: Some("ThreadingModel".to_owned()),
                data: "Apartment".to_owned(),
            },
        },
    );
    steps.push(RegisterStep::CloseKey { path: server_key_path() });
    steps.push(RegisterStep::OpenManager { manager: Manager::Categories });
    steps.push(RegisterStep::AddCategory { clsid: clsid_tip(), category: Category::Keyboard });
    steps.push(
        RegisterStep::AddCategory { clsid: clsid_tip(), category: Category::ImmersiveSupport },
    );
    steps.push(RegisterStep::AddCategory { clsid: clsid_tip(), category: Category::SystraySupport });
    steps.push(RegisterStep::OpenManager { manager: Manager::Profiles });
    steps.push(RegisterStep::AddService { clsid: clsid_tip() });
    steps.push(
        RegisterStep::AddProfile {
            clsid: clsid_tip(),
            langid: LANGID_JA_JP,
            profile: profile_guid(),
            description: wide("awaza"),
            icon_file: wide(dll_path),
            icon_index: 0,
        },
    );
    assert(register_models(steps@) =~= registration(dll_path@));
    steps
}

/// The calls that register the service, once `module` says where its module lies.
/// Where that could not be found out there is nothing to call, and the failure is
/// handed on.
pub fn register_plan(module: Result<String, i32>) -> (plan: Result<Vec<RegisterStep>, i32>)
    ensures
        match module {
            Ok(dll_path) => plan is Ok && register_models(plan->Ok_0@) == registration(dll_path@),
            Err(code) => plan == Err::<Vec<RegisterStep>, i32>(code),
        },
{
    match module {
        Ok(dll_path) => Ok(register_steps(dll_path.as_str())),
        Err(code) => Err(code),
    }
}

/// The calls that unregister the service.
pub fn unregister_steps() -> (steps: Vec<UnregisterStep>)
    ensures
        unregister_models(steps@) == unregistration(),
{
    let mut steps: Vec<UnregisterStep> = Vec::new();
    steps.push(UnregisterStep::OpenManager { manager: Manager::Profiles });
    steps.push(UnregisterStep::RemoveService { clsid: clsid_tip() });
    steps.push(UnregisterStep::OpenManager { manager: Manager::Categories });
    steps.push(UnregisterStep::RemoveCategory { clsid: clsid_tip(), category: Category::Keyboard });
    steps.push(
        UnregisterStep::RemoveCategory { clsid: clsid_tip(), category: Category::ImmersiveSupport },
    );
    steps.push(
        UnregisterStep::RemoveCategory { clsid: clsid_tip(), category: Category::SystraySupport },
    );
    steps.push(UnregisterStep::DeleteKeyTree { path: class_key_path() });
    steps.push(UnregisterStep::DropWindowClass);
    assert(unregister_models(steps@) =~= unregistration());
    steps
}

impl UnregisterStepModel {
    /// The part of the system that the call opens.
    pub open spec fn opens(self) -> Option<Manager> {
        match self {
            UnregisterStepModel::OpenManager { manager } => Some(manager),
            _ => None,
        }
    }

    /// The part of the system that the call needs open.
    pub open spec fn needs(self) -> Option<Manager> {
        match self {
            UnregisterStepModel::RemoveService { .. } => Some(Manager::Profiles),
            UnregisterStepModel::RemoveCategory { .. } => Some(Manager::Categories),
            _ => None,
        }
    }
}

impl UnregisterStep {
    fn opens(&self) -> (manager: Option<Manager>)
        ensures
            manager == self@.opens(),
    {
        match self {
            UnregisterStep::OpenManager { manager } => Some(*manager),
            _ => None,
        }
    }

    fn needs(&self, manager: Manager) -> (needed: bool)
        ensures
            needed == (self@.needs() == Some(manager)),
    {
        match self {
            UnregisterStep::RemoveService { .. } => manager == Manager::Profiles,
            UnregisterStep::RemoveCategory { .. } => manager == Manager::Categories,
            _ => false,
        }
    }
}

/// The first place from `from` on whose call does without `missing`.
pub open spec fn place_without(
    steps: Seq<UnregisterStepModel>,
    from: int,
    missing: Manager,
) -> int
    decreases steps.len() - from,
{
    if 0 <= from < steps.len() && steps[from].needs() == Some(missing) {
        place_without(steps, from + 1, missing)
    } else {
        from
    }
}

/// The place that comes after unregistering calls up to `done`: the next one, or
/// behind those that need a part of the system that could not be opened.
pub open spec fn place_after(
    steps: Seq<UnregisterStepModel>,
    done: int,
    last: Result<(), i32>,
) -> int {
    if 0 < done <= steps.len() && last is Err && steps[done - 1].opens() is Some {
        place_without(steps, done, steps[done - 1].opens()->0)
    } else {
        done
    }
}

/// What comes after unregistering calls up to `done`: no failure ends the
/// unregistration or shows in its result.
pub open spec fn after_unregister(
    steps: Seq<UnregisterStepModel>,
    done: int,
    last: Result<(), i32>,
) -> Next<i32> {
    if place_after(steps, done, last) < steps.len() {
        Next::Call { place: place_after(steps, done, last) as usize }
    } else {
        Next::Ended { result: Ok(()) }
    }
}

/// What comes after the unregistering calls before the place `done`, where `last`
/// is how the one just before it ended.
pub fn unregister_progress(
    steps: &Vec<UnregisterStep>,
    done: usize,
    last: Result<(), i32>,
) -> (next: Next<i32>)
    ensures
        next == after_unregister(unregister_models(steps@), done as int, last),
{
    let ghost all = unregister_models(steps@);
    let mut place: usize = done;
    if 0 < done && done <= steps.len() && last.is_err() {
        assert(all[done - 1] == steps@[done - 1]@);
        match steps[done - 1].opens() {
            Some(missing) => {
                while place < steps.len() && steps[place].needs(missing)
                    invariant
                        all == unregister_models(steps@),
                        0 < done <= place <= steps@.len(),
                        place_without(all, place as int, missing) == place_without(
                            all,
                            done as int,
                            missing,
                        ),
                    decreases steps@.len() - place,
                {
                    assert(all[place as int] == steps@[place as int]@);
                    place = place + 1;
                }
                assert(place < steps@.len() ==> all[place as int] == steps@[place as int]@);
            },
            None => {},
        }
    }
    if place < steps.len() {
        Next::Call { place }
    } else {
        Next::Ended { result: Ok(()) }
    }
}

} // verus!
