//! Device catalog: listing input devices and resolving a selection to one of them.
//!
//! The host reports its input devices in order; each name either was read or
//! could not be (`Err` with the backend's message). The decisions below work on
//! that list.
use vstd::prelude::*;

verus! {

/// The synthetic entry that stands for the host's default input device.
pub open spec fn default_name() -> Seq<char> {
    "Default"@
}

/// Errors of the device catalog.
#[derive(Debug, Clone)]
pub enum ManagerError {
    NoDeviceAvailable,
    DeviceNotFound,
    DevicesError(String),
    DeviceNameError(String),
    SupportedStreamConfigsError(String),
    BuildStreamError(String),
    PlayStreamError(String),
}

/// Which device a selection resolves to.
#[derive(Debug, Clone, Copy, PartialEq, Eq, Structural)]
pub enum DeviceChoice {
    /// The host's default input device.
    HostDefault,
    /// The device at this position of the host's list.
    Listed(usize),
}

/// The entry was read and is exactly `name`.
pub open spec fn names_match(entry: Result<String, String>, name: Seq<char>) -> bool {
    entry is Ok && entry->Ok_0@ == name
}

/// Position `i` is the first entry of `names` that reads `name`.
pub open spec fn is_first_match(names: Seq<Result<String, String>>, name: Seq<char>, i: int) -> bool {
    &&& 0 <= i < names.len()
    &&& names_match(names[i], name)
    &&& forall|j: int| 0 <= j < i ==> !names_match(#[trigger] names[j], name)
}

/// Some readable entry of `names` is `name`.
pub open spec fn is_listed(names: Seq<Result<String, String>>, name: Seq<char>) -> bool {
    exists|i: int| 0 <= i < names.len() && names_match(#[trigger] names[i], name)
}

/// A selection that stands for the host's default device: none, or `"Default"`.
pub open spec fn selects_default(selection: Option<Seq<char>>) -> bool {
    selection is None || selection->Some_0 == default_name()
}

/// What resolving `selection` against `names` gives, when the host does or does
/// not have a default input device.
pub open spec fn resolved_device(
    selection: Option<Seq<char>>,
    names: Seq<Result<String, String>>,
    has_default: bool,
) -> Result<DeviceChoice, ManagerError> {
    if selects_default(selection) {
        if has_default {
            Ok(DeviceChoice::HostDefault)
        } else {
            Err(ManagerError::NoDeviceAvailable)
        }
    } else if is_listed(names, selection->Some_0) {
        Ok(
            DeviceChoice::Listed(
                (choose|i: int| is_first_match(names, selection->Some_0, i)) as usize,
            ),
        )
    } else {
        Err(ManagerError::DeviceNotFound)
    }
}

/// The view of a selection.
pub open spec fn selection_view(selection: Option<String>) -> Option<Seq<char>> {
    match selection {
        Some(s) => Some(s@),
        None => None,
    }
}

/// The name under which the host's default device is listed.
pub fn default_device_name() -> (r: String)
    ensures
        r@ == default_name(),
{
    "Default".to_owned()
}

/// The device list offered for selection: `"Default"` followed by the name of
/// every host device. A name that cannot be read fails the whole listing with
/// `DeviceNameError`, carrying the first such failure.
pub fn query_devices(names: &Vec<Result<String, String>>) -> (r: Result<Vec<String>, ManagerError>)
    ensures
        r is Ok <==> forall|i: int| 0 <= i < names@.len() ==> (#[trigger] names@[i]) is Ok,
        r is Ok ==> {
            let list = r->Ok_0@;
            &&& list.len() == names@.len() + 1
            &&& list[0]@ == default_name()
            &&& forall|i: int| 0 <= i < names@.len() ==> list[i + 1]@ == (#[trigger] names@[i])->Ok_0@
        },
        r is Err ==> exists|i: int|
            0 <= i < names@.len() && (#[trigger] names@[i]) is Err && r->Err_0
                == ManagerError::DeviceNameError(names@[i]->Err_0) && forall|j: int|
                0 <= j < i ==> (#[trigger] names@[j]) is Ok,
{
    let mut list: Vec<String> = Vec::new();
    list.push(default_device_name());
    let mut i: usize = 0;
    while i < names.len()
        invariant
            i <= names@.len(),
            list@.len() == i + 1,
            list@[0]@ == default_name(),
            forall|j: int| 0 <= j < i ==> (#[trigger] names@[j]) is Ok,
            forall|j: int| 0 <= j < i ==> list@[j + 1]@ == (#[trigger] names@[j])->Ok_0@,
        decreases names@.len() - i,
    {
        match &names[i] {
            Ok(name) => {
                list.push(name.clone());
            },
            Err(e) => {
                return Err(ManagerError::DeviceNameError(e.clone()));
            },
        }
        i = i + 1;
    }
    Ok(list)
}

/// Whether some readable device name is exactly `name`. Unreadable names are
/// skipped; an unknown name is reported as `false`.
pub fn is_device(names: &Vec<Result<String, String>>, name: &str) -> (r: bool)
    ensures
        r == is_listed(names@, name@),
{
    match find_device(names, name) {
        Some(_) => true,
        None => false,
    }
}

/// The position of the first readable device name that is exactly `name`.
fn find_device(names: &Vec<Result<String, String>>, name: &str) -> (r: Option<usize>)
    ensures
        r is Some ==> is_first_match(names@, name@, r->Some_0 as int),
        r is None ==> !is_listed(names@, name@),
{
    let wanted = name.to_owned();
    let mut i: usize = 0;
    while i < names.len()
        invariant
            i <= names@.len(),
            wanted@ == name@,
            forall|j: int| 0 <= j < i ==> !names_match(#[trigger] names@[j], name@),
        decreases names@.len() - i,
    {
        if let Ok(n) = &names[i] {
            if *n == wanted {
                return Some(i);
            }
        }
        i = i + 1;
    }
    None
}

/// Resolves a device selection. No selection, or `"Default"`, is the host's
/// default input device (`NoDeviceAvailable` when it has none); any other name
/// is the first readable device of that exact name (`DeviceNotFound` when there
/// is none). Unreadable names are skipped.
pub fn device(selection: &Option<String>, names: &Vec<Result<String, String>>, has_default: bool) -> (r:
    Result<DeviceChoice, ManagerError>)
    ensures
        r == resolved_device(selection_view(*selection), names@, has_default),
{
    let name = match selection {
        Some(name) if *name != default_device_name() => name,
        _ => {
            return if has_default {
                Ok(DeviceChoice::HostDefault)
            } else {
                Err(ManagerError::NoDeviceAvailable)
            };
        },
    };
    match find_device(names, name.as_str()) {
        Some(i) => {
            proof {
                let sel = name@;
                let c = choose|k: int| is_first_match(names@, sel, k);
                assert(is_first_match(names@, sel, c));
                assert(c == i as int) by {
                    if c < i {
                        assert(!names_match(names@[c], sel));
                    } else if c > i {
                        assert(!names_match(names@[i as int], sel));
                    }
                }
            }
            Ok(DeviceChoice::Listed(i))
        },
        None => Err(ManagerError::DeviceNotFound),
    }
}

/// The name of the selected device: the selection itself, or `"Default"` when
/// there is none.
pub fn current_device(selection: &Option<String>) -> (r: String)
    ensures
        r@ == match selection_view(*selection) {
            Some(name) => name,
            None => default_name(),
        },
{
    match selection {
        Some(name) => name.clone(),
        None => default_device_name(),
    }
}

/// Changes the selected device. `"Default"` clears the selection, so that the
/// host's default device is used at each start. Any other name is kept only
/// when a readable device carries it; otherwise the selection is unchanged and
/// the change fails with `DeviceNotFound`.
pub fn change_device(selection: &mut Option<String>, name: String, names: &Vec<Result<String, String>>) -> (r:
    Result<(), ManagerError>)
    ensures
        name@ == default_name() ==> r is Ok && *final(selection) == None::<String>,
        name@ != default_name() && is_listed(names@, name@) ==> r is Ok && *final(selection)
            == Some(name),
        name@ != default_name() && !is_listed(names@, name@) ==> r == Err::<(), ManagerError>(
            ManagerError::DeviceNotFound,
        ) && *final(selection) == *old(selection),
{
    if name == default_device_name() {
        *selection = None;
        Ok(())
    } else if is_device(names, name.as_str()) {
        *selection = Some(name);
        Ok(())
    } else {
        Err(ManagerError::DeviceNotFound)
    }
}

/// Selecting `"Default"` and selecting nothing resolve alike, to the host's
/// default device, whatever devices are listed.
pub proof fn lemma_default_selection(names: Seq<Result<String, String>>, has_default: bool)
    ensures
        resolved_device(Some(default_name()), names, has_default) == resolved_device(None, names, has_default),
        has_default ==> resolved_device(None, names, has_default) == Ok::<DeviceChoice, ManagerError>(
            DeviceChoice::HostDefault,
        ),
        !has_default ==> resolved_device(None, names, has_default) == Err::<DeviceChoice, ManagerError>(
            ManagerError::NoDeviceAvailable,
        ),
{
}

/// A name other than `"Default"` that no readable device carries resolves to
/// `DeviceNotFound`.
pub proof fn lemma_unknown_name(name: Seq<char>, names: Seq<Result<String, String>>, has_default: bool)
    requires
        name != default_name(),
        !is_listed(names, name),
    ensures
        resolved_device(Some(name), names, has_default) == Err::<DeviceChoice, ManagerError>(
            ManagerError::DeviceNotFound,
        ),
{
}

} // verus!
