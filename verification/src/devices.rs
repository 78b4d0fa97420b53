//! Device registry: resolving a human-readable device name to a device
//! record, and querying capability sets.
//!
//! Enumeration itself is platform work; the registry holds what the logic
//! reads from each enumerated device — identifier, display name, unique id
//! string, how many configurations it exposes per direction, and the sample
//! formats it advertises for capture. Resolution happens once per session
//! start, and the resolved identity is fixed afterwards.
use vstd::prelude::*;

use crate::errors::RecorderError;
use crate::format::SampleFormat;

verus! {

/// The direction of a stream a device is asked to serve.
#[derive(Clone, Copy, Debug, PartialEq, Eq, Structural)]
pub enum DeviceType {
    AudioInput,
    AudioOutput,
}

/// What the pipeline knows about one enumerated device.
pub struct AudioDevice {
    /// Platform object identifier.
    pub device_id: u32,
    /// Human-readable display name.
    pub name: String,
    /// Platform unique id string.
    pub uid: String,
    /// Number of supported capture configurations.
    pub input_config_count: usize,
    /// Number of supported render configurations.
    pub output_config_count: usize,
    /// Sample formats the device advertises for capture, in its own order.
    pub input_formats: Vec<SampleFormat>,
    /// Highest supported sample rate, in hertz.
    pub sample_rate: u32,
    /// Channel count of the best supported configuration.
    pub channels: u16,
}

/// The devices enumerated at session start, with the platform defaults.
pub struct DeviceRegistry {
    pub devices: Vec<AudioDevice>,
    /// Index of the platform default capture device, if any.
    pub default_input: Option<usize>,
    /// Index of the platform default render device, if any.
    pub default_output: Option<usize>,
}

/// Whether `d` exposes at least one configuration for direction `t`.
pub open spec fn spec_supports(d: AudioDevice, t: DeviceType) -> bool {
    match t {
        DeviceType::AudioInput => d.input_config_count > 0,
        DeviceType::AudioOutput => d.output_config_count > 0,
    }
}

/// Whether `d` both serves direction `t` and carries display name `name`.
pub open spec fn spec_device_matches(d: AudioDevice, name: Seq<char>, t: DeviceType) -> bool {
    spec_supports(d, t) && d.name@ == name
}

/// Whether any enumerated device matches `name` for direction `t`.
pub open spec fn spec_exists_match(ds: Seq<AudioDevice>, name: Seq<char>, t: DeviceType) -> bool {
    exists|i: int| 0 <= i < ds.len() && spec_device_matches(ds[i], name, t)
}

/// Whether `i` is the first index whose device matches `name` for `t`.
pub open spec fn spec_is_first_match(
    ds: Seq<AudioDevice>,
    name: Seq<char>,
    t: DeviceType,
    i: int,
) -> bool {
    &&& 0 <= i < ds.len()
    &&& spec_device_matches(ds[i], name, t)
    &&& forall|j: int| 0 <= j < i ==> !spec_device_matches(ds[j], name, t)
}

/// The platform default device index for direction `t`.
pub open spec fn spec_default_index(r: DeviceRegistry, t: DeviceType) -> Option<usize> {
    match t {
        DeviceType::AudioInput => r.default_input,
        DeviceType::AudioOutput => r.default_output,
    }
}

impl DeviceRegistry {
    /// The registry's indices point into its device list.
    pub open spec fn wf(&self) -> bool {
        &&& match self.default_input {
            Option::Some(i) => i < self.devices@.len(),
            Option::None => true,
        }
        &&& match self.default_output {
            Option::Some(i) => i < self.devices@.len(),
            Option::None => true,
        }
    }
}

/// Resolves a device for direction `device_type`: the first enumerated
/// device of that direction carrying the requested name, or the platform
/// default device when no name is given or none matches. Fails with
/// `DeviceNotFound` exactly when the fallback is needed and the platform
/// reports no default device.
pub fn get_device(
    registry: &DeviceRegistry,
    custom_device: Option<&String>,
    device_type: DeviceType,
) -> (r: Result<usize, RecorderError>)
    requires
        registry.wf(),
    ensures
        match r {
            Ok(i) => i < registry.devices@.len() && match custom_device {
                Option::Some(name) => if spec_exists_match(
                    registry.devices@,
                    name@,
                    device_type,
                ) {
                    spec_is_first_match(registry.devices@, name@, device_type, i as int)
                } else {
                    spec_default_index(*registry, device_type) == Some(i)
                },
                Option::None => spec_default_index(*registry, device_type) == Some(i),
            },
            Err(e) => {
                &&& e == RecorderError::DeviceNotFound
                &&& spec_default_index(*registry, device_type) is None
                &&& match custom_device {
                    Option::Some(name) => !spec_exists_match(
                        registry.devices@,
                        name@,
                        device_type,
                    ),
                    Option::None => true,
                }
            },
        },
{
    if let Some(name) = custom_device {
        let mut i: usize = 0;
        while i < registry.devices.len()
            invariant
                registry.wf(),
                custom_device == Some(name),
                0 <= i <= registry.devices@.len(),
                forall|j: int|
                    0 <= j < i ==> !spec_device_matches(registry.devices@[j], name@, device_type),
            decreases registry.devices@.len() - i,
        {
            let d = &registry.devices[i];
            let supports = match device_type {
                DeviceType::AudioInput => d.input_config_count > 0,
                DeviceType::AudioOutput => d.output_config_count > 0,
            };
            if supports && d.name == *name {
                proof {
                    assert(spec_device_matches(registry.devices@[i as int], name@, device_type));
                }
                return Ok(i);
            }
            i = i + 1;
        }
    }
    match device_type {
        DeviceType::AudioInput => match registry.default_input {
            Some(i) => Ok(i),
            None => Err(RecorderError::DeviceNotFound),
        },
        DeviceType::AudioOutput => match registry.default_output {
            Some(i) => Ok(i),
            None => Err(RecorderError::DeviceNotFound),
        },
    }
}

/// Whether any enumerated device carries the display name `target_name`,
/// regardless of direction.
pub fn check_device_exists(devices: &Vec<AudioDevice>, target_name: &String) -> (r: bool)
    ensures
        r == exists|i: int| 0 <= i < devices@.len() && devices@[i].name@ == target_name@,
{
    let mut i: usize = 0;
    while i < devices.len()
        invariant
            0 <= i <= devices@.len(),
            forall|j: int| 0 <= j < i ==> devices@[j].name@ != target_name@,
        decreases devices@.len() - i,
    {
        if devices[i].name == *target_name {
            return true;
        }
        i = i + 1;
    }
    false
}

/// The unique id strings of all enumerated devices, in enumeration order.
pub fn all_device_uids(devices: &Vec<AudioDevice>) -> (uids: Vec<String>)
    ensures
        uids@.len() == devices@.len(),
        forall|i: int| 0 <= i < devices@.len() ==> uids@[i]@ == devices@[i].uid@,
{
    let mut uids: Vec<String> = Vec::new();
    let mut i: usize = 0;
    while i < devices.len()
        invariant
            0 <= i <= devices@.len(),
            uids@.len() == i,
            forall|j: int| 0 <= j < i ==> uids@[j]@ == devices@[j].uid@,
        decreases devices@.len() - i,
    {
        uids.push(devices[i].uid.clone());
        i = i + 1;
    }
    uids
}

/// Whether some enumerated device carries the platform identifier `id`.
pub open spec fn spec_id_exists(ds: Seq<AudioDevice>, id: u32) -> bool {
    exists|i: int| 0 <= i < ds.len() && ds[i].device_id == id
}

/// Whether `i` is the first index whose device carries identifier `id`.
pub open spec fn spec_is_first_id_match(ds: Seq<AudioDevice>, id: u32, i: int) -> bool {
    &&& 0 <= i < ds.len()
    &&& ds[i].device_id == id
    &&& forall|j: int| 0 <= j < i ==> ds[j].device_id != id
}

/// The first index whose device carries identifier `id`.
pub open spec fn spec_first_id_index(ds: Seq<AudioDevice>, id: u32) -> int {
    choose|i: int| spec_is_first_id_match(ds, id, i)
}

/// The display name of the device that identifier `id` resolves to.
pub open spec fn spec_name_for_id(ds: Seq<AudioDevice>, id: u32) -> Seq<char> {
    ds[spec_first_id_index(ds, id)].name@
}

/// A first match for an identifier is unique.
pub proof fn lemma_first_id_match_unique(ds: Seq<AudioDevice>, id: u32, i: int, j: int)
    requires
        spec_is_first_id_match(ds, id, i),
        spec_is_first_id_match(ds, id, j),
    ensures
        i == j,
{
    if i < j {
        assert(ds[i].device_id != id);
    } else if j < i {
        assert(ds[j].device_id != id);
    }
}

/// A first name match for a direction is unique.
pub proof fn lemma_first_match_unique(
    ds: Seq<AudioDevice>,
    name: Seq<char>,
    t: DeviceType,
    i: int,
    j: int,
)
    requires
        spec_is_first_match(ds, name, t, i),
        spec_is_first_match(ds, name, t, j),
    ensures
        i == j,
{
    if i < j {
        assert(!spec_device_matches(ds[i], name, t));
    } else if j < i {
        assert(!spec_device_matches(ds[j], name, t));
    }
}

/// The first index whose device matches `name` for direction `t`.
pub open spec fn spec_first_match_index(ds: Seq<AudioDevice>, name: Seq<char>, t: DeviceType) -> int {
    choose|i: int| spec_is_first_match(ds, name, t, i)
}

/// The index that resolving `name` for direction `t` yields: the first
/// name match when one exists, the platform default otherwise.
pub open spec fn spec_resolved_index(r: DeviceRegistry, name: Seq<char>, t: DeviceType) -> int {
    if spec_exists_match(r.devices@, name, t) {
        spec_first_match_index(r.devices@, name, t)
    } else {
        spec_default_index(r, t)->0 as int
    }
}

/// Whether a session device identifier resolves at all: the identifier
/// must be present, name it a device, and either that name matches an
/// enumerated device of the direction or the platform has a default.
pub open spec fn spec_device_resolvable(r: DeviceRegistry, id: Option<u32>, t: DeviceType) -> bool {
    match id {
        Option::Some(v) => spec_id_exists(r.devices@, v) && (spec_exists_match(
            r.devices@,
            spec_name_for_id(r.devices@, v),
            t,
        ) || spec_default_index(r, t) is Some),
        Option::None => false,
    }
}

/// The device index a session identifier resolves to, when it resolves.
pub open spec fn spec_session_device_index(r: DeviceRegistry, id: u32, t: DeviceType) -> int {
    spec_resolved_index(r, spec_name_for_id(r.devices@, id), t)
}

/// Resolves a session device: looks the identifier up among the
/// enumerated devices, then resolves its display name for the direction,
/// falling back to the platform default. Fails with `DeviceNotFound`
/// exactly when no identifier was given, the identifier names no
/// enumerated device, or the name fallback finds no default.
pub fn resolve_session_device(
    registry: &DeviceRegistry,
    device_id: Option<u32>,
    device_type: DeviceType,
) -> (r: Result<usize, RecorderError>)
    requires
        registry.wf(),
    ensures
        match r {
            Ok(i) => spec_device_resolvable(*registry, device_id, device_type) && i
                == spec_session_device_index(*registry, device_id->0, device_type) && i
                < registry.devices@.len(),
            Err(e) => e == RecorderError::DeviceNotFound && !spec_device_resolvable(
                *registry,
                device_id,
                device_type,
            ),
        },
{
    let id = match device_id {
        Some(id) => id,
        None => {
            return Err(RecorderError::DeviceNotFound);
        },
    };
    let name_index = match device_index_for_id(registry, id) {
        Some(i) => i,
        None => {
            return Err(RecorderError::DeviceNotFound);
        },
    };
    proof {
        assert(spec_is_first_id_match(registry.devices@, id, name_index as int));
        lemma_first_id_match_unique(
            registry.devices@,
            id,
            name_index as int,
            spec_first_id_index(registry.devices@, id),
        );
    }
    let name = &registry.devices[name_index].name;
    let resolved = get_device(registry, Some(name), device_type);
    match resolved {
        Ok(i) => {
            proof {
                if spec_exists_match(registry.devices@, name@, device_type) {
                    lemma_first_match_unique(
                        registry.devices@,
                        name@,
                        device_type,
                        i as int,
                        spec_first_match_index(registry.devices@, name@, device_type),
                    );
                }
            }
            Ok(i)
        },
        Err(e) => Err(e),
    }
}

/// The first enumerated device carrying the platform identifier `id`.
pub fn device_index_for_id(registry: &DeviceRegistry, id: u32) -> (r: Option<usize>)
    ensures
        match r {
            Option::Some(i) => spec_is_first_id_match(registry.devices@, id, i as int),
            Option::None => !spec_id_exists(registry.devices@, id),
        },
{
    let mut i: usize = 0;
    while i < registry.devices.len()
        invariant
            0 <= i <= registry.devices@.len(),
            forall|j: int| 0 <= j < i ==> registry.devices@[j].device_id != id,
        decreases registry.devices@.len() - i,
    {
        if registry.devices[i].device_id == id {
            return Some(i);
        }
        i = i + 1;
    }
    None
}

} // verus!
