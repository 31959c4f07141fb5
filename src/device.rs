//! Choosing the capture device.
use vstd::prelude::*;
use crate::config::AudioError;

verus! {

/// The device that capture uses.
#[derive(Clone, Copy, Debug, PartialEq, Eq, Structural)]
pub enum DeviceChoice {
    /// The input device at this index of the enumerated list.
    Listed(usize),
    /// The platform's default input device.
    DefaultInput,
    /// The platform's default output device, captured through its output side.
    DefaultOutput,
}

/// The input device at index `i` is named `wanted`.
pub open spec fn is_named(names: Seq<Option<String>>, i: int, wanted: Seq<char>) -> bool {
    names[i] is Some && names[i]->Some_0@ == wanted
}

/// Chooses the capture device.
///
/// Where the platform captures from input devices (`input_capture`), the first
/// enumerated input device named `preferred` is taken (`names` holds `None` for
/// a device whose name could not be read), else the default input device.
/// Elsewhere the default output device is taken. Without such a device the
/// result is `DeviceNotFound`.
pub fn select_device(
    names: &Vec<Option<String>>,
    preferred: &String,
    has_default_input: bool,
    has_default_output: bool,
    input_capture: bool,
) -> (r: Result<DeviceChoice, AudioError>)
    ensures
        input_capture ==> match r {
            Ok(DeviceChoice::Listed(i)) => {
                &&& i < names@.len()
                &&& is_named(names@, i as int, preferred@)
                &&& forall|j: int| 0 <= j < i ==> !is_named(names@, j, preferred@)
            },
            Ok(DeviceChoice::DefaultInput) => {
                &&& has_default_input
                &&& forall|j: int| 0 <= j < names@.len() ==> !is_named(names@, j, preferred@)
            },
            Ok(DeviceChoice::DefaultOutput) => false,
            Err(e) => {
                &&& e == AudioError::DeviceNotFound
                &&& !has_default_input
                &&& forall|j: int| 0 <= j < names@.len() ==> !is_named(names@, j, preferred@)
            },
        },
        !input_capture ==> (r == if has_default_output {
            Ok::<DeviceChoice, AudioError>(DeviceChoice::DefaultOutput)
        } else {
            Err::<DeviceChoice, AudioError>(AudioError::DeviceNotFound)
        }),
{
    if !input_capture {
        return if has_default_output {
            Ok(DeviceChoice::DefaultOutput)
        } else {
            Err(AudioError::DeviceNotFound)
        };
    }
    let mut i: usize = 0;
    while i < names.len()
        invariant
            input_capture,
            i <= names@.len(),
            forall|j: int| 0 <= j < i ==> !is_named(names@, j, preferred@),
        decreases names@.len() - i,
    {
        match &names[i] {
            Some(name) => {
                if name.eq(preferred) {
                    return Ok(DeviceChoice::Listed(i));
                }
            },
            None => {},
        }
        i = i + 1;
    }
    if has_default_input {
        Ok(DeviceChoice::DefaultInput)
    } else {
        Err(AudioError::DeviceNotFound)
    }
}

} // verus!
