//! Audio device descriptions returned by device enumeration, and the
//! assembly of the user-facing device list from raw device names.

use vstd::prelude::*;
use vstd::string::StrSliceExecFns;
use crate::error::AudioError;

verus! {

/// Whether a device records audio or plays it back.
#[derive(Debug, Clone, PartialEq, Eq, Structural)]
pub enum DeviceType {
    Input,
    Output,
}

/// A named audio device together with its direction and whether it is the
/// system default for that direction.
#[derive(Debug, Clone)]
pub struct AudioDevice {
    pub name: String,
    pub device_type: DeviceType,
    pub is_default: bool,
}

impl AudioDevice {
    pub fn new(name: String, device_type: DeviceType, is_default: bool) -> (r: Self)
        ensures
            r.name == name,
            r.device_type == device_type,
            r.is_default == is_default,
    {
        Self { name, device_type, is_default }
    }
}

/// Whether `"TAP"` occurs at position `i` of `s`.
pub open spec fn tap_at(s: Seq<char>, i: int) -> bool {
    s[i] == 'T' && s[i + 1] == 'A' && s[i + 2] == 'P'
}

/// Whether a device name contains `"TAP"`, the marker of the synthetic
/// tap devices that enumeration must hide.
pub open spec fn contains_tap(s: Seq<char>) -> bool {
    exists|i: int| 0 <= i && i + 3 <= s.len() && tap_at(s, i)
}

/// Report whether a device name contains the `"TAP"` marker.
pub fn name_contains_tap(s: &str) -> (r: bool)
    ensures
        r == contains_tap(s@),
{
    let n = s.unicode_len();
    if n < 3 {
        return false;
    }
    let mut i: usize = 0;
    while i <= n - 3
        invariant
            n == s@.len(),
            3 <= n,
            i <= n - 2,
            forall|k: int| 0 <= k < i ==> !tap_at(s@, k),
        decreases n - i,
    {
        if s.get_char(i) == 'T' && s.get_char(i + 1) == 'A' && s.get_char(i + 2) == 'P' {
            proof {
                assert(tap_at(s@, i as int));
            }
            return true;
        }
        i = i + 1;
    }
    false
}

/// The input names that survive enumeration: those without the tap marker.
pub open spec fn kept_input_names(names: Seq<String>) -> Seq<Seq<char>> {
    names.map_values(|s: String| s@).filter(|n: Seq<char>| !contains_tap(n))
}

/// Whether `name` is the default device's name.
pub open spec fn is_default_name(name: Seq<char>, default: Option<String>) -> bool {
    match default {
        Some(d) => d@ == name,
        None => false,
    }
}

/// Assemble the user-facing device list from raw enumeration results:
/// input devices first, with synthetic tap devices hidden, then output
/// devices, each marked default when its name matches the corresponding
/// default device's name.
pub fn assemble_device_list(
    input_names: &Vec<String>,
    output_names: &Vec<String>,
    default_input: &Option<String>,
    default_output: &Option<String>,
) -> (r: Vec<AudioDevice>)
    ensures
        ({
            let kept = kept_input_names(input_names@);
            &&& r@.len() == kept.len() + output_names@.len()
            &&& forall|i: int| 0 <= i < kept.len() ==> {
                &&& (#[trigger] r@[i]).name@ == kept[i]
                &&& r@[i].device_type == DeviceType::Input
                &&& r@[i].is_default == is_default_name(kept[i], *default_input)
            }
            &&& forall|i: int| 0 <= i < output_names@.len() ==> {
                &&& (#[trigger] r@[kept.len() + i]).name@ == output_names@[i]@
                &&& r@[kept.len() + i].device_type == DeviceType::Output
                &&& r@[kept.len() + i].is_default
                    == is_default_name(output_names@[i]@, *default_output)
            }
        }),
{
    let ghost pred = |n: Seq<char>| !contains_tap(n);
    let mut out: Vec<AudioDevice> = Vec::new();
    let mut i: usize = 0;
    proof {
        assert(input_names@.subrange(0, 0).map_values(|s: String| s@)
            =~= Seq::<Seq<char>>::empty());
    }
    while i < input_names.len()
        invariant
            i <= input_names@.len(),
            pred == (|n: Seq<char>| !contains_tap(n)),
            ({
                let kept = input_names@.subrange(0, i as int).map_values(|s: String| s@)
                    .filter(pred);
                &&& out@.len() == kept.len()
                &&& forall|k: int| 0 <= k < kept.len() ==> {
                    &&& (#[trigger] out@[k]).name@ == kept[k]
                    &&& out@[k].device_type == DeviceType::Input
                    &&& out@[k].is_default == is_default_name(kept[k], *default_input)
                }
            }),
        decreases input_names@.len() - i,
    {
        let ghost prev = input_names@.subrange(0, i as int).map_values(|s: String| s@)
            .filter(pred);
        let name = &input_names[i];
        let skip = name_contains_tap(name.as_str());
        if !skip {
            let is_default = match default_input {
                Some(d) => *d == *name,
                None => false,
            };
            out.push(AudioDevice::new(name.clone(), DeviceType::Input, is_default));
        }
        proof {
            let cur = input_names@.subrange(0, i + 1).map_values(|s: String| s@);
            assert(cur.drop_last() =~= input_names@.subrange(0, i as int)
                .map_values(|s: String| s@));
            assert(cur.last() == input_names@[i as int]@);
            reveal(Seq::filter);
            assert(cur.filter(pred) == if pred(cur.last()) {
                prev.push(cur.last())
            } else {
                prev
            });
        }
        i = i + 1;
    }
    proof {
        assert(input_names@.subrange(0, input_names@.len() as int) =~= input_names@);
        assert(kept_input_names(input_names@)
            == input_names@.subrange(0, input_names@.len() as int)
                .map_values(|s: String| s@).filter(pred));
    }
    let ghost kept = kept_input_names(input_names@);
    let mut j: usize = 0;
    while j < output_names.len()
        invariant
            j <= output_names@.len(),
            out@.len() == kept.len() + j,
            forall|k: int| 0 <= k < kept.len() ==> {
                &&& (#[trigger] out@[k]).name@ == kept[k]
                &&& out@[k].device_type == DeviceType::Input
                &&& out@[k].is_default == is_default_name(kept[k], *default_input)
            },
            forall|k: int| 0 <= k < j ==> {
                &&& (#[trigger] out@[kept.len() + k]).name@ == output_names@[k]@
                &&& out@[kept.len() + k].device_type == DeviceType::Output
                &&& out@[kept.len() + k].is_default
                    == is_default_name(output_names@[k]@, *default_output)
            },
        decreases output_names@.len() - j,
    {
        let name = &output_names[j];
        let is_default = match default_output {
            Some(d) => *d == *name,
            None => false,
        };
        out.push(AudioDevice::new(name.clone(), DeviceType::Output, is_default));
        j = j + 1;
    }
    out
}

/// Find the first input device with the wanted name; a name that matches no
/// device is reported as not available, with the name in the error.
pub fn find_device_index(names: &Vec<String>, want: &String) -> (r: Result<usize, AudioError>)
    ensures
        match r {
            Ok(i) => {
                &&& 0 <= i < names@.len()
                &&& names@[i as int]@ == want@
                &&& forall|k: int| 0 <= k < i ==> names@[k]@ != want@
            },
            Err(e) => {
                &&& e matches AudioError::DeviceNotAvailable(m) && m@ == want@
                &&& forall|k: int| 0 <= k < names@.len() ==> names@[k]@ != want@
            },
        },
{
    let mut i: usize = 0;
    while i < names.len()
        invariant
            i <= names@.len(),
            forall|k: int| 0 <= k < i ==> names@[k]@ != want@,
        decreases names@.len() - i,
    {
        if names[i] == *want {
            return Ok(i);
        }
        i = i + 1;
    }
    Err(AudioError::DeviceNotAvailable(want.clone()))
}

} // verus!
