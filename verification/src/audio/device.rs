//! Recognition of PulseAudio monitor sources among input devices.
use vstd::prelude::*;

use crate::text::{ends_with, has_suffix};

verus! {

/// What the user wants captioned.
#[derive(Clone, Copy, Debug, PartialEq, Eq, Structural)]
pub enum AudioSource {
    /// The physical microphone.
    Microphone,
    /// The audio currently played by the system.
    SystemAudio,
}

/// Suffix PulseAudio gives to the monitor source of an output.
pub const MONITOR_SUFFIX: &'static str = ".monitor";

/// Name of the monitor source of the output `sink`.
pub fn monitor_name_for_sink(sink: &str) -> (r: String)
    ensures
        r@ == sink@ + MONITOR_SUFFIX@,
{
    let mut r = sink.to_owned();
    r.append(MONITOR_SUFFIX);
    r
}

/// Whether device `i` of `names` is named `name`.
pub open spec fn named(names: Seq<Option<String>>, i: int, name: Seq<char>) -> bool {
    names[i] matches Some(n) && n@ == name
}

/// Whether device `i` of `names` is a monitor source.
pub open spec fn is_monitor(names: Seq<Option<String>>, i: int) -> bool {
    names[i] matches Some(n) && has_suffix(n@, MONITOR_SUFFIX@)
}

/// Picks the monitor source to capture system audio from, among input devices
/// whose names are `names` (`None` for a device without a readable name): the
/// first device named after the default output `sink` with the monitor suffix,
/// else the first device whose name has the monitor suffix.
pub fn pick_monitor(sink: Option<&str>, names: &[Option<String>]) -> (r: Option<usize>)
    ensures
        match r {
            Some(i) => {
                &&& i < names@.len()
                &&& is_monitor(names@, i as int)
                &&& (sink matches Some(s) && named(names@, i as int, s@ + MONITOR_SUFFIX@)
                    && forall|j: int| 0 <= j < i ==> !named(names@, j, s@ + MONITOR_SUFFIX@))
                    || ((sink matches Some(s) ==> forall|j: int| 0 <= j < names@.len() ==> !named(names@, j, s@ + MONITOR_SUFFIX@))
                    && forall|j: int| 0 <= j < i ==> !is_monitor(names@, j))
            },
            None => forall|j: int| 0 <= j < names@.len() ==> !is_monitor(names@, j),
        },
{
    if sink.is_some() {
        let s = sink.unwrap();
        let wanted = monitor_name_for_sink(s);
        let mut i: usize = 0;
        while i < names.len()
            invariant
                i <= names@.len(),
                sink == Some(s),
                wanted@ == s@ + MONITOR_SUFFIX@,
                forall|j: int| 0 <= j < i ==> !named(names@, j, s@ + MONITOR_SUFFIX@),
            decreases names@.len() - i,
        {
            match &names[i] {
                Some(n) => {
                    if *n == wanted {
                        proof {
                            let suf = MONITOR_SUFFIX@;
                            assert(wanted@.subrange(wanted@.len() - suf.len(), wanted@.len() as int) =~= suf);
                            assert(has_suffix(n@, suf));
                            assert(is_monitor(names@, i as int));
                        }
                        return Some(i);
                    }
                },
                None => {},
            }
            i = i + 1;
        }
    }
    let mut i: usize = 0;
    while i < names.len()
        invariant
            i <= names@.len(),
            sink matches Some(s) ==> forall|j: int| 0 <= j < names@.len() ==> !named(names@, j, s@ + MONITOR_SUFFIX@),
            forall|j: int| 0 <= j < i ==> !is_monitor(names@, j),
        decreases names@.len() - i,
    {
        match &names[i] {
            Some(n) => {
                if ends_with(n.as_str(), MONITOR_SUFFIX) {
                    return Some(i);
                }
            },
            None => {},
        }
        i = i + 1;
    }
    None
}

} // verus!
