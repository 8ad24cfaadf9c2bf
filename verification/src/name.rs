//! The name of the file that a dump is written to.

use vstd::prelude::*;
use vstd::string::{StrSliceExecFns, StringExecFns};
use crate::clock::{is_timestamp, utc_now_formatted};

verus! {

/// The index of the last `'.'` of `name`, if it has one.
pub open spec fn last_dot(name: Seq<char>) -> Option<int>
    decreases name.len(),
{
    if name.len() == 0 {
        None
    } else if name.last() == '.' {
        Some(name.len() - 1)
    } else {
        last_dot(name.drop_last())
    }
}

/// `name` without its last `'.'` and what follows it; `name` itself where it
/// holds no `'.'`.
pub open spec fn stem(name: Seq<char>) -> Seq<char> {
    match last_dot(name) {
        Some(at) => name.subrange(0, at),
        None => name,
    }
}

/// The base of the file name: the caller's choice where there is one, else the
/// stem of the module's name.
pub open spec fn chosen_base(module_name: Seq<char>, file_name: Option<String>) -> Seq<char> {
    match file_name {
        Some(chosen) => chosen@,
        None => stem(module_name),
    }
}

/// The file name made of a base and a timestamp.
pub open spec fn file_name_of(base: Seq<char>, timestamp: Seq<char>) -> Seq<char> {
    base + "_"@ + timestamp + "_dump.exe"@
}

/// `last_dot` finds a `'.'` that no other `'.'` follows, and finds none only
/// where there is none.
pub proof fn lemma_last_dot(name: Seq<char>)
    ensures
        match last_dot(name) {
            Some(at) => {
                &&& 0 <= at < name.len()
                &&& name[at] == '.'
                &&& forall|j: int| at < j < name.len() ==> name[j] != '.'
            },
            None => forall|j: int| 0 <= j < name.len() ==> name[j] != '.',
        },
    decreases name.len(),
{
    if name.len() > 0 && name.last() != '.' {
        let front = name.drop_last();
        lemma_last_dot(front);
        assert forall|j: int| 0 <= j < front.len() implies front[j] == name[j] by {}
        match last_dot(front) {
            Some(at) => {
                assert forall|j: int| at < j < name.len() implies name[j] != '.' by {
                    if j < front.len() {
                        assert(front[j] != '.');
                    }
                }
            },
            None => {
                assert forall|j: int| 0 <= j < name.len() implies name[j] != '.' by {
                    if j < front.len() {
                        assert(front[j] != '.');
                    }
                }
            },
        }
    }
}

/// A `'.'` that no other `'.'` follows is the one `last_dot` finds.
pub proof fn lemma_last_dot_is(name: Seq<char>, at: int)
    requires
        0 <= at < name.len(),
        name[at] == '.',
        forall|j: int| at < j < name.len() ==> name[j] != '.',
    ensures
        last_dot(name) == Some(at),
{
    lemma_last_dot(name);
}

/// Cuts the last `'.'` of `name` and what follows it.
pub fn file_stem(name: &str) -> (cut: String)
    ensures
        cut@ == stem(name@),
{
    let len: usize = name.unicode_len();
    let mut at: usize = len;
    while at > 0
        invariant
            at <= len,
            len == name@.len(),
            forall|j: int| at <= j < len ==> name@[j] != '.',
        decreases at,
    {
        if name.get_char(at - 1) == '.' {
            proof {
                lemma_last_dot_is(name@, at - 1);
            }
            return String::from_str(name.substring_char(0, at - 1));
        }
        at -= 1;
    }
    proof {
        lemma_last_dot(name@);
    }
    String::from_str(name)
}

/// The base of the file name: `file_name` as it is where the caller gave one,
/// else the module's name without its last `'.'` and what follows it.
pub fn base_name(module_name: &str, file_name: Option<String>) -> (base: String)
    ensures
        base@ == chosen_base(module_name@, file_name),
        file_name matches Some(chosen) ==> base@ == chosen@,
        file_name is None && !module_name@.contains('.') ==> base@ == module_name@,
{
    proof {
        lemma_last_dot(module_name@);
    }
    match file_name {
        Some(chosen) => chosen,
        None => file_stem(module_name),
    }
}

/// Puts the file name together: the base, an underscore, the timestamp and
/// the suffix `_dump.exe`.
pub fn dump_file_name(base: &str, timestamp: &str) -> (name: String)
    ensures
        name@ == file_name_of(base@, timestamp@),
{
    let mut name = String::from_str(base);
    name.append("_");
    name.append(timestamp);
    name.append("_dump.exe");
    name
}

/// The file name for a dump taken at the time `timestamp` stands for.
pub fn output_file_name(module_name: &str, file_name: Option<String>, timestamp: &str) -> (name:
    String)
    ensures
        name@ == file_name_of(chosen_base(module_name@, file_name), timestamp@),
{
    let base = base_name(module_name, file_name);
    dump_file_name(base.as_str(), timestamp)
}

/// The file name for a dump taken now: the base and the suffix are fixed by
/// the arguments; between them stands a timestamp of the form
/// `YYYY-MM-DD-HHMMSS`, which tells the time the clock gave.
pub fn timestamped_file_name(module_name: &str, file_name: Option<String>) -> (name: String)
    ensures
        exists|timestamp: Seq<char>|
            is_timestamp(timestamp) && name@ == #[trigger] file_name_of(
                chosen_base(module_name@, file_name),
                timestamp,
            ),
{
    let timestamp = utc_now_formatted("%Y-%m-%d-%H%M%S");
    output_file_name(module_name, file_name, timestamp.as_str())
}

} // verus!
