use vstd::prelude::*;

use vstd::string::StringExecFns;

verus! {

pub const STATE_NONE: u32 = 0;
pub const STATE_PROTOCOL_DETECTING: u32 = 1;
pub const STATE_PROTOCOL_SUCCESS: u32 = 2;
pub const STATE_PROTOCOL_FAILED: u32 = 4;
pub const STATE_PROTOCOL_FINISHED: u32 = 3;
pub const STATE_PROTOCOL_ALL: u32 = 3;
pub const STATE_STREAM_FINISHED: u32 = 8;
pub const STATE_STREAM_SKIP: u32 = 16;

/// `name` added to a comma-separated list when `on`.
pub open spec fn with_name(acc: Seq<char>, on: bool, name: Seq<char>) -> Seq<char> {
    if !on {
        acc
    } else if acc.len() == 0 {
        name
    } else {
        acc + seq![','] + name
    }
}

/// The names of the flags set in `state`, comma-separated in a fixed order.
pub open spec fn flag_names(state: u32) -> Seq<char> {
    let a = with_name(Seq::empty(), state & STATE_PROTOCOL_DETECTING != 0, "detecting"@);
    let b = with_name(a, state & STATE_PROTOCOL_SUCCESS != 0, "detect_success"@);
    let c = with_name(b, state & STATE_PROTOCOL_FAILED != 0, "detect_failed"@);
    let d = with_name(c, state & STATE_STREAM_FINISHED != 0, "finished"@);
    with_name(d, state & STATE_STREAM_SKIP != 0, "skip"@)
}

/// The flags of a stream state in words, or "none" when no flag is set.
pub open spec fn state_text(state: u32) -> Seq<char> {
    if flag_names(state).len() == 0 {
        "none"@
    } else {
        flag_names(state)
    }
}

/// Adds `name` to the list when `on`; `empty` tells whether the list is empty, and the
/// result whether it still is.
fn add_name(acc: &mut String, empty: bool, on: bool, name: &str) -> (r: bool)
    requires
        name@.len() > 0,
        empty == (old(acc)@.len() == 0),
    ensures
        final(acc)@ == with_name(old(acc)@, on, name@),
        r == (final(acc)@.len() == 0),
{
    if on {
        if empty {
            acc.append(name);
        } else {
            proof {
                reveal_strlit(",");
            }
            acc.append(",");
            acc.append(name);
        }
        false
    } else {
        empty
    }
}

pub fn state_to_string(state: u32) -> (r: String)
    ensures
        r@ == state_text(state),
{
    proof {
        reveal_strlit("detecting");
        reveal_strlit("detect_success");
        reveal_strlit("detect_failed");
        reveal_strlit("finished");
        reveal_strlit("skip");
        reveal_strlit("none");
    }
    let mut ret = String::new();
    let mut empty = true;
    empty = add_name(&mut ret, empty, state & STATE_PROTOCOL_DETECTING != 0, "detecting");
    empty = add_name(&mut ret, empty, state & STATE_PROTOCOL_SUCCESS != 0, "detect_success");
    empty = add_name(&mut ret, empty, state & STATE_PROTOCOL_FAILED != 0, "detect_failed");
    empty = add_name(&mut ret, empty, state & STATE_STREAM_FINISHED != 0, "finished");
    empty = add_name(&mut ret, empty, state & STATE_STREAM_SKIP != 0, "skip");
    if empty {
        return String::from_str("none");
    }
    ret
}

} // verus!
