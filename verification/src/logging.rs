//! Where the layers write their logs.
//!
//! A layer runs inside a host process whose standard streams may be closed,
//! so each process gets a file of its own under the state directory.

use crate::text::{self, decimal_string};
use vstd::prelude::*;
use vstd::string::*;

verus! {

/// The two layers, each with its own log file.
#[derive(Clone, Copy, Debug, PartialEq, Eq, Structural)]
pub enum Layer {
    Headset,
    Graphics,
}

/// The log directory for the values of `XDG_STATE_HOME` and `HOME`, where an
/// empty value counts as unset.
pub open spec fn directory(state_home: Option<Seq<char>>, home: Option<Seq<char>>) -> Seq<char> {
    match state_home {
        Some(s) if s.len() > 0 => s + "/ffr-vrs"@,
        _ => match home {
            Some(h) if h.len() > 0 => h + "/.local/state/ffr-vrs"@,
            _ => "/tmp/ffr-vrs"@,
        },
    }
}

/// The text that an optional string holds.
pub open spec fn value(s: Option<String>) -> Option<Seq<char>> {
    match s {
        Some(v) => Some(v@),
        None => None,
    }
}

/// The log directory: under the state directory, else under the home
/// directory, else under `/tmp`.
pub fn log_dir(state_home: Option<String>, home: Option<String>) -> (r: String)
    ensures
        r@ == directory(value(state_home), value(home)),
{
    if let Some(s) = state_home {
        if !s.as_str().is_empty() {
            let mut dir: String = s;
            dir.append("/ffr-vrs");
            return dir;
        }
    }
    if let Some(h) = home {
        if !h.as_str().is_empty() {
            let mut dir: String = h;
            dir.append("/.local/state/ffr-vrs");
            return dir;
        }
    }
    "/tmp/ffr-vrs".to_owned()
}

/// The log file of a process.
pub open spec fn file_name(layer: Layer, pid: u32) -> Seq<char> {
    (match layer {
        Layer::Headset => "ffr-oxr-"@,
        Layer::Graphics => "ffr-vk-"@,
    }) + text::decimal(pid as nat) + ".log"@
}

/// The log file of a process.
pub fn log_file(layer: Layer, pid: u32) -> (r: String)
    ensures
        r@ == file_name(layer, pid),
{
    let mut name: String = match layer {
        Layer::Headset => "ffr-oxr-".to_owned(),
        Layer::Graphics => "ffr-vk-".to_owned(),
    };
    let number: String = decimal_string(pid as u64);
    name.append(number.as_str());
    name.append(".log");
    name
}

/// The state directory comes before the home directory, and both before
/// `/tmp`; an empty value counts as none.
pub proof fn directories_are_taken_in_order(state: Seq<char>, home: Option<Seq<char>>)
    ensures
        state.len() > 0 ==> directory(Some(state), home) == state + "/ffr-vrs"@,
        directory(Some(Seq::empty()), home) == directory(None, home),
        state.len() > 0 ==> directory(None, Some(state)) == state + "/.local/state/ffr-vrs"@,
        directory(None, Some(Seq::empty())) == directory(None, None),
        directory(None, None) == "/tmp/ffr-vrs"@,
{
}

/// No two processes and no two layers share a log file.
pub proof fn log_files_are_not_shared(a: Layer, p: u32, b: Layer, q: u32)
    requires
        file_name(a, p) == file_name(b, q),
    ensures
        a == b,
        p == q,
{
    reveal_strlit("ffr-oxr-");
    reveal_strlit("ffr-vk-");
    reveal_strlit(".log");
    let x = file_name(a, p);
    let y = file_name(b, q);
    assert(x[4] == if a == Layer::Headset {
        'o'
    } else {
        'v'
    });
    assert(y[4] == if b == Layer::Headset {
        'o'
    } else {
        'v'
    });
    let n: int = if a == Layer::Headset {
        8
    } else {
        7
    };
    assert(x.subrange(n, x.len() - 4) =~= text::decimal(p as nat));
    assert(y.subrange(n, y.len() - 4) =~= text::decimal(q as nat));
    text::decimal_reads_back(p as nat);
    text::decimal_reads_back(q as nat);
}

/// A log file is named after its layer and its process, and ends in `.log`.
pub proof fn log_files_are_named(pid: u32)
    ensures
        file_name(Layer::Headset, pid) == "ffr-oxr-"@ + text::decimal(pid as nat) + ".log"@,
        file_name(Layer::Graphics, pid) == "ffr-vk-"@ + text::decimal(pid as nat) + ".log"@,
{
}

} // verus!
