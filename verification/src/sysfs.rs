//! The vibrator's sysfs nodes and the writes that switch the motor.

use vstd::prelude::*;
use vstd::string::StringExecFns;

verus! {

/// A control file of the vibrator's LED-class sysfs directory.
#[derive(Clone, Copy, Debug, PartialEq, Eq, Structural)]
pub enum Node {
    /// `activate`: 1 starts, 0 stops the motor.
    Activate,
    /// `duration`: how long the next activation lasts, in milliseconds.
    Duration,
    /// `gain`: drive strength, 0 to 255, where the driver offers it.
    Gain,
    /// `index`: a predefined waveform of the driver.
    Index,
}

/// The file name of a node inside the vibrator directory.
pub open spec fn node_file_name(node: Node) -> Seq<char> {
    match node {
        Node::Activate => "activate"@,
        Node::Duration => "duration"@,
        Node::Gain => "gain"@,
        Node::Index => "index"@,
    }
}

impl Node {
    /// The file name of this node inside the vibrator directory.
    pub fn file_name(&self) -> (name: &'static str)
        ensures
            name@ == node_file_name(*self),
    {
        match self {
            Node::Activate => "activate",
            Node::Duration => "duration",
            Node::Gain => "gain",
            Node::Index => "index",
        }
    }
}

/// The directory used when the single-motor node exists.
pub open spec fn single_prefix() -> Seq<char> {
    "/sys/class/leds/vibrator_single/"@
}

/// The directory used otherwise.
pub open spec fn fallback_prefix() -> Seq<char> {
    "/sys/class/leds/vibrator/"@
}

/// The vibrator directory: `vibrator_single` where that directory exists,
/// else `vibrator`.
pub fn get_vibrator_prefix(single_exists: bool) -> (prefix: &'static str)
    ensures
        prefix@ == (if single_exists { single_prefix() } else { fallback_prefix() }),
{
    if single_exists {
        "/sys/class/leds/vibrator_single/"
    } else {
        "/sys/class/leds/vibrator/"
    }
}

/// The full path of `node` in the vibrator directory.
pub fn node_path(single_exists: bool, node: &str) -> (path: String)
    ensures
        path@ == (if single_exists { single_prefix() } else { fallback_prefix() }) + node@,
{
    let mut path = String::from_str(get_vibrator_prefix(single_exists));
    path.append(node);
    path
}

/// One write of a decimal number into a node.
#[derive(Clone, Copy, Debug, PartialEq, Eq, Structural)]
pub struct NodeWrite {
    pub node: Node,
    pub value: u32,
}

/// The write of `value` into `node`.
pub open spec fn write_of(node: Node, value: u32) -> NodeWrite {
    NodeWrite { node, value }
}

/// Runs the motor for `duration_ms`: stop it, set the duration, start it.
pub fn on(duration_ms: u32) -> (writes: Vec<NodeWrite>)
    ensures
        writes@ == seq![
            write_of(Node::Activate, 0),
            write_of(Node::Duration, duration_ms),
            write_of(Node::Activate, 1),
        ],
{
    let mut writes = Vec::new();
    writes.push(NodeWrite { node: Node::Activate, value: 0 });
    writes.push(NodeWrite { node: Node::Duration, value: duration_ms });
    writes.push(NodeWrite { node: Node::Activate, value: 1 });
    writes
}

/// Stops the motor.
pub fn off() -> (writes: Vec<NodeWrite>)
    ensures
        writes@ == seq![write_of(Node::Activate, 0)],
{
    let mut writes = Vec::new();
    writes.push(NodeWrite { node: Node::Activate, value: 0 });
    writes
}

/// Selects the driver's predefined waveform `index`.
pub fn set_index(index: u32) -> (writes: Vec<NodeWrite>)
    ensures
        writes@ == seq![write_of(Node::Index, index)],
{
    let mut writes = Vec::new();
    writes.push(NodeWrite { node: Node::Index, value: index });
    writes
}

} // verus!
