use vstd::prelude::*;

use crate::command::Command;
use crate::error::Error;

verus! {

/// Which wire protocol a controller model speaks.
#[derive(Debug, Clone, Copy, PartialEq, Eq, Structural)]
pub enum ProtocolKind {
    Kw2,
    P300,
}

/// The entries of a device table as mathematical sequences.
pub open spec fn spec_device_entries(entries: Seq<(String, Command)>) -> Seq<(Seq<char>, Command)> {
    Seq::new(entries.len(), |i: int| (entries[i].0@, entries[i].1))
}

/// Command names are pairwise distinct: each name addresses one command.
pub open spec fn spec_device_wf(m: Seq<(Seq<char>, Command)>) -> bool {
    forall|i: int, j: int| 0 <= i < j < m.len() ==> (#[trigger] m[i]).0 != (#[trigger] m[j]).0
}

pub open spec fn spec_device_has(m: Seq<(Seq<char>, Command)>, name: Seq<char>) -> bool {
    exists|i: int| 0 <= i < m.len() && (#[trigger] m[i]).0 == name
}

/// The command a name addresses (meaningful where the name is present and
/// the names are distinct).
pub open spec fn spec_device_find(m: Seq<(Seq<char>, Command)>, name: Seq<char>) -> Command {
    m[choose|i: int| 0 <= i < m.len() && (#[trigger] m[i]).0 == name].1
}

/// A controller model: its name, the wire protocol it speaks, and its
/// immutable name-to-command table.
#[derive(Debug)]
pub struct Device {
    name: String,
    protocol: ProtocolKind,
    commands: Vec<(String, Command)>,
}

impl View for Device {
    type V = Seq<(Seq<char>, Command)>;

    closed spec fn view(&self) -> Seq<(Seq<char>, Command)> {
        spec_device_entries(self.commands@)
    }
}

impl Device {
    /// Every device that exists has distinct command names: `new` accepts no
    /// other.
    #[verifier::type_invariant]
    pub open spec fn inv(&self) -> bool {
        spec_device_wf(self@)
    }

    pub closed spec fn spec_name(&self) -> Seq<char> {
        self.name@
    }

    pub closed spec fn spec_protocol(&self) -> ProtocolKind {
        self.protocol
    }

    /// Builds a device table, rejecting one that names a command twice.
    pub fn new(name: String, protocol: ProtocolKind, commands: Vec<(String, Command)>) -> (r:
        Result<Device, Error>)
        ensures
            r is Ok <==> spec_device_wf(spec_device_entries(commands@)),
            r matches Ok(d) ==> d@ == spec_device_entries(commands@) && d.spec_name() == name@
                && d.spec_protocol() == protocol,
            r matches Err(e) ==> e is InvalidArgument,
    {
        let ghost view = spec_device_entries(commands@);
        let n = commands.len();
        let mut i: usize = 0;
        while i < n
            invariant
                i <= n,
                n == commands@.len(),
                view == spec_device_entries(commands@),
                forall|a: int, b: int|
                    0 <= a < b < n && a < i ==> (#[trigger] view[a]).0 != (#[trigger] view[b]).0,
            decreases n - i,
        {
            let mut j: usize = i + 1;
            while j < n
                invariant
                    i < j <= n,
                    n == commands@.len(),
                    view == spec_device_entries(commands@),
                    forall|b: int| i < b < j ==> view[i as int].0 != (#[trigger] view[b]).0,
                decreases n - j,
            {
                if commands[i].0.eq(&commands[j].0) {
                    proof {
                        assert(view[i as int].0 == view[j as int].0);
                        assert(!spec_device_wf(view));
                    }
                    return Err(
                        Error::InvalidArgument(
                            String::from_str("device command names must be distinct"),
                        ),
                    );
                }
                j += 1;
            }
            i += 1;
        }
        let d = Device { name, protocol, commands };
        proof {
            assert(spec_device_wf(view));
        }
        Ok(d)
    }

    /// The model's name.
    pub fn name(&self) -> (r: &String)
        ensures
            r@ == self.spec_name(),
    {
        &self.name
    }

    /// The wire protocol the model speaks.
    pub fn protocol(&self) -> (r: ProtocolKind)
        ensures
            r == self.spec_protocol(),
    {
        self.protocol
    }

    /// All command names of the table, in order.
    pub fn commands(&self) -> (r: Vec<String>)
        ensures
            r@.len() == self@.len(),
            forall|k: int| 0 <= k < r@.len() ==> (#[trigger] r@[k])@ == self@[k].0,
    {
        let n = self.commands.len();
        let mut r: Vec<String> = Vec::new();
        let mut i: usize = 0;
        while i < n
            invariant
                i <= n,
                n == self@.len(),
                r@.len() == i,
                forall|k: int| 0 <= k < i ==> (#[trigger] r@[k])@ == self@[k].0,
            decreases n - i,
        {
            let s = self.commands[i].0.clone();
            r.push(s);
            i += 1;
        }
        r
    }

    /// The command a name addresses, or `None` for a name absent from the
    /// table.
    pub fn command(&self, name: &str) -> (r: Option<&Command>)
        ensures
            r is Some <==> spec_device_has(self@, name@),
            r matches Some(c) ==> *c == spec_device_find(self@, name@),
    {
        proof {
            use_type_invariant(self);
        }
        let owned = name.to_owned();
        let n = self.commands.len();
        let mut i: usize = 0;
        while i < n
            invariant
                i <= n,
                n == self@.len(),
                owned@ == name@,
                forall|k: int| 0 <= k < i ==> (#[trigger] self@[k]).0 != name@,
            decreases n - i,
        {
            if self.commands[i].0.eq(&owned) {
                proof {
                    assert(self@[i as int].0 == name@);
                    assert(spec_device_has(self@, name@));
                    let j = choose|j: int| 0 <= j < self@.len() && (#[trigger] self@[j]).0 == name@;
                    use_type_invariant(self);
                    assert(j == i as int);
                }
                return Some(&self.commands[i].1);
            }
            i += 1;
        }
        None
    }
}

} // verus!
