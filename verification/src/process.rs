//! What is known of one running process at the moment it was listed.

use vstd::prelude::*;

verus! {

/// The width of a process's addresses, as far as it could be found out.
#[derive(Debug, Clone, Copy, PartialEq, Eq, Structural)]
pub enum Architecture {
    Unknown,
    Bits32,
    Bits64,
}

impl Architecture {
    /// The architecture that a reported width in bits stands for.
    pub open spec fn spec_from_bits(bits: u64) -> Architecture {
        if bits == 32 {
            Architecture::Bits32
        } else if bits == 64 {
            Architecture::Bits64
        } else {
            Architecture::Unknown
        }
    }

    /// Two processes are compatible when both widths are known and equal.
    pub open spec fn spec_compatible(self, target: Architecture) -> bool {
        self == target && self != Architecture::Unknown
    }

    /// Reads a width in bits: 32 and 64 are known, anything else is not.
    pub fn from_bits(bits: u64) -> (r: Architecture)
        ensures
            r == Self::spec_from_bits(bits),
    {
        if bits == 32 {
            Architecture::Bits32
        } else if bits == 64 {
            Architecture::Bits64
        } else {
            Architecture::Unknown
        }
    }

    /// Whether code of this architecture can act inside a process of
    /// architecture `target`.
    pub fn compatible(self, target: Architecture) -> (r: bool)
        ensures
            r == self.spec_compatible(target),
    {
        match (self, target) {
            (Architecture::Bits32, Architecture::Bits32) => true,
            (Architecture::Bits64, Architecture::Bits64) => true,
            _ => false,
        }
    }
}

/// One entry of a process listing.
///
/// A pid is only meaningful within the listing that produced it: the system
/// may hand the same number to another process later.
#[derive(Debug)]
pub struct ProcessRecord {
    /// The system's identifier of the process; never zero in a valid record.
    pub pid: u32,
    /// Base name of the executable; several processes may share it.
    pub name: String,
    pub architecture: Architecture,
    /// Absolute path of the executable, where the system disclosed it.
    pub executable_path: Option<String>,
    /// Encoded icon of the executable, where one was found.
    pub icon: Option<Vec<u8>>,
}

/// The mathematical content of a [`ProcessRecord`].
pub ghost struct ProcessView {
    pub pid: u32,
    pub name: Seq<char>,
    pub architecture: Architecture,
    pub executable_path: Option<Seq<char>>,
    pub icon: Option<Seq<u8>>,
}

impl View for ProcessRecord {
    type V = ProcessView;

    open spec fn view(&self) -> ProcessView {
        ProcessView {
            pid: self.pid,
            name: self.name@,
            architecture: self.architecture,
            executable_path: match self.executable_path {
                Some(p) => Some(p@),
                None => None,
            },
            icon: match self.icon {
                Some(bytes) => Some(bytes@),
                None => None,
            },
        }
    }
}

impl ProcessRecord {
    /// A record with the fields that every listing can fill; architecture
    /// unknown, no path, no icon.
    pub fn partial(pid: u32, name: String) -> (r: ProcessRecord)
        ensures
            r@ == (ProcessView {
                pid,
                name: name@,
                architecture: Architecture::Unknown,
                executable_path: None,
                icon: None,
            }),
    {
        ProcessRecord {
            pid,
            name,
            architecture: Architecture::Unknown,
            executable_path: None,
            icon: None,
        }
    }
}

impl Clone for ProcessRecord {
    fn clone(&self) -> (r: Self)
        ensures
            r@ == self@,
    {
        let executable_path = match &self.executable_path {
            Some(p) => Some(p.clone()),
            None => None,
        };
        let icon = match &self.icon {
            Some(bytes) => {
                let copy = bytes.clone();
                assert(copy@ =~= bytes@);
                Some(copy)
            },
            None => None,
        };
        ProcessRecord {
            pid: self.pid,
            name: self.name.clone(),
            architecture: self.architecture,
            executable_path,
            icon,
        }
    }
}

} // verus!
