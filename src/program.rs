use vstd::prelude::*;
use vstd::utf8::*;
use crate::cstring::{before_nul, c_bytes_to_string};
use crate::error::Error;

verus! {

/// The identity of a program: its name and the name of its section, both
/// read from the kernel once, when the handle is made, and fixed after.
#[derive(Debug)]
pub struct ProgramIdentity {
    name: String,
    section: String,
}

/// Whether a kernel-supplied C string decodes as text.
pub open spec fn decodes(bytes: Seq<u8>) -> bool {
    valid_utf8(before_nul(bytes))
}

/// The text of a kernel-supplied C string.
pub open spec fn decoded(bytes: Seq<u8>) -> Seq<char> {
    decode_utf8(before_nul(bytes))
}

impl ProgramIdentity {
    /// The program's name.
    pub closed spec fn spec_name(&self) -> Seq<char> {
        self.name@
    }

    /// The name of the program's section.
    pub closed spec fn spec_section(&self) -> Seq<char> {
        self.section@
    }

    /// Decodes the name and section name that the kernel reports for a
    /// program; either may hold its terminating NUL.
    ///
    /// Fails with `InvalidData` where either is not valid UTF-8.
    pub fn from_kernel(name: &[u8], section: &[u8]) -> (r: Result<ProgramIdentity, Error>)
        ensures
            decodes(name@) && decodes(section@) <==> r is Ok,
            r is Ok ==> r->Ok_0.spec_name() == decoded(name@) && r->Ok_0.spec_section()
                == decoded(section@),
            r is Err ==> r->Err_0 == Error::InvalidData,
    {
        let name = match c_bytes_to_string(name) {
            Ok(n) => n,
            Err(e) => return Err(e),
        };
        let section = match c_bytes_to_string(section) {
            Ok(s) => s,
            Err(e) => return Err(e),
        };
        Ok(ProgramIdentity { name, section })
    }

    /// The program's name.
    pub fn name(&self) -> (r: &str)
        ensures
            r@ == self.spec_name(),
    {
        self.name.as_str()
    }

    /// The name of the program's section.
    pub fn section(&self) -> (r: &str)
        ensures
            r@ == self.spec_section(),
    {
        self.section.as_str()
    }
}

} // verus!
