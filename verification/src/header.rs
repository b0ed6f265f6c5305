use vstd::prelude::*;

verus! {

/// One header field: its name in lower case and its raw value.
#[derive(Debug)]
pub struct Header {
    pub name: String,
    pub value: Vec<u8>,
}

} // verus!
