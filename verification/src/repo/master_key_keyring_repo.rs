//! Where master keys are kept: the operating system's keyring, under one service name.

use vstd::prelude::*;

verus! {

pub struct MasterKeyKeyringRepo {
    pub service_name: String,
}

impl MasterKeyKeyringRepo {
    pub fn new(service_name: String) -> (r: Self)
        ensures
            r.service_name@ == service_name@,
    {
        MasterKeyKeyringRepo { service_name }
    }
}

} // verus!
