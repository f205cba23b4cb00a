//! The name of a service, as far as forwarding looks at it: a string that is
//! compared for equality.
use vstd::prelude::*;

verus! {

/// The name of a service.
#[derive(Debug, Hash)]
pub struct ServiceName {
    name: String,
}

impl View for ServiceName {
    type V = Seq<char>;

    /// The characters of the name.
    closed spec fn view(&self) -> Seq<char> {
        self.name@
    }
}

impl ServiceName {
    /// Makes the service name `name`.
    pub fn new(name: &str) -> (service_name: ServiceName)
        ensures
            service_name@ == name@,
    {
        ServiceName { name: name.to_owned() }
    }

    /// The characters of the name.
    pub fn as_str(&self) -> (name: &str)
        ensures
            name@ == self@,
    {
        self.name.as_str()
    }
}

impl Clone for ServiceName {
    fn clone(&self) -> (copy: Self)
        ensures
            copy@ == self@,
    {
        ServiceName { name: self.name.clone() }
    }
}

impl PartialEq for ServiceName {
    fn eq(&self, other: &Self) -> (same: bool) {
        self.name == other.name
    }
}

impl vstd::std_specs::cmp::PartialEqSpecImpl for ServiceName {
    open spec fn obeys_eq_spec() -> bool {
        true
    }

    open spec fn eq_spec(&self, other: &ServiceName) -> bool {
        self@ == other@
    }
}

impl Eq for ServiceName {
}

} // verus!
