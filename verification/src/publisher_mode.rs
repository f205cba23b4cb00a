//! Which kinds of publishers may attach to a publish-subscribe service, and
//! the names under which the mode is written into a service's stored static
//! configuration.
use vstd::prelude::*;

verus! {

/// Controls which kinds of publishers may attach to a publish-subscribe
/// service.
#[derive(Debug, Clone, Copy, PartialEq, Eq, Structural, Hash)]
pub enum PublisherMode {
    /// Native publishers and publishers forwarding from other services are
    /// both permitted. This is the default.
    Mixed,
    /// Only native publishers are permitted.
    NativeOnly,
    /// Only forwarding participations from other services are permitted.
    ForwarderOnly,
}

impl Default for PublisherMode {
    fn default() -> (mode: Self)
        ensures
            mode == PublisherMode::Mixed,
    {
        PublisherMode::Mixed
    }
}

/// The name under which a mode is stored: the variant's own name.
pub open spec fn mode_name(mode: PublisherMode) -> Seq<char> {
    match mode {
        PublisherMode::Mixed => "Mixed"@,
        PublisherMode::NativeOnly => "NativeOnly"@,
        PublisherMode::ForwarderOnly => "ForwarderOnly"@,
    }
}

/// The mode stored under `name`, if any.
pub open spec fn mode_from_name(name: Seq<char>) -> Option<PublisherMode> {
    if name == "Mixed"@ {
        Some(PublisherMode::Mixed)
    } else if name == "NativeOnly"@ {
        Some(PublisherMode::NativeOnly)
    } else if name == "ForwarderOnly"@ {
        Some(PublisherMode::ForwarderOnly)
    } else {
        None
    }
}

/// The three names are pairwise different.
pub proof fn lemma_mode_names_distinct()
    ensures
        "Mixed"@ != "NativeOnly"@,
        "Mixed"@ != "ForwarderOnly"@,
        "NativeOnly"@ != "ForwarderOnly"@,
{
    reveal_strlit("Mixed");
    reveal_strlit("NativeOnly");
    reveal_strlit("ForwarderOnly");
    assert("Mixed"@.len() != "NativeOnly"@.len());
    assert("Mixed"@.len() != "ForwarderOnly"@.len());
    assert("NativeOnly"@.len() != "ForwarderOnly"@.len());
}

/// Reading back the name a mode is stored under gives that mode again.
pub proof fn lemma_mode_name_round_trip(mode: PublisherMode)
    ensures
        mode_from_name(mode_name(mode)) == Some(mode),
{
    lemma_mode_names_distinct();
}

/// Whether two strings hold the same characters.
fn same_text(a: &str, b: &str) -> (same: bool)
    ensures
        same == (a@ == b@),
{
    let a_owned = a.to_owned();
    let b_owned = b.to_owned();
    a_owned == b_owned
}

impl PublisherMode {
    /// The name under which the mode is stored.
    pub fn name(&self) -> (name: &'static str)
        ensures
            name@ == mode_name(*self),
    {
        match self {
            PublisherMode::Mixed => "Mixed",
            PublisherMode::NativeOnly => "NativeOnly",
            PublisherMode::ForwarderOnly => "ForwarderOnly",
        }
    }

    /// The mode stored under `name`; `None` for any other string.
    pub fn from_name(name: &str) -> (mode: Option<PublisherMode>)
        ensures
            mode == mode_from_name(name@),
    {
        if same_text(name, "Mixed") {
            Some(PublisherMode::Mixed)
        } else if same_text(name, "NativeOnly") {
            Some(PublisherMode::NativeOnly)
        } else if same_text(name, "ForwarderOnly") {
            Some(PublisherMode::ForwarderOnly)
        } else {
            None
        }
    }
}

} // verus!
