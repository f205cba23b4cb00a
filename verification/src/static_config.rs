//! The static configuration of a publish-subscribe service: its port limits,
//! its publisher mode and its declared forwarding topology.
use vstd::prelude::*;
use crate::publisher_mode::PublisherMode;
use crate::service_name::ServiceName;

verus! {

/// The most forwarding targets one source service may declare in
/// `forwards_into`, and the most source services it may declare in
/// `accepts_forwarders_from`.
pub const MAX_FORWARDING_TARGETS_PER_SERVICE: usize = 8;

/// The names of a sequence of service names.
pub open spec fn names_of(names: Seq<ServiceName>) -> Seq<Seq<char>> {
    names.map_values(|n: ServiceName| n@)
}

/// No name occurs twice.
pub open spec fn all_distinct(names: Seq<Seq<char>>) -> bool {
    forall|i: int, j: int| 0 <= i < j < names.len() ==> names[i] != names[j]
}

/// Why a list of service names cannot become a [`ForwardingTargets`].
#[derive(Debug, Clone, Copy, PartialEq, Eq, Structural, Hash)]
pub enum ForwardingTargetsError {
    /// More than [`MAX_FORWARDING_TARGETS_PER_SERVICE`] names.
    ExceedsCapacity,
    /// The same name occurs more than once.
    DuplicateEntry,
}

impl ForwardingTargetsError {
    /// The text the error is shown as: its type and variant name.
    pub fn message(&self) -> (text: &'static str)
        ensures
            text@ == match *self {
                ForwardingTargetsError::ExceedsCapacity => "ForwardingTargetsError::ExceedsCapacity"@,
                ForwardingTargetsError::DuplicateEntry => "ForwardingTargetsError::DuplicateEntry"@,
            },
    {
        match self {
            ForwardingTargetsError::ExceedsCapacity => "ForwardingTargetsError::ExceedsCapacity",
            ForwardingTargetsError::DuplicateEntry => "ForwardingTargetsError::DuplicateEntry",
        }
    }
}

/// What [`ForwardingTargets::from_slice`] gives for the names `names`.
pub open spec fn spec_from_names(names: Seq<Seq<char>>) -> Result<Seq<Seq<char>>, ForwardingTargetsError> {
    if names.len() > MAX_FORWARDING_TARGETS_PER_SERVICE {
        Err(ForwardingTargetsError::ExceedsCapacity)
    } else if !all_distinct(names) {
        Err(ForwardingTargetsError::DuplicateEntry)
    } else {
        Ok(names)
    }
}

/// A list that `from_slice` accepted is accepted again, unchanged, when it
/// is built anew from its own names: storing a list and reading it back
/// gives the same list.
pub proof fn lemma_from_names_round_trip(names: Seq<Seq<char>>)
    requires
        names.len() <= MAX_FORWARDING_TARGETS_PER_SERVICE,
        all_distinct(names),
    ensures
        spec_from_names(names) == Ok::<Seq<Seq<char>>, ForwardingTargetsError>(names),
{
}

/// A list of names is refused exactly when it is too long, or, short
/// enough, when some name occurs at two different positions; otherwise it
/// is taken as it is.
pub proof fn lemma_from_names_verdict(names: Seq<Seq<char>>, i: int, j: int)
    ensures
        (spec_from_names(names) == Err::<Seq<Seq<char>>, ForwardingTargetsError>(
            ForwardingTargetsError::ExceedsCapacity,
        )) <==> names.len() > MAX_FORWARDING_TARGETS_PER_SERVICE,
        names.len() <= MAX_FORWARDING_TARGETS_PER_SERVICE && 0 <= i < names.len() && 0 <= j < names.len()
            && i != j && names[i] == names[j] ==> spec_from_names(names) == Err::<
            Seq<Seq<char>>,
            ForwardingTargetsError,
        >(ForwardingTargetsError::DuplicateEntry),
        spec_from_names(names) == Err::<Seq<Seq<char>>, ForwardingTargetsError>(
            ForwardingTargetsError::DuplicateEntry,
        ) ==> exists|a: int, b: int| 0 <= a < b < names.len() && names[a] == names[b],
        spec_from_names(names) is Ok ==> spec_from_names(names) == Ok::<
            Seq<Seq<char>>,
            ForwardingTargetsError,
        >(names),
{
    if names.len() <= MAX_FORWARDING_TARGETS_PER_SERVICE && 0 <= i < names.len() && 0 <= j < names.len()
        && i != j && names[i] == names[j] {
        if i < j {
            assert(!all_distinct(names));
        } else {
            assert(names[j] == names[i]);
            assert(!all_distinct(names));
        }
    }
}

/// An insertion-ordered list of at most
/// [`MAX_FORWARDING_TARGETS_PER_SERVICE`] distinct service names. The
/// position of a name is the stable target index of that target.
#[derive(Debug, Hash)]
pub struct ForwardingTargets {
    entries: Vec<ServiceName>,
}

impl View for ForwardingTargets {
    type V = Seq<Seq<char>>;

    /// The names, in insertion order.
    closed spec fn view(&self) -> Seq<Seq<char>> {
        names_of(self.entries@)
    }
}

impl ForwardingTargets {
    #[verifier::type_invariant]
    spec fn bounded_and_distinct(&self) -> bool {
        &&& self.entries@.len() <= MAX_FORWARDING_TARGETS_PER_SERVICE
        &&& all_distinct(names_of(self.entries@))
    }

    /// The empty list.
    pub fn new() -> (targets: Self)
        ensures
            targets@ == Seq::<Seq<char>>::empty(),
    {
        let targets = ForwardingTargets { entries: Vec::new() };
        assert(targets@ =~= Seq::<Seq<char>>::empty());
        targets
    }

    /// The list of the names in `targets`, in their order. Fails with
    /// [`ForwardingTargetsError::ExceedsCapacity`] when there are more than
    /// [`MAX_FORWARDING_TARGETS_PER_SERVICE`] names, and otherwise with
    /// [`ForwardingTargetsError::DuplicateEntry`] when a name occurs twice.
    pub fn from_slice(targets: &[ServiceName]) -> (result: Result<Self, ForwardingTargetsError>)
        ensures
            match (result, spec_from_names(names_of(targets@))) {
                (Ok(list), Ok(names)) => list@ == names,
                (Err(e), Err(f)) => e == f,
                _ => false,
            },
    {
        let n = targets.len();
        if n > MAX_FORWARDING_TARGETS_PER_SERVICE {
            return Err(ForwardingTargetsError::ExceedsCapacity);
        }
        let ghost names = names_of(targets@);
        let mut i: usize = 0;
        while i < n
            invariant
                n == targets@.len(),
                names == names_of(targets@),
                names.len() == n,
                n <= MAX_FORWARDING_TARGETS_PER_SERVICE,
                i <= n,
                forall|a: int, b: int| 0 <= a < i && a < b < n ==> names[a] != names[b],
            decreases n - i,
        {
            let mut j: usize = i + 1;
            while j < n
                invariant
                    n == targets@.len(),
                    names == names_of(targets@),
                    names.len() == n,
                    n <= MAX_FORWARDING_TARGETS_PER_SERVICE,
                    i < n,
                    i + 1 <= j <= n,
                    forall|a: int, b: int| 0 <= a < i && a < b < n ==> names[a] != names[b],
                    forall|b: int| i < b < j ==> names[i as int] != names[b],
                decreases n - j,
            {
                if targets[i] == targets[j] {
                    assert(names[i as int] == names[j as int]);
                    assert(!all_distinct(names));
                    return Err(ForwardingTargetsError::DuplicateEntry);
                }
                j = j + 1;
            }
            i = i + 1;
        }
        let mut entries: Vec<ServiceName> = Vec::new();
        let mut k: usize = 0;
        while k < n
            invariant
                n == targets@.len(),
                names == names_of(targets@),
                names.len() == n,
                n <= MAX_FORWARDING_TARGETS_PER_SERVICE,
                all_distinct(names),
                k <= n,
                entries@.len() == k,
                names_of(entries@) == names.subrange(0, k as int),
            decreases n - k,
        {
            let name = targets[k].clone();
            assert(name@ == names[k as int]);
            let ghost before = entries@;
            entries.push(name);
            assert forall|m: int| 0 <= m < k + 1 implies #[trigger] names_of(entries@)[m] == names[m] by {
                if m < k {
                    assert(entries@[m] == before[m]);
                    assert(names_of(before)[m] == names.subrange(0, k as int)[m]);
                }
            }
            assert(names_of(entries@) =~= names.subrange(0, (k + 1) as int));
            k = k + 1;
        }
        assert(names.subrange(0, n as int) =~= names);
        Ok(ForwardingTargets { entries })
    }

    /// The number of names.
    pub fn len(&self) -> (len: usize)
        ensures
            len == self@.len(),
            len <= MAX_FORWARDING_TARGETS_PER_SERVICE,
            all_distinct(self@),
    {
        proof { use_type_invariant(self); }
        self.entries.len()
    }

    /// Whether the list holds no name.
    pub fn is_empty(&self) -> (empty: bool)
        ensures
            empty == (self@.len() == 0),
    {
        self.entries.len() == 0
    }

    /// The name at `index`, or `None` past the end.
    pub fn get(&self, index: usize) -> (name: Option<&ServiceName>)
        ensures
            name is Some <==> index < self@.len(),
            name is Some ==> name->0@ == self@[index as int],
            self@.len() <= MAX_FORWARDING_TARGETS_PER_SERVICE,
    {
        proof { use_type_invariant(self); }
        if index >= self.entries.len() {
            return None;
        }
        Some(&self.entries[index])
    }

    /// The index of `name` in the list, or `None` when it is not there.
    pub fn position(&self, name: &ServiceName) -> (index: Option<usize>)
        ensures
            index is None <==> !self@.contains(name@),
            index is Some ==> index->0 < self@.len() && self@[index->0 as int] == name@,
            self@.len() <= MAX_FORWARDING_TARGETS_PER_SERVICE,
            all_distinct(self@),
    {
        proof { use_type_invariant(self); }
        let n = self.entries.len();
        assert(self@.len() == n);
        let mut i: usize = 0;
        while i < n
            invariant
                n == self@.len(),
                n == self.entries@.len(),
                n <= MAX_FORWARDING_TARGETS_PER_SERVICE,
                all_distinct(self@),
                i <= n,
                forall|k: int| 0 <= k < i ==> self@[k] != name@,
            decreases n - i,
        {
            if self.entries[i] == *name {
                assert(self@[i as int] == self.entries@[i as int]@);
                return Some(i);
            }
            i = i + 1;
        }
        None
    }

    /// Whether `name` is in the list.
    pub fn contains(&self, name: &ServiceName) -> (present: bool)
        ensures
            present == self@.contains(name@),
    {
        self.position(name).is_some()
    }

    /// A cursor over the names, in insertion order.
    pub fn iter(&self) -> (iter: ForwardingTargetsIter<'_>)
        ensures
            iter.targets() == self@,
            iter.cursor() == 0,
    {
        ForwardingTargetsIter { list: self, cursor: 0 }
    }
}

impl Default for ForwardingTargets {
    fn default() -> (targets: Self)
        ensures
            targets@ == Seq::<Seq<char>>::empty(),
    {
        ForwardingTargets::new()
    }
}

impl PartialEq for ForwardingTargets {
    fn eq(&self, other: &Self) -> (same: bool) {
        let n = self.entries.len();
        if n != other.entries.len() {
            assert(self@.len() != other@.len());
            return false;
        }
        let mut i: usize = 0;
        while i < n
            invariant
                n == self.entries@.len(),
                n == other.entries@.len(),
                self@.len() == n,
                other@.len() == n,
                i <= n,
                forall|k: int| 0 <= k < i ==> self@[k] == other@[k],
            decreases n - i,
        {
            if self.entries[i] != other.entries[i] {
                assert(self@[i as int] != other@[i as int]);
                return false;
            }
            i = i + 1;
        }
        assert(self@ =~= other@);
        true
    }
}

impl vstd::std_specs::cmp::PartialEqSpecImpl for ForwardingTargets {
    open spec fn obeys_eq_spec() -> bool {
        true
    }

    open spec fn eq_spec(&self, other: &ForwardingTargets) -> bool {
        self@ == other@
    }
}

impl Eq for ForwardingTargets {
}

impl Clone for ForwardingTargets {
    fn clone(&self) -> (copy: Self)
        ensures
            copy@ == self@,
    {
        proof { use_type_invariant(self); }
        let n = self.entries.len();
        let mut entries: Vec<ServiceName> = Vec::new();
        let mut k: usize = 0;
        while k < n
            invariant
                n == self.entries@.len(),
                self@.len() == n,
                k <= n,
                entries@.len() == k,
                names_of(entries@) == self@.subrange(0, k as int),
            decreases n - k,
        {
            let name = self.entries[k].clone();
            let ghost before = entries@;
            entries.push(name);
            assert forall|m: int| 0 <= m < k + 1 implies #[trigger] names_of(entries@)[m] == self@[m] by {
                if m < k {
                    assert(entries@[m] == before[m]);
                    assert(names_of(before)[m] == self@.subrange(0, k as int)[m]);
                }
            }
            assert(names_of(entries@) =~= self@.subrange(0, (k + 1) as int));
            k = k + 1;
        }
        assert(self@.subrange(0, n as int) =~= self@);
        ForwardingTargets { entries }
    }
}

/// A cursor over the names of a [`ForwardingTargets`] list.
pub struct ForwardingTargetsIter<'a> {
    list: &'a ForwardingTargets,
    cursor: usize,
}

impl<'a> ForwardingTargetsIter<'a> {
    /// The names the cursor walks over.
    pub closed spec fn targets(&self) -> Seq<Seq<char>> {
        self.list@
    }

    /// How many names the cursor has handed out.
    pub closed spec fn cursor(&self) -> usize {
        self.cursor
    }

    /// The next name, or `None` once every name was handed out.
    pub fn next(&mut self) -> (name: Option<&'a ServiceName>)
        ensures
            final(self).targets() == old(self).targets(),
            old(self).cursor() < old(self).targets().len() ==> name is Some && name->0@ == old(
                self,
            ).targets()[old(self).cursor() as int] && final(self).cursor() == old(self).cursor() + 1,
            old(self).cursor() >= old(self).targets().len() ==> name is None && final(self).cursor()
                == old(self).cursor(),
    {
        match self.list.get(self.cursor) {
            Some(entry) => {
                self.cursor = self.cursor + 1;
                Some(entry)
            },
            None => None,
        }
    }
}

/// The publish-subscribe section of the global defaults that a new service
/// starts from.
#[derive(Debug, Clone, Copy, PartialEq, Eq, Structural, Hash)]
pub struct PublishSubscribeDefaults {
    pub max_subscribers: usize,
    pub max_publishers: usize,
    pub max_nodes: usize,
    pub publisher_history_size: usize,
    pub subscriber_max_buffer_size: usize,
    pub subscriber_max_borrowed_samples: usize,
    pub enable_safe_overflow: bool,
}

/// Size and alignment of one of the types a service transports.
#[derive(Debug, Clone, Copy, PartialEq, Eq, Structural, Hash)]
pub struct TypeDetail {
    pub size: usize,
    pub alignment: usize,
}

/// The layout of the header, user header and payload a service transports.
#[derive(Debug, Clone, Copy, PartialEq, Eq, Structural, Hash)]
pub struct MessageTypeDetails {
    pub header: TypeDetail,
    pub user_header: TypeDetail,
    pub payload: TypeDetail,
}

/// The type details a configuration holds before the builder fills them in.
pub open spec fn empty_type_details() -> MessageTypeDetails {
    MessageTypeDetails {
        header: TypeDetail { size: 0, alignment: 0 },
        user_header: TypeDetail { size: 0, alignment: 0 },
        payload: TypeDetail { size: 0, alignment: 0 },
    }
}

impl Default for MessageTypeDetails {
    fn default() -> (details: Self)
        ensures
            details == empty_type_details(),
    {
        MessageTypeDetails {
            header: TypeDetail { size: 0, alignment: 0 },
            user_header: TypeDetail { size: 0, alignment: 0 },
            payload: TypeDetail { size: 0, alignment: 0 },
        }
    }
}

/// How many samples one data segment must hold for the given limits.
pub open spec fn spec_required_samples(
    max_subscribers: int,
    subscriber_max_buffer_size: int,
    subscriber_max_borrowed_samples: int,
    history_size: int,
    publisher_max_loaned_data: int,
) -> int {
    max_subscribers * (subscriber_max_buffer_size + subscriber_max_borrowed_samples) + history_size
        + publisher_max_loaned_data
}

/// The parameters of a publish-subscribe service that do not change during
/// its lifetime.
#[derive(Debug, Hash)]
pub struct StaticConfig {
    pub max_subscribers: usize,
    pub max_publishers: usize,
    pub max_nodes: usize,
    pub history_size: usize,
    pub subscriber_max_buffer_size: usize,
    pub subscriber_max_borrowed_samples: usize,
    pub enable_safe_overflow: bool,
    pub publisher_mode: PublisherMode,
    pub forwards_into: ForwardingTargets,
    pub accepts_forwarders_from: ForwardingTargets,
    pub message_type_details: MessageTypeDetails,
}

/// Two configurations are equal when every parameter is.
pub open spec fn same_config(a: &StaticConfig, b: &StaticConfig) -> bool {
    &&& a.max_subscribers == b.max_subscribers
    &&& a.max_publishers == b.max_publishers
    &&& a.max_nodes == b.max_nodes
    &&& a.history_size == b.history_size
    &&& a.subscriber_max_buffer_size == b.subscriber_max_buffer_size
    &&& a.subscriber_max_borrowed_samples == b.subscriber_max_borrowed_samples
    &&& a.enable_safe_overflow == b.enable_safe_overflow
    &&& a.publisher_mode == b.publisher_mode
    &&& a.forwards_into@ == b.forwards_into@
    &&& a.accepts_forwarders_from@ == b.accepts_forwarders_from@
    &&& a.message_type_details == b.message_type_details
}

/// Two configurations are equal exactly when every one of their parameters
/// is: the port limits, the overflow policy, the publisher mode, both
/// forwarding lists and the type details.
pub proof fn lemma_equal_configs(a: &StaticConfig, b: &StaticConfig)
    ensures
        same_config(a, b) ==> {
            &&& a.max_subscribers == b.max_subscribers
            &&& a.max_publishers == b.max_publishers
            &&& a.max_nodes == b.max_nodes
            &&& a.history_size == b.history_size
            &&& a.subscriber_max_buffer_size == b.subscriber_max_buffer_size
            &&& a.subscriber_max_borrowed_samples == b.subscriber_max_borrowed_samples
            &&& a.enable_safe_overflow == b.enable_safe_overflow
            &&& a.publisher_mode == b.publisher_mode
            &&& a.forwards_into@ == b.forwards_into@
            &&& a.accepts_forwarders_from@ == b.accepts_forwarders_from@
            &&& a.message_type_details == b.message_type_details
        },
        ({
            &&& a.max_subscribers == b.max_subscribers
            &&& a.max_publishers == b.max_publishers
            &&& a.max_nodes == b.max_nodes
            &&& a.history_size == b.history_size
            &&& a.subscriber_max_buffer_size == b.subscriber_max_buffer_size
            &&& a.subscriber_max_borrowed_samples == b.subscriber_max_borrowed_samples
            &&& a.enable_safe_overflow == b.enable_safe_overflow
            &&& a.publisher_mode == b.publisher_mode
            &&& a.forwards_into@ == b.forwards_into@
            &&& a.accepts_forwarders_from@ == b.accepts_forwarders_from@
            &&& a.message_type_details == b.message_type_details
        }) ==> same_config(a, b),
        a.forwards_into@ != b.forwards_into@ ==> !same_config(a, b),
        a.accepts_forwarders_from@ != b.accepts_forwarders_from@ ==> !same_config(a, b),
        same_config(a, a),
        same_config(a, b) == same_config(b, a),
{
}

impl PartialEq for StaticConfig {
    fn eq(&self, other: &Self) -> (same: bool) {
        self.max_subscribers == other.max_subscribers && self.max_publishers == other.max_publishers
            && self.max_nodes == other.max_nodes && self.history_size == other.history_size
            && self.subscriber_max_buffer_size == other.subscriber_max_buffer_size
            && self.subscriber_max_borrowed_samples == other.subscriber_max_borrowed_samples
            && self.enable_safe_overflow == other.enable_safe_overflow
            && self.publisher_mode == other.publisher_mode
            && self.forwards_into == other.forwards_into
            && self.accepts_forwarders_from == other.accepts_forwarders_from
            && self.message_type_details == other.message_type_details
    }
}

impl vstd::std_specs::cmp::PartialEqSpecImpl for StaticConfig {
    open spec fn obeys_eq_spec() -> bool {
        true
    }

    open spec fn eq_spec(&self, other: &StaticConfig) -> bool {
        same_config(self, other)
    }
}

impl Eq for StaticConfig {
}

impl Clone for StaticConfig {
    fn clone(&self) -> (copy: Self)
        ensures
            same_config(&copy, self),
    {
        StaticConfig {
            max_subscribers: self.max_subscribers,
            max_publishers: self.max_publishers,
            max_nodes: self.max_nodes,
            history_size: self.history_size,
            subscriber_max_buffer_size: self.subscriber_max_buffer_size,
            subscriber_max_borrowed_samples: self.subscriber_max_borrowed_samples,
            enable_safe_overflow: self.enable_safe_overflow,
            publisher_mode: self.publisher_mode,
            forwards_into: self.forwards_into.clone(),
            accepts_forwarders_from: self.accepts_forwarders_from.clone(),
            message_type_details: self.message_type_details,
        }
    }
}

impl StaticConfig {
    /// The configuration a new service starts from: the limits of the
    /// defaults, the `Mixed` publisher mode, no forwarding declared and empty
    /// type details.
    pub fn new(defaults: &PublishSubscribeDefaults) -> (config: Self)
        ensures
            config.max_subscribers == defaults.max_subscribers,
            config.max_publishers == defaults.max_publishers,
            config.max_nodes == defaults.max_nodes,
            config.history_size == defaults.publisher_history_size,
            config.subscriber_max_buffer_size == defaults.subscriber_max_buffer_size,
            config.subscriber_max_borrowed_samples == defaults.subscriber_max_borrowed_samples,
            config.enable_safe_overflow == defaults.enable_safe_overflow,
            config.publisher_mode == PublisherMode::Mixed,
            config.forwards_into@ == Seq::<Seq<char>>::empty(),
            config.accepts_forwarders_from@ == Seq::<Seq<char>>::empty(),
            config.message_type_details == empty_type_details(),
    {
        StaticConfig {
            max_subscribers: defaults.max_subscribers,
            max_publishers: defaults.max_publishers,
            max_nodes: defaults.max_nodes,
            history_size: defaults.publisher_history_size,
            subscriber_max_buffer_size: defaults.subscriber_max_buffer_size,
            subscriber_max_borrowed_samples: defaults.subscriber_max_borrowed_samples,
            enable_safe_overflow: defaults.enable_safe_overflow,
            publisher_mode: PublisherMode::default(),
            forwards_into: ForwardingTargets::default(),
            accepts_forwarders_from: ForwardingTargets::default(),
            message_type_details: MessageTypeDetails::default(),
        }
    }

    /// How many samples one data segment must hold: every subscriber's
    /// buffer and borrowed samples, the history and what the publisher may
    /// have on loan.
    pub fn required_amount_of_samples_per_data_segment(&self, publisher_max_loaned_data: usize) -> (amount: usize)
        requires
            spec_required_samples(
                self.max_subscribers as int,
                self.subscriber_max_buffer_size as int,
                self.subscriber_max_borrowed_samples as int,
                self.history_size as int,
                publisher_max_loaned_data as int,
            ) <= usize::MAX,
        ensures
            amount == spec_required_samples(
                self.max_subscribers as int,
                self.subscriber_max_buffer_size as int,
                self.subscriber_max_borrowed_samples as int,
                self.history_size as int,
                publisher_max_loaned_data as int,
            ),
    {
        let per_subscriber_int = self.subscriber_max_buffer_size as u128 + self.subscriber_max_borrowed_samples as u128;
        let subscribers = self.max_subscribers;
        let ghost total = spec_required_samples(
            self.max_subscribers as int,
            self.subscriber_max_buffer_size as int,
            self.subscriber_max_borrowed_samples as int,
            self.history_size as int,
            publisher_max_loaned_data as int,
        );
        assert(subscribers * per_subscriber_int <= total) by (nonlinear_arith)
            requires
                total == subscribers * per_subscriber_int + self.history_size + publisher_max_loaned_data,
                self.history_size >= 0,
                publisher_max_loaned_data >= 0;
        if subscribers == 0 {
            assert(subscribers * per_subscriber_int == 0) by (nonlinear_arith)
                requires
                    subscribers == 0;
            return self.history_size + publisher_max_loaned_data;
        }
        assert(per_subscriber_int <= subscribers * per_subscriber_int) by (nonlinear_arith)
            requires
                subscribers >= 1,
                per_subscriber_int >= 0;
        let per_subscriber: usize = per_subscriber_int as usize;
        subscribers * per_subscriber + self.history_size + publisher_max_loaned_data
    }

    /// The most nodes that may open the service at once.
    pub fn max_nodes(&self) -> (max: usize)
        ensures
            max == self.max_nodes,
    {
        self.max_nodes
    }

    /// The most publishers the service supports.
    pub fn max_publishers(&self) -> (max: usize)
        ensures
            max == self.max_publishers,
    {
        self.max_publishers
    }

    /// The most subscribers the service supports.
    pub fn max_subscribers(&self) -> (max: usize)
        ensures
            max == self.max_subscribers,
    {
        self.max_subscribers
    }

    /// The largest history a subscriber may request on connect.
    pub fn history_size(&self) -> (size: usize)
        ensures
            size == self.history_size,
    {
        self.history_size
    }

    /// The largest buffer a subscriber may have.
    pub fn subscriber_max_buffer_size(&self) -> (size: usize)
        ensures
            size == self.subscriber_max_buffer_size,
    {
        self.subscriber_max_buffer_size
    }

    /// How many samples a subscriber may borrow at once.
    pub fn subscriber_max_borrowed_samples(&self) -> (max: usize)
        ensures
            max == self.subscriber_max_borrowed_samples,
    {
        self.subscriber_max_borrowed_samples
    }

    /// Whether a full subscriber buffer recycles its oldest sample.
    pub fn has_safe_overflow(&self) -> (safe: bool)
        ensures
            safe == self.enable_safe_overflow,
    {
        self.enable_safe_overflow
    }

    /// The layout of the transported types.
    pub fn message_type_details(&self) -> (details: &MessageTypeDetails)
        ensures
            *details == self.message_type_details,
    {
        &self.message_type_details
    }

    /// Which kinds of publishers may attach.
    pub fn publisher_mode(&self) -> (mode: PublisherMode)
        ensures
            mode == self.publisher_mode,
    {
        self.publisher_mode
    }

    /// The services this service's publishers may forward into.
    pub fn forwards_into(&self) -> (targets: &ForwardingTargets)
        ensures
            targets@ == self.forwards_into@,
    {
        &self.forwards_into
    }

    /// The services whose buckets this service accepts as forwarded samples.
    pub fn accepts_forwarders_from(&self) -> (sources: &ForwardingTargets)
        ensures
            sources@ == self.accepts_forwarders_from@,
    {
        &self.accepts_forwarders_from
    }
}

} // verus!
