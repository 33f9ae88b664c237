//! What the registry of `prometheus` holds, as far as the contracts speak
//! of it: its prefix and labels, and the descriptors that are registered
//! with it. A descriptor is what a registered metric is known by: its name,
//! its help and its label names.

use vstd::prelude::*;

verus! {

/// The identifier that `prometheus` gives a descriptor without constant
/// labels: a 64-bit hash of its name. The registry takes two descriptors
/// for the same one where their identifiers are the same.
pub uninterp spec fn descriptor_id(name: Seq<char>) -> u64;

/// The hash that `prometheus` makes of a descriptor's help and label names.
/// Descriptors of the same name must agree in it.
pub uninterp spec fn dimension_hash(help: Seq<char>, labels: Seq<Seq<char>>) -> u64;

/// The prefix that the registry puts before the name of every family that
/// it gathers.
pub uninterp spec fn registry_prefix(registry: prometheus::Registry) -> Option<Seq<char>>;

/// The labels that the registry adds to every series that it gathers.
pub uninterp spec fn registry_labels(registry: prometheus::Registry) -> Map<Seq<char>, Seq<char>>;

/// The identifiers of the descriptors that are registered.
pub uninterp spec fn registry_ids(registry: prometheus::Registry) -> Set<u64>;

/// The dimension hash that the registry has noted for each name that a
/// descriptor was ever registered under.
pub uninterp spec fn registry_dims(registry: prometheus::Registry) -> Map<Seq<char>, u64>;

/// The identifiers of the collectors that are registered: for each, the
/// sum of the identifiers of its descriptors, wrapping at 64 bits.
pub uninterp spec fn registry_collectors(registry: prometheus::Registry) -> Set<u64>;

/// Whether the collector of the running process's own figures is
/// registered.
pub uninterp spec fn registry_has_process(registry: prometheus::Registry) -> bool;

/// Whether a character can start the name of a metric: an ASCII letter,
/// `_` or `:`.
pub open spec fn metric_start(c: char) -> bool {
    ('a' <= c <= 'z') || ('A' <= c <= 'Z') || c == '_' || c == ':'
}

/// Whether a character can stand in the name of a metric: one that can
/// start it, or a digit.
pub open spec fn metric_char(c: char) -> bool {
    metric_start(c) || ('0' <= c <= '9')
}

/// Whether a character can start the name of a label: an ASCII letter or
/// `_`.
pub open spec fn label_start(c: char) -> bool {
    ('a' <= c <= 'z') || ('A' <= c <= 'Z') || c == '_'
}

/// Whether a character can stand in the name of a label.
pub open spec fn label_char(c: char) -> bool {
    label_start(c) || ('0' <= c <= '9')
}

/// Whether a text is a name that `prometheus` takes for a metric.
pub open spec fn valid_metric_name(name: Seq<char>) -> bool {
    &&& name.len() > 0
    &&& metric_start(name[0])
    &&& forall|i: int| 0 <= i < name.len() ==> metric_char(#[trigger] name[i])
}

/// Whether a text is a name that `prometheus` takes for a label.
pub open spec fn valid_label_name(name: Seq<char>) -> bool {
    &&& name.len() > 0
    &&& label_start(name[0])
    &&& forall|i: int| 0 <= i < name.len() ==> label_char(#[trigger] name[i])
}

/// What a metric is known by.
pub struct Descriptor {
    pub name: Seq<char>,
    pub help: Seq<char>,
    pub labels: Seq<Seq<char>>,
}

impl Descriptor {
    /// The descriptor of a family, from its name, its help and its label
    /// names in a row.
    pub open spec fn of(parts: Seq<Seq<char>>) -> Descriptor {
        Descriptor { name: parts[0], help: parts[1], labels: parts.skip(2) }
    }

    /// The name, the help and the label names in a row.
    pub open spec fn parts(name: Seq<char>, help: Seq<char>, labels: Seq<Seq<char>>) -> Seq<
        Seq<char>,
    > {
        seq![name, help] + labels
    }

    /// The descriptor's identifier.
    pub open spec fn id(self) -> u64 {
        descriptor_id(self.name)
    }

    /// The descriptor's dimension hash.
    pub open spec fn dim(self) -> u64 {
        dimension_hash(self.help, self.labels)
    }

    /// Whether `prometheus` makes a metric of the descriptor: the help is
    /// not empty, the name is a valid metric name, and the label names are
    /// valid and differ from one another.
    pub open spec fn valid(self) -> bool {
        &&& self.help.len() > 0
        &&& valid_metric_name(self.name)
        &&& forall|i: int| 0 <= i < self.labels.len() ==> valid_label_name(#[trigger] self.labels[i])
        &&& forall|i: int, j: int|
            0 <= i < j < self.labels.len() ==> #[trigger] self.labels[i] != #[trigger] self.labels[j]
    }
}

/// The name, the help and the label names of a descriptor, put in a row
/// and read again, are the descriptor.
pub proof fn lemma_parts_read_back(name: Seq<char>, help: Seq<char>, labels: Seq<Seq<char>>)
    ensures
        Descriptor::of(Descriptor::parts(name, help, labels)) == (Descriptor { name, help, labels }),
{
    assert(Descriptor::parts(name, help, labels).skip(2) =~= labels);
}

/// The six descriptors of the collector of the process's own figures, as
/// `ProcessCollector` of `prometheus` makes them: none has labels.
pub open spec fn process_descriptors() -> Seq<Descriptor> {
    seq![
        Descriptor {
            name: "process_cpu_seconds_total"@,
            help: "Total user and system CPU time spent in seconds."@,
            labels: Seq::empty(),
        },
        Descriptor {
            name: "process_open_fds"@,
            help: "Number of open file descriptors."@,
            labels: Seq::empty(),
        },
        Descriptor {
            name: "process_max_fds"@,
            help: "Maximum number of open file descriptors."@,
            labels: Seq::empty(),
        },
        Descriptor {
            name: "process_virtual_memory_bytes"@,
            help: "Virtual memory size in bytes."@,
            labels: Seq::empty(),
        },
        Descriptor {
            name: "process_resident_memory_bytes"@,
            help: "Resident memory size in bytes."@,
            labels: Seq::empty(),
        },
        Descriptor {
            name: "process_start_time_seconds"@,
            help: "Start time of the process since unix epoch in seconds."@,
            labels: Seq::empty(),
        },
    ]
}

/// The identifier of the collector of the process's own figures: the sum of
/// the identifiers of its six descriptors, wrapping at 64 bits.
pub open spec fn process_collector_id() -> u64 {
    let d = process_descriptors();
    ((d[0].id() + d[1].id() + d[2].id() + d[3].id() + d[4].id() + d[5].id())
        % 0x1_0000_0000_0000_0000) as u64
}

/// What a registry holds.
pub struct RegistryView {
    /// The prefix of every gathered family's name.
    pub prefix: Option<Seq<char>>,
    /// The labels added to every gathered series.
    pub labels: Map<Seq<char>, Seq<char>>,
    /// The identifiers of the registered descriptors.
    pub ids: Set<u64>,
    /// The dimension hash noted for each name.
    pub dims: Map<Seq<char>, u64>,
    /// The identifiers of the registered collectors.
    pub collectors: Set<u64>,
    /// Whether the collector of the process's own figures is registered.
    pub process: bool,
}

impl RegistryView {
    /// A registry with a prefix and labels and nothing registered.
    pub open spec fn fresh(prefix: Option<Seq<char>>, labels: Map<Seq<char>, Seq<char>>) -> RegistryView {
        RegistryView {
            prefix,
            labels,
            ids: Set::empty(),
            dims: Map::empty(),
            collectors: Set::empty(),
            process: false,
        }
    }

    /// Whether a descriptor agrees with what is noted for its name.
    pub open spec fn agrees(self, d: Descriptor) -> bool {
        self.dims.dom().contains(d.name) ==> self.dims[d.name] == d.dim()
    }

    /// Whether the registry takes a collector of one descriptor: the
    /// descriptor is not registered yet, it agrees with what is noted for
    /// its name, and no collector has its identifier.
    pub open spec fn takes(self, d: Descriptor) -> bool {
        &&& !self.ids.contains(d.id())
        &&& self.agrees(d)
        &&& !self.collectors.contains(d.id())
    }

    /// The registry after it took a collector of one descriptor.
    pub open spec fn with(self, d: Descriptor) -> RegistryView {
        RegistryView {
            ids: self.ids.insert(d.id()),
            dims: self.dims.insert(d.name, d.dim()),
            collectors: self.collectors.insert(d.id()),
            ..self
        }
    }

    /// Whether the registry takes the collector of the process's own
    /// figures: none of its six descriptors is registered yet, each agrees
    /// with what is noted for its name, no two have the same identifier,
    /// and no collector has the identifier of this one.
    pub open spec fn takes_process(self) -> bool {
        let d = process_descriptors();
        &&& forall|k: int| 0 <= k < 6 ==> !self.ids.contains(#[trigger] d[k].id())
        &&& forall|k: int| 0 <= k < 6 ==> self.agrees(#[trigger] d[k])
        &&& forall|j: int, k: int| 0 <= j < k < 6 ==> #[trigger] d[j].id() != #[trigger] d[k].id()
        &&& !self.collectors.contains(process_collector_id())
    }

    /// The registry after it took the collector of the process's own
    /// figures.
    pub open spec fn with_process(self) -> RegistryView {
        let d = process_descriptors();
        RegistryView {
            ids: self.ids.insert(d[0].id()).insert(d[1].id()).insert(d[2].id()).insert(
                d[3].id(),
            ).insert(d[4].id()).insert(d[5].id()),
            dims: self.dims.insert(d[0].name, d[0].dim()).insert(d[1].name, d[1].dim()).insert(
                d[2].name,
                d[2].dim(),
            ).insert(d[3].name, d[3].dim()).insert(d[4].name, d[4].dim()).insert(
                d[5].name,
                d[5].dim(),
            ),
            collectors: self.collectors.insert(process_collector_id()),
            process: true,
            ..self
        }
    }

    /// Whether everything that is registered with this registry is still
    /// registered with a later one, under the same prefix and labels.
    pub open spec fn kept_by(self, later: RegistryView) -> bool {
        &&& later.prefix == self.prefix
        &&& later.labels == self.labels
        &&& self.ids.subset_of(later.ids)
        &&& self.collectors.subset_of(later.collectors)
        &&& self.dims.dom().subset_of(later.dims.dom())
        &&& self.process ==> later.process
    }
}

/// What a registry holds, by its names.
pub open spec fn registry_view(registry: prometheus::Registry) -> RegistryView {
    RegistryView {
        prefix: registry_prefix(registry),
        labels: registry_labels(registry),
        ids: registry_ids(registry),
        dims: registry_dims(registry),
        collectors: registry_collectors(registry),
        process: registry_has_process(registry),
    }
}

/// The name under which a registry with the given prefix gathers a family.
pub open spec fn prefixed(prefix: Option<Seq<char>>, name: Seq<char>) -> Seq<char> {
    match prefix {
        Some(text) => text + "_"@ + name,
        None => name,
    }
}

} // verus!
