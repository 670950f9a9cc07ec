use vstd::prelude::*;
use crate::shared::clock::Timestamp;
use crate::shared::text::{joined, text_of};
use crate::shared::traits::{Event, Identifiable, Severity, Validatable};

verus! {

/// The counters of one network interface.
#[derive(Debug, Clone)]
pub struct NetworkInformation {
    pub interface_name: String,
    pub mac_address: String,
    pub ipv4_addresses: Vec<String>,
    pub ipv6_addresses: Vec<String>,
    pub received_bytes: u64,
    pub transmitted_bytes: u64,
    pub received_packets: u64,
    pub transmitted_packets: u64,
    pub errors: u64,
}

/// One connection of the host.
#[derive(Debug, Clone)]
pub struct NetworkConnectionInformation {
    pub local_address: String,
    pub local_port: u16,
    pub remote_address: String,
    pub remote_port: u16,
    pub protocol: String,
    pub state: String,
    pub process_id: Option<u32>,
}

/// A snapshot of the host's interfaces and connections.
#[derive(Debug, Clone)]
pub struct NetworkMetrics {
    pub id: String,
    pub timestamp: Timestamp,
    pub source: String,
    pub category: String,
    pub interfaces: Vec<NetworkInformation>,
    pub connections: Vec<NetworkConnectionInformation>,
}

/// The traffic in one direction above which an interface counts as heavily
/// used: one gigabyte.
pub const HIGH_USAGE_BYTES: u64 = 1_000_000_000;

/// The errors that an interface has counted in both directions together. The
/// sum stops at the largest number that the counter holds.
pub fn total_errors(on_received: u64, on_transmitted: u64) -> (total: u64)
    ensures
        total == if on_received + on_transmitted > u64::MAX {
            u64::MAX as int
        } else {
            on_received + on_transmitted
        },
{
    if on_received > u64::MAX - on_transmitted {
        u64::MAX
    } else {
        on_received + on_transmitted
    }
}

impl NetworkInformation {
    /// Whether the interface has counted an error.
    pub open spec fn has_errors(&self) -> bool {
        self.errors > 0
    }

    /// Whether the interface has moved more than a gigabyte in one direction.
    pub open spec fn high_usage(&self) -> bool {
        self.transmitted_bytes > HIGH_USAGE_BYTES || self.received_bytes > HIGH_USAGE_BYTES
    }

    /// The message of the first invariant that the interface breaks, if any:
    /// it has a name and a hardware address.
    pub open spec fn violation(&self) -> Option<Seq<char>> {
        if self.interface_name@.len() == 0 {
            Some("Interface name cannot be empty"@)
        } else if self.mac_address@.len() == 0 {
            Some("MAC address cannot be empty for interface "@ + self.interface_name@)
        } else {
            None
        }
    }

    /// Checks the invariants of the interface.
    pub fn validate(&self) -> (r: Result<(), String>)
        ensures
            match r {
                Ok(_) => self.violation() is None,
                Err(m) => self.violation() == Some(m@),
            },
    {
        if self.interface_name.as_str().is_empty() {
            return Err(String::from_str("Interface name cannot be empty"));
        }
        if self.mac_address.as_str().is_empty() {
            return Err(
                joined("MAC address cannot be empty for interface ", self.interface_name.as_str()),
            );
        }
        Ok(())
    }
}

impl NetworkConnectionInformation {
    /// The message of the first invariant that the connection breaks, if any:
    /// its local port is not zero, and it names a protocol and a state.
    pub open spec fn violation(&self) -> Option<Seq<char>> {
        if self.local_port == 0 {
            Some("Local port cannot be 0"@)
        } else if self.protocol@.len() == 0 {
            Some("Protocol cannot be empty"@)
        } else if self.state@.len() == 0 {
            Some("Connection state cannot be empty"@)
        } else {
            None
        }
    }

    /// Checks the invariants of the connection.
    pub fn validate(&self) -> (r: Result<(), String>)
        ensures
            match r {
                Ok(_) => self.violation() is None,
                Err(m) => self.violation() == Some(m@),
            },
    {
        if self.local_port == 0 {
            return Err(String::from_str("Local port cannot be 0"));
        }
        if self.protocol.as_str().is_empty() {
            return Err(String::from_str("Protocol cannot be empty"));
        }
        if self.state.as_str().is_empty() {
            return Err(String::from_str("Connection state cannot be empty"));
        }
        Ok(())
    }
}

/// The first violation among the interfaces from position `from` on.
pub open spec fn interface_violation(interfaces: Seq<NetworkInformation>, from: int) -> Option<
    Seq<char>,
>
    decreases interfaces.len() - from,
{
    if from < 0 || from >= interfaces.len() {
        None
    } else if interfaces[from].violation() is Some {
        interfaces[from].violation()
    } else {
        interface_violation(interfaces, from + 1)
    }
}

/// The first violation among the connections from position `from` on.
pub open spec fn connection_violation(
    connections: Seq<NetworkConnectionInformation>,
    from: int,
) -> Option<Seq<char>>
    decreases connections.len() - from,
{
    if from < 0 || from >= connections.len() {
        None
    } else if connections[from].violation() is Some {
        connections[from].violation()
    } else {
        connection_violation(connections, from + 1)
    }
}

/// The message of the first invariant that a snapshot breaks, if any: there
/// is an interface, every interface is sound, and every connection is.
pub open spec fn metrics_violation(
    interfaces: Seq<NetworkInformation>,
    connections: Seq<NetworkConnectionInformation>,
) -> Option<Seq<char>> {
    if interfaces.len() == 0 {
        Some("No network interfaces found"@)
    } else if interface_violation(interfaces, 0) is Some {
        interface_violation(interfaces, 0)
    } else {
        connection_violation(connections, 0)
    }
}

/// The severity of a snapshot: high where an interface has counted an error,
/// else medium where one is heavily used, else low.
pub open spec fn metrics_severity(interfaces: Seq<NetworkInformation>) -> Severity {
    if exists|i: int| 0 <= i < interfaces.len() && (#[trigger] interfaces[i]).has_errors() {
        Severity::High
    } else if exists|i: int| 0 <= i < interfaces.len() && (#[trigger] interfaces[i]).high_usage() {
        Severity::Medium
    } else {
        Severity::Low
    }
}

impl NetworkMetrics {
    /// The message of the first invariant that the snapshot breaks, if any.
    pub open spec fn violation(&self) -> Option<Seq<char>> {
        metrics_violation(self.interfaces@, self.connections@)
    }
}

impl Event for NetworkMetrics {
    fn timestamp(&self) -> (t: Timestamp)
        ensures
            t == self.timestamp,
    {
        self.timestamp
    }

    fn source(&self) -> (s: &str)
        ensures
            s@ == self.source@,
    {
        self.source.as_str()
    }

    fn event_type(&self) -> (s: &str)
        ensures
            s@ == "network_metrics"@,
    {
        "network_metrics"
    }

    fn severity(&self) -> (s: Severity)
        ensures
            s == metrics_severity(self.interfaces@),
    {
        let mut has_errors = false;
        let mut high_usage = false;
        let mut i: usize = 0;
        while i < self.interfaces.len()
            invariant
                i <= self.interfaces.len(),
                has_errors == exists|j: int|
                    0 <= j < i && (#[trigger] self.interfaces@[j]).has_errors(),
                high_usage == exists|j: int|
                    0 <= j < i && (#[trigger] self.interfaces@[j]).high_usage(),
            decreases self.interfaces.len() - i,
        {
            let interface = &self.interfaces[i];
            if interface.errors > 0 {
                has_errors = true;
            }
            if interface.transmitted_bytes > HIGH_USAGE_BYTES || interface.received_bytes
                > HIGH_USAGE_BYTES {
                high_usage = true;
            }
            i += 1;
        }
        if has_errors {
            Severity::High
        } else if high_usage {
            Severity::Medium
        } else {
            Severity::Low
        }
    }
}

impl Identifiable for NetworkMetrics {
    fn id(&self) -> (s: &str)
        ensures
            s@ == self.id@,
    {
        self.id.as_str()
    }

    fn category(&self) -> (s: &str)
        ensures
            s@ == self.category@,
    {
        self.category.as_str()
    }
}

impl Validatable for NetworkMetrics {
    open spec fn valid(&self) -> bool {
        self.violation() is None
    }

    fn validate(&self) -> (r: Result<(), String>)
        ensures
            r matches Err(m) ==> self.violation() == Some(m@),
    {
        if self.interfaces.len() == 0 {
            return Err(String::from_str("No network interfaces found"));
        }
        let mut i: usize = 0;
        while i < self.interfaces.len()
            invariant
                i <= self.interfaces.len(),
                interface_violation(self.interfaces@, 0) == interface_violation(
                    self.interfaces@,
                    i as int,
                ),
            decreases self.interfaces.len() - i,
        {
            match self.interfaces[i].validate() {
                Ok(_) => {},
                Err(message) => { return Err(message); },
            }
            i += 1;
        }
        let mut k: usize = 0;
        while k < self.connections.len()
            invariant
                k <= self.connections.len(),
                self.interfaces.len() > 0,
                interface_violation(self.interfaces@, 0) is None,
                connection_violation(self.connections@, 0) == connection_violation(
                    self.connections@,
                    k as int,
                ),
            decreases self.connections.len() - k,
        {
            match self.connections[k].validate() {
                Ok(_) => {},
                Err(message) => { return Err(message); },
            }
            k += 1;
        }
        Ok(())
    }
}

/// Accumulates the fields of a snapshot. Nothing of it is a snapshot until
/// `build` has accepted it.
pub struct NetworkMetricsBuilder {
    id: Option<String>,
    timestamp: Option<Timestamp>,
    source: Option<String>,
    category: Option<String>,
    interfaces: Option<Vec<NetworkInformation>>,
    connections: Option<Vec<NetworkConnectionInformation>>,
}

/// The fields that a builder holds so far.
pub struct NetworkMetricsBuilderView {
    pub id: Option<Seq<char>>,
    pub timestamp: Option<Timestamp>,
    pub source: Option<Seq<char>>,
    pub category: Option<Seq<char>>,
    pub interfaces: Option<Vec<NetworkInformation>>,
    pub connections: Option<Vec<NetworkConnectionInformation>>,
}

impl NetworkMetricsBuilderView {
    /// The builder that holds nothing.
    pub open spec fn empty() -> NetworkMetricsBuilderView {
        NetworkMetricsBuilderView {
            id: None,
            timestamp: None,
            source: None,
            category: None,
            interfaces: None,
            connections: None,
        }
    }

    /// The message for the first field that is missing, if any. Every field
    /// is required.
    pub open spec fn missing(self) -> Option<Seq<char>> {
        if self.id is None {
            Some("id is required"@)
        } else if self.timestamp is None {
            Some("timestamp is required"@)
        } else if self.source is None {
            Some("source is required"@)
        } else if self.category is None {
            Some("category is required"@)
        } else if self.interfaces is None {
            Some("interfaces are required"@)
        } else if self.connections is None {
            Some("connections are required"@)
        } else {
            None
        }
    }

    /// Why `build` refuses these fields, if it does: a field is missing, or
    /// the snapshot would break an invariant.
    pub open spec fn rejection(self) -> Option<Seq<char>> {
        if self.missing() is Some {
            self.missing()
        } else {
            metrics_violation(self.interfaces->0@, self.connections->0@)
        }
    }

    /// Whether a snapshot holds exactly these fields.
    pub open spec fn builds(self, metrics: NetworkMetrics) -> bool {
        &&& self.id == Some(metrics.id@)
        &&& self.timestamp == Some(metrics.timestamp)
        &&& self.source == Some(metrics.source@)
        &&& self.category == Some(metrics.category@)
        &&& self.interfaces == Some(metrics.interfaces)
        &&& self.connections == Some(metrics.connections)
    }
}

impl View for NetworkMetricsBuilder {
    type V = NetworkMetricsBuilderView;

    closed spec fn view(&self) -> NetworkMetricsBuilderView {
        NetworkMetricsBuilderView {
            id: text_of(self.id),
            timestamp: self.timestamp,
            source: text_of(self.source),
            category: text_of(self.category),
            interfaces: self.interfaces,
            connections: self.connections,
        }
    }
}

impl NetworkMetricsBuilder {
    pub fn new() -> (b: Self)
        ensures
            b@ == NetworkMetricsBuilderView::empty(),
    {
        NetworkMetricsBuilder {
            id: None,
            timestamp: None,
            source: None,
            category: None,
            interfaces: None,
            connections: None,
        }
    }

    pub fn id(self, id: String) -> (b: Self)
        ensures
            b@ == (NetworkMetricsBuilderView { id: Some(id@), ..self@ }),
    {
        let mut next = self;
        next.id = Some(id);
        next
    }

    pub fn timestamp(self, timestamp: Timestamp) -> (b: Self)
        ensures
            b@ == (NetworkMetricsBuilderView { timestamp: Some(timestamp), ..self@ }),
    {
        let mut next = self;
        next.timestamp = Some(timestamp);
        next
    }

    pub fn source(self, source: String) -> (b: Self)
        ensures
            b@ == (NetworkMetricsBuilderView { source: Some(source@), ..self@ }),
    {
        let mut next = self;
        next.source = Some(source);
        next
    }

    pub fn category(self, category: String) -> (b: Self)
        ensures
            b@ == (NetworkMetricsBuilderView { category: Some(category@), ..self@ }),
    {
        let mut next = self;
        next.category = Some(category);
        next
    }

    pub fn interfaces(self, interfaces: Vec<NetworkInformation>) -> (b: Self)
        ensures
            b@ == (NetworkMetricsBuilderView { interfaces: Some(interfaces), ..self@ }),
    {
        let mut next = self;
        next.interfaces = Some(interfaces);
        next
    }

    pub fn connections(self, connections: Vec<NetworkConnectionInformation>) -> (b: Self)
        ensures
            b@ == (NetworkMetricsBuilderView { connections: Some(connections), ..self@ }),
    {
        let mut next = self;
        next.connections = Some(connections);
        next
    }

    /// Builds the snapshot. Fails with the message for the first missing
    /// field, or else with that of the first broken invariant.
    pub fn build(self) -> (r: Result<NetworkMetrics, String>)
        ensures
            match r {
                Ok(metrics) => self@.rejection() is None && self@.builds(metrics)
                    && metrics.valid(),
                Err(message) => self@.rejection() == Some(message@),
            },
    {
        let id = match self.id {
            Some(id) => id,
            None => { return Err(String::from_str("id is required")); },
        };
        let timestamp = match self.timestamp {
            Some(timestamp) => timestamp,
            None => { return Err(String::from_str("timestamp is required")); },
        };
        let source = match self.source {
            Some(source) => source,
            None => { return Err(String::from_str("source is required")); },
        };
        let category = match self.category {
            Some(category) => category,
            None => { return Err(String::from_str("category is required")); },
        };
        let interfaces = match self.interfaces {
            Some(interfaces) => interfaces,
            None => { return Err(String::from_str("interfaces are required")); },
        };
        let connections = match self.connections {
            Some(connections) => connections,
            None => { return Err(String::from_str("connections are required")); },
        };
        let metrics = NetworkMetrics { id, timestamp, source, category, interfaces, connections };
        match metrics.validate() {
            Ok(()) => Ok(metrics),
            Err(message) => Err(message),
        }
    }
}

impl Default for NetworkMetricsBuilder {
    fn default() -> (b: Self)
        ensures
            b@ == NetworkMetricsBuilderView::empty(),
    {
        NetworkMetricsBuilder::new()
    }
}

} // verus!
