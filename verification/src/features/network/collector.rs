use vstd::prelude::*;
use crate::features::network::models::{
    metrics_violation, NetworkConnectionInformation, NetworkInformation, NetworkMetrics,
    NetworkMetricsBuilder,
};
use crate::shared::clock::Timestamp;
use crate::shared::error::CollectionError;
use crate::shared::ident::{generate_id, ID_LENGTH};
use crate::shared::scan::{
    ends_with_char, lines, lines_of, parse_u16, parse_u32, rsplit_once, second_field,
    second_field_of, slice_text, split_at_last, split_whitespace, trim, trimmed, unsigned_of,
    words,
};
use crate::shared::sequence::kept;
use crate::shared::text::{chars_of, clone_texts, contains, contains_text, text_of, texts};
use crate::shared::traits::Validatable;

verus! {

/// A connection as plain values.
pub struct ConnectionView {
    pub local_address: Seq<char>,
    pub local_port: u16,
    pub remote_address: Seq<char>,
    pub remote_port: u16,
    pub protocol: Seq<char>,
    pub state: Seq<char>,
    pub process_id: Option<u32>,
}

impl View for NetworkConnectionInformation {
    type V = ConnectionView;

    open spec fn view(&self) -> ConnectionView {
        ConnectionView {
            local_address: self.local_address@,
            local_port: self.local_port,
            remote_address: self.remote_address@,
            remote_port: self.remote_port,
            protocol: self.protocol@,
            state: self.state@,
            process_id: self.process_id,
        }
    }
}

/// An interface as plain values.
pub struct InterfaceView {
    pub interface_name: Seq<char>,
    pub mac_address: Seq<char>,
    pub ipv4_addresses: Seq<Seq<char>>,
    pub ipv6_addresses: Seq<Seq<char>>,
    pub received_bytes: u64,
    pub transmitted_bytes: u64,
    pub received_packets: u64,
    pub transmitted_packets: u64,
    pub errors: u64,
}

impl View for NetworkInformation {
    type V = InterfaceView;

    open spec fn view(&self) -> InterfaceView {
        InterfaceView {
            interface_name: self.interface_name@,
            mac_address: self.mac_address@,
            ipv4_addresses: texts(self.ipv4_addresses@),
            ipv6_addresses: texts(self.ipv6_addresses@),
            received_bytes: self.received_bytes,
            transmitted_bytes: self.transmitted_bytes,
            received_packets: self.received_packets,
            transmitted_packets: self.transmitted_packets,
            errors: self.errors,
        }
    }
}

/// The connections of a list, as plain values.
pub open spec fn connection_views(list: Seq<NetworkConnectionInformation>) -> Seq<ConnectionView> {
    list.map_values(|c: NetworkConnectionInformation| c@)
}

/// The interfaces of a list, as plain values.
pub open spec fn interface_views(list: Seq<NetworkInformation>) -> Seq<InterfaceView> {
    list.map_values(|i: NetworkInformation| i@)
}

/// The number that a text writes, as a process identifier.
pub open spec fn process_id_of(text: Seq<char>) -> Option<u32> {
    match unsigned_of(text, u32::MAX as int) {
        Some(value) => Some(value as u32),
        None => None,
    }
}

/// The connection that one line of the connection table tells of, if it
/// tells of one: the line has five words or more; the first is the protocol,
/// the second and the third are the local and the remote end, each an address
/// and a port with a colon between, the fourth is the state and the fifth the
/// identifier of the owning process.
pub open spec fn connection_of(line: Seq<char>) -> Option<ConnectionView> {
    let parts = words(line);
    if parts.len() < 5 {
        None
    } else {
        match (split_at_last(parts[1], ':'), split_at_last(parts[2], ':')) {
            (Some(local), Some(remote)) => match (
                unsigned_of(local.1, u16::MAX as int),
                unsigned_of(remote.1, u16::MAX as int),
            ) {
                (Some(local_port), Some(remote_port)) => Some(
                    ConnectionView {
                        local_address: local.0,
                        local_port: local_port as u16,
                        remote_address: remote.0,
                        remote_port: remote_port as u16,
                        protocol: parts[0],
                        state: parts[3],
                        process_id: process_id_of(parts[4]),
                    },
                ),
                _ => None,
            },
            _ => None,
        }
    }
}

/// How many lines the connection table begins with before its first row.
pub const CONNECTION_HEADER_LINES: usize = 4;

/// What each line tells of, in the order of the lines.
pub open spec fn connection_results(table: Seq<Seq<char>>) -> Seq<Option<ConnectionView>> {
    table.map_values(|line: Seq<char>| connection_of(line))
}

/// The rows of a connection table: its lines behind the header.
pub open spec fn connection_rows(output: Seq<char>) -> Seq<Seq<char>> {
    if lines_of(output).len() <= CONNECTION_HEADER_LINES {
        Seq::empty()
    } else {
        lines_of(output).subrange(CONNECTION_HEADER_LINES as int, lines_of(output).len() as int)
    }
}

/// The connections that a connection table tells of, in the order of its
/// rows. A row that tells of none is passed over.
pub open spec fn connections_of(output: Seq<char>) -> Seq<ConnectionView> {
    kept(connection_results(connection_rows(output)))
}

/// The addresses that one section of the address listing gives for an
/// interface.
#[derive(Debug, Clone)]
pub struct AddressSection {
    pub name: String,
    pub ipv4_addresses: Vec<String>,
    pub ipv6_addresses: Vec<String>,
}

/// A section as plain values.
pub struct AddressSectionView {
    pub name: Seq<char>,
    pub ipv4_addresses: Seq<Seq<char>>,
    pub ipv6_addresses: Seq<Seq<char>>,
}

impl View for AddressSection {
    type V = AddressSectionView;

    open spec fn view(&self) -> AddressSectionView {
        AddressSectionView {
            name: self.name@,
            ipv4_addresses: texts(self.ipv4_addresses@),
            ipv6_addresses: texts(self.ipv6_addresses@),
        }
    }
}

/// The sections of a list, as plain values.
pub open spec fn section_views(list: Seq<AddressSection>) -> Seq<AddressSectionView> {
    list.map_values(|s: AddressSection| s@)
}

/// Whether a line is the header of a section: it ends with a colon.
pub open spec fn is_header(line: Seq<char>) -> bool {
    line.len() > 0 && line.last() == ':'
}

/// The address that a line gives under a label, if it gives one: the line
/// holds the label, and the address is its second field between colons,
/// without the white space around it.
pub open spec fn labelled_address(line: Seq<char>, label: Seq<char>) -> Option<Seq<char>> {
    if contains_text(line, label) && second_field_of(line, ':') is Some {
        Some(trimmed(second_field_of(line, ':')->0))
    } else {
        None
    }
}

/// The sections after one more line. A header opens a section under its text
/// before the colon. Any other line belongs to the section that is open: it
/// adds an address where it gives one, an IPv4 address first. Lines before
/// the first header are passed over.
pub open spec fn sections_step(
    sections: Seq<AddressSectionView>,
    raw_line: Seq<char>,
) -> Seq<AddressSectionView> {
    let line = trimmed(raw_line);
    if is_header(line) {
        sections.push(
            AddressSectionView {
                name: line.drop_last(),
                ipv4_addresses: Seq::empty(),
                ipv6_addresses: Seq::empty(),
            },
        )
    } else if sections.len() == 0 {
        sections
    } else if labelled_address(line, "IPv4"@) is Some {
        sections.update(
            sections.len() - 1,
            AddressSectionView {
                ipv4_addresses: sections.last().ipv4_addresses.push(
                    labelled_address(line, "IPv4"@)->0,
                ),
                ..sections.last()
            },
        )
    } else if labelled_address(line, "IPv6"@) is Some {
        sections.update(
            sections.len() - 1,
            AddressSectionView {
                ipv6_addresses: sections.last().ipv6_addresses.push(
                    labelled_address(line, "IPv6"@)->0,
                ),
                ..sections.last()
            },
        )
    } else {
        sections
    }
}

/// The sections that a list of lines gives, taken in order.
pub open spec fn sections_from(raw_lines: Seq<Seq<char>>) -> Seq<AddressSectionView>
    decreases raw_lines.len(),
{
    if raw_lines.len() == 0 {
        Seq::empty()
    } else {
        sections_step(sections_from(raw_lines.drop_last()), raw_lines.last())
    }
}

/// The sections that an address listing gives.
pub open spec fn sections_of(output: Seq<char>) -> Seq<AddressSectionView> {
    sections_from(lines_of(output))
}

/// The first interface from position `from` on whose name contains `name`,
/// if there is one.
pub open spec fn interface_named(interfaces: Seq<InterfaceView>, name: Seq<char>, from: int) -> Option<
    int,
>
    decreases interfaces.len() - from,
{
    if from < 0 || from >= interfaces.len() {
        None
    } else if contains_text(interfaces[from].interface_name, name) {
        Some(from)
    } else {
        interface_named(interfaces, name, from + 1)
    }
}

/// The interfaces after a section was applied: the first interface whose
/// name contains the section's name gets the section's addresses in the place
/// of its own; with no such interface nothing changes.
pub open spec fn with_section(
    interfaces: Seq<InterfaceView>,
    section: AddressSectionView,
) -> Seq<InterfaceView> {
    match interface_named(interfaces, section.name, 0) {
        Some(at) => interfaces.update(
            at,
            InterfaceView {
                ipv4_addresses: section.ipv4_addresses,
                ipv6_addresses: section.ipv6_addresses,
                ..interfaces[at]
            },
        ),
        None => interfaces,
    }
}

/// The interfaces after sections were applied, one after the other.
pub open spec fn with_sections(
    interfaces: Seq<InterfaceView>,
    sections: Seq<AddressSectionView>,
) -> Seq<InterfaceView>
    decreases sections.len(),
{
    if sections.len() == 0 {
        interfaces
    } else {
        with_section(with_sections(interfaces, sections.drop_last()), sections.last())
    }
}

/// The connection that one line of the connection table tells of, if it
/// tells of one.
pub fn parse_connection(line: &str) -> (connection: Option<NetworkConnectionInformation>)
    ensures
        match connection {
            Some(c) => connection_of(line@) == Some(c@),
            None => connection_of(line@) is None,
        },
{
    let parts = split_whitespace(line);
    if parts.len() < 5 {
        return None;
    }
    let (local_address, local_port_text) = match rsplit_once(parts[1].as_str(), ':') {
        Some(local) => local,
        None => { return None; },
    };
    let (remote_address, remote_port_text) = match rsplit_once(parts[2].as_str(), ':') {
        Some(remote) => remote,
        None => { return None; },
    };
    let local_port = match parse_u16(local_port_text.as_str()) {
        Some(port) => port,
        None => { return None; },
    };
    let remote_port = match parse_u16(remote_port_text.as_str()) {
        Some(port) => port,
        None => { return None; },
    };
    Some(
        NetworkConnectionInformation {
            protocol: parts[0].clone(),
            local_address,
            local_port,
            remote_address,
            remote_port,
            state: parts[3].clone(),
            process_id: parse_u32(parts[4].as_str()),
        },
    )
}

/// The connections that a connection table tells of, in the order of its
/// rows.
pub fn parse_connections(output: &str) -> (connections: Vec<NetworkConnectionInformation>)
    ensures
        connection_views(connections@) == connections_of(output@),
{
    let table = lines(output);
    let mut connections: Vec<NetworkConnectionInformation> = Vec::new();
    if table.len() <= CONNECTION_HEADER_LINES {
        return connections;
    }
    let ghost rows = connection_rows(output@);
    let mut i: usize = CONNECTION_HEADER_LINES;
    while i < table.len()
        invariant
            CONNECTION_HEADER_LINES <= i <= table.len(),
            texts(table@) == lines_of(output@),
            rows == connection_rows(output@),
            rows.len() == table.len() - CONNECTION_HEADER_LINES,
            connection_views(connections@) == kept(
                connection_results(rows).subrange(0, i - CONNECTION_HEADER_LINES),
            ),
        decreases table.len() - i,
    {
        let ghost done = connection_results(rows).subrange(0, i - CONNECTION_HEADER_LINES);
        let ghost next = connection_results(rows).subrange(0, i - CONNECTION_HEADER_LINES + 1);
        let connection = parse_connection(table[i].as_str());
        proof {
            assert(next.drop_last() == done);
        }
        match connection {
            Some(c) => {
                connections.push(c);
            },
            None => {},
        }
        i += 1;
    }
    assert(connection_results(rows).subrange(0, rows.len() as int) == connection_results(rows));
    connections
}

/// The address that a line gives under a label, if it gives one.
fn address_under(line: &str, label: &str) -> (address: Option<String>)
    ensures
        text_of(address) == labelled_address(line@, label@),
{
    if !contains(line, label) {
        return None;
    }
    match second_field(line, ':') {
        Some(field) => Some(trim(field.as_str())),
        None => None,
    }
}

/// The sections that an address listing gives, in the order of the listing.
pub fn parse_address_sections(output: &str) -> (sections: Vec<AddressSection>)
    ensures
        section_views(sections@) == sections_of(output@),
{
    let listing = lines(output);
    let mut sections: Vec<AddressSection> = Vec::new();
    let mut i: usize = 0;
    while i < listing.len()
        invariant
            i <= listing.len(),
            texts(listing@) == lines_of(output@),
            section_views(sections@) == sections_from(lines_of(output@).subrange(0, i as int)),
        decreases listing.len() - i,
    {
        let ghost done = lines_of(output@).subrange(0, i as int);
        let ghost next = lines_of(output@).subrange(0, i + 1);
        proof {
            assert(next.drop_last() == done);
        }
        let line = trim(listing[i].as_str());
        if ends_with_char(line.as_str(), ':') {
            let chars = chars_of(line.as_str());
            let name = slice_text(&chars, 0, chars.len() - 1);
            let section = AddressSection {
                name,
                ipv4_addresses: Vec::new(),
                ipv6_addresses: Vec::new(),
            };
            sections.push(section);
            assert(texts(section.ipv4_addresses@) == Seq::<Seq<char>>::empty());
        } else if sections.len() > 0 {
            let last: usize = sections.len() - 1;
            if let Some(address) = address_under(line.as_str(), "IPv4") {
                let mut ipv4 = clone_texts(&sections[last].ipv4_addresses);
                let ghost earlier = ipv4@;
                ipv4.push(address);
                assert(texts(ipv4@) == texts(earlier).push(address@));
                let section = AddressSection {
                    name: sections[last].name.clone(),
                    ipv4_addresses: ipv4,
                    ipv6_addresses: clone_texts(&sections[last].ipv6_addresses),
                };
                sections.set(last, section);
            } else if let Some(address) = address_under(line.as_str(), "IPv6") {
                let mut ipv6 = clone_texts(&sections[last].ipv6_addresses);
                let ghost earlier = ipv6@;
                ipv6.push(address);
                assert(texts(ipv6@) == texts(earlier).push(address@));
                let section = AddressSection {
                    name: sections[last].name.clone(),
                    ipv4_addresses: clone_texts(&sections[last].ipv4_addresses),
                    ipv6_addresses: ipv6,
                };
                sections.set(last, section);
            }
        }
        i += 1;
    }
    assert(lines_of(output@).subrange(0, listing.len() as int) == lines_of(output@));
    sections
}

/// Where the first interface stands whose name contains `name`.
fn find_interface(interfaces: &Vec<NetworkInformation>, name: &str) -> (at: Option<usize>)
    ensures
        match at {
            Some(i) => interface_named(interface_views(interfaces@), name@, 0) == Some(i as int)
                && i < interfaces.len(),
            None => interface_named(interface_views(interfaces@), name@, 0) is None,
        },
{
    let mut i: usize = 0;
    while i < interfaces.len()
        invariant
            i <= interfaces.len(),
            interface_named(interface_views(interfaces@), name@, 0) == interface_named(
                interface_views(interfaces@),
                name@,
                i as int,
            ),
        decreases interfaces.len() - i,
    {
        if contains(interfaces[i].interface_name.as_str(), name) {
            return Some(i);
        }
        i += 1;
    }
    None
}

/// Gives the interfaces the addresses of the sections, one section after the
/// other: each section goes to the first interface whose name contains the
/// section's name.
pub fn assign_addresses(
    interfaces: Vec<NetworkInformation>,
    sections: &Vec<AddressSection>,
) -> (assigned: Vec<NetworkInformation>)
    ensures
        interface_views(assigned@) == with_sections(
            interface_views(interfaces@),
            section_views(sections@),
        ),
{
    let mut assigned = interfaces;
    let mut i: usize = 0;
    while i < sections.len()
        invariant
            i <= sections.len(),
            interface_views(assigned@) == with_sections(
                interface_views(interfaces@),
                section_views(sections@).subrange(0, i as int),
            ),
        decreases sections.len() - i,
    {
        let ghost done = section_views(sections@).subrange(0, i as int);
        let ghost next = section_views(sections@).subrange(0, i + 1);
        proof {
            assert(next.drop_last() == done);
        }
        let section = &sections[i];
        match find_interface(&assigned, section.name.as_str()) {
            Some(at) => {
                let old = &assigned[at];
                let updated = NetworkInformation {
                    interface_name: old.interface_name.clone(),
                    mac_address: old.mac_address.clone(),
                    ipv4_addresses: clone_texts(&section.ipv4_addresses),
                    ipv6_addresses: clone_texts(&section.ipv6_addresses),
                    received_bytes: old.received_bytes,
                    transmitted_bytes: old.transmitted_bytes,
                    received_packets: old.received_packets,
                    transmitted_packets: old.transmitted_packets,
                    errors: old.errors,
                };
                assigned.set(at, updated);
            },
            None => {},
        }
        i += 1;
    }
    assert(section_views(sections@).subrange(0, sections.len() as int) == section_views(
        sections@,
    ));
    assigned
}

/// The network inventory: it turns the counters of the interfaces and the
/// output of the system's tools into a snapshot.
pub struct NetworkCollector {
    hostname: String,
}

impl NetworkCollector {
    pub fn new(hostname: String) -> (collector: Self)
        ensures
            collector.hostname() == hostname@,
    {
        NetworkCollector { hostname }
    }

    /// The name of the host that snapshots are made for.
    pub closed spec fn hostname(&self) -> Seq<char> {
        self.hostname@
    }

    /// Completes the interfaces with the addresses that an address listing
    /// gives.
    pub fn collect_interface_info(
        &self,
        interfaces: Vec<NetworkInformation>,
        address_listing: &str,
    ) -> (r: Result<Vec<NetworkInformation>, CollectionError>)
        ensures
            r matches Ok(assigned) && interface_views(assigned@) == with_sections(
                interface_views(interfaces@),
                sections_of(address_listing@),
            ),
    {
        let sections = parse_address_sections(address_listing);
        Ok(assign_addresses(interfaces, &sections))
    }

    /// The connections that a connection table tells of.
    pub fn collect_connections(&self, connection_table: &str) -> (r: Result<
        Vec<NetworkConnectionInformation>,
        CollectionError,
    >)
        ensures
            r matches Ok(connections) && connection_views(connections@) == connections_of(
                connection_table@,
            ),
    {
        Ok(parse_connections(connection_table))
    }

    /// Makes the snapshot of the given interfaces and connections, under a
    /// fresh identifier and the current time. Fails where the snapshot breaks
    /// an invariant.
    pub fn collect(
        &self,
        interfaces: Vec<NetworkInformation>,
        connections: Vec<NetworkConnectionInformation>,
    ) -> (r: Result<NetworkMetrics, CollectionError>)
        ensures
            match r {
                Ok(metrics) => {
                    &&& metrics.valid()
                    &&& metrics.id@.len() == ID_LENGTH
                    &&& metrics.source@ == self.hostname()
                    &&& metrics.category@ == "network"@
                    &&& metrics.interfaces == interfaces
                    &&& metrics.connections == connections
                },
                Err(e) => e matches CollectionError::Parse(message)
                    && metrics_violation(
                    interfaces@,
                    connections@,
                ) == Some(message@),
            },
    {
        let built = NetworkMetricsBuilder::new().id(generate_id()).timestamp(
            Timestamp::now(),
        ).source(self.hostname.clone()).category(String::from_str("network")).interfaces(
            interfaces,
        ).connections(connections).build();
        match built {
            Ok(metrics) => Ok(metrics),
            Err(message) => Err(CollectionError::Parse(message)),
        }
    }

    /// The inventory needs nothing to be in place: a host may have no
    /// interface at all.
    pub fn internal_validate(&self) -> (r: Result<(), CollectionError>)
        ensures
            r is Ok,
    {
        Ok(())
    }

    /// Always succeeds.
    pub fn validate(&self) -> (r: Result<(), CollectionError>)
        ensures
            r is Ok,
    {
        self.internal_validate()
    }

    /// Always true.
    pub fn health_check(&self) -> (healthy: bool)
        ensures
            healthy,
    {
        self.internal_validate().is_ok()
    }
}

} // verus!
