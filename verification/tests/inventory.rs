use lsedr::features::network::collector::{
    assign_addresses, parse_address_sections, parse_connection, parse_connections, AddressSection,
    NetworkCollector,
};
use lsedr::features::network::models::{
    NetworkConnectionInformation, NetworkInformation, NetworkMetrics, NetworkMetricsBuilder,
};
use lsedr::features::process::models::{
    max_severity, memory_severity, validate_identity, validate_usage,
};
use lsedr::features::service::collector::{
    describe, read_listing_line, ListingLine, Platform, ServiceCollector, ServiceScan,
};
use lsedr::features::service::models::{ServiceInformation, ServiceInformationBuilder};
use lsedr::features::system_metrics::models::{validate_disks, DiskInformation, MemoryInformation};
use lsedr::shared::clock::Timestamp;
use lsedr::shared::collector::CollectorError;
use lsedr::shared::error::{CollectionError, ProcessingError, StorageError, XdrError};
use lsedr::shared::traits::{Event, Identifiable, Severity, Validatable};

fn at(secs: i64) -> Timestamp {
    Timestamp { secs, nanos: 0 }
}

fn interface(name: &str, mac: &str) -> NetworkInformation {
    NetworkInformation {
        interface_name: name.to_string(),
        mac_address: mac.to_string(),
        ipv4_addresses: Vec::new(),
        ipv6_addresses: Vec::new(),
        received_bytes: 10,
        transmitted_bytes: 20,
        received_packets: 1,
        transmitted_packets: 2,
        errors: 0,
    }
}

fn connection(port: u16) -> NetworkConnectionInformation {
    NetworkConnectionInformation {
        local_address: "127.0.0.1".to_string(),
        local_port: port,
        remote_address: "10.0.0.1".to_string(),
        remote_port: 443,
        protocol: "TCP".to_string(),
        state: "ESTABLISHED".to_string(),
        process_id: Some(5),
    }
}

fn metrics(
    interfaces: Vec<NetworkInformation>,
    connections: Vec<NetworkConnectionInformation>,
) -> NetworkMetrics {
    NetworkMetrics {
        id: "n".to_string(),
        timestamp: at(3),
        source: "host".to_string(),
        category: "network".to_string(),
        interfaces,
        connections,
    }
}

#[test]
fn network_severity_prefers_errors_over_usage() {
    let quiet = metrics(vec![interface("eth0", "aa")], Vec::new());
    assert_eq!(quiet.severity(), Severity::Low);
    let mut busy = interface("eth0", "aa");
    busy.received_bytes = 1_000_000_001;
    assert_eq!(metrics(vec![busy.clone()], Vec::new()).severity(), Severity::Medium);
    let mut edge = interface("eth0", "aa");
    edge.transmitted_bytes = 1_000_000_000;
    assert_eq!(metrics(vec![edge], Vec::new()).severity(), Severity::Low);
    let mut faulty = interface("eth1", "bb");
    faulty.errors = 1;
    assert_eq!(metrics(vec![busy, faulty], Vec::new()).severity(), Severity::High);
    assert_eq!(metrics(Vec::new(), Vec::new()).severity(), Severity::Low);
}

#[test]
fn network_metrics_validation_order() {
    assert_eq!(
        metrics(Vec::new(), Vec::new()).validate(),
        Err("No network interfaces found".to_string())
    );
    assert_eq!(
        metrics(vec![interface("eth0", "aa"), interface("", "bb")], Vec::new()).validate(),
        Err("Interface name cannot be empty".to_string())
    );
    assert_eq!(
        metrics(vec![interface("eth0", "")], vec![connection(0)]).validate(),
        Err("MAC address cannot be empty for interface eth0".to_string())
    );
    assert_eq!(
        metrics(vec![interface("eth0", "aa")], vec![connection(1), connection(0)]).validate(),
        Err("Local port cannot be 0".to_string())
    );
    let mut no_protocol = connection(1);
    no_protocol.protocol = String::new();
    assert_eq!(
        metrics(vec![interface("eth0", "aa")], vec![no_protocol]).validate(),
        Err("Protocol cannot be empty".to_string())
    );
    let mut no_state = connection(1);
    no_state.state = String::new();
    assert_eq!(
        metrics(vec![interface("eth0", "aa")], vec![no_state]).validate(),
        Err("Connection state cannot be empty".to_string())
    );
    let sound = metrics(vec![interface("eth0", "aa")], vec![connection(1)]);
    assert!(sound.is_valid());
    assert_eq!(sound.event_type(), "network_metrics");
    assert_eq!(sound.id(), "n");
    assert_eq!(sound.category(), "network");
    assert_eq!(sound.source(), "host");
    assert_eq!(sound.timestamp(), at(3));
}

#[test]
fn network_builder_requires_every_field() {
    let b = NetworkMetricsBuilder::new;
    assert_eq!(b().build().err(), Some("id is required".to_string()));
    assert_eq!(b().id("i".to_string()).build().err(), Some("timestamp is required".to_string()));
    assert_eq!(
        b().id("i".to_string()).timestamp(at(1)).build().err(),
        Some("source is required".to_string())
    );
    assert_eq!(
        b().id("i".to_string()).timestamp(at(1)).source("s".to_string()).build().err(),
        Some("category is required".to_string())
    );
    let base = || {
        b().id("i".to_string())
            .timestamp(at(1))
            .source("s".to_string())
            .category("network".to_string())
    };
    assert_eq!(base().build().err(), Some("interfaces are required".to_string()));
    assert_eq!(
        base().interfaces(vec![interface("e", "m")]).build().err(),
        Some("connections are required".to_string())
    );
    assert_eq!(
        base().interfaces(Vec::new()).connections(Vec::new()).build().err(),
        Some("No network interfaces found".to_string())
    );
    let built =
        base().interfaces(vec![interface("e", "m")]).connections(vec![connection(9)]).build();
    let built = built.unwrap();
    assert_eq!(built.id, "i");
    assert_eq!(built.interfaces.len(), 1);
    assert_eq!(built.connections[0].local_port, 9);
    assert_eq!(NetworkMetricsBuilder::default().build().err(), Some("id is required".to_string()));
}

#[test]
fn connection_line_is_parsed() {
    let c = parse_connection("  TCP    192.168.1.5:49712    52.1.2.3:443    ESTABLISHED    4312")
        .unwrap();
    assert_eq!(c.protocol, "TCP");
    assert_eq!(c.local_address, "192.168.1.5");
    assert_eq!(c.local_port, 49712);
    assert_eq!(c.remote_address, "52.1.2.3");
    assert_eq!(c.remote_port, 443);
    assert_eq!(c.state, "ESTABLISHED");
    assert_eq!(c.process_id, Some(4312));
}

#[test]
fn connection_line_with_ipv6_and_odd_pid() {
    let c = parse_connection("TCP [::1]:445 [fe80::1%3]:5000 TIME_WAIT x").unwrap();
    assert_eq!(c.local_address, "[::1]");
    assert_eq!(c.local_port, 445);
    assert_eq!(c.remote_address, "[fe80::1%3]");
    assert_eq!(c.remote_port, 5000);
    assert_eq!(c.process_id, None);
}

#[test]
fn connection_line_is_refused() {
    assert!(parse_connection("TCP 1.2.3.4:80 5.6.7.8:443 ESTABLISHED").is_none());
    assert!(parse_connection("UDP 0.0.0.0:123 *:* 44 55").is_none());
    assert!(parse_connection("TCP 1.2.3.4 5.6.7.8:443 ESTABLISHED 1").is_none());
    assert!(parse_connection("TCP 1.2.3.4:99999 5.6.7.8:443 ESTABLISHED 1").is_none());
    assert!(parse_connection("").is_none());
}

#[test]
fn connection_table_skips_header() {
    let table = "\r\nActive Connections\r\n\r\n  Proto  Local Address  Foreign Address  State  PID\r\n  TCP  10.0.0.2:5000  10.0.0.3:80  ESTABLISHED  77\r\n  garbage line\r\n  TCP  10.0.0.2:5001  10.0.0.4:443  CLOSE_WAIT  78\r\n";
    let connections = parse_connections(table);
    assert_eq!(connections.len(), 2);
    assert_eq!(connections[0].local_port, 5000);
    assert_eq!(connections[0].process_id, Some(77));
    assert_eq!(connections[1].remote_address, "10.0.0.4");
    assert_eq!(connections[1].state, "CLOSE_WAIT");
    let in_header = "TCP 1.1.1.1:1 2.2.2.2:2 LISTEN 1\na\nb\nc\n";
    assert_eq!(parse_connections(in_header).len(), 0);
    assert_eq!(parse_connections("").len(), 0);
    let collector = NetworkCollector::new("h".to_string());
    assert_eq!(collector.collect_connections(table).unwrap().len(), 2);
}

const ADDRESS_LISTING: &str = "Windows IP Configuration\r\n   IPv4 Address. . . : 9.9.9.9\r\n\r\nEthernet adapter Ethernet:\r\n\r\n   Link-local IPv6 Address . . . . . : fe80::1c2b%12\r\n   IPv4 Address. . . . . . . . . . . : 192.168.1.5\r\n   Subnet Mask . . . . . . . . . . . : 255.255.255.0\r\n\r\nWireless LAN adapter Wi-Fi:\r\n   IPv4 Address. . . : 10.0.0.7\r\n   IPv4 Address. . . : 10.0.0.8\r\n";

#[test]
fn address_sections_are_parsed() {
    let sections = parse_address_sections(ADDRESS_LISTING);
    assert_eq!(sections.len(), 2);
    assert_eq!(sections[0].name, "Ethernet adapter Ethernet");
    assert_eq!(sections[0].ipv4_addresses, vec!["192.168.1.5".to_string()]);
    assert_eq!(sections[0].ipv6_addresses, vec!["fe80".to_string()]);
    assert_eq!(sections[1].name, "Wireless LAN adapter Wi-Fi");
    assert_eq!(sections[1].ipv4_addresses, vec!["10.0.0.7".to_string(), "10.0.0.8".to_string()]);
    assert_eq!(sections[1].ipv6_addresses, Vec::<String>::new());
    assert_eq!(parse_address_sections("").len(), 0);
}

#[test]
fn addresses_go_to_first_interface_containing_section_name() {
    let sections = vec![
        AddressSection {
            name: "eth".to_string(),
            ipv4_addresses: vec!["1.1.1.1".to_string()],
            ipv6_addresses: vec!["::1".to_string()],
        },
        AddressSection {
            name: "nothing".to_string(),
            ipv4_addresses: vec!["2.2.2.2".to_string()],
            ipv6_addresses: Vec::new(),
        },
        AddressSection {
            name: "wlan0".to_string(),
            ipv4_addresses: Vec::new(),
            ipv6_addresses: vec!["fe80".to_string()],
        },
    ];
    let interfaces = vec![interface("lo", "00"), interface("eth0", "aa"), interface("eth1", "bb"), interface("wlan0", "cc")];
    let assigned = assign_addresses(interfaces, &sections);
    assert_eq!(assigned.len(), 4);
    assert_eq!(assigned[0].ipv4_addresses, Vec::<String>::new());
    assert_eq!(assigned[1].ipv4_addresses, vec!["1.1.1.1".to_string()]);
    assert_eq!(assigned[1].ipv6_addresses, vec!["::1".to_string()]);
    assert_eq!(assigned[1].mac_address, "aa");
    assert_eq!(assigned[1].received_bytes, 10);
    assert_eq!(assigned[2].ipv4_addresses, Vec::<String>::new());
    assert_eq!(assigned[3].ipv6_addresses, vec!["fe80".to_string()]);
}

#[test]
fn later_section_replaces_earlier_addresses() {
    let sections = vec![
        AddressSection {
            name: "eth0".to_string(),
            ipv4_addresses: vec!["1.1.1.1".to_string()],
            ipv6_addresses: Vec::new(),
        },
        AddressSection {
            name: "eth0".to_string(),
            ipv4_addresses: Vec::new(),
            ipv6_addresses: vec!["::2".to_string()],
        },
    ];
    let assigned = assign_addresses(vec![interface("eth0", "aa")], &sections);
    assert_eq!(assigned[0].ipv4_addresses, Vec::<String>::new());
    assert_eq!(assigned[0].ipv6_addresses, vec!["::2".to_string()]);
}

#[test]
fn network_collector_builds_snapshot() {
    let collector = NetworkCollector::new("host-n".to_string());
    let interfaces = collector
        .collect_interface_info(vec![interface("Ethernet adapter Ethernet 2", "aa")], ADDRESS_LISTING)
        .unwrap();
    assert_eq!(interfaces[0].ipv4_addresses, vec!["192.168.1.5".to_string()]);
    let snapshot = collector.collect(interfaces, vec![connection(80)]).unwrap();
    assert_eq!(snapshot.source, "host-n");
    assert_eq!(snapshot.category, "network");
    assert_eq!(snapshot.id.chars().count(), 36);
    assert_eq!(snapshot.interfaces.len(), 1);
    assert_eq!(snapshot.connections.len(), 1);
    let refused = collector.collect(Vec::new(), Vec::new());
    assert!(matches!(
        refused,
        Err(CollectionError::Parse(ref m)) if m == "No network interfaces found"
    ));
    assert!(collector.validate().is_ok());
    assert!(collector.internal_validate().is_ok());
    assert!(collector.health_check());
}

fn service(status: &str) -> ServiceInformation {
    ServiceInformationBuilder::new()
        .id("s".to_string())
        .timestamp(at(4))
        .source("host".to_string())
        .category("service".to_string())
        .name("ssh".to_string())
        .display_name("OpenSSH".to_string())
        .status(status.to_string())
        .startup_type("Automatic".to_string())
        .build()
        .unwrap()
}

#[test]
fn service_severity_by_status() {
    assert_eq!(service("Stopped").severity(), Severity::High);
    assert_eq!(service("Starting").severity(), Severity::Medium);
    assert_eq!(service("Stopping").severity(), Severity::Medium);
    assert_eq!(service("Running").severity(), Severity::Low);
    assert_eq!(service("stopped").severity(), Severity::Low);
    assert_eq!(service("Stopped").event_type(), "service_metrics");
    assert_eq!(service("Running").id(), "s");
    assert_eq!(service("Running").category(), "service");
    assert_eq!(service("Running").source(), "host");
    assert_eq!(service("Running").timestamp(), at(4));
}

#[test]
fn service_builder_required_fields_and_defaults() {
    let b = ServiceInformationBuilder::new;
    assert_eq!(b().build().err(), Some("timestamp is required".to_string()));
    assert_eq!(b().timestamp(at(1)).build().err(), Some("source is required".to_string()));
    assert_eq!(
        b().timestamp(at(1)).source("s".to_string()).build().err(),
        Some("category is required".to_string())
    );
    let base = || b().timestamp(at(1)).source("s".to_string()).category("c".to_string());
    assert_eq!(base().build().err(), Some("name is required".to_string()));
    assert_eq!(
        base().name("n".to_string()).build().err(),
        Some("display_name is required".to_string())
    );
    assert_eq!(
        base().name("n".to_string()).display_name("d".to_string()).build().err(),
        Some("status is required".to_string())
    );
    assert_eq!(
        base()
            .name("n".to_string())
            .display_name("d".to_string())
            .status("Running".to_string())
            .build()
            .err(),
        Some("startup_type is required".to_string())
    );
    let full = || {
        base()
            .name("n".to_string())
            .display_name("d".to_string())
            .status("Running".to_string())
            .startup_type("Manual".to_string())
    };
    let built = full().build().unwrap();
    assert_eq!(built.id.chars().count(), 36);
    assert_eq!(built.dependencies, Vec::<String>::new());
    assert_eq!(built.process_id, None);
    let given = full()
        .id("mine".to_string())
        .process_id(8)
        .dependencies(vec!["rpc".to_string()])
        .build_with("other".to_string())
        .unwrap();
    assert_eq!(given.id, "mine");
    assert_eq!(given.process_id, Some(8));
    assert_eq!(given.dependencies, vec!["rpc".to_string()]);
    assert_eq!(full().build_with("other".to_string()).unwrap().id, "other");
    assert_eq!(
        ServiceInformationBuilder::default().build().err(),
        Some("timestamp is required".to_string())
    );
}

#[test]
fn service_validation_messages() {
    let mut s = service("Running");
    assert!(s.is_valid());
    s.startup_type = String::new();
    assert_eq!(s.validate(), Err("Startup type cannot be empty".to_string()));
    s.status = String::new();
    assert_eq!(s.validate(), Err("Status cannot be empty".to_string()));
    s.display_name = String::new();
    assert_eq!(s.validate(), Err("Display name cannot be empty".to_string()));
    s.name = String::new();
    assert_eq!(s.validate(), Err("Service name cannot be empty".to_string()));
}

#[test]
fn listing_lines_are_recognized() {
    assert!(matches!(
        read_listing_line("SERVICE_NAME: Dhcp  "),
        ListingLine::ServiceName(ref n) if n == "Dhcp"
    ));
    assert!(matches!(
        read_listing_line("DISPLAY_NAME: DHCP Client"),
        ListingLine::DisplayName(ref n) if n == "DHCP Client"
    ));
    assert!(matches!(
        read_listing_line("        STATE              : 4  RUNNING "),
        ListingLine::State(ref n) if n == "RUNNING"
    ));
    assert!(matches!(read_listing_line("        TYPE               : 30  WIN32"), ListingLine::Other));
    assert!(matches!(read_listing_line(""), ListingLine::Other));
    assert!(matches!(read_listing_line("SERVICE_NAME:"), ListingLine::Other));
    assert!(matches!(
        read_listing_line("SERVICE_NAME:   "),
        ListingLine::ServiceName(ref n) if n.is_empty()
    ));
}

const SERVICE_LISTING: &str = "\r\nSERVICE_NAME: Dhcp\r\nDISPLAY_NAME: DHCP Client\r\n        TYPE               : 30  WIN32\r\n        STATE              : 4  RUNNING\r\n                                (STOPPABLE, NOT_PAUSABLE)\r\n\r\nSERVICE_NAME: Spooler\r\nDISPLAY_NAME: Print Spooler\r\n        STATE              : 1  STOPPED\r\n\r\nSERVICE_NAME: NoDisplay\r\n\r\nSERVICE_NAME: Last\r\nDISPLAY_NAME: The Last One\r\n";

#[test]
fn service_listing_is_read() {
    let collector = ServiceCollector::new("host-s".to_string());
    let services = collector.parse_service_listing(&SERVICE_LISTING.as_bytes().to_vec()).unwrap();
    assert_eq!(services.len(), 3);
    assert_eq!(services[0].name, "Dhcp");
    assert_eq!(services[0].display_name, "DHCP Client");
    assert_eq!(services[0].status, "RUNNING");
    assert_eq!(services[0].startup_type, "Unknown");
    assert_eq!(services[0].source, "host-s");
    assert_eq!(services[0].category, "service");
    assert_eq!(services[0].process_id, None);
    assert_eq!(services[0].dependencies, Vec::<String>::new());
    assert_eq!(services[0].id.chars().count(), 36);
    assert_eq!(services[1].name, "Spooler");
    assert_eq!(services[1].status, "STOPPED");
    assert_eq!(services[2].name, "Last");
    assert_eq!(services[2].display_name, "The Last One");
    assert_eq!(services[2].status, "Unknown");
}

#[test]
fn service_listing_decodes_gbk() {
    let mut bytes = b"SERVICE_NAME: Dhcp\r\nDISPLAY_NAME: ".to_vec();
    bytes.extend_from_slice(&[0xd6, 0xd0, 0xce, 0xc4]);
    bytes.extend_from_slice(b"\r\n");
    let collector = ServiceCollector::new("h".to_string());
    let services = collector.parse_service_listing(&bytes).unwrap();
    assert_eq!(services.len(), 1);
    assert_eq!(services[0].display_name, "中文");
}

#[test]
fn service_listing_fails_on_unnamed_service() {
    let collector = ServiceCollector::new("h".to_string());
    let orphan = b"DISPLAY_NAME: Nobody\r\nSERVICE_NAME: Later\r\nDISPLAY_NAME: Fine\r\n".to_vec();
    let r = collector.parse_service_listing(&orphan);
    assert!(matches!(r, Err(CollectionError::Parse(ref m)) if m == "Service name cannot be empty"));
}

#[test]
fn service_scan_steps() {
    let scan = ServiceScan::new();
    let scan = scan.step(ListingLine::State("RUNNING".to_string()), "h").unwrap();
    assert!(scan.current_service.is_none());
    let scan = scan.step(ListingLine::ServiceName("A".to_string()), "h").unwrap();
    assert_eq!(scan.current_name, "A");
    let scan = scan.step(ListingLine::DisplayName("Alpha".to_string()), "h").unwrap();
    assert_eq!(scan.current_service.as_ref().unwrap().status, "Unknown");
    let scan = scan.step(ListingLine::Other, "h").unwrap();
    let scan = scan.step(ListingLine::State("PAUSED".to_string()), "h").unwrap();
    assert_eq!(scan.current_service.as_ref().unwrap().status, "PAUSED");
    let scan = scan.step(ListingLine::DisplayName("Again".to_string()), "h").unwrap();
    assert_eq!(scan.services.len(), 0);
    let scan = scan.step(ListingLine::ServiceName("B".to_string()), "h").unwrap();
    assert_eq!(scan.services.len(), 1);
    assert_eq!(scan.services[0].display_name, "Again");
    assert!(scan.current_service.is_none());
    let failed = scan.step(ListingLine::DisplayName(String::new()), "h");
    assert!(matches!(
        failed,
        Err(CollectionError::Parse(ref m)) if m == "Display name cannot be empty"
    ));
}

#[test]
fn service_scan_finish_includes_open_service() {
    let scan = ServiceScan::new()
        .step(ListingLine::ServiceName("A".to_string()), "h")
        .unwrap()
        .step(ListingLine::DisplayName("Alpha".to_string()), "h")
        .unwrap();
    let services = scan.finish();
    assert_eq!(services.len(), 1);
    assert_eq!(services[0].name, "A");
    assert_eq!(ServiceScan::new().finish().len(), 0);
}

#[test]
fn describe_reports_first_empty_field() {
    let ok = describe("h", "n".to_string(), "d".to_string(), "s".to_string()).unwrap();
    assert_eq!(ok.startup_type, "Unknown");
    assert!(ok.is_valid());
    assert!(matches!(
        describe("h", String::new(), String::new(), String::new()),
        Err(CollectionError::Parse(ref m)) if m == "Service name cannot be empty"
    ));
    assert!(matches!(
        describe("h", "n".to_string(), "d".to_string(), String::new()),
        Err(CollectionError::Parse(ref m)) if m == "Status cannot be empty"
    ));
}

const UNIT_TABLE: &str = "  UNIT            LOAD   ACTIVE   SUB     DESCRIPTION\n  ssh.service     loaded active   running OpenBSD Secure Shell server\n  cron.service    loaded inactive dead    Regular background program\n  short line\n\n  dbus.socket     loaded active   listening D-Bus\n";

#[test]
fn unit_table_is_read() {
    let collector = ServiceCollector::new("host-u".to_string());
    let services = collector.parse_unit_table(&UNIT_TABLE.as_bytes().to_vec()).unwrap();
    assert_eq!(services.len(), 3);
    assert_eq!(services[0].name, "ssh");
    assert_eq!(services[0].display_name, "ssh");
    assert_eq!(services[0].status, "running");
    assert_eq!(services[1].name, "cron");
    assert_eq!(services[1].status, "dead");
    assert_eq!(services[2].name, "dbus.socket");
    assert_eq!(services[2].status, "listening");
    assert_eq!(services[2].source, "host-u");
}

#[test]
fn unit_table_edge_cases() {
    let collector = ServiceCollector::new("h".to_string());
    assert_eq!(collector.parse_unit_table(&vec![0xff, 0x00]).unwrap().len(), 0);
    assert_eq!(collector.parse_unit_table(&Vec::new()).unwrap().len(), 0);
    assert_eq!(collector.parse_unit_table(&b"a b c d\n".to_vec()).unwrap().len(), 0);
    let unnamed = b"header\n.service loaded active running\n".to_vec();
    assert!(matches!(
        collector.parse_unit_table(&unnamed),
        Err(CollectionError::Parse(ref m)) if m == "Service name cannot be empty"
    ));
}

#[test]
fn collect_services_by_platform() {
    let collector = ServiceCollector::new("h".to_string());
    let listing = SERVICE_LISTING.as_bytes().to_vec();
    let table = UNIT_TABLE.as_bytes().to_vec();
    assert_eq!(collector.collect_services(Platform::Windows, Some(&listing)).unwrap().len(), 3);
    assert_eq!(collector.collect_services(Platform::Linux, Some(&table)).unwrap().len(), 3);
    assert_eq!(collector.collect(Platform::Linux, Some(&table)).unwrap().len(), 3);
    assert_eq!(collector.collect_services(Platform::Other, Some(&table)).unwrap().len(), 0);
    assert_eq!(collector.collect_services(Platform::Windows, None).unwrap().len(), 0);
    assert_eq!(collector.collect(Platform::Linux, None).unwrap().len(), 0);
}

#[test]
fn service_collector_validation() {
    let collector = ServiceCollector::new("h".to_string());
    assert!(collector.validate(Platform::Linux, true).is_ok());
    assert!(collector.health_check(Platform::Windows, true));
    assert!(collector.health_check(Platform::Other, false));
    assert!(!collector.health_check(Platform::Linux, false));
    assert!(matches!(
        collector.internal_validate(Platform::Windows, false),
        Err(CollectionError::SystemApi(ref m)) if m == "sc command not found"
    ));
    assert!(matches!(
        collector.validate(Platform::Linux, false),
        Err(CollectionError::SystemApi(ref m)) if m == "systemctl command not found"
    ));
}

#[test]
fn memory_and_disk_validation() {
    let memory =
        MemoryInformation { total_memory: 8, used_memory: 8, total_swap: 2, used_swap: 0 };
    assert_eq!(memory.validate(), Ok(()));
    let over = MemoryInformation { total_memory: 8, used_memory: 9, total_swap: 2, used_swap: 3 };
    assert_eq!(over.validate(), Err("Used memory cannot exceed total memory".to_string()));
    let swap = MemoryInformation { total_memory: 8, used_memory: 1, total_swap: 2, used_swap: 3 };
    assert_eq!(swap.validate(), Err("Used swap cannot exceed total swap".to_string()));
    let disk = |name: &str, total: u64, available: u64| DiskInformation {
        name: name.to_string(),
        mount_point: "/".to_string(),
        total_space: total,
        available_space: available,
        file_system: "ext4".to_string(),
    };
    assert_eq!(disk("sda", 10, 10).validate(), Ok(()));
    assert_eq!(
        disk("sdb", 10, 11).validate(),
        Err("Available space cannot exceed total space for disk sdb".to_string())
    );
    assert_eq!(validate_disks(&vec![disk("a", 1, 1), disk("b", 1, 0)]), Ok(()));
    assert_eq!(
        validate_disks(&vec![disk("a", 1, 1), disk("b", 1, 2), disk("c", 1, 3)]),
        Err("Available space cannot exceed total space for disk b".to_string())
    );
    assert_eq!(validate_disks(&Vec::new()), Ok(()));
}

#[test]
fn other_error_messages() {
    assert_eq!(ProcessingError::InvalidFormat("x".to_string()).message(), "Invalid data format: x");
    assert_eq!(ProcessingError::Validation("x".to_string()).message(), "Data validation failed: x");
    assert_eq!(ProcessingError::Transform("x".to_string()).message(), "Transformation error: x");
    assert_eq!(StorageError::Database("x".to_string()).message(), "Database error: x");
    assert_eq!(StorageError::Connection("x".to_string()).message(), "Connection failed: x");
    assert_eq!(StorageError::Write("x".to_string()).message(), "Write operation failed: x");
    assert_eq!(StorageError::Read("x".to_string()).message(), "Read operation failed: x");
    assert_eq!(
        XdrError::Collection(CollectionError::RateLimit).message(),
        "Collection failed: Rate limit exceeded"
    );
    assert_eq!(
        XdrError::Processing(ProcessingError::Transform("t".to_string())).message(),
        "Processing failed: Transformation error: t"
    );
    assert_eq!(
        XdrError::Storage(StorageError::Read("r".to_string())).message(),
        "Storage failed: Read operation failed: r"
    );
    assert_eq!(CollectorError::ParseError("p".to_string()).message(), "Failed to parse output: p");
    assert_eq!(
        CollectorError::CommandError("c".to_string()).message(),
        "Command execution failed: c"
    );
    let io = std::io::Error::new(std::io::ErrorKind::NotFound, "gone");
    assert_eq!(CollectorError::IoError(io).message(), "IO error: gone");
}

#[test]
fn error_conversions() {
    let io = std::io::Error::new(std::io::ErrorKind::Other, "x");
    assert!(matches!(CollectionError::from(io), CollectionError::Io(_)));
    let io = std::io::Error::new(std::io::ErrorKind::Other, "x");
    assert!(matches!(CollectorError::from(io), CollectorError::IoError(_)));
    assert!(matches!(
        XdrError::from(CollectionError::RateLimit),
        XdrError::Collection(CollectionError::RateLimit)
    ));
    assert!(matches!(
        XdrError::from(ProcessingError::Validation("v".to_string())),
        XdrError::Processing(ProcessingError::Validation(_))
    ));
    assert!(matches!(
        XdrError::from(StorageError::Write("w".to_string())),
        XdrError::Storage(StorageError::Write(_))
    ));
}

#[test]
fn process_memory_severity_thresholds() {
    assert_eq!(memory_severity(1_000_000_001), Severity::High);
    assert_eq!(memory_severity(1_000_000_000), Severity::Medium);
    assert_eq!(memory_severity(500_000_001), Severity::Medium);
    assert_eq!(memory_severity(500_000_000), Severity::Low);
    assert_eq!(memory_severity(0), Severity::Low);
    assert_eq!(max_severity(Severity::Low, Severity::High), Severity::High);
    assert_eq!(max_severity(Severity::Critical, Severity::High), Severity::Critical);
    assert_eq!(max_severity(Severity::Medium, Severity::Low), Severity::Medium);
    assert_eq!(max_severity(Severity::Low, Severity::Low), Severity::Low);
    assert_eq!(max_severity(Severity::Medium, Severity::Critical), Severity::Critical);
}

#[test]
fn process_validation_rules() {
    assert_eq!(validate_identity(1, "init", false), Ok(()));
    assert_eq!(validate_identity(0, "idle", true), Ok(()));
    assert_eq!(validate_identity(0, "", false), Err("Process ID cannot be zero".to_string()));
    assert_eq!(validate_identity(0, "", true), Err("Process name cannot be empty".to_string()));
    assert_eq!(validate_usage(1, "Run", "root", "/sbin/init", 1), Ok(()));
    assert_eq!(
        validate_usage(0, "", "", "", 0),
        Err("Memory usage cannot be zero".to_string())
    );
    assert_eq!(
        validate_usage(1, "", "", "", 0),
        Err("Process status cannot be empty".to_string())
    );
    assert_eq!(validate_usage(1, "Run", "", "", 0), Err("User cannot be empty".to_string()));
    assert_eq!(validate_usage(1, "Run", "u", "", 0), Err("Command cannot be empty".to_string()));
    assert_eq!(
        validate_usage(1, "Run", "u", "c", 0),
        Err("Thread count cannot be zero".to_string())
    );
}
