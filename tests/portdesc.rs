use port_desc::record::parse_port;
use port_desc::registry::{get_ports, store_to_hashmaps, ERROR_PREFIX, PARSE_MESSAGE};
use port_desc::table::parse_entries;
use port_desc::{PortDescEntry, PortDescription, TransportProtocol};

const HEADER: &str = "Service Name,Port Number,Transport Protocol,Description\n";

fn build(body: &str) -> Result<PortDescription, String> {
    let text = format!("{}{}", HEADER, body);
    PortDescription::from_csv_text(&text)
}

fn row(cells: &[&str]) -> Vec<String> {
    cells.iter().map(|c| c.to_string()).collect()
}

#[test]
fn test_default() {
    let port_desc = PortDescription::default();
    assert!(port_desc.is_ok());
}

#[test]
fn default_port_80_tcp_is_www_http() {
    let p = PortDescription::default().unwrap();
    assert_eq!(p.get_port_service_name(80, TransportProtocol::Tcp), "www-http");
    assert_eq!(p.get_port_description(80, TransportProtocol::Tcp), "World Wide Web HTTP");
    assert_eq!(p.get_port_service_name(80, TransportProtocol::Sctp), "http");
    assert_eq!(p.get_port_service_name(9, TransportProtocol::Dccp), "discard");
    assert_eq!(p.get_port_service_name(443, TransportProtocol::Udp), "https");
}

#[test]
fn default_entries_sit_in_their_own_slot() {
    let p = PortDescription::default().unwrap();
    let protocols = [
        TransportProtocol::Tcp,
        TransportProtocol::Udp,
        TransportProtocol::Sctp,
        TransportProtocol::Dccp,
    ];
    let mut found: usize = 0;
    for port in 0..=u16::MAX {
        for proto in protocols {
            if let Some(e) = p.get_port_info(port, proto) {
                assert_eq!(e.port_number, Some(port));
                assert_eq!(e.transport_protocol, Some(proto));
                found += 1;
            }
        }
    }
    assert!(found > 40);
}

#[test]
fn absent_slot_gives_none_and_empty_text() {
    let p = PortDescription::default().unwrap();
    assert!(p.get_port_info(9999, TransportProtocol::Tcp).is_none());
    assert_eq!(p.get_port_service_name(9999, TransportProtocol::Tcp), "");
    assert_eq!(p.get_port_description(9999, TransportProtocol::Tcp), "");
    assert!(p.get_port_info(22, TransportProtocol::Dccp).is_none());
    assert!(p.get_port_info(49152, TransportProtocol::Tcp).is_none());
}

#[test]
fn later_row_wins_a_slot() {
    let p = build("first,80,tcp,one\nsecond,80,tcp,two\nother,80,udp,three\n").unwrap();
    assert_eq!(p.get_port_service_name(80, TransportProtocol::Tcp), "second");
    assert_eq!(p.get_port_description(80, TransportProtocol::Tcp), "two");
    assert_eq!(p.get_port_service_name(80, TransportProtocol::Udp), "other");
}

#[test]
fn unreadable_port_cells_are_tolerated() {
    let p = build("blank,,tcp,no port\nword,abc,tcp,text port\nrange,8000-8080,tcp,a range\nbig,70000,tcp,too big\nok,7,tcp,fine\n").unwrap();
    assert_eq!(p.get_port_service_name(7, TransportProtocol::Tcp), "ok");
    assert!(p.get_port_info(0, TransportProtocol::Tcp).is_none());
    assert!(p.get_port_info(8000, TransportProtocol::Tcp).is_none());
    assert!(p.get_port_info(4464, TransportProtocol::Tcp).is_none());
}

#[test]
fn unknown_protocol_is_tolerated() {
    let p = build("x,5,icmp,unknown\ny,5,,none\nz,5,UDP,upper\n").unwrap();
    assert!(p.get_port_info(5, TransportProtocol::Tcp).is_none());
    assert_eq!(p.get_port_service_name(5, TransportProtocol::Udp), "z");
}

#[test]
fn missing_header_column_fails() {
    let r = PortDescription::from_csv_text("Service Name,Port Number,Description\nhttp,80,web\n");
    assert_eq!(r.unwrap_err(), format!("{}{}", ERROR_PREFIX, PARSE_MESSAGE));
    let r = PortDescription::from_csv_text("Service Name,Port Number,Transport Protocol\nhttp,80,tcp\n");
    assert!(r.is_err());
    let r = PortDescription::from_csv_text("");
    assert!(r.is_err());
}

#[test]
fn wrong_column_count_fails() {
    let r = build("http,80,tcp,web,extra\n");
    assert_eq!(r.unwrap_err(), format!("{}{}", ERROR_PREFIX, PARSE_MESSAGE));
}

#[test]
fn columns_found_by_name_in_any_order() {
    let text = "Description,Extra,Transport Protocol,Port Number,Service Name\n\"web, world\",x,TCP,8080,http-alt\n";
    let p = PortDescription::from_csv_text(text).unwrap();
    assert_eq!(p.get_port_service_name(8080, TransportProtocol::Tcp), "http-alt");
    assert_eq!(p.get_port_description(8080, TransportProtocol::Tcp), "web, world");
}

#[test]
fn same_text_twice_gives_same_lookups() {
    let body = "a,1,tcp,x\nb,1,tcp,y\nc,2,sctp,z\n";
    let p = build(body).unwrap();
    let q = build(body).unwrap();
    for port in 0..4u16 {
        for proto in [TransportProtocol::Tcp, TransportProtocol::Udp, TransportProtocol::Sctp, TransportProtocol::Dccp] {
            let a = p.get_port_info(port, proto).map(|e| (e.service_name.clone(), e.description.clone()));
            let b = q.get_port_info(port, proto).map(|e| (e.service_name.clone(), e.description.clone()));
            assert_eq!(a, b);
        }
    }
}

#[test]
fn port_cells_parse_exactly() {
    assert_eq!(parse_port("80"), Some(80));
    assert_eq!(parse_port("0"), Some(0));
    assert_eq!(parse_port("65535"), Some(65535));
    assert_eq!(parse_port("65536"), None);
    assert_eq!(parse_port("0x50"), Some(80));
    assert_eq!(parse_port("0xFFFF"), Some(65535));
    assert_eq!(parse_port("+7"), Some(7));
    assert_eq!(parse_port("+"), None);
    assert_eq!(parse_port(""), None);
    assert_eq!(parse_port(" 80"), None);
    assert_eq!(parse_port("-1"), None);
    assert_eq!(parse_port("8000-8080"), None);
    assert_eq!(parse_port("0x"), None);
}

#[test]
fn protocol_names_match_ignoring_case() {
    assert_eq!(TransportProtocol::from_name("tcp"), Some(TransportProtocol::Tcp));
    assert_eq!(TransportProtocol::from_name("UDP"), Some(TransportProtocol::Udp));
    assert_eq!(TransportProtocol::from_name("Sctp"), Some(TransportProtocol::Sctp));
    assert_eq!(TransportProtocol::from_name("dCcP"), Some(TransportProtocol::Dccp));
    assert_eq!(TransportProtocol::from_name("icmp"), None);
    assert_eq!(TransportProtocol::from_name(""), None);
    assert_eq!(TransportProtocol::from_name("tcp "), None);
}

#[test]
fn entries_read_from_rows() {
    let rows = vec![
        row(&["Port Number", "Service Name", "Description", "Transport Protocol"]),
        row(&["22", "ssh", "Secure Shell", "tcp"]),
        row(&["", "", "Reserved", "udp"]),
        row(&["53", "domain", "DNS", "quic"]),
    ];
    let es = parse_entries(&rows).unwrap();
    assert_eq!(es.len(), 3);
    assert_eq!(es[0].service_name, "ssh");
    assert_eq!(es[0].port_number, Some(22));
    assert_eq!(es[0].transport_protocol, Some(TransportProtocol::Tcp));
    assert_eq!(es[0].description, "Secure Shell");
    assert_eq!(es[1].port_number, None);
    assert_eq!(es[1].transport_protocol, Some(TransportProtocol::Udp));
    assert_eq!(es[2].port_number, Some(53));
    assert_eq!(es[2].transport_protocol, None);
    let short = vec![row(&["Service Name", "Port Number", "Transport Protocol", "Description"]), row(&["a", "1"])];
    assert!(parse_entries(&short).is_none());
    assert!(parse_entries(&Vec::new()).is_none());
}

#[test]
fn registry_from_entries_keeps_last() {
    let mk = |name: &str, port: Option<u16>, proto: Option<TransportProtocol>| PortDescEntry {
        service_name: name.to_string(),
        port_number: port,
        transport_protocol: proto,
        description: String::new(),
    };
    let es = vec![
        mk("a", Some(1), Some(TransportProtocol::Dccp)),
        mk("b", Some(1), Some(TransportProtocol::Dccp)),
        mk("c", None, Some(TransportProtocol::Dccp)),
        mk("d", Some(2), None),
    ];
    let p = PortDescription::from_entries(&es);
    assert_eq!(p.get_port_service_name(1, TransportProtocol::Dccp), "b");
    assert!(p.get_port_info(2, TransportProtocol::Dccp).is_none());
    assert!(p.get_port_info(2, TransportProtocol::Tcp).is_none());
}

#[test]
fn parse_failure_message_and_prefix() {
    let e = PortDescription::from_csv_text("Service Name,Port Number,Transport Protocol\nhttp,80,tcp\n").unwrap_err();
    assert!(e.starts_with("Error: CSV file cannot be parsed"));
    let m = store_to_hashmaps("Service Name,Port Number,Transport Protocol\nhttp,80,tcp\n").unwrap_err();
    assert!(m.starts_with("CSV file cannot be parsed"));
    assert_eq!(e, format!("Error: {}", m));
}

#[test]
fn repeated_header_column_fails() {
    let r = PortDescription::from_csv_text("Service Name,Port Number,Transport Protocol,Description,Port Number\nhttp,80,tcp,web,81\n");
    assert!(r.is_err());
}

#[test]
fn table_builder_keeps_later_row() {
    let maps = store_to_hashmaps("Service Name,Port Number,Transport Protocol,Description\na,9,sctp,x\nb,9,sctp,y\nc,,sctp,z\n").unwrap();
    assert_eq!(maps.3.len(), 1);
    assert_eq!(maps.3[&9].service_name, "b");
    assert!(maps.0.is_empty() && maps.1.is_empty() && maps.2.is_empty());
    let es = vec![
        PortDescEntry { service_name: "first".to_string(), port_number: Some(3), transport_protocol: Some(TransportProtocol::Udp), description: String::new() },
        PortDescEntry { service_name: "second".to_string(), port_number: Some(3), transport_protocol: Some(TransportProtocol::Udp), description: String::new() },
    ];
    let m = get_ports(TransportProtocol::Udp, &es);
    assert_eq!(m[&3].service_name, "second");
    assert!(get_ports(TransportProtocol::Tcp, &es).is_empty());
}
