//! The port registry: four tables, one per transport protocol, from port
//! number to the entry of the last row that names that slot.
use vstd::prelude::*;
use vstd::string::StringExecFns;
use std::collections::HashMap;
use crate::csv_source::{csv_table, read_csv_rows};
use crate::dataset::DEFAULT_CSV;
use crate::protocol::TransportProtocol;
use crate::record::{PortDescEntry, RowRecord};
use crate::table::{parse_entries, records_of, views};

verus! {

/// The prefix that the constructors put before a table builder's error.
pub const ERROR_PREFIX: &'static str = "Error: ";

/// The message that the table builder gives for a table it cannot read.
pub const PARSE_MESSAGE: &'static str = "CSV file cannot be parsed. Please try to download new one from here: https://www.iana.org/assignments/service-names-port-numbers/service-names-port-numbers.xhtml";

/// The tables for TCP, UDP, DCCP and SCTP, in that order.
pub type PortsHashMaps = (
    HashMap<u16, PortDescEntry>,
    HashMap<u16, PortDescEntry>,
    HashMap<u16, PortDescEntry>,
    HashMap<u16, PortDescEntry>,
);

/// The records of CSV text, or `None` where the text is refused.
pub open spec fn csv_records(text: Seq<char>) -> Option<Seq<RowRecord>> {
    match csv_table(text) {
        Some(rows) => records_of(rows),
        None => None,
    }
}

/// The table for protocol `p` built from records `rs`: each record that
/// names `p` and a port number is stored under that number, later records
/// replacing earlier ones.
pub open spec fn index_of(rs: Seq<RowRecord>, p: TransportProtocol) -> Map<u16, RowRecord>
    decreases rs.len(),
{
    if rs.len() == 0 {
        Map::empty()
    } else {
        let prev = index_of(rs.drop_last(), p);
        let r = rs.last();
        if r.transport_protocol == Some(p) && r.port_number is Some {
            prev.insert(r.port_number->0, r)
        } else {
            prev
        }
    }
}

/// The records that a table of entries holds.
pub open spec fn entries_view(m: Map<u16, PortDescEntry>) -> Map<u16, RowRecord> {
    Map::new(|k: u16| m.contains_key(k), |k: u16| m[k]@)
}

/// Every record in slot `(p, k)` names port `k` and protocol `p`.
pub open spec fn slots_consistent(t: Map<u16, RowRecord>, p: TransportProtocol) -> bool {
    forall|k: u16|
        #[trigger] t.contains_key(k) ==> t[k].port_number == Some(k) && t[k].transport_protocol
            == Some(p)
}

/// The table that `index_of` builds holds each record in its own slot.
pub proof fn lemma_index_slots_consistent(rs: Seq<RowRecord>, p: TransportProtocol)
    ensures
        slots_consistent(index_of(rs, p), p),
    decreases rs.len(),
{
    if rs.len() > 0 {
        lemma_index_slots_consistent(rs.drop_last(), p);
    }
}

/// Builds the table for protocol `p` from `records`.
pub fn get_ports(p: TransportProtocol, records: &Vec<PortDescEntry>) -> (r: HashMap<u16, PortDescEntry>)
    ensures
        entries_view(r@) == index_of(views(records@), p),
{
    let mut hmap: HashMap<u16, PortDescEntry> = HashMap::new();
    let ghost vs = views(records@);
    let mut i: usize = 0;
    assert(entries_view(hmap@) =~= index_of(vs.take(0), p));
    while i < records.len()
        invariant
            i <= records@.len(),
            vs == views(records@),
            entries_view(hmap@) == index_of(vs.take(i as int), p),
        decreases records@.len() - i,
    {
        let port = &records[i];
        assert(vs.take(i + 1).drop_last() =~= vs.take(i as int));
        assert(vs.take(i + 1).last() == port@);
        if let Some(pp) = port.transport_protocol {
            if pp == p {
                if let Some(pn) = port.port_number {
                    let ghost before = hmap@;
                    hmap.insert(pn, port.duplicate());
                    assert(entries_view(hmap@) =~= entries_view(before).insert(pn, port@));
                }
            }
        }
        i = i + 1;
    }
    assert(vs.take(i as int) =~= vs);
    hmap
}

/// The entry stored under `port_number` in `hashmap`, if any.
fn get_info<'a>(port_number: &u16, hashmap: &'a HashMap<u16, PortDescEntry>) -> (r: Option<&'a PortDescEntry>)
    ensures
        r is Some <==> hashmap@.contains_key(*port_number),
        r matches Some(e) ==> *e == hashmap@[*port_number],
{
    hashmap.get(port_number)
}

/// Reads CSV text into one entry per data row.
pub fn get_csv_deserialized(csv_text: &str) -> (r: Option<Vec<PortDescEntry>>)
    ensures
        match csv_records(csv_text@) {
            Some(rs) => r is Some && views(r->0@) == rs,
            None => r is None,
        },
{
    match read_csv_rows(csv_text) {
        Ok(rows) => parse_entries(&rows),
        Err(_) => None,
    }
}

/// Reads CSV text and builds the four tables from its entries.
pub fn store_to_hashmaps(csv_text: &str) -> (r: Result<PortsHashMaps, String>)
    ensures
        match csv_records(csv_text@) {
            Some(rs) => r matches Ok(m) && entries_view(m.0@) == index_of(rs, TransportProtocol::Tcp)
                && entries_view(m.1@) == index_of(rs, TransportProtocol::Udp)
                && entries_view(m.2@) == index_of(rs, TransportProtocol::Dccp)
                && entries_view(m.3@) == index_of(rs, TransportProtocol::Sctp),
            None => r matches Err(e) && e@ == PARSE_MESSAGE@,
        },
{
    let records = match get_csv_deserialized(csv_text) {
        Some(p) => p,
        None => {
            return Err(PARSE_MESSAGE.to_string());
        },
    };
    let tcp_entries = get_ports(TransportProtocol::Tcp, &records);
    let udp_entries = get_ports(TransportProtocol::Udp, &records);
    let dccp_entries = get_ports(TransportProtocol::Dccp, &records);
    let sctp_entries = get_ports(TransportProtocol::Sctp, &records);
    Ok((tcp_entries, udp_entries, dccp_entries, sctp_entries))
}

/// A registry of port entries, one table per transport protocol.
#[derive(Debug)]
pub struct PortDescription {
    tcp_entries: HashMap<u16, PortDescEntry>,
    udp_entries: HashMap<u16, PortDescEntry>,
    dccp_entries: HashMap<u16, PortDescEntry>,
    sctp_entries: HashMap<u16, PortDescEntry>,
}

impl PortDescription {
    /// The table for protocol `p`, as records.
    pub closed spec fn table(&self, p: TransportProtocol) -> Map<u16, RowRecord> {
        match p {
            TransportProtocol::Tcp => entries_view(self.tcp_entries@),
            TransportProtocol::Udp => entries_view(self.udp_entries@),
            TransportProtocol::Dccp => entries_view(self.dccp_entries@),
            TransportProtocol::Sctp => entries_view(self.sctp_entries@),
        }
    }

    #[verifier::type_invariant]
    spec fn inv(&self) -> bool {
        forall|p: TransportProtocol| slots_consistent(#[trigger] self.table(p), p)
    }

    /// This registry holds, for each protocol, the table that `rs` gives.
    pub open spec fn indexes(&self, rs: Seq<RowRecord>) -> bool {
        forall|p: TransportProtocol| #[trigger] self.table(p) == index_of(rs, p)
    }

    /// This registry is the one that CSV text `text` gives.
    pub open spec fn built_from(&self, text: Seq<char>) -> bool {
        csv_records(text) matches Some(rs) && self.indexes(rs)
    }

    fn from_maps(m: PortsHashMaps, Ghost(rs): Ghost<Seq<RowRecord>>) -> (r: Self)
        requires
            entries_view(m.0@) == index_of(rs, TransportProtocol::Tcp),
            entries_view(m.1@) == index_of(rs, TransportProtocol::Udp),
            entries_view(m.2@) == index_of(rs, TransportProtocol::Dccp),
            entries_view(m.3@) == index_of(rs, TransportProtocol::Sctp),
        ensures
            r.indexes(rs),
    {
        proof {
            lemma_index_slots_consistent(rs, TransportProtocol::Tcp);
            lemma_index_slots_consistent(rs, TransportProtocol::Udp);
            lemma_index_slots_consistent(rs, TransportProtocol::Dccp);
            lemma_index_slots_consistent(rs, TransportProtocol::Sctp);
        }
        let r = Self { tcp_entries: m.0, udp_entries: m.1, dccp_entries: m.2, sctp_entries: m.3 };
        assert forall|p: TransportProtocol| #[trigger] r.table(p) == index_of(rs, p) by {
            match p {
                TransportProtocol::Tcp => {},
                TransportProtocol::Udp => {},
                TransportProtocol::Dccp => {},
                TransportProtocol::Sctp => {},
            }
        }
        r
    }

    /// Builds a registry from entries already read: for each protocol, the
    /// entries that name it and a port number, the last one for a port
    /// winning.
    pub fn from_entries(entries: &Vec<PortDescEntry>) -> (r: Self)
        ensures
            r.indexes(views(entries@)),
    {
        let tcp_entries = get_ports(TransportProtocol::Tcp, entries);
        let udp_entries = get_ports(TransportProtocol::Udp, entries);
        let dccp_entries = get_ports(TransportProtocol::Dccp, entries);
        let sctp_entries = get_ports(TransportProtocol::Sctp, entries);
        Self::from_maps((tcp_entries, udp_entries, dccp_entries, sctp_entries), Ghost(views(entries@)))
    }

    /// Builds a registry from CSV text. Fails, with `PARSE_MESSAGE` after
    /// `ERROR_PREFIX`, exactly where the text is refused: the csv crate
    /// rejects it, it has no header row, the header lacks one of the four
    /// named columns or names one twice, or a row's
    /// length differs from the header's.
    pub fn from_csv_text(csv_text: &str) -> (r: Result<Self, String>)
        ensures
            csv_records(csv_text@) is Some <==> r is Ok,
            r matches Ok(reg) ==> reg.built_from(csv_text@),
            r matches Err(e) ==> e@ == ERROR_PREFIX@ + PARSE_MESSAGE@,
    {
        match store_to_hashmaps(csv_text) {
            Ok(e) => Ok(Self::from_maps(e, Ghost(csv_records(csv_text@)->0))),
            Err(e) => Err(ERROR_PREFIX.to_string().concat(e.as_str())),
        }
    }

    /// Builds a registry from the bundled table `DEFAULT_CSV`.
    pub fn default() -> (r: Result<Self, String>)
        ensures
            csv_records(DEFAULT_CSV@) is Some <==> r is Ok,
            r matches Ok(reg) ==> reg.built_from(DEFAULT_CSV@),
            r matches Err(e) ==> e@ == ERROR_PREFIX@ + PARSE_MESSAGE@,
    {
        Self::from_csv_text(DEFAULT_CSV)
    }

    /// The entry for port `port_number` under `transport_protocol`, if the
    /// registry holds one.
    pub fn get_port_info(&self, port_number: u16, transport_protocol: TransportProtocol) -> (r: Option<&PortDescEntry>)
        ensures
            r is Some <==> self.table(transport_protocol).contains_key(port_number),
            r matches Some(e) ==> e@ == self.table(transport_protocol)[port_number]
                && e.port_number == Some(port_number)
                && e.transport_protocol == Some(transport_protocol),
    {
        proof { use_type_invariant(self); }
        assert(slots_consistent(self.table(transport_protocol), transport_protocol));
        match transport_protocol {
            TransportProtocol::Tcp => get_info(&port_number, &self.tcp_entries),
            TransportProtocol::Udp => get_info(&port_number, &self.udp_entries),
            TransportProtocol::Dccp => get_info(&port_number, &self.dccp_entries),
            TransportProtocol::Sctp => get_info(&port_number, &self.sctp_entries),
        }
    }

    /// The service name of the entry for the slot, or `""` where the
    /// registry holds none.
    pub fn get_port_service_name(&self, port_number: u16, transport_protocol: TransportProtocol) -> (r: &str)
        ensures
            r@ == (if self.table(transport_protocol).contains_key(port_number) {
                self.table(transport_protocol)[port_number].service_name
            } else {
                Seq::empty()
            }),
    {
        proof { reveal_strlit(""); }
        let mut service_name: &str = "";
        if let Some(p) = self.get_port_info(port_number, transport_protocol) {
            service_name = p.service_name.as_str();
        }
        service_name
    }

    /// The description of the entry for the slot, or `""` where the
    /// registry holds none.
    pub fn get_port_description(&self, port_number: u16, transport_protocol: TransportProtocol) -> (r: &str)
        ensures
            r@ == (if self.table(transport_protocol).contains_key(port_number) {
                self.table(transport_protocol)[port_number].description
            } else {
                Seq::empty()
            }),
    {
        proof { reveal_strlit(""); }
        let mut desc: &str = "";
        if let Some(p) = self.get_port_info(port_number, transport_protocol) {
            desc = p.description.as_str();
        }
        desc
    }
}

} // verus!
