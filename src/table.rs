//! Reading a table of CSV fields into row records: columns are found by
//! their header names, and cells that give no port number or no protocol
//! are read as absent rather than failing.
use vstd::prelude::*;
use crate::protocol::{protocol_of, TransportProtocol};
use crate::record::{port_of, parse_port, PortDescEntry, RowRecord};

verus! {

pub open spec fn service_name_header() -> Seq<char> {
    "Service Name"@
}

pub open spec fn port_number_header() -> Seq<char> {
    "Port Number"@
}

pub open spec fn transport_protocol_header() -> Seq<char> {
    "Transport Protocol"@
}

pub open spec fn description_header() -> Seq<char> {
    "Description"@
}

/// The position of the first cell of `h` equal to `name`.
pub open spec fn first_index(h: Seq<Seq<char>>, name: Seq<char>) -> Option<int>
    decreases h.len(),
{
    if h.len() == 0 {
        None
    } else {
        match first_index(h.drop_last(), name) {
            Some(i) => Some(i),
            None => if h.last() == name { Some(h.len() - 1) } else { None },
        }
    }
}

/// The position of the header cell named `name`, where exactly one is.
pub open spec fn column_of(h: Seq<Seq<char>>, name: Seq<char>) -> Option<int> {
    match first_index(h, name) {
        Some(i) => if forall|j: int| i < j < h.len() ==> h[j] != name { Some(i) } else { None },
        None => None,
    }
}

/// The record that a data row gives, with the four columns at the given
/// positions.
pub open spec fn record_of(row: Seq<Seq<char>>, s: int, n: int, t: int, d: int) -> RowRecord {
    RowRecord {
        service_name: row[s],
        port_number: port_of(row[n]),
        transport_protocol: protocol_of(row[t]),
        description: row[d],
    }
}

/// The records of a table whose first row is the header: one per data row,
/// in order. `None` where there is no header row, the header lacks one of
/// the four named columns or names one twice, or a data row's length differs from the header's.
pub open spec fn records_of(rows: Seq<Seq<Seq<char>>>) -> Option<Seq<RowRecord>> {
    if rows.len() == 0 {
        None
    } else {
        let h = rows[0];
        match (
            column_of(h, service_name_header()),
            column_of(h, port_number_header()),
            column_of(h, transport_protocol_header()),
            column_of(h, description_header()),
        ) {
            (Some(s), Some(n), Some(t), Some(d)) => {
                if forall|i: int| 1 <= i < rows.len() ==> #[trigger] rows[i].len() == h.len() {
                    Some(Seq::new((rows.len() - 1) as nat, |i: int| record_of(rows[i + 1], s, n, t, d)))
                } else {
                    None
                }
            },
            _ => None,
        }
    }
}

/// The records that a sequence of entries holds.
pub open spec fn views(s: Seq<PortDescEntry>) -> Seq<RowRecord> {
    Seq::new(s.len(), |i: int| s[i]@)
}

fn same_text(a: &str, b: &str) -> (r: bool)
    ensures
        r == (a@ == b@),
{
    let n = a.unicode_len();
    if n != b.unicode_len() {
        return false;
    }
    let mut i: usize = 0;
    while i < n
        invariant
            n == a@.len(),
            n == b@.len(),
            i <= n,
            forall|j: int| 0 <= j < i ==> a@[j] == b@[j],
        decreases n - i,
    {
        if a.get_char(i) != b.get_char(i) {
            return false;
        }
        i = i + 1;
    }
    assert(a@ =~= b@);
    true
}

/// The position of the header cell named `name`, where exactly one is.
fn column_index(header: &Vec<String>, name: &str) -> (r: Option<usize>)
    ensures
        r is Some <==> column_of(Seq::new(header@.len(), |j: int| header@[j]@), name@) is Some,
        r matches Some(c) ==> c < header@.len()
            && column_of(Seq::new(header@.len(), |j: int| header@[j]@), name@) == Some(c as int),
{
    let ghost h = Seq::new(header@.len(), |j: int| header@[j]@);
    let mut i: usize = 0;
    while i < header.len()
        invariant
            i <= header@.len(),
            h == Seq::new(header@.len(), |j: int| header@[j]@),
            first_index(h.take(i as int), name@) is None,
        decreases header@.len() - i,
    {
        assert(h.take(i + 1).drop_last() =~= h.take(i as int));
        if same_text(header[i].as_str(), name) {
            proof { lemma_first_index_extends(h, name@, i as int + 1); }
            let mut j: usize = i + 1;
            while j < header.len()
                invariant
                    i < j <= header@.len(),
                    h == Seq::new(header@.len(), |k: int| header@[k]@),
                    first_index(h, name@) == Some(i as int),
                    forall|k: int| i < k < j ==> h[k] != name@,
                decreases header@.len() - j,
            {
                if same_text(header[j].as_str(), name) {
                    assert(h[j as int] == name@);
                    assert(!(forall|k: int| i < k < h.len() ==> h[k] != name@));
                    return None;
                }
                j = j + 1;
            }
            return Some(i);
        }
        i = i + 1;
    }
    proof { lemma_first_index_extends(h, name@, i as int); }
    None
}

proof fn lemma_first_index_extends(h: Seq<Seq<char>>, name: Seq<char>, k: int)
    requires
        0 <= k <= h.len(),
        first_index(h.take(k), name) is Some || k == h.len(),
    ensures
        first_index(h, name) == first_index(h.take(k), name),
    decreases h.len() - k,
{
    if k < h.len() {
        assert(h.take(k + 1).drop_last() =~= h.take(k));
        lemma_first_index_extends(h, name, k + 1);
    } else {
        assert(h.take(k) =~= h);
    }
}

/// Reads a table (header row first) into one entry per data row, in order.
/// A port-number or protocol cell that gives none is read as `None`; the
/// table as a whole is refused only where `records_of` refuses it.
pub fn parse_entries(rows: &Vec<Vec<String>>) -> (r: Option<Vec<PortDescEntry>>)
    ensures
        match records_of(rows_view_of(rows)) {
            Some(rs) => r is Some && views(r->0@) == rs,
            None => r is None,
        },
{
    let ghost t = rows_view_of(rows);
    if rows.len() == 0 {
        return None;
    }
    let header = &rows[0];
    assert(Seq::new(header@.len(), |j: int| header@[j]@) == t[0]);
    let s = match column_index(header, "Service Name") {
        Some(c) => c,
        None => return None,
    };
    assert(column_of(t[0], service_name_header()) == Some(s as int));
    let n = match column_index(header, "Port Number") {
        Some(c) => c,
        None => return None,
    };
    assert(column_of(t[0], port_number_header()) == Some(n as int));
    let p = match column_index(header, "Transport Protocol") {
        Some(c) => c,
        None => return None,
    };
    assert(column_of(t[0], transport_protocol_header()) == Some(p as int));
    let d = match column_index(header, "Description") {
        Some(c) => c,
        None => return None,
    };
    assert(column_of(t[0], description_header()) == Some(d as int));
    let mut entries: Vec<PortDescEntry> = Vec::new();
    let mut i: usize = 1;
    while i < rows.len()
        invariant
            1 <= i <= rows@.len(),
            t == rows_view_of(rows),
            s < header@.len() && n < header@.len() && p < header@.len() && d < header@.len(),
            header == rows@[0],
            forall|k: int| 1 <= k < i ==> #[trigger] t[k].len() == t[0].len(),
            entries@.len() == i - 1,
            forall|k: int| 0 <= k < i - 1 ==> #[trigger] entries@[k]@ == record_of(t[k + 1], s as int, n as int, p as int, d as int),
        decreases rows@.len() - i,
    {
        let row = &rows[i];
        if row.len() != header.len() {
            assert(t[i as int].len() != t[0].len());
            return None;
        }
        let e = PortDescEntry {
            service_name: row[s].clone(),
            port_number: parse_port(row[n].as_str()),
            transport_protocol: TransportProtocol::from_name(row[p].as_str()),
            description: row[d].clone(),
        };
        entries.push(e);
        i = i + 1;
    }
    assert(forall|k: int| 1 <= k < t.len() ==> #[trigger] t[k].len() == t[0].len());
    assert(records_of(t) == Some(Seq::new((t.len() - 1) as nat, |k: int| record_of(t[k + 1], s as int, n as int, p as int, d as int))));
    assert(views(entries@) =~= records_of(t)->0);
    Some(entries)
}

/// The rows of a table as plain character sequences.
pub open spec fn rows_view_of(rows: &Vec<Vec<String>>) -> Seq<Seq<Seq<char>>> {
    crate::csv_source::rows_view(rows@)
}

} // verus!
