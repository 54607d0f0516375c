//! Laws of the registry, stated over the models that the functions'
//! contracts use.
use vstd::prelude::*;
use crate::csv_source::csv_table;
use crate::protocol::TransportProtocol;
use crate::record::{port_of, RowRecord};
use crate::registry::{csv_records, index_of, lemma_index_slots_consistent, PortDescription};
use crate::table::{
    column_of, description_header, port_number_header, records_of, service_name_header,
    transport_protocol_header,
};

verus! {

/// The header row names each of the four columns that a record is read
/// from, once.
pub open spec fn header_complete(h: Seq<Seq<char>>) -> bool {
    &&& column_of(h, service_name_header()) is Some
    &&& column_of(h, port_number_header()) is Some
    &&& column_of(h, transport_protocol_header()) is Some
    &&& column_of(h, description_header()) is Some
}

/// Last row wins: where several records name the same protocol and port,
/// the table for that protocol holds, under that port, the one that comes
/// last.
pub proof fn lemma_last_row_wins(rs: Seq<RowRecord>, p: TransportProtocol, j: int)
    requires
        0 <= j < rs.len(),
        rs[j].transport_protocol == Some(p),
        rs[j].port_number is Some,
        forall|i: int|
            j < i < rs.len() ==> !(#[trigger] rs[i].transport_protocol == Some(p) && rs[i].port_number
                == rs[j].port_number),
    ensures
        index_of(rs, p).contains_key(rs[j].port_number->0),
        index_of(rs, p)[rs[j].port_number->0] == rs[j],
    decreases rs.len(),
{
    if j < rs.len() - 1 {
        let prefix = rs.drop_last();
        assert forall|i: int| j < i < prefix.len() implies !(#[trigger] prefix[i].transport_protocol
            == Some(p) && prefix[i].port_number == prefix[j].port_number) by {
            assert(prefix[i] == rs[i]);
        }
        lemma_last_row_wins(prefix, p, j);
    }
}

/// A cell that gives no port number does not fail the reading: a table
/// whose header names the four columns and whose rows all have the
/// header's length is read, and the record of a row whose port cell is
/// empty or not a number has no port number and sits in no table.
pub proof fn lemma_unreadable_port_cell_tolerated(rows: Seq<Seq<Seq<char>>>, i: int)
    requires
        rows.len() > 0,
        header_complete(rows[0]),
        forall|k: int| 1 <= k < rows.len() ==> #[trigger] rows[k].len() == rows[0].len(),
        1 <= i < rows.len(),
        port_of(rows[i][column_of(rows[0], port_number_header())->0]) is None,
    ensures
        port_of(Seq::<char>::empty()) is None,
        records_of(rows) matches Some(rs) && rs.len() == rows.len() - 1 && rs[i - 1].port_number is None
            && forall|p: TransportProtocol, k: u16|
            #[trigger] index_of(rs, p).contains_key(k) ==> index_of(rs, p)[k] != rs[i - 1],
{
    let rs = records_of(rows)->0;
    assert forall|p: TransportProtocol, k: u16| #[trigger]
        index_of(rs, p).contains_key(k) implies index_of(rs, p)[k] != rs[i - 1] by {
        lemma_index_slots_consistent(rs, p);
    }
}

/// A record without a port number changes no table: inserting it anywhere
/// into a sequence of records leaves the table for every protocol as it was.
pub proof fn lemma_portless_record_ignored(
    base: Seq<RowRecord>,
    pos: int,
    r: RowRecord,
    p: TransportProtocol,
)
    requires
        0 <= pos <= base.len(),
        r.port_number is None,
    ensures
        index_of(base.insert(pos, r), p) == index_of(base, p),
    decreases base.len(),
{
    let s = base.insert(pos, r);
    if pos == base.len() {
        assert(s.drop_last() =~= base);
    } else {
        assert(s.drop_last() =~= base.drop_last().insert(pos, r));
        assert(s.last() == base.last());
        lemma_portless_record_ignored(base.drop_last(), pos, r, p);
    }
}

/// Text whose table lacks a header row, or whose header lacks one of the
/// four named columns or names one twice, gives no records, so no registry is built from it.
pub proof fn lemma_missing_column_refused(text: Seq<char>)
    requires
        csv_table(text) matches Some(rows) && (rows.len() == 0 || !header_complete(rows[0])),
    ensures
        csv_records(text) is None,
{
}

/// Two registries built from the same text agree on every slot.
pub proof fn lemma_same_text_same_registry(text: Seq<char>, a: PortDescription, b: PortDescription)
    requires
        a.built_from(text),
        b.built_from(text),
    ensures
        forall|p: TransportProtocol| #[trigger] a.table(p) == b.table(p),
{
    assert forall|p: TransportProtocol| #[trigger] a.table(p) == b.table(p) by {
        assert(a.table(p) == index_of(csv_records(text)->0, p));
        assert(b.table(p) == index_of(csv_records(text)->0, p));
    }
}

} // verus!
