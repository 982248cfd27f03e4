use vstd::prelude::*;
use crate::decode::IngestRequest;
use crate::json::Json;
use crate::json::quoted;
use crate::json::ser;
use crate::json::write_obj;
use crate::json::write_quoted;
use crate::outside::chars_to_string;

verus! {

/// The warehouse's fixed column layout: six text fields, in the order the
/// destination table declares them. `data` and `labels` hold the serialized
/// JSON text of the corresponding maps.
#[derive(Debug)]
pub struct WarehouseRow {
    pub event_id: String,
    pub target_name: String,
    pub event_type: String,
    pub timestamp: String,
    pub data: String,
    pub labels: String,
}

/// The compact JSON text of the event's data map.
pub open spec fn obj_text(m: Vec<(String, Json)>) -> Seq<char> {
    ser(Json::Obj(m))
}

/// The first `i` label pairs, serialized as `"key":"value"`, comma-separated.
pub open spec fn labels_members(ls: Seq<(String, String)>, i: int) -> Seq<char>
    decreases i,
{
    if i <= 0 || i > ls.len() {
        Seq::empty()
    } else if i == 1 {
        quoted(ls[0].0@) + seq![':'] + quoted(ls[0].1@)
    } else {
        labels_members(ls, i - 1) + seq![','] + quoted(ls[i - 1].0@) + seq![':'] + quoted(ls[i - 1].1@)
    }
}

/// The compact JSON text of the label map.
pub open spec fn labels_text(ls: Seq<(String, String)>) -> Seq<char> {
    seq!['{'] + labels_members(ls, ls.len() as int) + seq!['}']
}

fn write_labels(ls: &Vec<(String, String)>, out: &mut Vec<char>)
    ensures
        final(out)@ == old(out)@ + labels_text(ls@),
{
    let ghost entry = out@;
    out.push('{');
    let mut i: usize = 0;
    while i < ls.len()
        invariant
            i <= ls.len(),
            out@ == entry + seq!['{'] + labels_members(ls@, i as int),
        decreases ls.len() - i,
    {
        if i > 0 {
            out.push(',');
        }
        write_quoted(ls[i].0.as_str(), out);
        out.push(':');
        write_quoted(ls[i].1.as_str(), out);
        proof {
            if i == 0 {
                assert(labels_members(ls@, 1) == quoted(ls@[0].0@) + seq![':'] + quoted(ls@[0].1@));
            } else {
                assert(labels_members(ls@, i + 1) == labels_members(ls@, i as int) + seq![','] + quoted(ls@[i as int].0@) + seq![':'] + quoted(ls@[i as int].1@));
            }
            assert(out@ =~= entry + seq!['{'] + labels_members(ls@, i + 1));
        }
        i = i + 1;
    }
    out.push('}');
    assert(out@ =~= entry + labels_text(ls@));
}

/// The row projection: total over every decoded request, it copies the four
/// scalar fields verbatim and serializes the two maps to compact JSON text.
pub fn project_row(req: &IngestRequest) -> (r: WarehouseRow)
    ensures
        r.event_id == req.event.event_id,
        r.target_name == req.event.target_name,
        r.event_type == req.event.event_type,
        r.timestamp == req.event.timestamp,
        r.data@ == obj_text(req.event.data),
        r.labels@ == labels_text(req.labels@),
{
    let mut data_out: Vec<char> = Vec::new();
    write_obj(&req.event.data, &mut data_out);
    let mut labels_out: Vec<char> = Vec::new();
    write_labels(&req.labels, &mut labels_out);
    WarehouseRow {
        event_id: req.event.event_id.clone(),
        target_name: req.event.target_name.clone(),
        event_type: req.event.event_type.clone(),
        timestamp: req.event.timestamp.clone(),
        data: chars_to_string(data_out),
        labels: chars_to_string(labels_out),
    }
}

/// An empty map projects to the two-character empty-object text.
pub proof fn lemma_empty_map_text(m: Vec<(String, Json)>, ls: Seq<(String, String)>)
    requires
        m@.len() == 0,
        ls.len() == 0,
    ensures
        obj_text(m) =~= seq!['{', '}'],
        labels_text(ls) =~= seq!['{', '}'],
{
}

/// Whatever the caller put in the maps, the projected `data` and `labels`
/// texts are brace-delimited JSON objects, never empty.
pub proof fn lemma_projection_braced(req: IngestRequest)
    ensures
        obj_text(req.event.data).len() >= 2,
        obj_text(req.event.data).first() == '{',
        obj_text(req.event.data).last() == '}',
        labels_text(req.labels@).len() >= 2,
        labels_text(req.labels@).first() == '{',
        labels_text(req.labels@).last() == '}',
{
}

} // verus!
