use vstd::prelude::*;
use crate::json::Json;

verus! {

/// One inbound notification: the scalar fields are taken verbatim from the
/// wire, `data` keeps the caller's map of arbitrary JSON values.
#[derive(Debug)]
pub struct Event {
    pub event_id: String,
    pub target_name: String,
    pub event_type: String,
    pub timestamp: String,
    pub data: Vec<(String, Json)>,
}

/// The unit of work per HTTP call: one event and the caller's labels.
#[derive(Debug)]
pub struct IngestRequest {
    pub event: Event,
    pub labels: Vec<(String, String)>,
}

/// The value under the first member of `ms` named `k`, if any.
pub open spec fn lookup(ms: Seq<(String, Json)>, k: Seq<char>) -> Option<Json>
    decreases ms.len(),
{
    if ms.len() == 0 {
        None
    } else if ms[0].0@ == k {
        Some(ms[0].1)
    } else {
        lookup(ms.drop_first(), k)
    }
}

/// `ms` without its first member named `k`; `ms` itself when none is.
pub open spec fn remove_key(ms: Seq<(String, Json)>, k: Seq<char>) -> Seq<(String, Json)>
    decreases ms.len(),
{
    if ms.len() == 0 {
        ms
    } else if ms[0].0@ == k {
        ms.drop_first()
    } else {
        seq![ms[0]] + remove_key(ms.drop_first(), k)
    }
}

proof fn lemma_first_match(ms: Seq<(String, Json)>, k: Seq<char>, i: int)
    requires
        0 <= i < ms.len(),
        ms[i].0@ == k,
        forall|n: int| 0 <= n < i ==> ms[n].0@ != k,
    ensures
        lookup(ms, k) == Some(ms[i].1),
        remove_key(ms, k) == ms.remove(i),
    decreases i,
{
    if i == 0 {
        assert(ms.drop_first() =~= ms.remove(0));
    } else {
        assert(forall|n: int| 0 <= n < i - 1 ==> ms.drop_first()[n].0@ != k);
        lemma_first_match(ms.drop_first(), k, i - 1);
        assert(ms.drop_first()[i - 1] == ms[i]);
        assert(seq![ms[0]] + ms.drop_first().remove(i - 1) =~= ms.remove(i));
    }
}

proof fn lemma_no_match(ms: Seq<(String, Json)>, k: Seq<char>)
    requires
        forall|n: int| 0 <= n < ms.len() ==> ms[n].0@ != k,
    ensures
        lookup(ms, k) is None,
        remove_key(ms, k) == ms,
    decreases ms.len(),
{
    if ms.len() > 0 {
        assert(forall|n: int| 0 <= n < ms.len() - 1 ==> ms.drop_first()[n].0@ != k);
        lemma_no_match(ms.drop_first(), k);
        assert(seq![ms[0]] + ms.drop_first() =~= ms);
    }
}

/// Taking out one key leaves every lookup under a different key unchanged.
proof fn lemma_lookup_after_remove(ms: Seq<(String, Json)>, k1: Seq<char>, k2: Seq<char>)
    requires
        k1 != k2,
    ensures
        lookup(remove_key(ms, k1), k2) == lookup(ms, k2),
    decreases ms.len(),
{
    if ms.len() == 0 {
    } else if ms[0].0@ == k1 {
    } else {
        lemma_lookup_after_remove(ms.drop_first(), k1, k2);
        let rest = remove_key(ms.drop_first(), k1);
        let whole = seq![ms[0]] + rest;
        assert(whole[0] == ms[0]);
        assert(whole.drop_first() =~= rest);
    }
}

/// Whether the string `a` spells the same characters as the slice `b`.
fn str_eq(a: &String, b: &str) -> (r: bool)
    ensures
        r == (a@ == b@),
{
    let owned = b.to_owned();
    a.eq(&owned)
}

/// Removes the first member named `key` from `obj` and hands its value out.
fn take_field(obj: &mut Vec<(String, Json)>, key: &str) -> (r: Option<Json>)
    ensures
        r == lookup(old(obj)@, key@),
        final(obj)@ == remove_key(old(obj)@, key@),
{
    let mut i: usize = 0;
    while i < obj.len()
        invariant
            i <= obj@.len(),
            obj@ == old(obj)@,
            forall|n: int| 0 <= n < i ==> obj@[n].0@ != key@,
        decreases obj@.len() - i,
    {
        if str_eq(&obj[i].0, key) {
            proof {
                lemma_first_match(obj@, key@, i as int);
            }
            let pair = obj.remove(i);
            return Some(pair.1);
        }
        i = i + 1;
    }
    proof {
        lemma_no_match(obj@, key@);
    }
    None
}

/// The string under `k`, if the member is there and is a string.
pub open spec fn str_field(ms: Seq<(String, Json)>, k: Seq<char>) -> Option<String> {
    match lookup(ms, k) {
        Some(Json::Str(s)) => Some(s),
        _ => None,
    }
}

/// The object under `k`, if the member is there and is an object.
pub open spec fn obj_field(ms: Seq<(String, Json)>, k: Seq<char>) -> Option<Vec<(String, Json)>> {
    match lookup(ms, k) {
        Some(Json::Obj(m)) => Some(m),
        _ => None,
    }
}

/// The shape an event object must have: four string fields and an object
/// under `data`.
pub open spec fn wf_event(ms: Seq<(String, Json)>) -> bool {
    &&& str_field(ms, "eventId"@) is Some
    &&& str_field(ms, "targetName"@) is Some
    &&& str_field(ms, "eventType"@) is Some
    &&& str_field(ms, "timestamp"@) is Some
    &&& obj_field(ms, "data"@) is Some
}

/// Every member's value is a string.
pub open spec fn all_string_values(ms: Seq<(String, Json)>) -> bool {
    forall|i: int| 0 <= i < ms.len() ==> ms[i].1 is Str
}

/// The shape a request body must have: an object holding an `event` object of
/// the right shape and a `labels` object whose values are all strings.
pub open spec fn wf_request(j: Json) -> bool {
    &&& j is Obj
    &&& obj_field(j->Obj_0@, "event"@) is Some
    &&& wf_event(obj_field(j->Obj_0@, "event"@)->0@)
    &&& obj_field(j->Obj_0@, "labels"@) is Some
    &&& all_string_values(obj_field(j->Obj_0@, "labels"@)->0@)
}

/// The members of the body's event object.
pub open spec fn event_obj(j: Json) -> Seq<(String, Json)> {
    obj_field(j->Obj_0@, "event"@)->0@
}

pub open spec fn req_event_id(j: Json) -> String {
    str_field(event_obj(j), "eventId"@)->0
}

pub open spec fn req_target_name(j: Json) -> String {
    str_field(event_obj(j), "targetName"@)->0
}

pub open spec fn req_event_type(j: Json) -> String {
    str_field(event_obj(j), "eventType"@)->0
}

pub open spec fn req_timestamp(j: Json) -> String {
    str_field(event_obj(j), "timestamp"@)->0
}

pub open spec fn req_data(j: Json) -> Vec<(String, Json)> {
    obj_field(event_obj(j), "data"@)->0
}

/// The body's label pairs, with each value stripped of its `Json::Str`.
pub open spec fn req_labels(j: Json) -> Seq<(String, String)> {
    obj_field(j->Obj_0@, "labels"@)->0@.map(|i: int, p: (String, Json)| (p.0, p.1->Str_0))
}

/// Structural validation of a request body: `Some` exactly on well-shaped
/// bodies, and then the decoded fields are the body's own values.
pub fn decode_request(j: Json) -> (r: Option<IngestRequest>)
    ensures
        r is Some <==> wf_request(j),
        wf_request(j) ==> {
            let req = r->0;
            &&& req.event.event_id == req_event_id(j)
            &&& req.event.target_name == req_target_name(j)
            &&& req.event.event_type == req_event_type(j)
            &&& req.event.timestamp == req_timestamp(j)
            &&& req.event.data == req_data(j)
            &&& req.labels@ == req_labels(j)
        },
{
    proof {
        reveal_strlit("event");
        reveal_strlit("labels");
        reveal_strlit("eventId");
        reveal_strlit("targetName");
        reveal_strlit("eventType");
        reveal_strlit("timestamp");
        reveal_strlit("data");
        assert("event"@.len() == 5);
        assert("labels"@.len() == 6);
        assert("eventId"@.len() == 7);
        assert("targetName"@.len() == 10);
        assert("eventType"@.len() == 9);
        assert("timestamp"@.len() == 9);
        assert("data"@.len() == 4);
        assert("eventType"@[0] == 'e');
        assert("timestamp"@[0] == 't');
        assert("event"@ != "labels"@);
        assert("eventId"@ != "targetName"@);
        assert("eventId"@ != "eventType"@);
        assert("eventId"@ != "timestamp"@);
        assert("eventId"@ != "data"@);
        assert("targetName"@ != "eventType"@);
        assert("targetName"@ != "timestamp"@);
        assert("targetName"@ != "data"@);
        assert("eventType"@ != "timestamp"@);
        assert("eventType"@ != "data"@);
        assert("timestamp"@ != "data"@);
    }
    let mut top = match j {
        Json::Obj(m) => m,
        _ => {
            return None;
        },
    };
    let ghost top0 = top@;
    let ev_opt = take_field(&mut top, "event");
    proof {
        lemma_lookup_after_remove(top0, "event"@, "labels"@);
    }
    let lb_opt = take_field(&mut top, "labels");
    let ev_j = match ev_opt {
        Some(v) => v,
        None => {
            return None;
        },
    };
    let mut em = match ev_j {
        Json::Obj(m) => m,
        _ => {
            return None;
        },
    };
    let ghost em0 = em@;
    assert(em0 == event_obj(j));

    let id_opt = take_field(&mut em, "eventId");
    proof {
        lemma_lookup_after_remove(em0, "eventId"@, "targetName"@);
        lemma_lookup_after_remove(em0, "eventId"@, "eventType"@);
        lemma_lookup_after_remove(em0, "eventId"@, "timestamp"@);
        lemma_lookup_after_remove(em0, "eventId"@, "data"@);
    }
    let ghost em1 = em@;
    let tn_opt = take_field(&mut em, "targetName");
    proof {
        lemma_lookup_after_remove(em1, "targetName"@, "eventType"@);
        lemma_lookup_after_remove(em1, "targetName"@, "timestamp"@);
        lemma_lookup_after_remove(em1, "targetName"@, "data"@);
    }
    let ghost em2 = em@;
    let ty_opt = take_field(&mut em, "eventType");
    proof {
        lemma_lookup_after_remove(em2, "eventType"@, "timestamp"@);
        lemma_lookup_after_remove(em2, "eventType"@, "data"@);
    }
    let ghost em3 = em@;
    let ts_opt = take_field(&mut em, "timestamp");
    proof {
        lemma_lookup_after_remove(em3, "timestamp"@, "data"@);
    }
    let data_opt = take_field(&mut em, "data");

    let event_id = match id_opt {
        Some(Json::Str(s)) => s,
        _ => {
            return None;
        },
    };
    let target_name = match tn_opt {
        Some(Json::Str(s)) => s,
        _ => {
            return None;
        },
    };
    let event_type = match ty_opt {
        Some(Json::Str(s)) => s,
        _ => {
            return None;
        },
    };
    let timestamp = match ts_opt {
        Some(Json::Str(s)) => s,
        _ => {
            return None;
        },
    };
    let data = match data_opt {
        Some(Json::Obj(d)) => d,
        _ => {
            return None;
        },
    };

    let lm = match lb_opt {
        Some(Json::Obj(m)) => m,
        _ => {
            return None;
        },
    };
    let mut labels: Vec<(String, String)> = Vec::new();
    let mut i: usize = 0;
    while i < lm.len()
        invariant
            j is Obj,
            obj_field(j->Obj_0@, "labels"@) is Some,
            obj_field(j->Obj_0@, "labels"@)->0@ == lm@,
            i <= lm@.len(),
            forall|n: int| 0 <= n < i ==> lm@[n].1 is Str,
            labels@.len() == i,
            forall|n: int| 0 <= n < i ==> labels@[n] == (lm@[n].0, lm@[n].1->Str_0),
        decreases lm@.len() - i,
    {
        let pair = &lm[i];
        match &pair.1 {
            Json::Str(s) => {
                labels.push((pair.0.clone(), s.clone()));
            },
            _ => {
                proof {
                    assert(!(lm@[i as int].1 is Str));
                }
                return None;
            },
        }
        i = i + 1;
    }
    assert(labels@ =~= req_labels(j));

    Some(IngestRequest {
        event: Event { event_id, target_name, event_type, timestamp, data },
        labels,
    })
}

} // verus!
