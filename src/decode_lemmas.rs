//! What the record decoder guarantees across calls: lenient decoding keeps
//! what it does not know and writes back what it does, strict decoding names
//! the member it does not know, and the null date-time reads as absent.

use vstd::prelude::*;

use crate::decode::{
    decode_spec, encode_prefix, encode_spec, encode_value_spec, field_position, lemma_scan_failure_stays,
    missing_from, position_from, scan, settle, value_spec, DecodeCause, FieldError, FieldSpec,
    FieldValue, Mode, RecordShape,
};
use crate::json::{Json, Member};
use crate::timestamp::NULL_TIMESTAMP;

verus! {

/// A value that a field reads without loss: it decodes to a present value
/// that is written back as the same JSON.
pub open spec fn canonical(field: FieldSpec, mode: Mode, v: Json) -> bool {
    match value_spec(field, mode, v) {
        Ok(fv) => !(fv is Absent) && encode_value_spec(fv) == v,
        Err(_) => false,
    }
}

/// A member that names a field holds a value that the field reads without
/// loss; a member that names no field may hold anything.
pub open spec fn member_clean(fields: Seq<FieldSpec>, mode: Mode, m: Member) -> bool {
    match field_position(fields, m.0@) {
        Some(f) => canonical(fields[f], mode, m.1),
        None => true,
    }
}

/// No two members share a name.
pub open spec fn names_distinct(p: Seq<Member>) -> bool {
    forall|i: int, j: int| 0 <= i < j < p.len() ==> #[trigger] p[i].0@ != #[trigger] p[j].0@
}

/// The members that name no field, in document order.
pub open spec fn unknown_members(fields: Seq<FieldSpec>, p: Seq<Member>) -> Seq<Member>
    decreases p.len(),
{
    if p.len() == 0 {
        Seq::empty()
    } else if field_position(fields, p.last().0@) is None {
        unknown_members(fields, p.drop_last()).push(p.last())
    } else {
        unknown_members(fields, p.drop_last())
    }
}

/// A payload of known members only: each names a field and holds a value the
/// field reads without loss, no two share a name, and every required field
/// is named.
pub open spec fn known_payload(fields: Seq<FieldSpec>, mode: Mode, known: Seq<Member>) -> bool {
    &&& forall|i: int|
        0 <= i < known.len() ==> #[trigger] field_position(fields, known[i].0@) is Some
    &&& forall|i: int| 0 <= i < known.len() ==> member_clean(fields, mode, #[trigger] known[i])
    &&& names_distinct(known)
    &&& forall|f: int|
        0 <= f < fields.len() && !fields[f].optional ==> exists|i: int|
            0 <= i < known.len() && #[trigger] known[i].0@ == #[trigger] fields[f].name@
}

proof fn lemma_position_found(fields: Seq<FieldSpec>, name: Seq<char>, j: int)
    requires
        0 <= j,
    ensures
        match position_from(fields, name, j) {
            Some(i) => j <= i < fields.len() && fields[i].name@ == name,
            None => forall|k: int| j <= k < fields.len() ==> fields[k].name@ != name,
        },
    decreases fields.len() - j,
{
    if 0 <= j < fields.len() && fields[j].name@ != name {
        lemma_position_found(fields, name, j + 1);
    }
}

proof fn lemma_position_of_field(shape: RecordShape, f: int)
    requires
        shape.wf(),
        0 <= f < shape.fields@.len(),
    ensures
        field_position(shape.fields@, shape.fields@[f].name@) == Some(f),
{
    let fields = shape.fields@;
    lemma_position_found(fields, fields[f].name@, 0);
    match field_position(fields, fields[f].name@) {
        Some(i) => {
            if i != f {
                if i < f {
                    assert(fields[i].name@ != fields[f].name@);
                } else {
                    assert(fields[f].name@ != fields[i].name@);
                }
            }
        },
        None => {},
    }
}

proof fn lemma_scan_clean(fields: Seq<FieldSpec>, mode: Mode, p: Seq<Member>)
    requires
        mode == Mode::Lenient || forall|i: int|
            0 <= i < p.len() ==> #[trigger] field_position(fields, p[i].0@) is Some,
        forall|i: int| 0 <= i < p.len() ==> member_clean(fields, mode, #[trigger] p[i]),
        names_distinct(p),
    ensures
        scan(fields, mode, p) is Ok,
        scan(fields, mode, p)->Ok_0.0.len() == fields.len(),
        scan(fields, mode, p)->Ok_0.1 == unknown_members(fields, p),
        forall|f: int|
            0 <= f < fields.len() && (#[trigger] scan(fields, mode, p)->Ok_0.0[f]) is Some
                ==> exists|i: int| 0 <= i < p.len() && field_position(fields, #[trigger] p[i].0@) == Some(f),
        forall|i: int|
            0 <= i < p.len() && (#[trigger] field_position(fields, p[i].0@)) is Some ==> scan(
                fields,
                mode,
                p,
            )->Ok_0.0[field_position(fields, p[i].0@)->Some_0] == Some(
                value_spec(fields[field_position(fields, p[i].0@)->Some_0], mode, p[i].1)->Ok_0,
            ),
    decreases p.len(),
{
    if p.len() > 0 {
        let q = p.drop_last();
        let m = p.last();
        assert forall|i: int| 0 <= i < q.len() implies member_clean(fields, mode, #[trigger] q[i]) by {
            assert(q[i] == p[i]);
        }
        if mode != Mode::Lenient {
            assert forall|i: int| 0 <= i < q.len() implies #[trigger] field_position(fields, q[i].0@) is Some by {
                assert(q[i] == p[i]);
            }
        }
        assert forall|i: int, j: int| 0 <= i < j < q.len() implies #[trigger] q[i].0@ != #[trigger] q[j].0@ by {
            assert(q[i] == p[i] && q[j] == p[j]);
        }
        lemma_scan_clean(fields, mode, q);
        let st = scan(fields, mode, q)->Ok_0;
        assert(p[p.len() - 1] == m);
        assert(member_clean(fields, mode, m));
        assert(q.push(m) =~= p);
        match field_position(fields, m.0@) {
            None => {
                assert(mode == Mode::Lenient) by {
                    if mode != Mode::Lenient {
                        assert(field_position(fields, p[p.len() - 1].0@) is Some);
                    }
                }
                let st2 = scan(fields, mode, p)->Ok_0;
                assert(st2.0 == st.0);
                assert forall|i: int|
                    0 <= i < p.len() && (#[trigger] field_position(fields, p[i].0@)) is Some implies st2.0[field_position(fields, p[i].0@)->Some_0]
                        == Some(value_spec(fields[field_position(fields, p[i].0@)->Some_0], mode, p[i].1)->Ok_0) by {
                    if i < q.len() {
                        assert(p[i] == q[i]);
                    }
                }
                assert forall|g: int|
                    0 <= g < fields.len() && (#[trigger] st2.0[g]) is Some implies exists|i: int|
                        0 <= i < p.len() && field_position(fields, #[trigger] p[i].0@) == Some(g) by {
                    let i = choose|i: int| 0 <= i < q.len() && field_position(fields, #[trigger] q[i].0@) == Some(g);
                    assert(p[i] == q[i]);
                }
            },
            Some(f) => {
                lemma_position_found(fields, m.0@, 0);
                assert(fields[f].name@ == m.0@);
                assert(st.0[f] is None) by {
                    if st.0[f] is Some {
                        let i = choose|i: int| 0 <= i < q.len() && field_position(fields, #[trigger] q[i].0@) == Some(f);
                        lemma_position_found(fields, q[i].0@, 0);
                        assert(p[i] == q[i]);
                        assert(p[i].0@ != p[p.len() - 1].0@);
                    }
                }
                let v = value_spec(fields[f], mode, m.1)->Ok_0;
                assert(value_spec(fields[f], mode, m.1) is Ok);
                let st2 = scan(fields, mode, p)->Ok_0;
                assert(st2.0 == st.0.update(f, Some(v)));
                assert(st2.1 == st.1);
                assert forall|g: int|
                    0 <= g < fields.len() && (#[trigger] st2.0[g]) is Some implies exists|i: int|
                        0 <= i < p.len() && field_position(fields, #[trigger] p[i].0@) == Some(g) by {
                    if g == f {
                        assert(field_position(fields, p[p.len() - 1].0@) == Some(g));
                    } else {
                        let i = choose|i: int| 0 <= i < q.len() && field_position(fields, #[trigger] q[i].0@) == Some(g);
                        assert(p[i] == q[i]);
                    }
                }
                assert forall|i: int|
                    0 <= i < p.len() && (#[trigger] field_position(fields, p[i].0@)) is Some implies st2.0[field_position(fields, p[i].0@)->Some_0]
                        == Some(value_spec(fields[field_position(fields, p[i].0@)->Some_0], mode, p[i].1)->Ok_0) by {
                    if i < q.len() {
                        assert(p[i] == q[i]);
                        let g = field_position(fields, q[i].0@)->Some_0;
                        lemma_position_found(fields, q[i].0@, 0);
                        if g == f {
                            assert(p[i].0@ != p[p.len() - 1].0@);
                            assert(false);
                        }
                        assert(st.0[g] == Some(value_spec(fields[g], mode, q[i].1)->Ok_0));
                        assert(st2.0[g] == st.0[g]);
                    } else {
                        assert(p[i] == m);
                        assert(st2.0[f] == Some(v));
                    }
                }
            },
        }
    }
}

proof fn lemma_unknown_members_concat(fields: Seq<FieldSpec>, a: Seq<Member>, b: Seq<Member>)
    ensures
        unknown_members(fields, a + b) == unknown_members(fields, a) + unknown_members(fields, b),
    decreases b.len(),
{
    if b.len() == 0 {
        assert(a + b =~= a);
        assert(unknown_members(fields, b) =~= Seq::<Member>::empty());
        assert(unknown_members(fields, a) + Seq::<Member>::empty() =~= unknown_members(fields, a));
    } else {
        assert((a + b).drop_last() =~= a + b.drop_last());
        assert((a + b).last() == b.last());
        lemma_unknown_members_concat(fields, a, b.drop_last());
        if field_position(fields, b.last().0@) is None {
            assert(unknown_members(fields, a + b) =~= unknown_members(fields, a) + unknown_members(fields, b));
        }
    }
}

proof fn lemma_unknown_members_none(fields: Seq<FieldSpec>, p: Seq<Member>)
    requires
        forall|i: int| 0 <= i < p.len() ==> #[trigger] field_position(fields, p[i].0@) is Some,
    ensures
        unknown_members(fields, p) == Seq::<Member>::empty(),
    decreases p.len(),
{
    if p.len() > 0 {
        assert forall|i: int| 0 <= i < p.drop_last().len() implies #[trigger] field_position(fields, p.drop_last()[i].0@) is Some by {
            assert(p.drop_last()[i] == p[i]);
        }
        lemma_unknown_members_none(fields, p.drop_last());
        assert(field_position(fields, p[p.len() - 1].0@) is Some);
    }
}

proof fn lemma_nothing_missing(fields: Seq<FieldSpec>, slots: Seq<Option<FieldValue>>, j: int)
    requires
        slots.len() == fields.len(),
        forall|f: int| j <= f < fields.len() && !fields[f].optional ==> (#[trigger] slots[f]) is Some,
    ensures
        missing_from(fields, slots, j) is None,
    decreases fields.len() - j,
{
    if 0 <= j < fields.len() {
        lemma_nothing_missing(fields, slots, j + 1);
    } else if j < 0 {
    }
}

proof fn lemma_encode_contains(fields: Seq<FieldSpec>, values: Seq<FieldValue>, n: int, f: int)
    requires
        0 <= f < n <= values.len(),
        n <= fields.len(),
        !(values[f] is Absent),
    ensures
        encode_prefix(fields, values, n).contains((fields[f].name, encode_value_spec(values[f]))),
    decreases n,
{
    let e = (fields[f].name, encode_value_spec(values[f]));
    if f == n - 1 {
        assert(encode_prefix(fields, values, n).last() == e);
    } else {
        lemma_encode_contains(fields, values, n - 1, f);
        let pre = encode_prefix(fields, values, n - 1);
        let k = choose|k: int| 0 <= k < pre.len() && #[trigger] pre[k] == e;
        if !(values[n - 1] is Absent) {
            assert(encode_prefix(fields, values, n)[k] == e);
        }
    }
}

/// Decoding in lenient mode a payload of known members with one unknown
/// member inserted anywhere succeeds; the unknown member is all that the
/// residual holds, and writing the record back gives every known member
/// under its own name with the same value, and the unknown member last.
pub proof fn lemma_lenient_round_trip(shape: RecordShape, known: Seq<Member>, extra: Member, at: int)
    requires
        shape.wf(),
        known_payload(shape.fields@, Mode::Lenient, known),
        field_position(shape.fields@, extra.0@) is None,
        0 <= at <= known.len(),
    ensures
        ({
            let fields = shape.fields@;
            let d = decode_spec(fields, Mode::Lenient, known.insert(at, extra));
            &&& d is Ok
            &&& d->Ok_0.1 == seq![extra]
            &&& forall|i: int|
                0 <= i < known.len() ==> exists|k: int|
                    0 <= k < encode_spec(fields, d->Ok_0.0, d->Ok_0.1).len()
                        && encode_spec(fields, d->Ok_0.0, d->Ok_0.1)[k].0@ == (#[trigger] known[i]).0@
                        && encode_spec(fields, d->Ok_0.0, d->Ok_0.1)[k].1 == known[i].1
            &&& encode_spec(fields, d->Ok_0.0, d->Ok_0.1).last() == extra
        }),
{
    let fields = shape.fields@;
    let mode = Mode::Lenient;
    let p = known.insert(at, extra);
    assert(p =~= known.take(at) + seq![extra] + known.skip(at));
    assert forall|i: int| 0 <= i < p.len() implies member_clean(fields, mode, #[trigger] p[i]) by {
        if i < at {
            assert(p[i] == known[i]);
        } else if i > at {
            assert(p[i] == known[i - 1]);
        }
    }
    assert forall|i: int, j: int| 0 <= i < j < p.len() implies #[trigger] p[i].0@ != #[trigger] p[j].0@ by {
        let a = if i < at { i } else { i - 1 };
        let b = if j <= at { j } else { j - 1 };
        if i == at {
            assert(field_position(fields, known[b].0@) is Some);
        } else if j == at {
            assert(field_position(fields, known[a].0@) is Some);
        } else {
            assert(p[i] == known[a] && p[j] == known[b]);
        }
    }
    lemma_scan_clean(fields, mode, p);
    let st = scan(fields, mode, p)->Ok_0;
    // the residual
    assert forall|i: int| 0 <= i < known.take(at).len() implies #[trigger] field_position(fields, known.take(at)[i].0@) is Some by {
        assert(known.take(at)[i] == known[i]);
    }
    assert forall|i: int| 0 <= i < known.skip(at).len() implies #[trigger] field_position(fields, known.skip(at)[i].0@) is Some by {
        assert(known.skip(at)[i] == known[i + at]);
    }
    lemma_unknown_members_none(fields, known.take(at));
    lemma_unknown_members_none(fields, known.skip(at));
    lemma_unknown_members_concat(fields, known.take(at) + seq![extra], known.skip(at));
    lemma_unknown_members_concat(fields, known.take(at), seq![extra]);
    assert(seq![extra].drop_last() =~= Seq::<Member>::empty());
    assert(seq![extra].last() == extra);
    assert(unknown_members(fields, Seq::<Member>::empty()) == Seq::<Member>::empty());
    assert(unknown_members(fields, seq![extra]) =~= seq![extra]);
    assert(st.1 =~= seq![extra]);
    // every required field was found
    assert forall|f: int| 0 <= f < fields.len() && !fields[f].optional implies (#[trigger] st.0[f]) is Some by {
        let i = choose|i: int| 0 <= i < known.len() && #[trigger] known[i].0@ == #[trigger] fields[f].name@;
        lemma_position_of_field(shape, f);
        let pi = if i < at { i } else { i + 1 };
        assert(p[pi] == known[i]);
        assert(field_position(fields, p[pi].0@) == Some(f));
    }
    lemma_nothing_missing(fields, st.0, 0);
    let values = st.0.map_values(|s: Option<FieldValue>| settle(s));
    let d = decode_spec(fields, mode, p);
    assert(d == Ok::<(Seq<FieldValue>, Seq<Member>), FieldError>((values, st.1)));
    let enc = encode_spec(fields, values, st.1);
    assert forall|i: int| 0 <= i < known.len() implies exists|k: int|
        0 <= k < enc.len() && enc[k].0@ == (#[trigger] known[i]).0@ && enc[k].1 == known[i].1 by {
        let pi = if i < at { i } else { i + 1 };
        assert(p[pi] == known[i]);
        assert(field_position(fields, p[pi].0@) is Some);
        let f = field_position(fields, known[i].0@)->Some_0;
        lemma_position_found(fields, known[i].0@, 0);
        assert(member_clean(fields, mode, p[pi]));
        lemma_encode_contains(fields, values, fields.len() as int, f);
        let pre = encode_prefix(fields, values, fields.len() as int);
        let k = choose|k: int| 0 <= k < pre.len() && #[trigger] pre[k] == (fields[f].name, encode_value_spec(values[f]));
        assert(enc[k] == pre[k]);
    }
    assert(enc.last() == extra);
    assert(d is Ok);
    assert(d->Ok_0.1 == seq![extra]);
    assert(p == known.insert(at, extra));
    assert(encode_spec(fields, d->Ok_0.0, d->Ok_0.1) == enc);
}

/// Decoding in strict mode a payload of known members with one unknown
/// member inserted anywhere fails at that member, as an unknown field.
pub proof fn lemma_strict_rejects_unknown(shape: RecordShape, known: Seq<Member>, extra: Member, at: int)
    requires
        shape.wf(),
        known_payload(shape.fields@, Mode::Strict, known),
        field_position(shape.fields@, extra.0@) is None,
        0 <= at <= known.len(),
    ensures
        decode_spec(shape.fields@, Mode::Strict, known.insert(at, extra)) == Err::<
            (Seq<FieldValue>, Seq<Member>),
            FieldError,
        >(FieldError { field: extra.0, cause: DecodeCause::UnknownField }),
{
    let fields = shape.fields@;
    let mode = Mode::Strict;
    let p = known.insert(at, extra);
    let q = known.take(at);
    assert forall|i: int| 0 <= i < q.len() implies #[trigger] field_position(fields, q[i].0@) is Some by {
        assert(q[i] == known[i]);
    }
    assert forall|i: int| 0 <= i < q.len() implies member_clean(fields, mode, #[trigger] q[i]) by {
        assert(q[i] == known[i]);
    }
    assert forall|i: int, j: int| 0 <= i < j < q.len() implies #[trigger] q[i].0@ != #[trigger] q[j].0@ by {
        assert(q[i] == known[i] && q[j] == known[j]);
    }
    lemma_scan_clean(fields, mode, q);
    assert(p.take(at + 1).drop_last() =~= q);
    assert(p.take(at + 1).last() == extra);
    assert(scan(fields, mode, p.take(at + 1)) is Err);
    lemma_scan_failure_stays(fields, mode, p, at + 1);
}

/// A date-time field that may be absent reads the service's null stand-in
/// as absent, whatever the mode.
pub proof fn lemma_null_timestamp_absent(field: FieldSpec, mode: Mode, s: String)
    requires
        field.kind is NullableTimestamp,
        s@ == NULL_TIMESTAMP@,
    ensures
        value_spec(field, mode, Json::Str(s)) == Ok::<FieldValue, DecodeCause>(FieldValue::Absent),
{
}

} // verus!
