//! The query-string serializer: renders a [`Params`] into a `&`-joined,
//! percent-encoded query string in PHP bracket notation.
//!
//! Field order is fixed: `select`, `orderBy`, `order`, `offset`,
//! `boolFilterList`, `maxSize`, `primaryFilter`, `where`. An absent field
//! emits nothing. Each present field contributes one or more `key=value`
//! segments; keys and values are percent-encoded independently, and the
//! segments are joined with single `&` characters.

use vstd::prelude::*;

use crate::encoding::dec_int;
use crate::encoding::dec_nat;
use crate::encoding::i64_to_dec;
use crate::encoding::pct_encoded;
use crate::encoding::u64_to_dec;
use crate::encoding::url_encode;
use crate::types::Params;
use crate::types::ParamsView;
use crate::types::Value;
use crate::types::Where;
use crate::types::ValueView;
use crate::types::WhereView;
use crate::types::spec_filter_token;
use crate::types::spec_order_token;
use crate::types::all_where_wf;
use crate::types::all_wf;
use crate::types::lemma_all_where_wf_index;
use crate::types::lemma_all_wf_index;
use crate::types::value_views;
use crate::types::where_views;

verus! {

use vstd::string::StringExecFns;

broadcast use vstd::seq::group_seq_axioms, vstd::std_specs::vec::group_vec_axioms;

/// One `key=value` segment: both sides percent-encoded, joined by a literal
/// `=`.
pub open spec fn spec_segment(key: Seq<char>, value: Seq<char>) -> Seq<char> {
    pct_encoded(key) + seq!['='] + pct_encoded(value)
}

/// `&`-join of a list of segments: no leading or trailing `&`, a single `&`
/// between neighbours.
pub open spec fn join_amp(parts: Seq<Seq<char>>) -> Seq<char>
    decreases parts.len(),
{
    if parts.len() == 0 {
        Seq::empty()
    } else if parts.len() == 1 {
        parts[0]
    } else {
        join_amp(parts.drop_last()) + seq!['&'] + parts.last()
    }
}

/// The wire text of a boolean scalar.
pub open spec fn spec_bool_token(b: bool) -> Seq<char> {
    if b {
        "true"@
    } else {
        "false"@
    }
}

/// The wire text of a scalar value (not defined on arrays or absent
/// payloads).
pub open spec fn spec_scalar(v: ValueView) -> Seq<char> {
    match v {
        ValueView::Str(s) => s->0,
        ValueView::Int(n) => dec_int(n->0),
        ValueView::Bool(b) => spec_bool_token(b->0),
        ValueView::Arr(_) => Seq::empty(),
    }
}

/// The bracket path of element `j` under `path`: `path[j]`.
pub open spec fn elem_path(path: Seq<char>, j: nat) -> Seq<char> {
    path + "["@ + dec_nat(j) + "]"@
}

/// The segments a value contributes under the bracket path `path`: one
/// segment for a scalar, one per element (recursively, extending the path
/// with the element index) for an array. A value with an absent payload
/// contributes nothing.
pub open spec fn spec_value_segments(path: Seq<char>, v: ValueView) -> Seq<Seq<char>>
    decreases v, 0int,
{
    match v {
        ValueView::Str(s) => match s {
            Some(x) => seq![spec_segment(path, x)],
            None => Seq::empty(),
        },
        ValueView::Int(n) => match n {
            Some(x) => seq![spec_segment(path, dec_int(x))],
            None => Seq::empty(),
        },
        ValueView::Bool(b) => match b {
            Some(x) => seq![spec_segment(path, spec_bool_token(x))],
            None => Seq::empty(),
        },
        ValueView::Arr(a) => match a {
            Some(elems) => spec_arr_segments(path, elems, elems.len() as int),
            None => Seq::empty(),
        },
    }
}

/// The segments of the first `j` elements of an array under `path`.
pub open spec fn spec_arr_segments(path: Seq<char>, elems: Seq<ValueView>, j: int) -> Seq<
    Seq<char>,
>
    decreases elems, j,
{
    if 0 < j && j <= elems.len() {
        spec_arr_segments(path, elems, j - 1) + spec_value_segments(
            elem_path(path, (j - 1) as nat),
            elems[j - 1],
        )
    } else {
        Seq::empty()
    }
}

/// The segments of one filter condition at index `i`: its operator token,
/// its attribute, then the segments of its operand, if any.
pub open spec fn spec_one_where(i: nat, w: WhereView) -> Seq<Seq<char>> {
    seq![
        spec_segment(elem_path("where"@, i) + "[type]"@, spec_filter_token(w.filter_type)),
        spec_segment(elem_path("where"@, i) + "[attribute]"@, w.attribute),
    ] + match w.value {
        Some(v) => spec_value_segments(elem_path("where"@, i) + "[value]"@, v),
        None => Seq::empty(),
    }
}

/// The segments of the first `j` filter conditions, in list order.
pub open spec fn spec_where_segments(ws: Seq<WhereView>, j: int) -> Seq<Seq<char>>
    decreases j,
{
    if 0 < j && j <= ws.len() {
        spec_where_segments(ws, j - 1) + spec_one_where((j - 1) as nat, ws[j - 1])
    } else {
        Seq::empty()
    }
}

/// The segments of the first `j` boolean filter names, each rendered as
/// `boolFilterList[i]=name`.
pub open spec fn spec_bool_filter_segments(l: Seq<Seq<char>>, j: int) -> Seq<Seq<char>>
    decreases j,
{
    if 0 < j && j <= l.len() {
        spec_bool_filter_segments(l, j - 1) + seq![
            spec_segment(elem_path("boolFilterList"@, (j - 1) as nat), l[j - 1]),
        ]
    } else {
        Seq::empty()
    }
}

/// Segments of the `select` field, if present.
pub open spec fn select_part(p: ParamsView) -> Seq<Seq<char>> {
    match p.select {
        Some(s) => seq![spec_segment("select"@, s)],
        None => Seq::empty(),
    }
}

/// Segments of the `orderBy` field, if present.
pub open spec fn order_by_part(p: ParamsView) -> Seq<Seq<char>> {
    match p.order_by {
        Some(s) => seq![spec_segment("orderBy"@, s)],
        None => Seq::empty(),
    }
}

/// Segments of the `order` field, if present.
pub open spec fn order_part(p: ParamsView) -> Seq<Seq<char>> {
    match p.order {
        Some(o) => seq![spec_segment("order"@, spec_order_token(o))],
        None => Seq::empty(),
    }
}

/// Segments of the `offset` field, if present.
pub open spec fn offset_part(p: ParamsView) -> Seq<Seq<char>> {
    match p.offset {
        Some(n) => seq![spec_segment("offset"@, dec_int(n))],
        None => Seq::empty(),
    }
}

/// Segments of the `boolFilterList` field, if present.
pub open spec fn bool_filter_part(p: ParamsView) -> Seq<Seq<char>> {
    match p.bool_filter_list {
        Some(l) => spec_bool_filter_segments(l, l.len() as int),
        None => Seq::empty(),
    }
}

/// Segments of the `maxSize` field, if present.
pub open spec fn max_size_part(p: ParamsView) -> Seq<Seq<char>> {
    match p.max_size {
        Some(n) => seq![spec_segment("maxSize"@, dec_int(n))],
        None => Seq::empty(),
    }
}

/// Segments of the `primaryFilter` field, if present.
pub open spec fn primary_filter_part(p: ParamsView) -> Seq<Seq<char>> {
    match p.primary_filter {
        Some(s) => seq![spec_segment("primaryFilter"@, s)],
        None => Seq::empty(),
    }
}

/// Segments of the `where` field, if present.
pub open spec fn where_part(p: ParamsView) -> Seq<Seq<char>> {
    match p.where_list {
        Some(ws) => spec_where_segments(ws, ws.len() as int),
        None => Seq::empty(),
    }
}

/// All segments of a parameter bag, in emission order.
pub open spec fn spec_segments(p: ParamsView) -> Seq<Seq<char>> {
    select_part(p) + order_by_part(p) + order_part(p) + offset_part(p) + bool_filter_part(p)
        + max_size_part(p) + primary_filter_part(p) + where_part(p)
}

/// The serialized form of a parameter bag: its segments joined with `&`.
pub open spec fn spec_serialize(p: ParamsView) -> Seq<char> {
    join_amp(spec_segments(p))
}

/// Law: a parameter bag with every field absent serializes to the empty
/// string.
pub proof fn lemma_serialize_empty_params()
    ensures
        spec_serialize(ParamsView::empty()) == Seq::<char>::empty(),
{
    assert(spec_segments(ParamsView::empty()) =~= Seq::<Seq<char>>::empty());
}

/// Law: fields are emitted in exactly this order: `select`, `orderBy`,
/// `order`, `offset`, `boolFilterList`, `maxSize`, `primaryFilter`, `where`.
pub proof fn lemma_field_emission_order(p: ParamsView)
    ensures
        spec_segments(p) == select_part(p) + order_by_part(p) + order_part(p) + offset_part(p)
            + bool_filter_part(p) + max_size_part(p) + primary_filter_part(p) + where_part(p),
{
}

/// The builder and the ghost list of segments emitted so far agree: the
/// builder holds their `&`-join, every emitted segment is non-empty, and the
/// builder is empty exactly when nothing was emitted.
pub open spec fn segs_ok(builder: Seq<char>, emitted: Seq<Seq<char>>) -> bool {
    builder == join_amp(emitted) && (forall|i: int|
        0 <= i < emitted.len() ==> (#[trigger] emitted[i]).len() > 0) && (emitted.len() == 0
        <==> builder.len() == 0)
}

proof fn lemma_join_push(parts: Seq<Seq<char>>, s: Seq<char>)
    ensures
        join_amp(parts.push(s)) == (if parts.len() == 0 {
            s
        } else {
            join_amp(parts) + seq!['&'] + s
        }),
{
    let q = parts.push(s);
    assert(q.drop_last() =~= parts);
    if parts.len() == 0 {
        assert(join_amp(q) == q[0]);
    }
}

fn make_segment(key: &str, value: &str) -> (r: String)
    ensures
        r@ == spec_segment(key@, value@),
        r@.len() > 0,
{
    let ek = url_encode(key);
    let ev = url_encode(value);
    let r = ek.concat("=").concat(ev.as_str());
    proof {
        reveal_strlit("=");
        assert(r@ =~= spec_segment(key@, value@));
    }
    r
}

fn push_segment(builder: &mut String, emitted: Ghost<Seq<Seq<char>>>, seg: &str) -> (r: Ghost<
    Seq<Seq<char>>,
>)
    requires
        segs_ok(old(builder)@, emitted@),
        seg@.len() > 0,
    ensures
        r@ == emitted@.push(seg@),
        segs_ok(final(builder)@, r@),
{
    if !builder.as_str().is_empty() {
        builder.append("&");
    }
    builder.append(seg);
    proof {
        reveal_strlit("&");
        lemma_join_push(emitted@, seg@);
        assert("&"@ =~= seq!['&']);
        assert(builder@ == join_amp(emitted@.push(seg@)));
    }
    Ghost(emitted@.push(seg@))
}

fn scalar_string(v: &Value) -> (r: String)
    requires
        v@.wf(),
        !(v@ is Arr),
    ensures
        r@ == spec_scalar(v@),
{
    match v {
        Value::String(s) => match s {
            Some(x) => x.clone(),
            None => String::new(),
        },
        Value::Integer(n) => match n {
            Some(x) => i64_to_dec(*x),
            None => String::new(),
        },
        Value::Boolean(b) => match b {
            Some(x) => if *x {
                String::from_str("true")
            } else {
                String::from_str("false")
            },
            None => String::new(),
        },
        Value::Array(_) => String::new(),
    }
}

#[verifier::loop_isolation(false)]
fn render_value(builder: &mut String, emitted: Ghost<Seq<Seq<char>>>, path: &str, v: &Value) -> (r:
    Ghost<Seq<Seq<char>>>)
    requires
        v@.wf(),
        segs_ok(old(builder)@, emitted@),
    ensures
        r@ == emitted@ + spec_value_segments(path@, v@),
        segs_ok(final(builder)@, r@),
    decreases v,
{
    match v {
        Value::Array(a) => {
            if let Some(elems) = a {
                let mut em = emitted;
                let n = elems.len();
                assert(em@ =~= emitted@ + spec_arr_segments(path@, value_views(elems@), 0));
                for j in 0..n
                    invariant
                        n == elems.len(),
                        v@ == ValueView::Arr(Some(value_views(elems@))),
                        v@.wf(),
                        segs_ok(builder@, em@),
                        em@ == emitted@ + spec_arr_segments(path@, value_views(elems@), j as int),
                    decreases n - j,
                {
                    let idx = u64_to_dec(j as u64);
                    let child = String::from_str(path).concat("[").concat(idx.as_str()).concat(
                        "]",
                    );
                    proof {
                        assert(child@ =~= elem_path(path@, j as nat));
                        assert(value_views(elems@).len() == elems@.len());
                        assert(value_views(elems@)[j as int] == elems@[j as int]@);
                        assert(all_wf(value_views(elems@)));
                        lemma_all_wf_index(value_views(elems@), j as int);
                        assert(elems@[j as int]@.wf());
                        assert(decreases_to!(v => *elems));
                        assert(decreases_to!(v => elems@[j as int]));
                    }
                    em = render_value(builder, em, child.as_str(), &elems[j]);
                    proof {
                        assert(em@ =~= emitted@ + spec_arr_segments(
                            path@,
                            value_views(elems@),
                            j as int + 1,
                        ));
                    }
                }
                proof {
                    assert(spec_value_segments(path@, v@) == spec_arr_segments(
                        path@,
                        value_views(elems@),
                        value_views(elems@).len() as int,
                    ));
                    assert(value_views(elems@).len() == n);
                }
                em
            } else {
                proof {
                    assert(false);
                }
                emitted
            }
        },
        _ => {
            let s = scalar_string(v);
            let seg = make_segment(path, s.as_str());
            let r = push_segment(builder, emitted, seg.as_str());
            proof {
                assert(r@ =~= emitted@ + spec_value_segments(path@, v@));
            }
            r
        },
    }
}

fn emit_select(builder: &mut String, emitted: Ghost<Seq<Seq<char>>>, input: &Params) -> (r:
    Ghost<Seq<Seq<char>>>)
    requires
        segs_ok(old(builder)@, emitted@),
    ensures
        r@ == emitted@ + select_part(input@),
        segs_ok(final(builder)@, r@),
{
    let mut em = emitted;
    if let Some(select) = &input.select {
        let seg = make_segment("select", select.as_str());
        em = push_segment(builder, em, seg.as_str());
    }
    proof {
        assert(em@ =~= emitted@ + select_part(input@));
    }
    em
}

fn emit_order_by(builder: &mut String, emitted: Ghost<Seq<Seq<char>>>, input: &Params) -> (r:
    Ghost<Seq<Seq<char>>>)
    requires
        segs_ok(old(builder)@, emitted@),
    ensures
        r@ == emitted@ + order_by_part(input@),
        segs_ok(final(builder)@, r@),
{
    let mut em = emitted;
    if let Some(order_by) = &input.order_by {
        let seg = make_segment("orderBy", order_by.as_str());
        em = push_segment(builder, em, seg.as_str());
    }
    proof {
        assert(em@ =~= emitted@ + order_by_part(input@));
    }
    em
}

fn emit_order(builder: &mut String, emitted: Ghost<Seq<Seq<char>>>, input: &Params) -> (r: Ghost<
    Seq<Seq<char>>,
>)
    requires
        segs_ok(old(builder)@, emitted@),
    ensures
        r@ == emitted@ + order_part(input@),
        segs_ok(final(builder)@, r@),
{
    let mut em = emitted;
    if let Some(order) = &input.order {
        let seg = make_segment("order", order.token());
        em = push_segment(builder, em, seg.as_str());
    }
    proof {
        assert(em@ =~= emitted@ + order_part(input@));
    }
    em
}

fn emit_offset(builder: &mut String, emitted: Ghost<Seq<Seq<char>>>, input: &Params) -> (r: Ghost<
    Seq<Seq<char>>,
>)
    requires
        segs_ok(old(builder)@, emitted@),
    ensures
        r@ == emitted@ + offset_part(input@),
        segs_ok(final(builder)@, r@),
{
    let mut em = emitted;
    if let Some(offset) = input.offset {
        let text = i64_to_dec(offset);
        let seg = make_segment("offset", text.as_str());
        em = push_segment(builder, em, seg.as_str());
    }
    proof {
        assert(em@ =~= emitted@ + offset_part(input@));
    }
    em
}

#[verifier::loop_isolation(false)]
fn emit_bool_filter_list(builder: &mut String, emitted: Ghost<Seq<Seq<char>>>, input: &Params) -> (r:
    Ghost<Seq<Seq<char>>>)
    requires
        segs_ok(old(builder)@, emitted@),
    ensures
        r@ == emitted@ + bool_filter_part(input@),
        segs_ok(final(builder)@, r@),
{
    let mut em = emitted;
    if let Some(list) = &input.bool_filter_list {
        let n = list.len();
        for j in 0..n
            invariant
                segs_ok(builder@, em@),
                em@ == emitted@ + spec_bool_filter_segments(list.deep_view(), j as int),
        {
            let idx = u64_to_dec(j as u64);
            let key = String::from_str("boolFilterList").concat("[").concat(idx.as_str()).concat(
                "]",
            );
            proof {
                assert(key@ =~= elem_path("boolFilterList"@, j as nat));
                assert(list.deep_view()[j as int] == list@[j as int]@);
            }
            let seg = make_segment(key.as_str(), list[j].as_str());
            em = push_segment(builder, em, seg.as_str());
            proof {
                assert(em@ =~= emitted@ + spec_bool_filter_segments(
                    list.deep_view(),
                    j as int + 1,
                ));
            }
        }
    }
    proof {
        assert(em@ =~= emitted@ + bool_filter_part(input@));
    }
    em
}

fn emit_max_size(builder: &mut String, emitted: Ghost<Seq<Seq<char>>>, input: &Params) -> (r:
    Ghost<Seq<Seq<char>>>)
    requires
        segs_ok(old(builder)@, emitted@),
    ensures
        r@ == emitted@ + max_size_part(input@),
        segs_ok(final(builder)@, r@),
{
    let mut em = emitted;
    if let Some(max_size) = input.max_size {
        let text = i64_to_dec(max_size);
        let seg = make_segment("maxSize", text.as_str());
        em = push_segment(builder, em, seg.as_str());
    }
    proof {
        assert(em@ =~= emitted@ + max_size_part(input@));
    }
    em
}

fn emit_primary_filter(builder: &mut String, emitted: Ghost<Seq<Seq<char>>>, input: &Params) -> (r:
    Ghost<Seq<Seq<char>>>)
    requires
        segs_ok(old(builder)@, emitted@),
    ensures
        r@ == emitted@ + primary_filter_part(input@),
        segs_ok(final(builder)@, r@),
{
    let mut em = emitted;
    if let Some(primary_filter) = &input.primary_filter {
        let seg = make_segment("primaryFilter", primary_filter.as_str());
        em = push_segment(builder, em, seg.as_str());
    }
    proof {
        assert(em@ =~= emitted@ + primary_filter_part(input@));
    }
    em
}

fn emit_one_where(builder: &mut String, emitted: Ghost<Seq<Seq<char>>>, i: usize, w: &Where) -> (r:
    Ghost<Seq<Seq<char>>>)
    requires
        segs_ok(old(builder)@, emitted@),
        w@.wf(),
    ensures
        r@ == emitted@ + spec_one_where(i as nat, w@),
        segs_ok(final(builder)@, r@),
{
    let idx = u64_to_dec(i as u64);
    let base = String::from_str("where").concat("[").concat(idx.as_str()).concat("]");
    proof {
        assert(base@ =~= elem_path("where"@, i as nat));
    }
    let mut em = emitted;
    let tkey = base.clone().concat("[type]");
    let seg = make_segment(tkey.as_str(), w.filter_type.token());
    em = push_segment(builder, em, seg.as_str());
    let akey = base.clone().concat("[attribute]");
    let seg2 = make_segment(akey.as_str(), w.attribute.as_str());
    em = push_segment(builder, em, seg2.as_str());
    if let Some(val) = &w.value {
        let vkey = base.clone().concat("[value]");
        proof {
            assert(vkey@ =~= elem_path("where"@, i as nat) + "[value]"@);
        }
        em = render_value(builder, em, vkey.as_str(), val);
    }
    proof {
        assert(em@ =~= emitted@ + spec_one_where(i as nat, w@));
    }
    em
}

#[verifier::loop_isolation(false)]
fn emit_where_list(builder: &mut String, emitted: Ghost<Seq<Seq<char>>>, input: &Params) -> (r:
    Ghost<Seq<Seq<char>>>)
    requires
        segs_ok(old(builder)@, emitted@),
        input@.wf(),
    ensures
        r@ == emitted@ + where_part(input@),
        segs_ok(final(builder)@, r@),
{
    let mut em = emitted;
    if let Some(ws) = &input.where_list {
        let n = ws.len();
        for i in 0..n
            invariant
                segs_ok(builder@, em@),
                em@ == emitted@ + spec_where_segments(where_views(ws@), i as int),
        {
            let w = &ws[i];
            proof {
                assert(where_views(ws@).len() == ws@.len());
                assert(where_views(ws@)[i as int] == ws@[i as int]@);
                assert(all_where_wf(where_views(ws@)));
                lemma_all_where_wf_index(where_views(ws@), i as int);
                assert(w@.wf());
            }
            em = emit_one_where(builder, em, i, w);
            proof {
                assert(em@ =~= emitted@ + spec_where_segments(where_views(ws@), i as int + 1));
            }
        }
    }
    proof {
        assert(em@ =~= emitted@ + where_part(input@));
    }
    em
}

/// Renders a parameter bag into a query string.
///
/// The result is always `Ok`: the fields present in `input` are rendered in
/// the fixed field order, percent-encoded, and joined with `&`; a bag with
/// every field absent yields the empty string.
pub fn serialize(input: Params) -> (r: Result<String, &'static str>)
    requires
        input@.wf(),
    ensures
        (r matches Ok(s) && s@ == spec_serialize(input@)),
{
    let mut builder = String::new();
    let mut em: Ghost<Seq<Seq<char>>> = Ghost(Seq::empty());
    proof {
        assert(segs_ok(builder@, em@));
    }
    em = emit_select(&mut builder, em, &input);
    em = emit_order_by(&mut builder, em, &input);
    em = emit_order(&mut builder, em, &input);
    em = emit_offset(&mut builder, em, &input);
    em = emit_bool_filter_list(&mut builder, em, &input);
    em = emit_max_size(&mut builder, em, &input);
    em = emit_primary_filter(&mut builder, em, &input);
    em = emit_where_list(&mut builder, em, &input);
    proof {
        assert(em@ =~= spec_segments(input@));
    }
    Ok(builder)
}

} // verus!
