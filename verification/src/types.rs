//! The filter data model: values, filter conditions, and the query
//! parameter bag.

use vstd::prelude::*;

verus! {

use vstd::string::StringExecFns;

broadcast use vstd::seq::group_seq_axioms, vstd::std_specs::vec::group_vec_axioms;

/// A scalar or ordered-array value carried by a filter condition.
///
/// Each variant holds its payload behind an `Option`; a filter value is only
/// serialized when every payload along the way is present (see
/// [`ValueView::wf`]).
#[derive(Debug, PartialEq, Eq)]
pub enum Value {
    String(Option<String>),
    Array(Option<Vec<Value>>),
    Integer(Option<i64>),
    Boolean(Option<bool>),
}

/// The mathematical model of a [`Value`].
pub enum ValueView {
    Str(Option<Seq<char>>),
    Arr(Option<Seq<ValueView>>),
    Int(Option<int>),
    Bool(Option<bool>),
}

impl View for Value {
    type V = ValueView;

    open spec fn view(&self) -> ValueView
        decreases self,
    {
        match self {
            Value::String(s) => ValueView::Str(
                match s {
                    Some(x) => Some(x@),
                    None => None,
                },
            ),
            Value::Array(a) => ValueView::Arr(
                match a {
                    Some(v) => Some(value_views(v@)),
                    None => None,
                },
            ),
            Value::Integer(n) => ValueView::Int(
                match n {
                    Some(x) => Some(*x as int),
                    None => None,
                },
            ),
            Value::Boolean(b) => ValueView::Bool(
                match b {
                    Some(x) => Some(*x),
                    None => None,
                },
            ),
        }
    }
}

/// Every value of the sequence is well formed.
pub open spec fn all_wf(elems: Seq<ValueView>) -> bool
    decreases elems, 1int,
{
    elems.len() == 0 || (elems.first().wf() && all_wf(elems.drop_first()))
}

/// Each element of a well-formed sequence is well formed.
pub proof fn lemma_all_wf_index(elems: Seq<ValueView>, i: int)
    requires
        all_wf(elems),
        0 <= i < elems.len(),
    ensures
        elems[i].wf(),
    decreases i,
{
    if i > 0 {
        lemma_all_wf_index(elems.drop_first(), i - 1);
        assert(elems.drop_first()[i - 1] == elems[i]);
    }
}

/// A sequence whose every element is well formed is well formed.
pub proof fn lemma_all_wf_intro(elems: Seq<ValueView>)
    requires
        forall|i: int| 0 <= i < elems.len() ==> (#[trigger] elems[i]).wf(),
    ensures
        all_wf(elems),
    decreases elems.len(),
{
    if elems.len() > 0 {
        assert(elems[0].wf());
        assert forall|i: int| 0 <= i < elems.drop_first().len() implies (#[trigger] elems.drop_first()[
            i
        ]).wf() by {
            assert(elems.drop_first()[i] == elems[i + 1]);
        }
        lemma_all_wf_intro(elems.drop_first());
    }
}

/// The views of a sequence of values, element by element.
pub open spec fn value_views(vs: Seq<Value>) -> Seq<ValueView>
    decreases vs,
{
    Seq::new(vs.len(), |i: int| if 0 <= i < vs.len() { vs[i]@ } else { arbitrary() })
}

impl ValueView {
    /// A value is well formed when every payload is present, recursively.
    pub open spec fn wf(self) -> bool
        decreases self, 0int,
    {
        match self {
            ValueView::Str(s) => s is Some,
            ValueView::Arr(a) => match a {
                Some(elems) => all_wf(elems),
                None => false,
            },
            ValueView::Int(n) => n is Some,
            ValueView::Bool(b) => b is Some,
        }
    }

    /// Whether two values carry the same variant tag, payloads aside.
    pub open spec fn same_variant(self, other: ValueView) -> bool {
        match (self, other) {
            (ValueView::Str(_), ValueView::Str(_)) => true,
            (ValueView::Arr(_), ValueView::Arr(_)) => true,
            (ValueView::Int(_), ValueView::Int(_)) => true,
            (ValueView::Bool(_), ValueView::Bool(_)) => true,
            _ => false,
        }
    }
}

impl Value {
    /// Compares two values by variant tag only, never by payload.
    pub fn eq(&self, b: &Value) -> (r: bool)
        ensures
            r == self@.same_variant(b@),
    {
        match (self, b) {
            (Value::String(_), Value::String(_)) => true,
            (Value::Array(_), Value::Array(_)) => true,
            (Value::Integer(_), Value::Integer(_)) => true,
            (Value::Boolean(_), Value::Boolean(_)) => true,
            _ => false,
        }
    }

    /// A present string value.
    pub fn string(v: String) -> (r: Self)
        ensures
            r@ == ValueView::Str(Some(v@)),
    {
        Value::String(Some(v))
    }

    /// A present string value, from a borrowed string.
    pub fn str(v: &str) -> (r: Self)
        ensures
            r@ == ValueView::Str(Some(v@)),
    {
        Value::String(Some(String::from_str(v)))
    }

    /// A present array value.
    pub fn array(v: Vec<Value>) -> (r: Self)
        ensures
            r@ == ValueView::Arr(Some(value_views(v@))),
    {
        Value::Array(Some(v))
    }

    /// A present integer value.
    pub fn integer(v: i64) -> (r: Self)
        ensures
            r@ == ValueView::Int(Some(v as int)),
    {
        Value::Integer(Some(v))
    }

    /// A present boolean value.
    pub fn bool(v: bool) -> (r: Self)
        ensures
            r@ == ValueView::Bool(Some(v)),
    {
        Value::Boolean(Some(v))
    }

    /// Whether every payload in this value is present, recursively.
    #[verifier::loop_isolation(false)]
    pub fn is_well_formed(&self) -> (b: bool)
        ensures
            b == self@.wf(),
        decreases self,
    {
        match self {
            Value::String(s) => s.is_some(),
            Value::Integer(n) => n.is_some(),
            Value::Boolean(b) => b.is_some(),
            Value::Array(a) => match a {
                Some(elems) => {
                    let n = elems.len();
                    for j in 0..n
                        invariant
                            forall|k: int|
                                0 <= k < j ==> (#[trigger] value_views(elems@)[k]).wf(),
                    {
                        if !elems[j].is_well_formed() {
                            proof {
                                assert(value_views(elems@)[j as int] == elems@[j as int]@);
                                if all_wf(value_views(elems@)) {
                                    lemma_all_wf_index(value_views(elems@), j as int);
                                }
                            }
                            return false;
                        }
                        proof {
                            assert(value_views(elems@)[j as int] == elems@[j as int]@);
                        }
                    }
                    proof {
                        lemma_all_wf_intro(value_views(elems@));
                    }
                    true
                },
                None => false,
            },
        }
    }
}

/// Sort direction for the `order` parameter.
#[derive(Clone, Debug, PartialEq, Eq)]
pub enum Order {
    Asc,
    Desc,
}

/// The wire token of a sort direction.
pub open spec fn spec_order_token(o: Order) -> Seq<char> {
    match o {
        Order::Asc => "asc"@,
        Order::Desc => "desc"@,
    }
}

impl Order {
    /// The wire token of this sort direction: `asc` or `desc`.
    pub fn token(&self) -> (r: &'static str)
        ensures
            r@ == spec_order_token(*self),
    {
        match self {
            Order::Asc => "asc",
            Order::Desc => "desc",
        }
    }
}

/// The closed set of filter operators.
///
/// Each variant maps to exactly one wire token: its own name with the first
/// character lowercased (see [`FilterType::token`]).
#[derive(Clone, Debug, PartialEq, Eq)]
pub enum FilterType {
    Equals,
    NotEquals,
    GreaterThan,
    LessThan,
    GreaterThanOrEquals,
    LessThanOrEquals,
    IsNull,
    IsNotNull,
    IsTrue,
    IsFalse,
    LinkedWith,
    NotLinkedWith,
    IsLinked,
    IsNotLinked,
    In,
    NotIn,
    Contains,
    NotContains,
    StartsWith,
    EndsWith,
    Like,
    NotLike,
    Or,
    AndToday,
    Past,
    Future,
    LastSevenDays,
    CurrentMonth,
    LastMonth,
    NextMonth,
    CurrentQuarter,
    LastQuarter,
    CurrentYear,
    LastYear,
    CurrentFiscalYear,
    LastFiscalYear,
    CurrentFiscalQuarter,
    LastFiscalQuarter,
    LastXDays,
    NextXDays,
    OlderThanXDays,
    AfterXDays,
    Between,
    ArrayAnyOf,
    ArrayNoneOf,
    ArrayAllOf,
    ArrayIsEmpty,
    ArrayIsNotEmpty,
}

/// The wire token of each filter operator: the variant name in lowerCamelCase.
pub open spec fn spec_filter_token(t: FilterType) -> Seq<char> {
    match t {
        FilterType::Equals => "equals"@,
        FilterType::NotEquals => "notEquals"@,
        FilterType::GreaterThan => "greaterThan"@,
        FilterType::LessThan => "lessThan"@,
        FilterType::GreaterThanOrEquals => "greaterThanOrEquals"@,
        FilterType::LessThanOrEquals => "lessThanOrEquals"@,
        FilterType::IsNull => "isNull"@,
        FilterType::IsNotNull => "isNotNull"@,
        FilterType::IsTrue => "isTrue"@,
        FilterType::IsFalse => "isFalse"@,
        FilterType::LinkedWith => "linkedWith"@,
        FilterType::NotLinkedWith => "notLinkedWith"@,
        FilterType::IsLinked => "isLinked"@,
        FilterType::IsNotLinked => "isNotLinked"@,
        FilterType::In => "in"@,
        FilterType::NotIn => "notIn"@,
        FilterType::Contains => "contains"@,
        FilterType::NotContains => "notContains"@,
        FilterType::StartsWith => "startsWith"@,
        FilterType::EndsWith => "endsWith"@,
        FilterType::Like => "like"@,
        FilterType::NotLike => "notLike"@,
        FilterType::Or => "or"@,
        FilterType::AndToday => "andToday"@,
        FilterType::Past => "past"@,
        FilterType::Future => "future"@,
        FilterType::LastSevenDays => "lastSevenDays"@,
        FilterType::CurrentMonth => "currentMonth"@,
        FilterType::LastMonth => "lastMonth"@,
        FilterType::NextMonth => "nextMonth"@,
        FilterType::CurrentQuarter => "currentQuarter"@,
        FilterType::LastQuarter => "lastQuarter"@,
        FilterType::CurrentYear => "currentYear"@,
        FilterType::LastYear => "lastYear"@,
        FilterType::CurrentFiscalYear => "currentFiscalYear"@,
        FilterType::LastFiscalYear => "lastFiscalYear"@,
        FilterType::CurrentFiscalQuarter => "currentFiscalQuarter"@,
        FilterType::LastFiscalQuarter => "lastFiscalQuarter"@,
        FilterType::LastXDays => "lastXDays"@,
        FilterType::NextXDays => "nextXDays"@,
        FilterType::OlderThanXDays => "olderThanXDays"@,
        FilterType::AfterXDays => "afterXDays"@,
        FilterType::Between => "between"@,
        FilterType::ArrayAnyOf => "arrayAnyOf"@,
        FilterType::ArrayNoneOf => "arrayNoneOf"@,
        FilterType::ArrayAllOf => "arrayAllOf"@,
        FilterType::ArrayIsEmpty => "arrayIsEmpty"@,
        FilterType::ArrayIsNotEmpty => "arrayIsNotEmpty"@,
    }
}

impl FilterType {
    /// The wire token of this operator: its name in lowerCamelCase.
    pub fn token(&self) -> (r: &'static str)
        ensures
            r@ == spec_filter_token(*self),
    {
        match self {
            FilterType::Equals => "equals",
            FilterType::NotEquals => "notEquals",
            FilterType::GreaterThan => "greaterThan",
            FilterType::LessThan => "lessThan",
            FilterType::GreaterThanOrEquals => "greaterThanOrEquals",
            FilterType::LessThanOrEquals => "lessThanOrEquals",
            FilterType::IsNull => "isNull",
            FilterType::IsNotNull => "isNotNull",
            FilterType::IsTrue => "isTrue",
            FilterType::IsFalse => "isFalse",
            FilterType::LinkedWith => "linkedWith",
            FilterType::NotLinkedWith => "notLinkedWith",
            FilterType::IsLinked => "isLinked",
            FilterType::IsNotLinked => "isNotLinked",
            FilterType::In => "in",
            FilterType::NotIn => "notIn",
            FilterType::Contains => "contains",
            FilterType::NotContains => "notContains",
            FilterType::StartsWith => "startsWith",
            FilterType::EndsWith => "endsWith",
            FilterType::Like => "like",
            FilterType::NotLike => "notLike",
            FilterType::Or => "or",
            FilterType::AndToday => "andToday",
            FilterType::Past => "past",
            FilterType::Future => "future",
            FilterType::LastSevenDays => "lastSevenDays",
            FilterType::CurrentMonth => "currentMonth",
            FilterType::LastMonth => "lastMonth",
            FilterType::NextMonth => "nextMonth",
            FilterType::CurrentQuarter => "currentQuarter",
            FilterType::LastQuarter => "lastQuarter",
            FilterType::CurrentYear => "currentYear",
            FilterType::LastYear => "lastYear",
            FilterType::CurrentFiscalYear => "currentFiscalYear",
            FilterType::LastFiscalYear => "lastFiscalYear",
            FilterType::CurrentFiscalQuarter => "currentFiscalQuarter",
            FilterType::LastFiscalQuarter => "lastFiscalQuarter",
            FilterType::LastXDays => "lastXDays",
            FilterType::NextXDays => "nextXDays",
            FilterType::OlderThanXDays => "olderThanXDays",
            FilterType::AfterXDays => "afterXDays",
            FilterType::Between => "between",
            FilterType::ArrayAnyOf => "arrayAnyOf",
            FilterType::ArrayNoneOf => "arrayNoneOf",
            FilterType::ArrayAllOf => "arrayAllOf",
            FilterType::ArrayIsEmpty => "arrayIsEmpty",
            FilterType::ArrayIsNotEmpty => "arrayIsNotEmpty",
        }
    }
}


/// The length and three fixed characters of a token: enough to tell every
/// operator token from every other.
pub open spec fn token_key(s: Seq<char>) -> (int, char, char, char) {
    (
        s.len() as int,
        if s.len() > 0 {
            s[0]
        } else {
            ' '
        },
        if s.len() > 2 {
            s[2]
        } else {
            ' '
        },
        if s.len() > 7 {
            s[7]
        } else {
            ' '
        },
    )
}

/// The key of each operator's token, written out.
pub open spec fn spec_filter_token_key(t: FilterType) -> (int, char, char, char) {
    match t {
        FilterType::Equals => (6, 'e', 'u', ' '),
        FilterType::NotEquals => (9, 'n', 't', 'l'),
        FilterType::GreaterThan => (11, 'g', 'e', 'T'),
        FilterType::LessThan => (8, 'l', 's', 'n'),
        FilterType::GreaterThanOrEquals => (19, 'g', 'e', 'T'),
        FilterType::LessThanOrEquals => (16, 'l', 's', 'n'),
        FilterType::IsNull => (6, 'i', 'N', ' '),
        FilterType::IsNotNull => (9, 'i', 'N', 'l'),
        FilterType::IsTrue => (6, 'i', 'T', ' '),
        FilterType::IsFalse => (7, 'i', 'F', ' '),
        FilterType::LinkedWith => (10, 'l', 'n', 'i'),
        FilterType::NotLinkedWith => (13, 'n', 't', 'e'),
        FilterType::IsLinked => (8, 'i', 'L', 'd'),
        FilterType::IsNotLinked => (11, 'i', 'N', 'n'),
        FilterType::In => (2, 'i', ' ', ' '),
        FilterType::NotIn => (5, 'n', 't', ' '),
        FilterType::Contains => (8, 'c', 'n', 's'),
        FilterType::NotContains => (11, 'n', 't', 'a'),
        FilterType::StartsWith => (10, 's', 'a', 'i'),
        FilterType::EndsWith => (8, 'e', 'd', 'h'),
        FilterType::Like => (4, 'l', 'k', ' '),
        FilterType::NotLike => (7, 'n', 't', ' '),
        FilterType::Or => (2, 'o', ' ', ' '),
        FilterType::AndToday => (8, 'a', 'd', 'y'),
        FilterType::Past => (4, 'p', 's', ' '),
        FilterType::Future => (6, 'f', 't', ' '),
        FilterType::LastSevenDays => (13, 'l', 's', 'e'),
        FilterType::CurrentMonth => (12, 'c', 'r', 'M'),
        FilterType::LastMonth => (9, 'l', 's', 't'),
        FilterType::NextMonth => (9, 'n', 'x', 't'),
        FilterType::CurrentQuarter => (14, 'c', 'r', 'Q'),
        FilterType::LastQuarter => (11, 'l', 's', 'r'),
        FilterType::CurrentYear => (11, 'c', 'r', 'Y'),
        FilterType::LastYear => (8, 'l', 's', 'r'),
        FilterType::CurrentFiscalYear => (17, 'c', 'r', 'F'),
        FilterType::LastFiscalYear => (14, 'l', 's', 'c'),
        FilterType::CurrentFiscalQuarter => (20, 'c', 'r', 'F'),
        FilterType::LastFiscalQuarter => (17, 'l', 's', 'c'),
        FilterType::LastXDays => (9, 'l', 's', 'y'),
        FilterType::NextXDays => (9, 'n', 'x', 'y'),
        FilterType::OlderThanXDays => (14, 'o', 'd', 'a'),
        FilterType::AfterXDays => (10, 'a', 't', 'a'),
        FilterType::Between => (7, 'b', 't', ' '),
        FilterType::ArrayAnyOf => (10, 'a', 'r', 'y'),
        FilterType::ArrayNoneOf => (11, 'a', 'r', 'n'),
        FilterType::ArrayAllOf => (10, 'a', 'r', 'l'),
        FilterType::ArrayIsEmpty => (12, 'a', 'r', 'E'),
        FilterType::ArrayIsNotEmpty => (15, 'a', 'r', 'N'),
    }
}

/// The key of a token is as written in [`spec_filter_token_key`].
#[verifier::rlimit(100)]
#[verifier::spinoff_prover]
pub proof fn lemma_filter_token_key(t: FilterType)
    ensures
        token_key(spec_filter_token(t)) == spec_filter_token_key(t),
{
        reveal_strlit("equals");
        reveal_strlit("notEquals");
        reveal_strlit("greaterThan");
        reveal_strlit("lessThan");
        reveal_strlit("greaterThanOrEquals");
        reveal_strlit("lessThanOrEquals");
        reveal_strlit("isNull");
        reveal_strlit("isNotNull");
        reveal_strlit("isTrue");
        reveal_strlit("isFalse");
        reveal_strlit("linkedWith");
        reveal_strlit("notLinkedWith");
        reveal_strlit("isLinked");
        reveal_strlit("isNotLinked");
        reveal_strlit("in");
        reveal_strlit("notIn");
        reveal_strlit("contains");
        reveal_strlit("notContains");
        reveal_strlit("startsWith");
        reveal_strlit("endsWith");
        reveal_strlit("like");
        reveal_strlit("notLike");
        reveal_strlit("or");
        reveal_strlit("andToday");
        reveal_strlit("past");
        reveal_strlit("future");
        reveal_strlit("lastSevenDays");
        reveal_strlit("currentMonth");
        reveal_strlit("lastMonth");
        reveal_strlit("nextMonth");
        reveal_strlit("currentQuarter");
        reveal_strlit("lastQuarter");
        reveal_strlit("currentYear");
        reveal_strlit("lastYear");
        reveal_strlit("currentFiscalYear");
        reveal_strlit("lastFiscalYear");
        reveal_strlit("currentFiscalQuarter");
        reveal_strlit("lastFiscalQuarter");
        reveal_strlit("lastXDays");
        reveal_strlit("nextXDays");
        reveal_strlit("olderThanXDays");
        reveal_strlit("afterXDays");
        reveal_strlit("between");
        reveal_strlit("arrayAnyOf");
        reveal_strlit("arrayNoneOf");
        reveal_strlit("arrayAllOf");
        reveal_strlit("arrayIsEmpty");
        reveal_strlit("arrayIsNotEmpty");
}

/// Law: the operator-to-token mapping is injective: no two operators share a
/// wire token.
#[verifier::rlimit(100)]
#[verifier::spinoff_prover]
pub proof fn lemma_filter_token_injective(a: FilterType, b: FilterType)
    requires
        spec_filter_token(a) == spec_filter_token(b),
    ensures
        a == b,
{
    lemma_filter_token_key(a);
    lemma_filter_token_key(b);
    assert(spec_filter_token_key(a) == spec_filter_token_key(b));
}

/// One filter condition: an operator, the attribute it applies to, and an
/// optional operand.
#[derive(Debug, PartialEq, Eq)]
pub struct Where {
    pub filter_type: FilterType,
    pub attribute: String,
    pub value: Option<Value>,
}

/// The mathematical model of a [`Where`].
pub struct WhereView {
    pub filter_type: FilterType,
    pub attribute: Seq<char>,
    pub value: Option<ValueView>,
}

impl View for Where {
    type V = WhereView;

    open spec fn view(&self) -> WhereView {
        WhereView {
            filter_type: self.filter_type,
            attribute: self.attribute@,
            value: match self.value {
                Some(v) => Some(v@),
                None => None,
            },
        }
    }
}

impl WhereView {
    /// A condition is well formed when its operand, if present, is.
    pub open spec fn wf(self) -> bool {
        match self.value {
            Some(v) => v.wf(),
            None => true,
        }
    }
}

impl Where {
    /// Whether this condition's operand, if present, is well formed.
    pub fn is_well_formed(&self) -> (b: bool)
        ensures
            b == self@.wf(),
    {
        match &self.value {
            Some(v) => v.is_well_formed(),
            None => true,
        }
    }

    /// Builds a filter condition.
    pub fn new(filter_type: FilterType, attribute: &str, value: Option<Value>) -> (r: Self)
        ensures
            r@.filter_type == filter_type,
            r@.attribute == attribute@,
            r@.value == match value {
                Some(v) => Some(v@),
                None => None::<ValueView>,
            },
    {
        Where { filter_type, attribute: String::from_str(attribute), value }
    }
}

/// The views of a sequence of conditions, element by element.
pub open spec fn where_views(ws: Seq<Where>) -> Seq<WhereView> {
    Seq::new(ws.len(), |i: int| if 0 <= i < ws.len() { ws[i]@ } else { arbitrary() })
}

/// Every condition of the sequence is well formed.
pub open spec fn all_where_wf(ws: Seq<WhereView>) -> bool
    decreases ws.len(),
{
    ws.len() == 0 || (ws.first().wf() && all_where_wf(ws.drop_first()))
}

/// Each condition of a well-formed sequence is well formed.
pub proof fn lemma_all_where_wf_index(ws: Seq<WhereView>, i: int)
    requires
        all_where_wf(ws),
        0 <= i < ws.len(),
    ensures
        ws[i].wf(),
    decreases i,
{
    if i > 0 {
        lemma_all_where_wf_index(ws.drop_first(), i - 1);
        assert(ws.drop_first()[i - 1] == ws[i]);
    }
}

/// A sequence whose every condition is well formed is well formed.
pub proof fn lemma_all_where_wf_intro(ws: Seq<WhereView>)
    requires
        forall|i: int| 0 <= i < ws.len() ==> (#[trigger] ws[i]).wf(),
    ensures
        all_where_wf(ws),
    decreases ws.len(),
{
    if ws.len() > 0 {
        assert(ws[0].wf());
        assert forall|i: int| 0 <= i < ws.drop_first().len() implies (#[trigger] ws.drop_first()[
            i
        ]).wf() by {
            assert(ws.drop_first()[i] == ws[i + 1]);
        }
        lemma_all_where_wf_intro(ws.drop_first());
    }
}

/// The query parameter bag: every field independently optional; absent fields
/// are omitted entirely from serialization.
#[derive(Debug, PartialEq, Eq)]
pub struct Params {
    pub offset: Option<i64>,
    pub max_size: Option<i64>,
    pub select: Option<String>,
    pub where_list: Option<Vec<Where>>,
    pub primary_filter: Option<String>,
    pub bool_filter_list: Option<Vec<String>>,
    pub order: Option<Order>,
    pub order_by: Option<String>,
}

/// The mathematical model of a [`Params`].
pub struct ParamsView {
    pub offset: Option<int>,
    pub max_size: Option<int>,
    pub select: Option<Seq<char>>,
    pub where_list: Option<Seq<WhereView>>,
    pub primary_filter: Option<Seq<char>>,
    pub bool_filter_list: Option<Seq<Seq<char>>>,
    pub order: Option<Order>,
    pub order_by: Option<Seq<char>>,
}

impl View for Params {
    type V = ParamsView;

    open spec fn view(&self) -> ParamsView {
        ParamsView {
            offset: match self.offset {
                Some(n) => Some(n as int),
                None => None,
            },
            max_size: match self.max_size {
                Some(n) => Some(n as int),
                None => None,
            },
            select: match self.select {
                Some(s) => Some(s@),
                None => None,
            },
            where_list: match self.where_list {
                Some(ws) => Some(where_views(ws@)),
                None => None,
            },
            primary_filter: match self.primary_filter {
                Some(s) => Some(s@),
                None => None,
            },
            bool_filter_list: match self.bool_filter_list {
                Some(l) => Some(l.deep_view()),
                None => None,
            },
            order: self.order,
            order_by: match self.order_by {
                Some(s) => Some(s@),
                None => None,
            },
        }
    }
}

impl ParamsView {
    /// A parameter bag is well formed when every filter condition is.
    pub open spec fn wf(self) -> bool {
        match self.where_list {
            Some(ws) => all_where_wf(ws),
            None => true,
        }
    }

    /// The parameter bag with every field absent.
    pub open spec fn empty() -> ParamsView {
        ParamsView {
            offset: None,
            max_size: None,
            select: None,
            where_list: None,
            primary_filter: None,
            bool_filter_list: None,
            order: None,
            order_by: None,
        }
    }
}

impl Params {
    /// A parameter bag with every field absent.
    pub fn new() -> (r: Self)
        ensures
            r@ == ParamsView::empty(),
    {
        Params {
            offset: None,
            max_size: None,
            select: None,
            where_list: None,
            primary_filter: None,
            bool_filter_list: None,
            order: None,
            order_by: None,
        }
    }

    /// Sets the paging offset.
    pub fn set_offset(self, offset: i64) -> (r: Self)
        ensures
            r@ == (ParamsView { offset: Some(offset as int), ..self@ }),
    {
        Params { offset: Some(offset), ..self }
    }

    /// Sets the maximum number of records to return.
    pub fn set_max_size(self, max_size: i64) -> (r: Self)
        ensures
            r@ == (ParamsView { max_size: Some(max_size as int), ..self@ }),
    {
        Params { max_size: Some(max_size), ..self }
    }

    /// Sets the comma-joined attribute list to select.
    pub fn set_select(self, select: &str) -> (r: Self)
        ensures
            r@ == (ParamsView { select: Some(select@), ..self@ }),
    {
        Params { select: Some(String::from_str(select)), ..self }
    }

    /// Sets the ordered list of filter conditions.
    pub fn set_where(self, where_list: Vec<Where>) -> (r: Self)
        ensures
            r@ == (ParamsView { where_list: Some(where_views(where_list@)), ..self@ }),
    {
        Params { where_list: Some(where_list), ..self }
    }

    /// Sets the named server-side primary filter.
    pub fn set_primary_filter(self, primary_filter: &str) -> (r: Self)
        ensures
            r@ == (ParamsView { primary_filter: Some(primary_filter@), ..self@ }),
    {
        Params { primary_filter: Some(String::from_str(primary_filter)), ..self }
    }

    /// Sets the list of named boolean filter presets.
    pub fn set_bool_filter_list(self, bool_filter_list: Vec<String>) -> (r: Self)
        ensures
            r@ == (ParamsView { bool_filter_list: Some(bool_filter_list.deep_view()), ..self@ }),
    {
        Params { bool_filter_list: Some(bool_filter_list), ..self }
    }

    /// Sets the sort direction.
    pub fn set_order(self, order: Order) -> (r: Self)
        ensures
            r@ == (ParamsView { order: Some(order), ..self@ }),
    {
        Params { order: Some(order), ..self }
    }

    /// Sets the attribute to sort by.
    pub fn set_order_by(self, order_by: &str) -> (r: Self)
        ensures
            r@ == (ParamsView { order_by: Some(order_by@), ..self@ }),
    {
        Params { order_by: Some(String::from_str(order_by)), ..self }
    }

    /// Freezes the bag: the built value is the bag itself.
    pub fn build(self) -> (r: Self)
        ensures
            r == self,
    {
        self
    }

    /// Whether every filter condition in the bag is well formed, so that the
    /// bag can be serialized.
    #[verifier::loop_isolation(false)]
    pub fn is_well_formed(&self) -> (b: bool)
        ensures
            b == self@.wf(),
    {
        match &self.where_list {
            Some(ws) => {
                let n = ws.len();
                for i in 0..n
                    invariant
                        forall|k: int| 0 <= k < i ==> (#[trigger] where_views(ws@)[k]).wf(),
                {
                    if !ws[i].is_well_formed() {
                        proof {
                            assert(where_views(ws@)[i as int] == ws@[i as int]@);
                            if all_where_wf(where_views(ws@)) {
                                lemma_all_where_wf_index(where_views(ws@), i as int);
                            }
                        }
                        return false;
                    }
                    proof {
                        assert(where_views(ws@)[i as int] == ws@[i as int]@);
                    }
                }
                proof {
                    lemma_all_where_wf_intro(where_views(ws@));
                }
                true
            },
            None => true,
        }
    }
}

impl Default for Params {
    /// The same bag as [`Params::new`]: every field absent.
    fn default() -> (r: Self)
        ensures
            r@ == ParamsView::empty(),
    {
        Params::new()
    }
}

} // verus!
