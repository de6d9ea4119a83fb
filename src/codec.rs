//! Declarative codecs: which input shapes a type accepts, checked once when the
//! codec is built, and one router that every classifier dispatches through.

use vstd::prelude::*;
use crate::error::DecodeError;
use crate::node::{names, Node};
use crate::text::str_eq;

verus! {

/// An input shape that a codec may accept.
#[derive(Debug, Clone, Copy, PartialEq, Eq, Structural)]
pub enum Shape {
    Str,
    Bool,
    F64,
    I64,
    U64,
    Number,
    Mapping,
}

/// The shape that a `visit` entry names, if any.
pub open spec fn shape_named(v: Seq<char>) -> Option<Shape> {
    if v == "str"@ {
        Some(Shape::Str)
    } else if v == "map"@ {
        Some(Shape::Mapping)
    } else if v == "bool"@ {
        Some(Shape::Bool)
    } else if v == "f64"@ {
        Some(Shape::F64)
    } else if v == "i64"@ {
        Some(Shape::I64)
    } else if v == "u64"@ {
        Some(Shape::U64)
    } else if v == "number"@ {
        Some(Shape::Number)
    } else {
        None
    }
}

/// The shape that the `visit` entry `v` names, if any.
pub fn shape_of(v: &str) -> (r: Option<Shape>)
    ensures
        r == shape_named(v@),
{
    if str_eq(v, "str") {
        Some(Shape::Str)
    } else if str_eq(v, "map") {
        Some(Shape::Mapping)
    } else if str_eq(v, "bool") {
        Some(Shape::Bool)
    } else if str_eq(v, "f64") {
        Some(Shape::F64)
    } else if str_eq(v, "i64") {
        Some(Shape::I64)
    } else if str_eq(v, "u64") {
        Some(Shape::U64)
    } else if str_eq(v, "number") {
        Some(Shape::Number)
    } else {
        None
    }
}

/// Whether `v` names one of the predefined shapes.
pub fn predefined_visit(v: &str) -> (r: bool)
    ensures
        r == shape_named(v@) is Some,
{
    shape_of(v).is_some()
}

/// Which shapes a codec declares.
#[derive(Debug, Clone, Copy, PartialEq, Eq, Structural)]
pub struct Implementations {
    pub str_: bool,
    pub bool_: bool,
    pub f64_: bool,
    pub i64_: bool,
    pub u64_: bool,
    pub number: bool,
    pub map: bool,
}

/// Some entry of `visits` is `name`.
pub open spec fn declares(visits: Seq<Seq<char>>, name: Seq<char>) -> bool {
    exists|k: int| 0 <= k < visits.len() && visits[k] == name
}

/// The shapes that a list of `visit` entries declares.
pub open spec fn declared(visits: Seq<Seq<char>>) -> Implementations {
    Implementations {
        str_: declares(visits, "str"@),
        bool_: declares(visits, "bool"@),
        f64_: declares(visits, "f64"@),
        i64_: declares(visits, "i64"@),
        u64_: declares(visits, "u64"@),
        number: declares(visits, "number"@),
        map: declares(visits, "map"@),
    }
}

/// The views of a list of strings.
pub open spec fn views(v: Seq<String>) -> Seq<Seq<char>> {
    v.map_values(|s: String| s@)
}

/// Whether some entry of `visits` is `name`.
fn contains_name(visits: &Vec<String>, name: &str) -> (r: bool)
    ensures
        r == declares(views(visits@), name@),
{
    let mut i: usize = 0;
    while i < visits.len()
        invariant
            i <= visits.len(),
            forall|k: int| 0 <= k < i ==> visits@[k]@ != name@,
        decreases visits.len() - i,
    {
        if str_eq(visits[i].as_str(), name) {
            assert(views(visits@)[i as int] == name@);
            return true;
        }
        i += 1;
    }
    assert forall|k: int| 0 <= k < views(visits@).len() implies views(visits@)[k] != name@ by {
        assert(views(visits@)[k] == visits@[k]@);
    }
    false
}

impl Implementations {
    /// No shape at all.
    pub fn none() -> (r: Self)
        ensures
            !r.accepts_any(),
    {
        Implementations {
            str_: false,
            bool_: false,
            f64_: false,
            i64_: false,
            u64_: false,
            number: false,
            map: false,
        }
    }

    /// The shapes that `visits` declares.
    pub fn from_visits(visits: &Vec<String>) -> (r: Self)
        ensures
            r == declared(views(visits@)),
    {
        Implementations {
            str_: contains_name(visits, "str"),
            bool_: contains_name(visits, "bool"),
            f64_: contains_name(visits, "f64"),
            i64_: contains_name(visits, "i64"),
            u64_: contains_name(visits, "u64"),
            number: contains_name(visits, "number"),
            map: contains_name(visits, "map"),
        }
    }

    /// Some shape is declared.
    pub open spec fn accepts_any(self) -> bool {
        self.str_ || self.bool_ || self.f64_ || self.i64_ || self.u64_ || self.number || self.map
    }

    pub open spec fn spec_should_add_i64(&self) -> bool {
        self.i64_ || self.number
    }

    pub open spec fn spec_should_add_u64(&self) -> bool {
        self.u64_ || self.i64_ || self.number
    }

    pub open spec fn spec_should_add_f64(&self) -> bool {
        self.f64_ || self.number
    }

    /// Signed integers are taken when `i64` or `number` is declared.
    #[verifier::when_used_as_spec(spec_should_add_i64)]
    pub fn should_add_i64(&self) -> (r: bool)
        ensures
            r == self.spec_should_add_i64(),
    {
        self.i64_ || self.number
    }

    /// Unsigned integers are taken when `u64`, `i64` or `number` is declared.
    #[verifier::when_used_as_spec(spec_should_add_u64)]
    pub fn should_add_u64(&self) -> (r: bool)
        ensures
            r == self.spec_should_add_u64(),
    {
        self.u64_ || self.i64_ || self.number
    }

    /// Floats are taken when `f64` or `number` is declared.
    #[verifier::when_used_as_spec(spec_should_add_f64)]
    pub fn should_add_f64(&self) -> (r: bool)
        ensures
            r == self.spec_should_add_f64(),
    {
        self.f64_ || self.number
    }
}

/// Which conversion of a type a node is handed to.
#[derive(Debug, Clone, Copy, PartialEq, Eq, Structural)]
pub enum Route {
    Str,
    Bool,
    I64,
    U64,
    F64,
    Mapping,
    /// The node's shape is not accepted.
    Reject,
}

/// The conversion that a node of each shape goes to under the declared shapes.
pub open spec fn route_of(d: Implementations, n: Node) -> Route {
    match n {
        Node::Str(_) => if d.str_ { Route::Str } else { Route::Reject },
        Node::Bool(_) => if d.bool_ { Route::Bool } else { Route::Reject },
        Node::Signed(_) => if d.spec_should_add_i64() { Route::I64 } else { Route::Reject },
        Node::Unsigned(_) => if d.spec_should_add_u64() { Route::U64 } else { Route::Reject },
        Node::Float(_) => if d.spec_should_add_f64() { Route::F64 } else { Route::Reject },
        Node::Mapping(_) => if d.map { Route::Mapping } else { Route::Reject },
        _ => Route::Reject,
    }
}

/// The conversions that a type supplies.
#[derive(Debug, Clone, Copy, PartialEq, Eq, Structural)]
pub struct Conversions {
    pub from_str: bool,
    pub from_bool: bool,
    pub from_i64: bool,
    pub from_u64: bool,
    pub from_f64: bool,
    pub from_map: bool,
}

/// The first conversion, in routing order, that a declared shape needs and
/// the type does not supply.
pub open spec fn missing_conversion(d: Implementations, c: Conversions) -> Option<Seq<char>> {
    if d.str_ && !c.from_str {
        Some("from_str"@)
    } else if d.bool_ && !c.from_bool {
        Some("from_bool"@)
    } else if d.spec_should_add_i64() && !c.from_i64 {
        Some("from_i64"@)
    } else if d.spec_should_add_u64() && !c.from_u64 {
        Some("from_u64"@)
    } else if d.spec_should_add_f64() && !c.from_f64 {
        Some("from_f64"@)
    } else if d.map && !c.from_map {
        Some("from_map"@)
    } else {
        None
    }
}

fn first_missing(d: &Implementations, c: &Conversions) -> (r: Option<&'static str>)
    ensures
        match r {
            Some(m) => missing_conversion(*d, *c) == Some(m@),
            None => missing_conversion(*d, *c) is None,
        },
{
    if d.str_ && !c.from_str {
        Some("from_str")
    } else if d.bool_ && !c.from_bool {
        Some("from_bool")
    } else if d.should_add_i64() && !c.from_i64 {
        Some("from_i64")
    } else if d.should_add_u64() && !c.from_u64 {
        Some("from_u64")
    } else if d.should_add_f64() && !c.from_f64 {
        Some("from_f64")
    } else if d.map && !c.from_map {
        Some("from_map")
    } else {
        None
    }
}

/// The declarative specification attached to a type.
pub struct Attributes {
    /// The shapes accepted, by name: `str`, `bool`, `number`, `f64`, `i64`,
    /// `u64` or `map`.
    pub visit: Option<Vec<String>>,
    /// What the diagnostic says was expected.
    pub expecting: Option<String>,
}

/// The entries of `visits` that name no shape, in order.
pub open spec fn invalid_visits(visits: Seq<Seq<char>>) -> Seq<Seq<char>>
    decreases visits.len(),
{
    if visits.len() == 0 {
        seq![]
    } else {
        let rest = invalid_visits(visits.drop_last());
        if shape_named(visits.last()) is Some {
            rest
        } else {
            rest.push(visits.last())
        }
    }
}

/// `items` separated by `, `.
pub open spec fn join(items: Seq<Seq<char>>) -> Seq<char>
    decreases items.len(),
{
    if items.len() == 0 {
        seq![]
    } else if items.len() == 1 {
        items[0]
    } else {
        join(items.drop_last()) + ", "@ + items.last()
    }
}

/// The diagnostic for `visit` entries that name no shape.
pub open spec fn invalid_visit_message(invalid: Seq<Seq<char>>) -> Seq<char> {
    "invalid `visit` value(s): "@ + join(invalid)
        + " expected `str`, `bool`, `number`, `f64`, `i64`, `u64` or `map`"@
}

/// The diagnostic for a declared shape whose conversion is missing.
pub open spec fn missing_conversion_message(conversion: Seq<char>) -> Seq<char> {
    "a declared shape needs the `"@ + conversion + "` conversion"@
}

/// Lists the entries of `visits` that name no shape.
pub fn validate_visits(visits: &Vec<String>) -> (r: Result<(), String>)
    ensures
        invalid_visits(views(visits@)).len() == 0 ==> r is Ok,
        invalid_visits(views(visits@)).len() > 0 ==> r == Err::<(), String>(r->Err_0)
            && r->Err_0@ == invalid_visit_message(invalid_visits(views(visits@))),
{
    let ghost vs = views(visits@);
    let mut joined = String::new();
    let mut count: usize = 0;
    let mut i: usize = 0;
    while i < visits.len()
        invariant
            i <= visits.len(),
            vs == views(visits@),
            count as int == invalid_visits(vs.subrange(0, i as int)).len(),
            joined@ == join(invalid_visits(vs.subrange(0, i as int))),
            count <= i,
        decreases visits.len() - i,
    {
        let ghost before = vs.subrange(0, i as int);
        let ghost after = vs.subrange(0, i + 1);
        assert(after.drop_last() =~= before);
        assert(after.last() == visits@[i as int]@);
        if !predefined_visit(visits[i].as_str()) {
            if count > 0 {
                joined.append(", ");
            }
            joined.append(visits[i].as_str());
            count += 1;
            proof {
                let inv = invalid_visits(after);
                assert(inv == invalid_visits(before).push(after.last()));
                assert(inv.drop_last() =~= invalid_visits(before));
                if inv.len() == 1 {
                    assert(invalid_visits(before).len() == 0);
                    assert(join(inv) == inv[0]);
                    assert(joined@ =~= join(inv));
                } else {
                    assert(joined@ =~= join(inv));
                }
            }
        }
        i += 1;
    }
    assert(vs.subrange(0, visits.len() as int) =~= vs);
    if count == 0 {
        Ok(())
    } else {
        let mut message = String::from_str("invalid `visit` value(s): ");
        message.append(joined.as_str());
        message.append(" expected `str`, `bool`, `number`, `f64`, `i64`, `u64` or `map`");
        Err(message)
    }
}

/// How each declared shape is named in an assembled expectation, in a fixed
/// order.
pub open spec fn shape_phrases(d: Implementations) -> Seq<Seq<char>> {
    (if d.str_ { seq!["a string"@] } else { seq![] })
        + (if d.bool_ { seq!["a boolean"@] } else { seq![] })
        + (if d.number { seq!["a number"@] } else { seq![] })
        + (if d.f64_ { seq!["a float"@] } else { seq![] })
        + (if d.i64_ { seq!["an integer"@] } else { seq![] })
        + (if d.u64_ { seq!["an unsigned integer"@] } else { seq![] })
        + (if d.map { seq!["a map"@] } else { seq![] })
}

/// `items` separated by ` or `.
pub open spec fn alternatives(items: Seq<Seq<char>>) -> Seq<char>
    decreases items.len(),
{
    if items.len() == 0 {
        seq![]
    } else if items.len() == 1 {
        items[0]
    } else {
        alternatives(items.drop_last()) + " or "@ + items.last()
    }
}

fn push_phrase(phrases: &mut Vec<&'static str>, on: bool, phrase: &'static str)
    ensures
        final(phrases)@.map_values(|p: &str| p@) == old(phrases)@.map_values(|p: &str| p@) + (
        if on {
            seq![phrase@]
        } else {
            seq![]
        }),
{
    let ghost before = phrases@;
    if on {
        phrases.push(phrase);
        assert(phrases@.map_values(|p: &str| p@) =~= before.map_values(|p: &str| p@) + seq![phrase@]);
    } else {
        assert(phrases@.map_values(|p: &str| p@) =~= before.map_values(|p: &str| p@) + seq![]);
    }
}

/// The expectation assembled from the declared shapes: `a string or a map`.
pub fn assembled_expecting(d: &Implementations) -> (r: String)
    ensures
        r@ == alternatives(shape_phrases(*d)),
{
    let mut phrases: Vec<&'static str> = Vec::new();
    assert(phrases@.map_values(|p: &str| p@) =~= seq![]);
    push_phrase(&mut phrases, d.str_, "a string");
    push_phrase(&mut phrases, d.bool_, "a boolean");
    push_phrase(&mut phrases, d.number, "a number");
    push_phrase(&mut phrases, d.f64_, "a float");
    push_phrase(&mut phrases, d.i64_, "an integer");
    push_phrase(&mut phrases, d.u64_, "an unsigned integer");
    push_phrase(&mut phrases, d.map, "a map");
    let ghost items = phrases@.map_values(|p: &str| p@);
    assert(items =~= shape_phrases(*d));
    let mut out = String::new();
    let mut i: usize = 0;
    while i < phrases.len()
        invariant
            i <= phrases@.len(),
            items == phrases@.map_values(|p: &str| p@),
            out@ == alternatives(items.subrange(0, i as int)),
        decreases phrases.len() - i,
    {
        if i > 0 {
            out.append(" or ");
        }
        out.append(phrases[i]);
        proof {
            let next = items.subrange(0, i + 1);
            assert(next.drop_last() =~= items.subrange(0, i as int));
            assert(next.last() == phrases@[i as int]@);
            if i == 0 {
                assert(out@ =~= alternatives(next));
            } else {
                assert(out@ =~= alternatives(next));
            }
        }
        i += 1;
    }
    assert(items.subrange(0, phrases@.len() as int) =~= items);
    out
}

/// What [`CodecSpec::build`] returns for the given specification.
pub open spec fn build_outcome(
    visit: Option<Seq<Seq<char>>>,
    expecting: Option<Seq<char>>,
    c: Conversions,
) -> Result<(Implementations, Seq<char>), Seq<char>> {
    match visit {
        None => Err("`visit` must be specified"@),
        Some(v) => if invalid_visits(v).len() > 0 {
            Err(invalid_visit_message(invalid_visits(v)))
        } else {
            if !declared(v).accepts_any() {
                Err("`visit` must declare at least one shape"@)
            } else {
                match missing_conversion(declared(v), c) {
                    Some(m) => Err(missing_conversion_message(m)),
                    None => Ok((declared(v), match expecting {
                        Some(e) => e,
                        None => alternatives(shape_phrases(declared(v))),
                    })),
                }
            }
        },
    }
}

/// A specification that declares the `bool` shape for a type without a
/// `from_bool` conversion never builds, whatever else it holds.
pub proof fn law_bool_needs_conversion(
    visit: Option<Seq<Seq<char>>>,
    expecting: Option<Seq<char>>,
    c: Conversions,
)
    requires
        visit is Some,
        declares(visit->Some_0, "bool"@),
        !c.from_bool,
    ensures
        build_outcome(visit, expecting, c) is Err,
{
    let v = visit->Some_0;
    if invalid_visits(v).len() == 0 {
        assert(declared(v).bool_);
        assert(declared(v).accepts_any());
        assert(missing_conversion(declared(v), c) is Some);
    }
}

/// A checked codec: the shapes a type accepts, each with its conversion, and
/// the text that says what was expected.
pub struct CodecSpec {
    impls: Implementations,
    expecting: String,
}

impl CodecSpec {
    pub closed spec fn impls(&self) -> Implementations {
        self.impls
    }

    pub closed spec fn expecting(&self) -> Seq<char> {
        self.expecting@
    }

    /// The codec of a type of this crate, whose decode function holds a
    /// conversion for each of `impls`.
    pub(crate) fn with_shapes(impls: Implementations, expecting: &str) -> (r: Self)
        ensures
            r.impls() == impls,
            r.expecting() == expecting@,
    {
        CodecSpec { impls, expecting: String::from_str(expecting) }
    }

    /// Builds the codec for a type: fails when `visit` is absent, when a
    /// `visit` entry names no shape, when no shape is declared, or when a
    /// declared shape lacks its conversion. Without `expecting`, the
    /// expectation is assembled from the declared shapes.
    pub fn build(attrs: &Attributes, conversions: &Conversions) -> (r: Result<Self, String>)
        ensures
            match (build_outcome(
                match attrs.visit {
                    Some(v) => Some(views(v@)),
                    None => None,
                },
                match attrs.expecting {
                    Some(e) => Some(e@),
                    None => None,
                },
                *conversions,
            ), r) {
                (Ok((d, e)), Ok(spec)) => spec.impls() == d && spec.expecting() == e,
                (Err(m), Err(msg)) => msg@ == m,
                _ => false,
            },
    {
        let visits = match &attrs.visit {
            None => {
                return Err(String::from_str("`visit` must be specified"));
            },
            Some(v) => v,
        };
        match validate_visits(visits) {
            Err(m) => {
                return Err(m);
            },
            Ok(()) => {},
        }
        let impls = Implementations::from_visits(visits);
        if !(impls.str_ || impls.bool_ || impls.f64_ || impls.i64_ || impls.u64_ || impls.number
            || impls.map) {
            return Err(String::from_str("`visit` must declare at least one shape"));
        }
        match first_missing(&impls, conversions) {
            Some(m) => {
                let mut message = String::from_str("a declared shape needs the `");
                message.append(m);
                message.append("` conversion");
                Err(message)
            },
            None => {
                let expecting = match &attrs.expecting {
                    Some(e) => String::from_str(e.as_str()),
                    None => assembled_expecting(&impls),
                };
                Ok(CodecSpec { impls, expecting })
            },
        }
    }

    /// The declared shapes.
    pub fn implementations(&self) -> (r: Implementations)
        ensures
            r == self.impls(),
    {
        self.impls
    }

    /// Where a node goes under this codec.
    pub fn route(&self, n: &Node) -> (r: Route)
        ensures
            r == route_of(self.impls(), *n),
    {
        match n {
            Node::Str(_) => if self.impls.str_ { Route::Str } else { Route::Reject },
            Node::Bool(_) => if self.impls.bool_ { Route::Bool } else { Route::Reject },
            Node::Signed(_) => if self.impls.should_add_i64() { Route::I64 } else { Route::Reject },
            Node::Unsigned(_) => if self.impls.should_add_u64() { Route::U64 } else { Route::Reject },
            Node::Float(_) => if self.impls.should_add_f64() { Route::F64 } else { Route::Reject },
            Node::Mapping(_) => if self.impls.map { Route::Mapping } else { Route::Reject },
            _ => Route::Reject,
        }
    }

    /// The rejection of a node whose shape is not accepted.
    pub fn invalid_type(&self, n: &Node) -> (r: DecodeError)
        ensures
            match r {
                DecodeError::InvalidType { unexpected, expected } =>
                    names(unexpected, *n) && expected@ == self.expecting(),
                _ => false,
            },
    {
        DecodeError::InvalidType {
            unexpected: n.unexpected(),
            expected: String::from_str(self.expecting.as_str()),
        }
    }

    /// The rejection of an accepted node whose conversion failed.
    pub fn invalid_value(&self, n: &Node) -> (r: DecodeError)
        ensures
            match r {
                DecodeError::InvalidValue { unexpected, expected } =>
                    names(unexpected, *n) && expected@ == self.expecting(),
                _ => false,
            },
    {
        DecodeError::InvalidValue {
            unexpected: n.unexpected(),
            expected: String::from_str(self.expecting.as_str()),
        }
    }
}

} // verus!
