use vstd::prelude::*;
use vstd::string::StringExecFns;

use crate::outcome::RpcFault;
use crate::text::{append_joined, joined};
use crate::value::{is_text, kind_name, Value};

verus! {

/// The type that a keyword expects at one argument position.
#[derive(Clone, Copy, Debug, PartialEq, Eq, Structural)]
pub enum ArgKind {
    Int,
    Str,
}

/// The XML-RPC type name of an argument kind.
pub open spec fn arg_kind_name(k: ArgKind) -> Seq<char> {
    match k {
        ArgKind::Int => "i4"@,
        ArgKind::Str => "string"@,
    }
}

/// Value `v` can be taken as an argument of kind `k`.
pub open spec fn fits(k: ArgKind, v: Value) -> bool {
    match k {
        ArgKind::Int => v matches Value::Int(_),
        ArgKind::Str => v matches Value::Str(_),
    }
}

impl ArgKind {
    /// The XML-RPC type name of this kind.
    pub fn name(&self) -> (r: &'static str)
        ensures
            r@ == arg_kind_name(*self),
    {
        match self {
            ArgKind::Int => "i4",
            ArgKind::Str => "string",
        }
    }
}

/// The arguments that a keyword takes: a fixed list of kinds, or any number
/// of arguments of one kind.
#[derive(Debug)]
pub enum Shape {
    Exactly(Vec<ArgKind>),
    AnyNumberOf(ArgKind),
}

/// The mathematical form of a [`Shape`].
pub enum ShapeView {
    Exactly(Seq<ArgKind>),
    AnyNumberOf(ArgKind),
}

impl View for Shape {
    type V = ShapeView;

    open spec fn view(&self) -> ShapeView {
        match self {
            Shape::Exactly(ks) => ShapeView::Exactly(ks@),
            Shape::AnyNumberOf(k) => ShapeView::AnyNumberOf(*k),
        }
    }
}

/// The argument list `args` has the shape `shape`.
pub open spec fn accepts(shape: ShapeView, args: Seq<Value>) -> bool {
    match shape {
        ShapeView::Exactly(ks) => ks.len() == args.len() && forall|i: int|
            0 <= i < args.len() ==> #[trigger] fits(ks[i], args[i]),
        ShapeView::AnyNumberOf(k) => forall|i: int| 0 <= i < args.len() ==> #[trigger] fits(k, args[i]),
    }
}

/// The parameter value is a list of arguments of the shape `shape`.
pub open spec fn accepts_value(shape: ShapeView, params: Value) -> bool {
    match params {
        Value::Array(items) => accepts(shape, items@),
        _ => false,
    }
}

/// A shape written out: `(i4, string)` for a fixed list, `(string...)` for
/// any number of one kind.
pub open spec fn shape_text(shape: ShapeView) -> Seq<char> {
    match shape {
        ShapeView::Exactly(ks) => "("@ + joined(ks.map_values(|k: ArgKind| arg_kind_name(k))) + ")"@,
        ShapeView::AnyNumberOf(k) => "("@ + arg_kind_name(k) + "...)"@,
    }
}

/// The kinds of a list's items, in parentheses.
pub open spec fn list_text(items: Seq<Value>) -> Seq<char> {
    "("@ + joined(items.map_values(|v: Value| kind_name(v))) + ")"@
}

/// The shape of what was received: the kinds of a list's items in
/// parentheses, or the kind of a value that is no list.
pub open spec fn received_text(params: Value) -> Seq<char> {
    match params {
        Value::Array(items) => list_text(items@),
        _ => kind_name(params),
    }
}

/// The fault code of a call whose arguments do not fit.
pub const BAD_ARGUMENTS: i32 = 400;

/// The fault message for arguments that do not fit a keyword.
pub open spec fn marshal_message(keyword: Seq<char>, expected: Seq<char>, received: Seq<char>) -> Seq<char> {
    "Keyword '"@ + keyword + "' expects "@ + expected + ", got "@ + received + "."@
}

/// Arguments that do not fit what a keyword expects.
#[derive(Debug)]
pub struct MarshalError {
    pub keyword: String,
    pub expected: String,
    pub received: String,
}

fn shape_string(shape: &Shape) -> (r: String)
    ensures
        r@ == shape_text(shape@),
{
    let mut out = String::from_str("(");
    match shape {
        Shape::Exactly(ks) => {
            let ghost names = ks@.map_values(|k: ArgKind| arg_kind_name(k));
            let mut list = String::new();
            let mut i: usize = 0;
            while i < ks.len()
                invariant
                    i <= ks@.len(),
                    names == ks@.map_values(|k: ArgKind| arg_kind_name(k)),
                    list@ == joined(names.take(i as int)),
                decreases ks@.len() - i,
            {
                append_joined(&mut list, i, ks[i].name(), Ghost(names));
                i += 1;
            }
            assert(names.take(ks@.len() as int) =~= names);
            out.append(list.as_str());
            out.append(")");
        },
        Shape::AnyNumberOf(k) => {
            out.append(k.name());
            out.append("...)");
        },
    }
    out
}

/// The kinds of a list's items, in parentheses.
pub(crate) fn list_string(items: &[Value]) -> (r: String)
    ensures
        r@ == list_text(items@),
{
    let ghost names = items@.map_values(|v: Value| kind_name(v));
    let mut list = String::new();
    let mut i: usize = 0;
    while i < items.len()
        invariant
            i <= items@.len(),
            names == items@.map_values(|v: Value| kind_name(v)),
            list@ == joined(names.take(i as int)),
        decreases items@.len() - i,
    {
        append_joined(&mut list, i, items[i].kind_name(), Ghost(names));
        i += 1;
    }
    assert(names.take(items@.len() as int) =~= names);
    let mut out = String::from_str("(");
    out.append(list.as_str());
    out.append(")");
    out
}

fn received_string(params: &Value) -> (r: String)
    ensures
        r@ == received_text(*params),
{
    match params {
        Value::Array(items) => list_string(items.as_slice()),
        _ => String::from_str(params.kind_name()),
    }
}

impl MarshalError {
    /// The error for parameters `params` handed to `keyword`, which expects `shape`.
    pub fn new(keyword: &str, shape: &Shape, params: &Value) -> (r: MarshalError)
        ensures
            r.keyword@ == keyword@,
            r.expected@ == shape_text(shape@),
            r.received@ == received_text(*params),
    {
        MarshalError {
            keyword: String::from_str(keyword),
            expected: shape_string(shape),
            received: received_string(params),
        }
    }

    /// The protocol fault that reports this error.
    pub fn to_fault(&self) -> (r: RpcFault)
        ensures
            r.code == BAD_ARGUMENTS,
            r.message@ == marshal_message(self.keyword@, self.expected@, self.received@),
    {
        let mut message = String::from_str("Keyword '");
        message.append(self.keyword.as_str());
        message.append("' expects ");
        message.append(self.expected.as_str());
        message.append(", got ");
        message.append(self.received.as_str());
        message.append(".");
        RpcFault { code: BAD_ARGUMENTS, message }
    }
}

/// `e` reports that `params` does not fit `shape`, the shape of `keyword`.
pub open spec fn reports_mismatch(e: MarshalError, keyword: Seq<char>, shape: ShapeView, params: Value) -> bool {
    &&& e.keyword@ == keyword
    &&& e.expected@ == shape_text(shape)
    &&& e.received@ == received_text(params)
}

/// No arguments.
pub open spec fn no_arguments() -> ShapeView {
    ShapeView::Exactly(Seq::empty())
}

/// One integer.
pub open spec fn one_int() -> ShapeView {
    ShapeView::Exactly(seq![ArgKind::Int])
}

/// Two strings.
pub open spec fn two_strings() -> ShapeView {
    ShapeView::Exactly(seq![ArgKind::Str, ArgKind::Str])
}

/// Any number of strings.
pub open spec fn any_strings() -> ShapeView {
    ShapeView::AnyNumberOf(ArgKind::Str)
}

/// The shape of no arguments.
pub fn no_arguments_shape() -> (r: Shape)
    ensures
        r@ == no_arguments(),
{
    let ks: Vec<ArgKind> = Vec::new();
    assert(ks@ =~= Seq::<ArgKind>::empty());
    Shape::Exactly(ks)
}

/// The shape of one integer.
pub fn one_int_shape() -> (r: Shape)
    ensures
        r@ == one_int(),
{
    let mut ks: Vec<ArgKind> = Vec::new();
    ks.push(ArgKind::Int);
    assert(ks@ =~= seq![ArgKind::Int]);
    Shape::Exactly(ks)
}

/// The shape of two strings.
pub fn two_strings_shape() -> (r: Shape)
    ensures
        r@ == two_strings(),
{
    let mut ks: Vec<ArgKind> = Vec::new();
    ks.push(ArgKind::Str);
    ks.push(ArgKind::Str);
    assert(ks@ =~= seq![ArgKind::Str, ArgKind::Str]);
    Shape::Exactly(ks)
}

/// The shape of any number of strings.
pub fn any_strings_shape() -> (r: Shape)
    ensures
        r@ == any_strings(),
{
    Shape::AnyNumberOf(ArgKind::Str)
}

/// Takes an empty argument list.
pub fn marshal_nothing(keyword: &str, params: &Value) -> (r: Result<(), MarshalError>)
    ensures
        r is Ok <==> accepts_value(no_arguments(), *params),
        r matches Err(e) ==> reports_mismatch(e, keyword@, no_arguments(), *params),
{
    if let Value::Array(items) = params {
        if items.len() == 0 {
            return Ok(());
        }
    }
    Err(MarshalError::new(keyword, &no_arguments_shape(), params))
}

/// Takes the one integer of an argument list.
pub fn marshal_int(keyword: &str, params: &Value) -> (r: Result<i32, MarshalError>)
    ensures
        r is Ok <==> accepts_value(one_int(), *params),
        r matches Ok(n) ==> params matches Value::Array(items) && items@[0] == Value::Int(n),
        r matches Err(e) ==> reports_mismatch(e, keyword@, one_int(), *params),
{
    if let Value::Array(items) = params {
        if items.len() == 1 {
            if let Value::Int(n) = &items[0] {
                return Ok(*n);
            }
            assert(!fits(ArgKind::Int, items@[0]));
        }
    }
    Err(MarshalError::new(keyword, &one_int_shape(), params))
}

/// Takes the two strings of an argument list.
pub fn marshal_two_strings(keyword: &str, params: &Value) -> (r: Result<(String, String), MarshalError>)
    ensures
        r is Ok <==> accepts_value(two_strings(), *params),
        r matches Ok(p) ==> params matches Value::Array(items) && is_text(items@[0], p.0@) && is_text(
            items@[1],
            p.1@,
        ),
        r matches Err(e) ==> reports_mismatch(e, keyword@, two_strings(), *params),
{
    if let Value::Array(items) = params {
        if items.len() == 2 {
            if let Value::Str(a) = &items[0] {
                if let Value::Str(b) = &items[1] {
                    return Ok((a.clone(), b.clone()));
                }
                assert(!fits(ArgKind::Str, items@[1]));
            } else {
                assert(!fits(ArgKind::Str, items@[0]));
            }
        }
    }
    Err(MarshalError::new(keyword, &two_strings_shape(), params))
}

/// Takes all the strings of an argument list.
pub fn marshal_strings(keyword: &str, params: &Value) -> (r: Result<Vec<String>, MarshalError>)
    ensures
        r is Ok <==> accepts_value(any_strings(), *params),
        r matches Ok(v) ==> params matches Value::Array(items) && v@.len() == items@.len() && forall|i: int|
            0 <= i < v@.len() ==> is_text(#[trigger] items@[i], v@[i]@),
        r matches Err(e) ==> reports_mismatch(e, keyword@, any_strings(), *params),
{
    if let Value::Array(items) = params {
        let mut out: Vec<String> = Vec::new();
        let mut i: usize = 0;
        while i < items.len()
            invariant
                i <= items@.len(),
                out@.len() == i,
                forall|j: int| 0 <= j < i ==> is_text(#[trigger] items@[j], out@[j]@),
                *params == Value::Array(*items),
            decreases items@.len() - i,
        {
            if let Value::Str(s) = &items[i] {
                out.push(s.clone());
            } else {
                assert(!fits(ArgKind::Str, items@[i as int]));
                assert(!accepts(any_strings(), items@));
                return Err(MarshalError::new(keyword, &any_strings_shape(), params));
            }
            i += 1;
        }
        return Ok(out);
    }
    Err(MarshalError::new(keyword, &any_strings_shape(), params))
}

} // verus!
