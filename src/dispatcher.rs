use vstd::prelude::*;
use vstd::string::StringExecFns;

use crate::counter::{keyword_next_value, next_value_answers, Counter};
use crate::keywords::{
    adding_one_text, addone_answers, count_items_answers, keyword_addone,
    keyword_count_items_in_directory, keyword_strings_should_be_equal, strings_equal_answers,
};
use crate::marshal::{
    accepts_value, any_strings, list_string, list_text, no_arguments, one_int, two_strings, ShapeView,
    BAD_ARGUMENTS,
};
use crate::outcome::{is_result_value, HandlerResult, RpcFault, Status};
use crate::value::{text_of, Value};

verus! {

/// The keywords that a dispatcher can run.
#[derive(Clone, Copy, Debug, PartialEq, Eq, Structural)]
pub enum KeywordKind {
    Addone,
    StringsShouldBeEqual,
    CountItemsInDirectory,
    NextValue,
}

/// `r` is what the keyword `k` answers for `params`, with the shared counter
/// at `before` ahead of the call and at `after` once it is done.
pub open spec fn keyword_answers(k: KeywordKind, params: Value, r: HandlerResult, before: int, after: int) -> bool {
    match k {
        KeywordKind::Addone => addone_answers(params, r) && after == before,
        KeywordKind::StringsShouldBeEqual => strings_equal_answers(params, r) && after == before,
        KeywordKind::CountItemsInDirectory => count_items_answers(params, r) && after == before,
        KeywordKind::NextValue => next_value_answers(params, r, before, after),
    }
}

/// The arguments that the keyword `k` takes.
pub open spec fn kind_shape(k: KeywordKind) -> ShapeView {
    match k {
        KeywordKind::Addone => one_int(),
        KeywordKind::StringsShouldBeEqual => two_strings(),
        KeywordKind::CountItemsInDirectory => any_strings(),
        KeywordKind::NextValue => no_arguments(),
    }
}

/// The fault code of a call of a keyword that is not registered.
pub const UNKNOWN_KEYWORD: i32 = 404;

/// The fault message for a keyword name that is not registered.
pub open spec fn unknown_keyword_message(name: Seq<char>) -> Seq<char> {
    "No keyword named '"@ + name + "'."@
}

/// The fault message for a call that is not a name and one argument list.
pub open spec fn malformed_call_message(params: Seq<Value>) -> Seq<char> {
    "run_keyword expects (string, array), got "@ + list_text(params) + "."@
}

/// No two entries have the same name.
pub open spec fn names_unique(entries: Seq<(Seq<char>, KeywordKind)>) -> bool {
    forall|i: int, j: int|
        0 <= i < entries.len() && 0 <= j < entries.len() && i != j ==> #[trigger] entries[i].0 != #[trigger] entries[j].0
}

/// Some entry has the name `name`.
pub open spec fn registered(entries: Seq<(Seq<char>, KeywordKind)>, name: Seq<char>) -> bool {
    exists|i: int| 0 <= i < entries.len() && #[trigger] entries[i].0 == name
}

/// The keyword registered under `name`, if any.
pub open spec fn lookup(entries: Seq<(Seq<char>, KeywordKind)>, name: Seq<char>) -> Option<KeywordKind> {
    if registered(entries, name) {
        Some(entries[choose|i: int| 0 <= i < entries.len() && #[trigger] entries[i].0 == name].1)
    } else {
        None
    }
}

/// The registered names, in the order of registration.
pub open spec fn names(entries: Seq<(Seq<char>, KeywordKind)>) -> Seq<Seq<char>> {
    entries.map_values(|e: (Seq<char>, KeywordKind)| e.0)
}

/// `v` is the list of strings `ns`, in this order.
pub open spec fn is_names_value(v: Value, ns: Seq<Seq<char>>) -> bool {
    match v {
        Value::Array(items) => {
            &&& items@.len() == ns.len()
            &&& forall|i: int| 0 <= i < ns.len() ==> #[trigger] items@[i] is Str && text_of(items@[i]) == ns[i]
        },
        _ => false,
    }
}

/// The name of the keyword that a call asks for, if the call is a name and
/// one argument list.
pub open spec fn call_name(params: Seq<Value>) -> Option<Seq<char>> {
    if params.len() == 2 && params[0] is Str {
        Some(text_of(params[0]))
    } else {
        None
    }
}

/// `r` is what a call with `params` answers under the registry `entries`,
/// with the shared counter at `before` ahead of the call and at `after` once
/// it is done.
pub open spec fn dispatches(
    entries: Seq<(Seq<char>, KeywordKind)>,
    params: Seq<Value>,
    r: HandlerResult,
    before: int,
    after: int,
) -> bool {
    match call_name(params) {
        None => {
            &&& after == before
            &&& r matches Err(f) && f.code == BAD_ARGUMENTS && f.message@ == malformed_call_message(params)
        },
        Some(name) => match lookup(entries, name) {
            None => {
                &&& after == before
                &&& r matches Err(f) && f.code == UNKNOWN_KEYWORD && f.message@ == unknown_keyword_message(name)
            },
            Some(k) => keyword_answers(k, params[1], r, before, after),
        },
    }
}

/// The keyword registry and the dispatch of calls to it.
///
/// Built once before serving starts and only read afterwards.
#[derive(Debug)]
pub struct KeywordDispatcher {
    run_handler: Vec<(String, KeywordKind)>,
}

impl View for KeywordDispatcher {
    type V = Seq<(Seq<char>, KeywordKind)>;

    closed spec fn view(&self) -> Seq<(Seq<char>, KeywordKind)> {
        self.run_handler@.map_values(|e: (String, KeywordKind)| (e.0@, e.1))
    }
}

impl KeywordDispatcher {
    /// Names are unique.
    pub open spec fn well_formed(&self) -> bool {
        names_unique(self@)
    }

    /// An empty registry.
    pub fn new() -> (r: Self)
        ensures
            r.well_formed(),
            r@ == Seq::<(Seq<char>, KeywordKind)>::empty(),
    {
        let r = KeywordDispatcher { run_handler: Vec::new() };
        assert(r@ =~= Seq::<(Seq<char>, KeywordKind)>::empty());
        r
    }

    /// Registers `value` under `key`. A keyword already registered under that
    /// name is replaced in its place, and the answer says so.
    pub fn insert(&mut self, key: &str, value: KeywordKind) -> (replaced: bool)
        requires
            old(self).well_formed(),
        ensures
            final(self).well_formed(),
            replaced == registered(old(self)@, key@),
            replaced ==> exists|i: int|
                0 <= i < old(self)@.len() && old(self)@[i].0 == key@ && final(self)@ == old(self)@.update(
                    i,
                    (key@, value),
                ),
            !replaced ==> final(self)@ == old(self)@.push((key@, value)),
    {
        let k = String::from_str(key);
        let mut i: usize = 0;
        while i < self.run_handler.len()
            invariant
                i <= self@.len(),
                self@ == old(self)@,
                self.well_formed(),
                self.run_handler@.len() == self@.len(),
                k@ == key@,
                forall|j: int| 0 <= j < i ==> #[trigger] self@[j].0 != key@,
            decreases self.run_handler@.len() - i,
        {
            if self.run_handler[i].0 == k {
                let ghost before = self@;
                self.run_handler[i] = (k, value);
                assert(self@ =~= before.update(i as int, (key@, value)));
                assert(names_unique(self@)) by {
                    assert forall|a: int| 0 <= a < self@.len() implies #[trigger] self@[a].0 == before[a].0 by {
                        if a == i {
                            assert(before[i as int].0 == key@);
                        }
                    }
                }
                return true;
            }
            i += 1;
        }
        let ghost before = self@;
        self.run_handler.push((k, value));
        assert(self@ =~= before.push((key@, value)));
        assert(!registered(before, key@));
        false
    }

    /// The registry of the three keywords that a server offers out of the
    /// box: "Addone", "Strings Should Be Equal" and "Count Items In Directory".
    pub fn standard() -> (r: Self)
        ensures
            r.well_formed(),
            r@ == seq![
                ("Addone"@, KeywordKind::Addone),
                ("Strings Should Be Equal"@, KeywordKind::StringsShouldBeEqual),
                ("Count Items In Directory"@, KeywordKind::CountItemsInDirectory),
            ],
    {
        proof {
            reveal_strlit("Addone");
            reveal_strlit("Strings Should Be Equal");
            reveal_strlit("Count Items In Directory");
        }
        let mut d = KeywordDispatcher::new();
        d.insert("Addone", KeywordKind::Addone);
        assert(d@ =~= seq![("Addone"@, KeywordKind::Addone)]);
        assert(d@[0].0.len() != "Strings Should Be Equal"@.len());
        d.insert("Strings Should Be Equal", KeywordKind::StringsShouldBeEqual);
        assert(d@[0].0.len() != "Count Items In Directory"@.len());
        assert(d@[1].0.len() != "Count Items In Directory"@.len());
        d.insert("Count Items In Directory", KeywordKind::CountItemsInDirectory);
        assert(d@ =~= seq![
            ("Addone"@, KeywordKind::Addone),
            ("Strings Should Be Equal"@, KeywordKind::StringsShouldBeEqual),
            ("Count Items In Directory"@, KeywordKind::CountItemsInDirectory),
        ]);
        d
    }

    /// The keyword registered under `key`, if any.
    pub fn get(&self, key: &str) -> (r: Option<KeywordKind>)
        requires
            self.well_formed(),
        ensures
            r == lookup(self@, key@),
    {
        let k = String::from_str(key);
        let mut i: usize = 0;
        while i < self.run_handler.len()
            invariant
                i <= self@.len(),
                self.well_formed(),
                self.run_handler@.len() == self@.len(),
                k@ == key@,
                forall|j: int| 0 <= j < i ==> #[trigger] self@[j].0 != key@,
            decreases self.run_handler@.len() - i,
        {
            if self.run_handler[i].0 == k {
                assert(self@[i as int].0 == key@);
                assert(registered(self@, key@));
                proof {
                    let c = choose|j: int| 0 <= j < self@.len() && #[trigger] self@[j].0 == key@;
                    assert(self@[c].0 == self@[i as int].0);
                    assert(c == i);
                }
                return Some(self.run_handler[i].1);
            }
            i += 1;
        }
        None
    }

    /// The registered names, in the order of registration.
    pub fn keys(&self) -> (r: Vec<String>)
        ensures
            r@.map_values(|s: String| s@) == names(self@),
    {
        let mut r: Vec<String> = Vec::new();
        let mut i: usize = 0;
        while i < self.run_handler.len()
            invariant
                i <= self@.len(),
                self.run_handler@.len() == self@.len(),
                r@.len() == i,
                forall|j: int| 0 <= j < i ==> #[trigger] r@[j]@ == self@[j].0,
            decreases self.run_handler@.len() - i,
        {
            r.push(self.run_handler[i].0.clone());
            i += 1;
        }
        assert(r@.map_values(|s: String| s@) =~= names(self@));
        r
    }

    /// The names of the keywords that a call may ask for, in the order of
    /// registration. The parameters are not read.
    pub fn get_keyword_names_handler(&self, params: &[Value]) -> (r: HandlerResult)
        ensures
            r matches Ok(v) && is_names_value(v, names(self@)),
    {
        let keys = self.keys();
        let mut items: Vec<Value> = Vec::new();
        let mut i: usize = 0;
        while i < keys.len()
            invariant
                i <= keys@.len(),
                keys@.map_values(|s: String| s@) == names(self@),
                items@.len() == i,
                forall|j: int| 0 <= j < i ==> #[trigger] items@[j] is Str && text_of(items@[j]) == keys@[j]@,
            decreases keys@.len() - i,
        {
            items.push(Value::Str(keys[i].clone()));
            i += 1;
        }
        proof {
            assert forall|j: int| 0 <= j < names(self@).len() implies #[trigger] items@[j] is Str && text_of(
                items@[j],
            ) == names(self@)[j] by {
                assert(keys@.map_values(|s: String| s@)[j] == keys@[j]@);
            }
        }
        Ok(Value::Array(items))
    }

    /// Runs the keyword that a call names, with the call's argument list.
    ///
    /// A call that is not a name and one argument list, and one that names no
    /// registered keyword, are faults; a keyword whose arguments do not fit
    /// answers a fault too. Any other call is answered by the keyword.
    pub fn run_keyword_handler(&self, params: &[Value], counter: &mut Counter) -> (r: HandlerResult)
        requires
            self.well_formed(),
            old(counter).well_formed(),
        ensures
            final(counter).well_formed(),
            dispatches(self@, params@, r, old(counter)@, final(counter)@),
    {
        if params.len() != 2 {
            return Err(malformed_call(params));
        }
        let name = match &params[0] {
            Value::Str(s) => s,
            _ => {
                return Err(malformed_call(params));
            },
        };
        match self.get(name.as_str()) {
            None => Err(unknown_keyword(name.as_str())),
            Some(KeywordKind::Addone) => keyword_addone(&params[1]),
            Some(KeywordKind::StringsShouldBeEqual) => keyword_strings_should_be_equal(&params[1]),
            Some(KeywordKind::CountItemsInDirectory) => keyword_count_items_in_directory(&params[1]),
            Some(KeywordKind::NextValue) => keyword_next_value(&params[1], counter),
        }
    }
}

fn malformed_call(params: &[Value]) -> (r: RpcFault)
    ensures
        r.code == BAD_ARGUMENTS,
        r.message@ == malformed_call_message(params@),
{
    let mut message = String::from_str("run_keyword expects (string, array), got ");
    message.append(list_string(params).as_str());
    message.append(".");
    RpcFault { code: BAD_ARGUMENTS, message }
}

fn unknown_keyword(name: &str) -> (r: RpcFault)
    ensures
        r.code == UNKNOWN_KEYWORD,
        r.message@ == unknown_keyword_message(name@),
{
    let mut message = String::from_str("No keyword named '");
    message.append(name);
    message.append("'.");
    RpcFault { code: UNKNOWN_KEYWORD, message }
}

/// Asking twice for the keyword names of one registry gives the same names,
/// in the same order: the order of registration.
pub proof fn lemma_keyword_names_stable(d: KeywordDispatcher, first: Value, second: Value)
    requires
        is_names_value(first, names(d@)),
        is_names_value(second, names(d@)),
    ensures
        first matches Value::Array(a) && second matches Value::Array(b) && a@.len() == b@.len() && a@.len()
            == d@.len() && forall|i: int| 0 <= i < a@.len() ==> text_of(#[trigger] a@[i]) == text_of(b@[i])
            && text_of(a@[i]) == d@[i].0,
{
}

/// A registered keyword called with arguments that fit it answers a result,
/// never a fault.
pub proof fn lemma_well_typed_call_answers(
    entries: Seq<(Seq<char>, KeywordKind)>,
    params: Seq<Value>,
    r: HandlerResult,
    before: int,
    after: int,
)
    requires
        dispatches(entries, params, r, before, after),
        call_name(params) matches Some(name) && lookup(entries, name) matches Some(k) && accepts_value(
            kind_shape(k),
            params[1],
        ),
    ensures
        r is Ok,
{
}

/// The add-one keyword called with an integer `n` below `i32::MAX` passes,
/// returns `n + 1` and says that it added one to `n`.
pub proof fn lemma_add_one_call_passes(
    entries: Seq<(Seq<char>, KeywordKind)>,
    params: Seq<Value>,
    r: HandlerResult,
    before: int,
    after: int,
    n: i32,
)
    requires
        dispatches(entries, params, r, before, after),
        call_name(params) matches Some(name) && lookup(entries, name) == Some(KeywordKind::Addone),
        params[1] matches Value::Array(items) && items@ == seq![Value::Int(n)],
        n < i32::MAX,
    ensures
        r matches Ok(v) && is_result_value(
            v,
            Status::Pass,
            Some(Value::Int((n + 1) as i32)),
            adding_one_text(n as int),
            Seq::empty(),
            None,
        ),
        after == before,
{
}

/// A call of a name that is not registered is a fault whose message holds
/// that name.
pub proof fn lemma_unknown_keyword_fault_names_it(
    entries: Seq<(Seq<char>, KeywordKind)>,
    params: Seq<Value>,
    r: HandlerResult,
    before: int,
    after: int,
)
    requires
        dispatches(entries, params, r, before, after),
        call_name(params) matches Some(name) && lookup(entries, name) is None,
    ensures
        r matches Err(f) && f.code == UNKNOWN_KEYWORD && exists|i: int|
            0 <= i && i + text_of(params[0]).len() <= f.message@.len() && #[trigger] f.message@.subrange(
                i,
                i + text_of(params[0]).len(),
            ) == text_of(params[0]),
        after == before,
{
    let name = text_of(params[0]);
    let prefix = "No keyword named '"@;
    let m = unknown_keyword_message(name);
    assert(m.subrange(prefix.len() as int, (prefix.len() + name.len()) as int) =~= name);
}

/// A registered keyword called with arguments that do not fit it is a fault,
/// never a keyword failure, and leaves the shared counter as it was.
pub proof fn lemma_ill_typed_call_faults(
    entries: Seq<(Seq<char>, KeywordKind)>,
    params: Seq<Value>,
    r: HandlerResult,
    before: int,
    after: int,
)
    requires
        dispatches(entries, params, r, before, after),
        call_name(params) matches Some(name) && lookup(entries, name) matches Some(k) && !accepts_value(
            kind_shape(k),
            params[1],
        ),
    ensures
        r matches Err(f) && f.code == BAD_ARGUMENTS,
        after == before,
{
}

} // verus!
