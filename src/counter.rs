use vstd::prelude::*;
use vstd::string::StringExecFns;

use crate::keywords::is_mismatch_fault;
use crate::marshal::{accepts_value, marshal_nothing, no_arguments};
use crate::outcome::{encode, is_result_value, HandlerResult, KeywordOutcome, Status};
use crate::value::Value;

verus! {

/// State shared by the calls of a keyword: the next integer to hand out.
///
/// It hands out every integer from its start up to `i32::MAX` once, in
/// order, and nothing after that.
#[derive(Debug)]
pub struct Counter {
    next: i64,
}

/// One step of a counter at `c`: what it hands out, and where it stands after.
pub open spec fn counter_step(c: int) -> (Option<int>, int) {
    if c <= i32::MAX {
        (Some(c), c + 1)
    } else {
        (None, c)
    }
}

/// What `n` successive steps of a counter at `c` hand out, in order.
pub open spec fn counter_run(c: int, n: nat) -> Seq<Option<int>>
    decreases n,
{
    if n == 0 {
        Seq::empty()
    } else {
        seq![counter_step(c).0] + counter_run(counter_step(c).1, (n - 1) as nat)
    }
}

impl View for Counter {
    type V = int;

    closed spec fn view(&self) -> int {
        self.next as int
    }
}

impl Counter {
    /// The counter stands between `i32::MIN` and one past `i32::MAX`.
    pub closed spec fn well_formed(&self) -> bool {
        i32::MIN <= self.next <= i32::MAX + 1
    }

    /// A counter whose first value is `start`.
    pub fn new(start: i32) -> (r: Counter)
        ensures
            r.well_formed(),
            r@ == start as int,
    {
        Counter { next: start as i64 }
    }

    /// Hands out the next value, if any is left.
    pub fn next_value(&mut self) -> (r: Option<i32>)
        requires
            old(self).well_formed(),
        ensures
            final(self).well_formed(),
            (match r {
                Some(v) => Some(v as int),
                None => None,
            }, final(self)@) == counter_step(old(self)@),
    {
        if self.next <= i32::MAX as i64 {
            let v = self.next as i32;
            self.next = self.next + 1;
            Some(v)
        } else {
            None
        }
    }
}

/// A counter at `c` hands out `c`, `c + 1`, ... in turn, so long as they fit
/// a 32-bit integer.
proof fn lemma_counter_run(c: int, n: nat)
    requires
        c + n - 1 <= i32::MAX,
    ensures
        counter_run(c, n) =~= Seq::new(n, |i: int| Some(c + i)),
    decreases n,
{
    if n > 0 {
        lemma_counter_run(c + 1, (n - 1) as nat);
    }
}

/// Calls of a counter that starts at `v`, taken one at a time under its lock,
/// hand out `v, v + 1, ..., v + n - 1`, each exactly once, whatever the
/// callers, so long as these fit a 32-bit integer.
pub proof fn lemma_counter_hands_out_each_once(v: i32, n: nat)
    requires
        v + n - 1 <= i32::MAX,
    ensures
        counter_run(v as int, n).len() == n,
        counter_run(v as int, n).no_duplicates(),
        forall|x: int| #[trigger] counter_run(v as int, n).contains(Some(x)) <==> v <= x < v + n,
        forall|x: Option<int>| #[trigger] counter_run(v as int, n).contains(x) ==> x is Some,
{
    lemma_counter_run(v as int, n);
    let s = counter_run(v as int, n);
    assert forall|x: int| #[trigger] s.contains(Some(x)) <==> v <= x < v + n by {
        if v <= x < v + n {
            assert(s[x - v] == Some(x));
        }
    }
}

/// The error once a counter has no value left.
pub open spec fn counter_exhausted_text() -> Seq<char> {
    "The counter has no value left."@
}

/// `r` is what the counter keyword answers for `params`, with the counter at
/// `before` ahead of the call and at `after` once it is done.
pub open spec fn next_value_answers(params: Value, r: HandlerResult, before: int, after: int) -> bool {
    &&& r is Ok <==> accepts_value(no_arguments(), params)
    &&& r is Err ==> is_mismatch_fault(r, "Next Value"@, no_arguments(), params) && after == before
    &&& r matches Ok(v) ==> after == counter_step(before).1 && match counter_step(before).0 {
        Some(c) => is_result_value(v, Status::Pass, Some(Value::Int(c as i32)), Seq::empty(), Seq::empty(), None),
        None => is_result_value(v, Status::Fail, None, Seq::empty(), counter_exhausted_text(), None),
    }
}

/// Hands out the counter's next value; fails once the counter is exhausted.
pub fn keyword_next_value(value: &Value, counter: &mut Counter) -> (r: HandlerResult)
    requires
        old(counter).well_formed(),
    ensures
        final(counter).well_formed(),
        next_value_answers(*value, r, old(counter)@, final(counter)@),
{
    match marshal_nothing("Next Value", value) {
        Ok(_) => {},
        Err(e) => {
            return Err(e.to_fault());
        },
    }
    let outcome = match counter.next_value() {
        Some(c) => KeywordOutcome::Success { return_value: Some(Value::Int(c)), output: String::new() },
        None => KeywordOutcome::Failure {
            output: String::new(),
            error: String::from_str("The counter has no value left."),
            traceback: None,
        },
    };
    Ok(encode(outcome).to_value())
}

} // verus!
