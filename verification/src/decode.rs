//! What the decoding routine does with a row: which request it makes for
//! each field, what it makes of each answer, and how the fields combine into
//! the record or into the first error.
//!
//! The row itself is not modelled. Whoever holds it performs the requests and
//! reports each answer; the decisions are taken here.

use crate::fold::{fold_until_error, lemma_fold_error_persists, lemma_fold_one_more};
use crate::plan::{spec_plan_field, ExtractionPlan, FieldPlan, FieldPlanSpec, PlanSpec};
use crate::policy::NamingPolicy;
use crate::record::FieldSpec;
use crate::resolve::spec_column_name;
use vstd::prelude::*;

verus! {

/// What the routine asks of the row for one field. `field` says whose value
/// is wanted, and so of which type; `column` is the resolved column name.
#[derive(Clone, Debug, PartialEq, Eq)]
pub enum Request {
    /// A direct typed lookup of the column.
    Lookup { field: String, column: String },
    /// A call of the custom decoder with the column name and the row, and
    /// with nothing else.
    Custom { field: String, decoder: String, column: String },
}

/// The mathematical content of a [`Request`].
pub ghost enum RequestSpec {
    Lookup { field: Seq<char>, column: Seq<char> },
    Custom { field: Seq<char>, decoder: Seq<char>, column: Seq<char> },
}

impl View for Request {
    type V = RequestSpec;

    open spec fn view(&self) -> RequestSpec {
        match self {
            Request::Lookup { field, column } => RequestSpec::Lookup {
                field: field@,
                column: column@,
            },
            Request::Custom { field, decoder, column } => RequestSpec::Custom {
                field: field@,
                decoder: decoder@,
                column: column@,
            },
        }
    }
}

/// What came back for one request: a value, the error that says the named
/// column is not in the row, or any other error.
#[derive(Clone, Debug, PartialEq, Eq)]
pub enum Answer<V, E> {
    Value(V),
    Missing(E),
    Failed(E),
}

/// What one field of the finished record holds.
#[derive(Clone, Debug, PartialEq, Eq)]
pub enum Slot<V> {
    /// The value that was decoded.
    Decoded(V),
    /// The default value of the field's type.
    Defaulted,
}

/// The request made for a field: its custom decoder if it has one, and only
/// then; else the direct lookup. Either way it carries the resolved column.
pub open spec fn spec_request(plan: FieldPlanSpec) -> RequestSpec {
    match plan.decoder {
        Some(decoder) => RequestSpec::Custom { field: plan.field, decoder, column: plan.column },
        None => RequestSpec::Lookup { field: plan.field, column: plan.column },
    }
}

/// What a field makes of its answer. A value is kept. A missing column gives
/// the default where the field asks for it, and is an error where not. Any
/// other error is passed on unchanged, default or not.
pub open spec fn spec_settle<V, E>(use_default: bool, answer: Answer<V, E>) -> Result<Slot<V>, E> {
    match answer {
        Answer::Value(value) => Ok(Slot::Decoded(value)),
        Answer::Missing(error) => if use_default {
            Ok(Slot::Defaulted)
        } else {
            Err(error)
        },
        Answer::Failed(error) => Err(error),
    }
}

/// Takes the answer for the next field into account: the field is the one
/// whose position is the number of slots already filled.
pub open spec fn spec_absorb_answer<V, E>(
    fields: Seq<FieldPlanSpec>,
    filled: Seq<Slot<V>>,
    answer: Answer<V, E>,
) -> Result<Seq<Slot<V>>, E> {
    match spec_settle(fields[filled.len() as int].use_default, answer) {
        Ok(slot) => Ok(filled.push(slot)),
        Err(error) => Err(error),
    }
}

/// The slots filled once the row has given `answers`, one per field from the
/// first on, or the first error among them.
pub open spec fn spec_outcome<V, E>(fields: Seq<FieldPlanSpec>, answers: Seq<Answer<V, E>>) -> Result<
    Seq<Slot<V>>,
    E,
> {
    fold_until_error(
        answers,
        Seq::<Slot<V>>::empty(),
        |filled: Seq<Slot<V>>, answer: Answer<V, E>| spec_absorb_answer(fields, filled, answer),
    )
}

/// Makes the request for one field.
pub fn request_for(plan: &FieldPlan) -> (request: Request)
    ensures
        request@ == spec_request(plan@),
{
    match &plan.decoder {
        Some(decoder) => Request::Custom {
            field: plan.field.clone(),
            decoder: decoder.clone(),
            column: plan.column.clone(),
        },
        None => Request::Lookup { field: plan.field.clone(), column: plan.column.clone() },
    }
}

/// Decides what a field makes of its answer.
pub fn settle<V, E>(use_default: bool, answer: Answer<V, E>) -> (out: Result<Slot<V>, E>)
    ensures
        out == spec_settle(use_default, answer),
{
    match answer {
        Answer::Value(value) => Ok(Slot::Decoded(value)),
        Answer::Missing(error) => {
            if use_default {
                Ok(Slot::Defaulted)
            } else {
                Err(error)
            }
        },
        Answer::Failed(error) => Err(error),
    }
}

/// A decoding that waits for the answer to its next request.
#[derive(Debug)]
pub struct Pending<'a, V> {
    plan: &'a ExtractionPlan,
    filled: Vec<Slot<V>>,
}

/// Where a decoding stands.
#[derive(Debug)]
pub enum Turn<'a, V, E> {
    /// The next field's request is to be made and answered.
    Ask(Pending<'a, V>),
    /// Every field is settled: the record's slots, in declaration order.
    Built(Vec<Slot<V>>),
    /// A field failed: its error. No later field is asked for.
    Failed(E),
}

impl<'a, V> Pending<'a, V> {
    #[verifier::type_invariant]
    spec fn in_range(self) -> bool {
        self.filled.len() < self.plan.fields.len()
    }

    /// The plan that is being carried out.
    pub closed spec fn plan(self) -> PlanSpec {
        self.plan@
    }

    /// The slots filled so far, one for each field already settled.
    pub closed spec fn filled(self) -> Seq<Slot<V>> {
        self.filled@
    }

    /// The position of the field that is asked for next.
    pub open spec fn position(self) -> int {
        self.filled().len() as int
    }

    /// The request to make now: that of the first field not yet settled.
    pub fn request(&self) -> (request: Request)
        ensures
            0 <= self.position() < self.plan().fields.len(),
            request@ == spec_request(self.plan().fields[self.position()]),
    {
        proof {
            use_type_invariant(self);
        }
        request_for(&self.plan.fields[self.filled.len()])
    }

    /// Takes the answer to the pending request. An error ends the decoding;
    /// a settled last field finishes the record; otherwise the next field is
    /// asked for.
    pub fn supply<E>(self, answer: Answer<V, E>) -> (turn: Turn<'a, V, E>)
        ensures
            0 <= self.position() < self.plan().fields.len(),
            match spec_absorb_answer(self.plan().fields, self.filled(), answer) {
                Err(error) => turn == Turn::<'a, V, E>::Failed(error),
                Ok(filled) => if filled.len() == self.plan().fields.len() {
                    turn matches Turn::Built(slots) && slots@ == filled
                } else {
                    turn matches Turn::Ask(next) && next.plan() == self.plan() && next.filled()
                        == filled
                },
            },
    {
        proof {
            use_type_invariant(&self);
        }
        let plan = self.plan;
        let mut filled = self.filled;
        match settle(plan.fields[filled.len()].use_default, answer) {
            Err(error) => Turn::Failed(error),
            Ok(slot) => {
                filled.push(slot);
                if filled.len() == plan.fields.len() {
                    Turn::Built(filled)
                } else {
                    Turn::Ask(Pending { plan, filled })
                }
            },
        }
    }
}

/// Starts decoding a row by `plan`. A record without fields is built at
/// once; otherwise the first field is asked for.
pub fn begin<'a, V, E>(plan: &'a ExtractionPlan) -> (turn: Turn<'a, V, E>)
    ensures
        if plan@.fields.len() == 0 {
            turn matches Turn::Built(slots) && slots@ == Seq::<Slot<V>>::empty()
        } else {
            turn matches Turn::Ask(first) && first.plan() == plan@ && first.filled() == Seq::<
                Slot<V>,
            >::empty()
        },
{
    let filled: Vec<Slot<V>> = Vec::new();
    if plan.fields.len() == 0 {
        Turn::Built(filled)
    } else {
        Turn::Ask(Pending { plan, filled })
    }
}

/// Whether `asked` and `answers` are what one decoding by `plan` exchanged
/// with `row`, and `out` is how it ended.
///
/// The requests are those of the fields in declaration order, from the first
/// on, each answered by `row`. A request is made only once every earlier
/// field is settled, so an error is always that of the last field asked, and
/// a record is built only when every field was asked.
pub open spec fn spec_exchange<V, E, F: Fn(&Request) -> Answer<V, E>>(
    plan: PlanSpec,
    row: F,
    asked: Seq<Request>,
    answers: Seq<Answer<V, E>>,
    out: Result<Seq<Slot<V>>, E>,
) -> bool {
    &&& asked.len() == answers.len()
    &&& answers.len() <= plan.fields.len()
    &&& forall|i: int|
        0 <= i < asked.len() ==> (#[trigger] asked[i])@ == spec_request(plan.fields[i])
    &&& forall|i: int|
        0 <= i < asked.len() ==> call_ensures(row, (&asked[i],), #[trigger] answers[i])
    &&& forall|k: int|
        0 <= k < answers.len() ==> #[trigger] spec_outcome(plan.fields, answers.take(k)) is Ok
    &&& out == spec_outcome(plan.fields, answers)
    &&& out is Ok ==> answers.len() == plan.fields.len()
}

/// How a decoding ended, with the record's slots as a sequence.
pub open spec fn spec_ending<V, E>(out: Result<Vec<Slot<V>>, E>) -> Result<Seq<Slot<V>>, E> {
    match out {
        Ok(slots) => Ok(slots@),
        Err(error) => Err(error),
    }
}

/// Decodes a row by `plan`. `row` performs each request and reports the
/// answer. Fields are asked for in declaration order; the first field that
/// fails ends the decoding with its error, and no later request is made.
pub fn decode_with<V, E, F: Fn(&Request) -> Answer<V, E>>(plan: &ExtractionPlan, row: F) -> (out:
    Result<Vec<Slot<V>>, E>)
    requires
        forall|request: &Request| call_requires(row, (request,)),
    ensures
        exists|asked: Seq<Request>, answers: Seq<Answer<V, E>>| #[trigger]
            spec_exchange(plan@, row, asked, answers, spec_ending(out)),
        out matches Ok(slots) ==> slots@.len() == plan@.fields.len(),
{
    let ghost fields = plan@.fields;
    let ghost step = |filled: Seq<Slot<V>>, answer: Answer<V, E>|
        spec_absorb_answer(fields, filled, answer);
    let ghost mut asked: Seq<Request> = Seq::empty();
    let ghost mut answers: Seq<Answer<V, E>> = Seq::empty();
    let mut turn: Turn<'_, V, E> = begin(plan);
    loop
        invariant
            fields == plan@.fields,
            step == (|filled: Seq<Slot<V>>, answer: Answer<V, E>|
                spec_absorb_answer(fields, filled, answer)),
            forall|request: &Request| call_requires(row, (request,)),
            asked.len() == answers.len(),
            answers.len() <= fields.len(),
            forall|i: int| 0 <= i < asked.len() ==> (#[trigger] asked[i])@ == spec_request(fields[i]),
            forall|i: int|
                0 <= i < asked.len() ==> call_ensures(row, (&asked[i],), #[trigger] answers[i]),
            forall|k: int|
                0 <= k < answers.len() ==> #[trigger] spec_outcome(fields, answers.take(k)) is Ok,
            match turn {
                Turn::Ask(pending) => pending.plan() == plan@ && spec_outcome(fields, answers)
                    == Ok::<Seq<Slot<V>>, E>(pending.filled()) && pending.filled().len()
                    == answers.len(),
                Turn::Built(slots) => spec_outcome(fields, answers) == Ok::<Seq<Slot<V>>, E>(
                    slots@,
                ) && answers.len() == fields.len(),
                Turn::Failed(error) => spec_outcome(fields, answers) == Err::<Seq<Slot<V>>, E>(
                    error,
                ),
            },
        decreases fields.len() - answers.len(),
    {
        match turn {
            Turn::Built(slots) => {
                proof {
                    assert(answers.take(answers.len() as int) =~= answers);
                    lemma_prefix_lengths(fields, answers, answers.len() as int);
                    assert(spec_exchange(
                        plan@,
                        row,
                        asked,
                        answers,
                        spec_ending(Ok::<Vec<Slot<V>>, E>(slots)),
                    ));
                }
                return Ok(slots);
            },
            Turn::Failed(error) => {
                proof {
                    assert(spec_exchange(
                        plan@,
                        row,
                        asked,
                        answers,
                        spec_ending(Err::<Vec<Slot<V>>, E>(error)),
                    ));
                }
                return Err(error);
            },
            Turn::Ask(pending) => {
                let request = pending.request();
                let answer = row(&request);
                proof {
                    let earlier = answers;
                    asked = asked.push(request);
                    answers = answers.push(answer);
                    assert(answers.take(earlier.len() as int) =~= earlier);
                    assert(answers.take(answers.len() as int) =~= answers);
                    lemma_fold_one_more(
                        answers,
                        Seq::<Slot<V>>::empty(),
                        step,
                        earlier.len() as int,
                    );
                    assert forall|k: int| 0 <= k < answers.len() implies #[trigger] spec_outcome(
                        fields,
                        answers.take(k),
                    ) is Ok by {
                        if k < earlier.len() {
                            assert(answers.take(k) =~= earlier.take(k));
                        }
                    }
                }
                turn = pending.supply(answer);
            },
        }
    }
}

/// Only the missing-column error is ever replaced by the default. Whatever
/// the field asks for, a value is kept and any other error is passed on
/// unchanged; the missing-column error is passed on too unless the field
/// asks for its default.
pub proof fn lemma_default_intercepts_only_missing<V, E>(use_default: bool, answer: Answer<V, E>)
    ensures
        answer matches Answer::Failed(error) ==> spec_settle(use_default, answer) == Err::<
            Slot<V>,
            E,
        >(error),
        answer matches Answer::Value(value) ==> spec_settle(use_default, answer) == Ok::<
            Slot<V>,
            E,
        >(Slot::Decoded(value)),
        answer matches Answer::Missing(error) ==> spec_settle(use_default, answer) == (if use_default {
            Ok::<Slot<V>, E>(Slot::Defaulted)
        } else {
            Err::<Slot<V>, E>(error)
        }),
        spec_settle(use_default, answer) == Ok::<Slot<V>, E>(Slot::Defaulted) <==> use_default
            && answer is Missing,
{
}

/// A field with a custom decoder is never looked up directly: its request is
/// the call of that decoder with the resolved column name. A field without
/// one is looked up directly under its resolved column name.
pub proof fn lemma_decoder_replaces_lookup(field: FieldSpec, policy: Option<NamingPolicy>)
    ensures
        field.decoder matches Some(decoder) ==> spec_request(spec_plan_field(field, policy))
            == (RequestSpec::Custom {
            field: field.name,
            decoder,
            column: spec_column_name(field, policy),
        }),
        field.decoder is None ==> spec_request(spec_plan_field(field, policy))
            == (RequestSpec::Lookup { field: field.name, column: spec_column_name(field, policy) }),
        spec_request(spec_plan_field(field, policy)) is Lookup <==> field.decoder is None,
{
}

/// While every answer settles, the slots filled are what each field makes of
/// its own answer, in declaration order.
pub proof fn lemma_settled_prefix<V, E>(
    fields: Seq<FieldPlanSpec>,
    answers: Seq<Answer<V, E>>,
    k: int,
)
    requires
        0 <= k <= answers.len(),
        forall|j: int|
            0 <= j < k ==> (#[trigger] spec_settle(fields[j].use_default, answers[j])) is Ok,
    ensures
        spec_outcome(fields, answers.take(k)) == Ok::<Seq<Slot<V>>, E>(
            Seq::new(k as nat, |j: int| spec_settle(fields[j].use_default, answers[j])->Ok_0),
        ),
    decreases k,
{
    let step = |filled: Seq<Slot<V>>, answer: Answer<V, E>|
        spec_absorb_answer(fields, filled, answer);
    let slots = |n: int|
        Seq::new(n as nat, |j: int| spec_settle(fields[j].use_default, answers[j])->Ok_0);
    if k == 0 {
        assert(answers.take(0).len() == 0);
        assert(slots(0) =~= Seq::<Slot<V>>::empty());
    } else {
        lemma_settled_prefix(fields, answers, k - 1);
        lemma_fold_one_more(answers, Seq::<Slot<V>>::empty(), step, k - 1);
        assert(spec_settle(fields[k - 1].use_default, answers[k - 1]) is Ok);
        assert(slots(k - 1).push(spec_settle(fields[k - 1].use_default, answers[k - 1])->Ok_0)
            =~= slots(k));
    }
}

/// When every field's answer settles, the record is built, and each slot is
/// what its field makes of its answer.
pub proof fn lemma_all_settled_builds_the_record<V, E>(
    fields: Seq<FieldPlanSpec>,
    answers: Seq<Answer<V, E>>,
)
    requires
        forall|j: int|
            0 <= j < answers.len() ==> (#[trigger] spec_settle(fields[j].use_default, answers[j]))
                is Ok,
    ensures
        spec_outcome(fields, answers) == Ok::<Seq<Slot<V>>, E>(
            Seq::new(
                answers.len(),
                |j: int| spec_settle(fields[j].use_default, answers[j])->Ok_0,
            ),
        ),
{
    lemma_settled_prefix(fields, answers, answers.len() as int);
    assert(answers.take(answers.len() as int) =~= answers);
}

/// The first error wins: when field `k` is the first whose answer does not
/// settle, the decoding ends with that field's error, whatever the later
/// fields would have answered.
pub proof fn lemma_first_error_wins<V, E>(
    fields: Seq<FieldPlanSpec>,
    answers: Seq<Answer<V, E>>,
    k: int,
)
    requires
        0 <= k < answers.len(),
        forall|j: int|
            0 <= j < k ==> (#[trigger] spec_settle(fields[j].use_default, answers[j])) is Ok,
        spec_settle(fields[k].use_default, answers[k]) is Err,
    ensures
        spec_outcome(fields, answers) == Err::<Seq<Slot<V>>, E>(
            spec_settle(fields[k].use_default, answers[k])->Err_0,
        ),
{
    let step = |filled: Seq<Slot<V>>, answer: Answer<V, E>|
        spec_absorb_answer(fields, filled, answer);
    lemma_settled_prefix(fields, answers, k);
    lemma_fold_one_more(answers, Seq::<Slot<V>>::empty(), step, k);
    lemma_fold_error_persists(answers, Seq::<Slot<V>>::empty(), step, k + 1);
}

/// Evaluation order is declaration order. In every exchange the `i`-th
/// request is that of the `i`-th field of the plan; every field but the last
/// one asked has settled; an error is that of the last field asked; and a
/// record is built only after all fields were asked.
pub proof fn lemma_requests_follow_declaration_order<V, E, F: Fn(&Request) -> Answer<V, E>>(
    plan: PlanSpec,
    row: F,
    asked: Seq<Request>,
    answers: Seq<Answer<V, E>>,
    out: Result<Seq<Slot<V>>, E>,
)
    requires
        spec_exchange(plan, row, asked, answers, out),
    ensures
        forall|i: int|
            0 <= i < asked.len() ==> (#[trigger] asked[i])@ == spec_request(plan.fields[i]),
        forall|i: int|
            0 <= i < answers.len() - 1 ==> (#[trigger] spec_settle(
                plan.fields[i].use_default,
                answers[i],
            )) is Ok,
        out matches Err(error) ==> answers.len() > 0 && spec_settle(
            plan.fields[answers.len() - 1].use_default,
            answers.last(),
        ) == Err::<Slot<V>, E>(error),
        out is Ok ==> asked.len() == plan.fields.len(),
{
    let fields = plan.fields;
    let step = |filled: Seq<Slot<V>>, answer: Answer<V, E>|
        spec_absorb_answer(fields, filled, answer);
    assert forall|i: int| 0 <= i < answers.len() - 1 implies (#[trigger] spec_settle(
        fields[i].use_default,
        answers[i],
    )) is Ok by {
        lemma_prefix_lengths(fields, answers, i);
        lemma_fold_one_more(answers, Seq::<Slot<V>>::empty(), step, i);
        assert(spec_outcome(fields, answers.take(i)) is Ok);
        assert(spec_outcome(fields, answers.take(i + 1)) is Ok);
    }
    if out is Err {
        if answers.len() == 0 {
            assert(spec_outcome(fields, answers) is Ok);
        } else {
            let last = answers.len() - 1;
            lemma_prefix_lengths(fields, answers, last);
            lemma_fold_one_more(answers, Seq::<Slot<V>>::empty(), step, last);
            assert(answers.take(last + 1) =~= answers);
        }
    }
}

/// A prefix of the answers that settles fills one slot per answer.
pub proof fn lemma_prefix_lengths<V, E>(
    fields: Seq<FieldPlanSpec>,
    answers: Seq<Answer<V, E>>,
    k: int,
)
    requires
        0 <= k <= answers.len(),
        spec_outcome(fields, answers.take(k)) is Ok,
    ensures
        spec_outcome(fields, answers.take(k))->Ok_0.len() == k,
    decreases k,
{
    let step = |filled: Seq<Slot<V>>, answer: Answer<V, E>|
        spec_absorb_answer(fields, filled, answer);
    if k == 0 {
        assert(answers.take(0).len() == 0);
    } else {
        lemma_fold_one_more(answers, Seq::<Slot<V>>::empty(), step, k - 1);
        lemma_prefix_lengths(fields, answers, k - 1);
    }
}

} // verus!
