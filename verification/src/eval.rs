//! The postfix machine: operand push, operator pop-apply-push, final
//! single-value result, with a stack-free fast path for programs of at most
//! three units.

use vstd::prelude::*;
use crate::context::{Context, ElemV};
use crate::error::{ErrorKind, ExprError, ParsePbError};
use crate::ops::{
    LogicalOp, spec_apply_arith, spec_apply_logical, spec_apply_not, apply_arith,
    apply_logical_binary, apply_not,
};
use crate::program::{
    InnerOpr, UnitV, spec_ctx_view, spec_resolve, spec_unit_from_pb, spec_units_from_pb,
};
use crate::value::{Value, ValueV};
use crate::wire::{ExprItemV, ExprUnit, NameOrIdV};

verus! {

/// Whether a unit is an operand rather than an operator.
pub open spec fn spec_is_operand(u: UnitV) -> bool {
    u is Const || u is Var
}

/// One step of the postfix machine.  An operand resolves and is pushed (an
/// absent operand fails the evaluation); `Not` pops one value; every other
/// operator pops two, the earlier push being the left operand.
pub open spec fn spec_step(
    u: UnitV,
    stack: Seq<ValueV>,
    ctx: Option<Map<NameOrIdV, ElemV>>,
) -> Result<Seq<ValueV>, ErrorKind> {
    if spec_is_operand(u) {
        match spec_resolve(u, ctx) {
            Err(k) => Err(k),
            Ok(None) => Err(ErrorKind::NoneOperand),
            Ok(Some(v)) => Ok(stack.push(v)),
        }
    } else {
        match u {
            UnitV::Logical(op) => if op is Not {
                if stack.len() == 0 {
                    Err(ErrorKind::MissingOperands)
                } else {
                    match spec_apply_not(stack.last()) {
                        Ok(v) => Ok(stack.drop_last().push(v)),
                        Err(k) => Err(k),
                    }
                }
            } else {
                if stack.len() < 2 {
                    Err(ErrorKind::MissingOperands)
                } else {
                    match spec_apply_logical(op, stack[stack.len() - 2], stack.last()) {
                        Ok(v) => Ok(stack.drop_last().drop_last().push(v)),
                        Err(k) => Err(k),
                    }
                }
            },
            UnitV::Arith(op) => if stack.len() < 2 {
                Err(ErrorKind::MissingOperands)
            } else {
                match spec_apply_arith(op, stack[stack.len() - 2], stack.last()) {
                    Ok(v) => Ok(stack.drop_last().drop_last().push(v)),
                    Err(k) => Err(k),
                }
            },
            _ => Err(ErrorKind::InvalidExpression),
        }
    }
}

/// The stack after the first `n` units of a walk, or the first error.
pub open spec fn spec_run(
    units: Seq<UnitV>,
    ctx: Option<Map<NameOrIdV, ElemV>>,
    n: int,
) -> Result<Seq<ValueV>, ErrorKind>
    decreases n,
{
    if n <= 0 {
        Ok(Seq::empty())
    } else {
        match spec_run(units, ctx, n - 1) {
            Err(k) => Err(k),
            Ok(st) => spec_step(units[n - 1], st, ctx),
        }
    }
}

/// The general path: walk every unit, then demand exactly one stacked value.
pub open spec fn spec_walk(
    units: Seq<UnitV>,
    ctx: Option<Map<NameOrIdV, ElemV>>,
) -> Result<ValueV, ErrorKind> {
    match spec_run(units, ctx, units.len() as int) {
        Err(k) => Err(k),
        Ok(st) => if st.len() == 1 {
            Ok(st[0])
        } else {
            Err(ErrorKind::InvalidExpression)
        },
    }
}

/// The program shapes the fast path accepts: a lone operand, an operand
/// followed by `Not`, or two operands followed by a binary operator.
pub open spec fn spec_fast_shape(units: Seq<UnitV>) -> bool {
    if units.len() == 1 {
        spec_is_operand(units[0])
    } else if units.len() == 2 {
        spec_is_operand(units[0]) && units[1] == UnitV::Logical(LogicalOp::Not)
    } else if units.len() == 3 {
        spec_is_operand(units[0]) && spec_is_operand(units[1]) && (match units[2] {
            UnitV::Arith(_) => true,
            UnitV::Logical(op) => !(op is Not),
            _ => false,
        })
    } else {
        false
    }
}

/// Resolution of an operand where a value is owed: an absent operand fails.
pub open spec fn spec_operand(u: UnitV, ctx: Option<Map<NameOrIdV, ElemV>>) -> Result<
    ValueV,
    ErrorKind,
> {
    match spec_resolve(u, ctx) {
        Err(k) => Err(k),
        Ok(None) => Err(ErrorKind::NoneOperand),
        Ok(Some(v)) => Ok(v),
    }
}

/// The stack-free fast path for programs of at most three units.  An empty
/// program is an error of its own; a shape the fast path does not accept is
/// an invalid expression.
pub open spec fn spec_fast(
    units: Seq<UnitV>,
    ctx: Option<Map<NameOrIdV, ElemV>>,
) -> Result<ValueV, ErrorKind> {
    if units.len() == 0 {
        Err(ErrorKind::EmptyExpression)
    } else if !spec_fast_shape(units) {
        Err(ErrorKind::InvalidExpression)
    } else if units.len() == 1 {
        spec_operand(units[0], ctx)
    } else if units.len() == 2 {
        match spec_operand(units[0], ctx) {
            Err(k) => Err(k),
            Ok(a) => spec_apply_not(a),
        }
    } else {
        match spec_operand(units[0], ctx) {
            Err(k) => Err(k),
            Ok(a) => match spec_operand(units[1], ctx) {
                Err(k) => Err(k),
                Ok(b) => match units[2] {
                    UnitV::Arith(op) => spec_apply_arith(op, a, b),
                    UnitV::Logical(op) => spec_apply_logical(op, a, b),
                    _ => Err(ErrorKind::InvalidExpression),
                },
            },
        }
    }
}

/// What an evaluation returns: the fast path for at most three units, the
/// stack walk beyond that.
pub open spec fn spec_eval(
    units: Seq<UnitV>,
    ctx: Option<Map<NameOrIdV, ElemV>>,
) -> Result<ValueV, ErrorKind> {
    if units.len() <= 3 {
        spec_fast(units, ctx)
    } else {
        spec_walk(units, ctx)
    }
}

/// Once a walk has failed, every longer walk reports the same error.
proof fn lemma_run_error_stable(
    units: Seq<UnitV>,
    ctx: Option<Map<NameOrIdV, ElemV>>,
    j: int,
    m: int,
    k: ErrorKind,
)
    requires
        0 <= j <= m,
        spec_run(units, ctx, j) == Err::<Seq<ValueV>, ErrorKind>(k),
    ensures
        spec_run(units, ctx, m) == Err::<Seq<ValueV>, ErrorKind>(k),
    decreases m - j,
{
    if m > j {
        lemma_run_error_stable(units, ctx, j, m - 1, k);
    }
}

/// The views of a stack of values.
pub open spec fn spec_stack_view(s: Seq<Value>) -> Seq<ValueV> {
    s.map_values(|v: Value| v@)
}

/// The views of a wire program.
pub open spec fn spec_wire_views(s: Seq<ExprUnit>) -> Seq<Option<ExprItemV>> {
    s.map_values(|u: ExprUnit| u@)
}

/// A wire program with a rejected unit anywhere is rejected as a whole.
proof fn lemma_units_from_pb_fail(ws: Seq<Option<ExprItemV>>, i: int)
    requires
        0 <= i < ws.len(),
        spec_unit_from_pb(ws[i]) is None,
    ensures
        spec_units_from_pb(ws) is None,
    decreases ws.len(),
{
    if i < ws.len() - 1 {
        lemma_units_from_pb_fail(ws.drop_last(), i);
    }
}

/// Law: fast-path equivalence.  For every program in one of the fast shapes
/// (which all programs of at most three units that evaluate to a value have),
/// the stack-free fast path and the general stack walk produce identical
/// results under every context.  Outside those shapes the two paths report
/// ill-formedness differently: on `[Const 1, Add]` the fast path sees an
/// invalid expression where the walk runs out of operands.
pub proof fn lemma_fast_path_equivalence(units: Seq<UnitV>, ctx: Option<Map<NameOrIdV, ElemV>>)
    requires
        spec_fast_shape(units),
    ensures
        spec_fast(units, ctx) == spec_walk(units, ctx),
{
    let e0 = Seq::<ValueV>::empty();
    assert(spec_run(units, ctx, 0) == Ok::<Seq<ValueV>, ErrorKind>(e0));
    if units.len() == 1 {
        match spec_resolve(units[0], ctx) {
            Err(_) => {},
            Ok(None) => {},
            Ok(Some(v)) => {
                assert(spec_run(units, ctx, 1) == Ok::<Seq<ValueV>, ErrorKind>(e0.push(v)));
            },
        }
    } else if units.len() == 2 {
        match spec_resolve(units[0], ctx) {
            Err(_) => {},
            Ok(None) => {},
            Ok(Some(a)) => {
                let s1 = e0.push(a);
                assert(spec_run(units, ctx, 1) == Ok::<Seq<ValueV>, ErrorKind>(s1));
                assert(s1.last() == a);
                match spec_apply_not(a) {
                    Err(_) => {},
                    Ok(v) => {
                        assert(spec_run(units, ctx, 2) == Ok::<Seq<ValueV>, ErrorKind>(
                            s1.drop_last().push(v),
                        ));
                        assert(s1.drop_last().push(v).len() == 1);
                        assert(s1.drop_last().push(v)[0] == v);
                    },
                }
            },
        }
    } else {
        match spec_resolve(units[0], ctx) {
            Err(_) => {},
            Ok(None) => {},
            Ok(Some(a)) => {
                let s1 = e0.push(a);
                assert(spec_run(units, ctx, 1) == Ok::<Seq<ValueV>, ErrorKind>(s1));
                match spec_resolve(units[1], ctx) {
                    Err(_) => {},
                    Ok(None) => {},
                    Ok(Some(b)) => {
                        let s2 = s1.push(b);
                        assert(spec_run(units, ctx, 2) == Ok::<Seq<ValueV>, ErrorKind>(s2));
                        assert(s2.len() == 2);
                        assert(s2[s2.len() - 2] == a);
                        assert(s2.last() == b);
                        let applied = match units[2] {
                            UnitV::Arith(op) => spec_apply_arith(op, a, b),
                            UnitV::Logical(op) => spec_apply_logical(op, a, b),
                            _ => Err(ErrorKind::InvalidExpression),
                        };
                        match applied {
                            Err(_) => {},
                            Ok(v) => {
                                let s3 = s2.drop_last().drop_last().push(v);
                                assert(spec_run(units, ctx, 3) == Ok::<Seq<ValueV>, ErrorKind>(
                                    s3,
                                ));
                                assert(s3.len() == 1);
                                assert(s3[0] == v);
                            },
                        }
                    },
                }
            },
        }
    }
}

/// Law: null propagation.  When evaluation reaches an operand that resolves
/// to an absent value — an explicit null literal, or a bound element without
/// the requested property — the whole evaluation fails with `NoneOperand`.
/// (An unbound variable does not reach resolution: it is a missing-context
/// error instead.)
pub proof fn lemma_null_propagation(
    units: Seq<UnitV>,
    ctx: Option<Map<NameOrIdV, ElemV>>,
    i: int,
)
    requires
        0 <= i < units.len(),
        spec_is_operand(units[i]),
        spec_resolve(units[i], ctx) == Ok::<Option<ValueV>, ErrorKind>(None),
        spec_run(units, ctx, i) is Ok,
        units.len() <= 3 ==> spec_fast_shape(units),
    ensures
        spec_eval(units, ctx) == Err::<ValueV, ErrorKind>(ErrorKind::NoneOperand),
{
    assert(spec_run(units, ctx, i + 1) == Err::<Seq<ValueV>, ErrorKind>(ErrorKind::NoneOperand));
    lemma_run_error_stable(units, ctx, i + 1, units.len() as int, ErrorKind::NoneOperand);
    assert(spec_walk(units, ctx) == Err::<ValueV, ErrorKind>(ErrorKind::NoneOperand));
    if units.len() <= 3 {
        lemma_fast_path_equivalence(units, ctx);
    }
}

/// Law: the wire form determines evaluation behaviour.  Translation is a
/// function of the wire units alone and evaluation a function of the program
/// and the context alone, so a program rebuilt from a faithfully re-encoded
/// wire form evaluates identically on every context.  The independent encoder
/// that carries the wire form between the builds lives outside this crate;
/// what is stated here is that nothing besides the wire units influences the
/// result.
pub proof fn lemma_rebuild_equivalence(
    w1: Seq<Option<ExprItemV>>,
    w2: Seq<Option<ExprItemV>>,
    ctx: Option<Map<NameOrIdV, ElemV>>,
)
    requires
        w1 =~= w2,
    ensures
        spec_units_from_pb(w1) == spec_units_from_pb(w2),
        (match (spec_units_from_pb(w1), spec_units_from_pb(w2)) {
            (Some(u1), Some(u2)) => spec_eval(u1, ctx) == spec_eval(u2, ctx),
            (None, None) => true,
            _ => false,
        }),
{
    assert(w1 == w2);
}

/// An evaluator: a compiled program and a reusable scratch stack.  The stack
/// is emptied at the start of every evaluation and is empty again when it
/// returns, whatever the outcome.
#[derive(Debug)]
pub struct Evaluator {
    suffix_tree: Vec<InnerOpr>,
    stack: Vec<Value>,
}

impl Evaluator {
    /// The compiled program, as viewed units.
    pub closed spec fn program(&self) -> Seq<UnitV> {
        self.suffix_tree@.map_values(|o: InnerOpr| o@)
    }

    /// How many values sit on the scratch stack.
    pub closed spec fn stack_size(&self) -> nat {
        self.stack@.len()
    }

    /// Build an evaluator from a wire program.  Succeeds if and only if
    /// every unit translates (see `spec_units_from_pb`), and then holds
    /// exactly the translated program and an empty stack.
    #[verifier::loop_isolation(false)]
    pub fn from_pb(suffix_tree: Vec<ExprUnit>) -> (r: Result<Evaluator, ParsePbError>)
        ensures
            (r matches Ok(ev) ==> spec_units_from_pb(spec_wire_views(suffix_tree@)) == Some(
                ev.program(),
            ) && ev.stack_size() == 0),
            (r matches Err(_) ==> spec_units_from_pb(spec_wire_views(suffix_tree@)) is None),
    {
        let ghost orig = spec_wire_views(suffix_tree@);
        let mut rest = suffix_tree;
        let mut inner: Vec<InnerOpr> = Vec::new();
        let ghost mut k: int = 0;
        proof {
            assert(orig.subrange(0, 0).len() == 0);
            assert(spec_wire_views(rest@) =~= orig.subrange(0, orig.len() as int));
        }
        while rest.len() > 0
            invariant
                0 <= k <= orig.len(),
                rest@.len() == orig.len() - k,
                spec_wire_views(rest@) =~= orig.subrange(k, orig.len() as int),
                spec_units_from_pb(orig.subrange(0, k)) == Some(
                    inner@.map_values(|o: InnerOpr| o@),
                ),
            decreases rest@.len(),
        {
            let ghost old_rest = rest@;
            let ghost before = inner@.map_values(|o: InnerOpr| o@);
            let unit = rest.remove(0);
            proof {
                assert(unit@ == spec_wire_views(old_rest)[0]);
                assert(unit@ == orig[k]);
                assert forall|j: int| 0 <= j < rest@.len() implies spec_wire_views(rest@)[j]
                    == orig.subrange(k + 1, orig.len() as int)[j] by {
                    assert(rest@[j] == old_rest[j + 1]);
                    assert(spec_wire_views(old_rest)[j + 1] == orig.subrange(
                        k,
                        orig.len() as int,
                    )[j + 1]);
                }
                assert(spec_wire_views(rest@) =~= orig.subrange(k + 1, orig.len() as int));
            }
            match InnerOpr::from_pb(unit) {
                Ok(o) => {
                    inner.push(o);
                    proof {
                        assert(orig.subrange(0, k + 1).drop_last() =~= orig.subrange(0, k));
                        assert(orig.subrange(0, k + 1).last() == orig[k]);
                        assert(inner@.map_values(|x: InnerOpr| x@) =~= before.push(o@));
                        k = k + 1;
                    }
                },
                Err(e) => {
                    proof {
                        assert(0 <= k < orig.len());
                        assert(spec_unit_from_pb(orig[k]) is None);
                        lemma_units_from_pb_fail(orig, k);
                        assert(spec_units_from_pb(orig) is None);
                    }
                    return Err(e);
                },
            }
        }
        proof {
            assert(orig.subrange(0, k) =~= orig);
        }
        Ok(Evaluator { suffix_tree: inner, stack: Vec::new() })
    }

    /// Clear the scratch stack; the program is untouched.
    pub fn reset(&mut self)
        ensures
            final(self).program() == old(self).program(),
            final(self).stack_size() == 0,
    {
        self.stack.clear();
    }

    /// Evaluate the program under an optional context.  The result is
    /// `spec_eval` of the program and the context's binding — a function of
    /// those two alone, so repeated evaluation is deterministic — and the
    /// scratch stack is empty afterwards whatever the outcome.
    #[verifier::rlimit(100)]
    pub fn eval<C: Context>(&mut self, context: Option<&C>) -> (r: Result<Value, ExprError>)
        ensures
            final(self).program() == old(self).program(),
            final(self).stack_size() == 0,
            (r matches Ok(v) ==> spec_eval(old(self).program(), spec_ctx_view(context)) == Ok::<
                ValueV,
                ErrorKind,
            >(v@)),
            (r matches Err(e) ==> spec_eval(old(self).program(), spec_ctx_view(context)) == Err::<
                ValueV,
                ErrorKind,
            >(e.kind())),
    {
        self.stack.clear();
        let n = self.suffix_tree.len();
        if n <= 3 {
            return self.eval_without_stack(context);
        }
        let ghost units = self.program();
        let ghost ctx = spec_ctx_view(context);
        proof {
            assert(spec_stack_view(self.stack@) =~= Seq::<ValueV>::empty());
        }
        let mut i: usize = 0;
        while i < n
            invariant
                i <= n,
                n == self.suffix_tree.len(),
                n > 3,
                units == old(self).program(),
                self.program() == units,
                self.suffix_tree@.map_values(|o: InnerOpr| o@) == units,
                units.len() == n,
                ctx == spec_ctx_view(context),
                spec_run(units, ctx, i as int) == Ok::<Seq<ValueV>, ErrorKind>(
                    spec_stack_view(self.stack@),
                ),
            decreases n - i,
        {
            let ghost stack_v = spec_stack_view(self.stack@);
            proof {
                assert(units[i as int] == self.suffix_tree@[i as int]@);
            }
            let opr = &self.suffix_tree[i];
            match opr {
                InnerOpr::Const(_) | InnerOpr::Var { .. } => {
                    match opr.eval_as_borrow_object(context) {
                        Ok(Some(v)) => {
                            self.stack.push(v);
                            proof {
                                assert(spec_stack_view(self.stack@) =~= stack_v.push(v@));
                            }
                        },
                        Ok(None) => {
                            proof {
                                assert(spec_run(units, ctx, i + 1) == Err::<
                                    Seq<ValueV>,
                                    ErrorKind,
                                >(ErrorKind::NoneOperand));
                                lemma_run_error_stable(
                                    units,
                                    ctx,
                                    i + 1,
                                    n as int,
                                    ErrorKind::NoneOperand,
                                );
                            }
                            self.stack.clear();
                            return Err(ExprError::NoneOperand);
                        },
                        Err(e) => {
                            proof {
                                lemma_run_error_stable(units, ctx, i + 1, n as int, e.kind());
                            }
                            self.stack.clear();
                            return Err(e);
                        },
                    }
                },
                InnerOpr::Logical(op) => {
                    let first = self.stack.pop();
                    if matches!(op, LogicalOp::Not) {
                        match first {
                            Some(a) => match apply_not(&a) {
                                Ok(v) => {
                                    self.stack.push(v);
                                    proof {
                                        assert(spec_stack_view(self.stack@) =~= stack_v
                                            .drop_last().push(v@));
                                        assert(stack_v.last() == a@);
                                    }
                                },
                                Err(e) => {
                                    proof {
                                        assert(stack_v.last() == a@);
                                        lemma_run_error_stable(
                                            units,
                                            ctx,
                                            i + 1,
                                            n as int,
                                            e.kind(),
                                        );
                                    }
                                    self.stack.clear();
                                    return Err(e);
                                },
                            },
                            None => {
                                proof {
                                    lemma_run_error_stable(
                                        units,
                                        ctx,
                                        i + 1,
                                        n as int,
                                        ErrorKind::MissingOperands,
                                    );
                                }
                                self.stack.clear();
                                return Err(ExprError::MissingOperands);
                            },
                        }
                    } else {
                        let second = self.stack.pop();
                        match (second, first) {
                            (Some(a), Some(b)) => match apply_logical_binary(op, &a, &b) {
                                Ok(v) => {
                                    self.stack.push(v);
                                    proof {
                                        assert(stack_v[stack_v.len() - 2] == a@);
                                        assert(stack_v.last() == b@);
                                        assert(spec_stack_view(self.stack@) =~= stack_v
                                            .drop_last().drop_last().push(v@));
                                    }
                                },
                                Err(e) => {
                                    proof {
                                        assert(stack_v[stack_v.len() - 2] == a@);
                                        assert(stack_v.last() == b@);
                                        lemma_run_error_stable(
                                            units,
                                            ctx,
                                            i + 1,
                                            n as int,
                                            e.kind(),
                                        );
                                    }
                                    self.stack.clear();
                                    return Err(e);
                                },
                            },
                            _ => {
                                proof {
                                    lemma_run_error_stable(
                                        units,
                                        ctx,
                                        i + 1,
                                        n as int,
                                        ErrorKind::MissingOperands,
                                    );
                                }
                                self.stack.clear();
                                return Err(ExprError::MissingOperands);
                            },
                        }
                    }
                },
                InnerOpr::Arith(op) => {
                    let first = self.stack.pop();
                    let second = self.stack.pop();
                    match (second, first) {
                        (Some(a), Some(b)) => match apply_arith(op, &a, &b) {
                            Ok(v) => {
                                self.stack.push(v);
                                proof {
                                    assert(stack_v[stack_v.len() - 2] == a@);
                                    assert(stack_v.last() == b@);
                                    assert(spec_stack_view(self.stack@) =~= stack_v.drop_last()
                                        .drop_last().push(v@));
                                }
                            },
                            Err(e) => {
                                proof {
                                    assert(stack_v[stack_v.len() - 2] == a@);
                                    assert(stack_v.last() == b@);
                                    lemma_run_error_stable(units, ctx, i + 1, n as int, e.kind());
                                }
                                self.stack.clear();
                                return Err(e);
                            },
                        },
                        _ => {
                            proof {
                                lemma_run_error_stable(
                                    units,
                                    ctx,
                                    i + 1,
                                    n as int,
                                    ErrorKind::MissingOperands,
                                );
                            }
                            self.stack.clear();
                            return Err(ExprError::MissingOperands);
                        },
                    }
                },
            }
            proof {
                assert(spec_step(units[i as int], stack_v, ctx) == Ok::<Seq<ValueV>, ErrorKind>(
                    spec_stack_view(self.stack@),
                ));
            }
            i = i + 1;
        }
        if self.stack.len() == 1 {
            let ghost final_stack = spec_stack_view(self.stack@);
            let v = self.stack.pop();
            match v {
                Some(v) => {
                    proof {
                        assert(final_stack[0] == v@);
                    }
                    Ok(v)
                },
                None => {
                    self.stack.clear();
                    Err(ExprError::InvalidExpression(String::from_str("empty result stack")))
                },
            }
        } else {
            self.stack.clear();
            Err(ExprError::InvalidExpression(String::from_str("ill-formed suffix expression")))
        }
    }

    /// The stack-free fast path for programs of at most three units; see
    /// `spec_fast`.
    fn eval_without_stack<C: Context>(&self, context: Option<&C>) -> (r: Result<Value, ExprError>)
        requires
            self.program().len() <= 3,
        ensures
            (r matches Ok(v) ==> spec_fast(self.program(), spec_ctx_view(context)) == Ok::<
                ValueV,
                ErrorKind,
            >(v@)),
            (r matches Err(e) ==> spec_fast(self.program(), spec_ctx_view(context)) == Err::<
                ValueV,
                ErrorKind,
            >(e.kind())),
    {
        let n = self.suffix_tree.len();
        proof {
            assert(self.program().len() == n);
        }
        if n == 0 {
            return Err(ExprError::EmptyExpression);
        }
        let u0 = &self.suffix_tree[0];
        proof {
            assert(self.program()[0] == u0@);
        }
        if n == 1 {
            if !u0.is_operand() {
                return Err(
                    ExprError::InvalidExpression(
                        String::from_str("a single unit must be an operand"),
                    ),
                );
            }
            return match u0.eval_as_borrow_object(context) {
                Ok(Some(v)) => Ok(v),
                Ok(None) => Err(ExprError::NoneOperand),
                Err(e) => Err(e),
            };
        }
        if n == 2 {
            let u1 = &self.suffix_tree[1];
            proof {
                assert(self.program()[1] == u1@);
            }
            let shape_ok = u0.is_operand() && matches!(u1, InnerOpr::Logical(LogicalOp::Not));
            if !shape_ok {
                return Err(
                    ExprError::InvalidExpression(
                        String::from_str("two units must be an operand and a negation"),
                    ),
                );
            }
            let a = match u0.eval_as_borrow_object(context) {
                Ok(Some(v)) => v,
                Ok(None) => {
                    return Err(ExprError::NoneOperand);
                },
                Err(e) => {
                    return Err(e);
                },
            };
            return apply_not(&a);
        }
        let u1 = &self.suffix_tree[1];
        let u2 = &self.suffix_tree[2];
        proof {
            assert(self.program()[1] == u1@);
            assert(self.program()[2] == u2@);
        }
        let binop_ok = match u2 {
            InnerOpr::Arith(_) => true,
            InnerOpr::Logical(op) => !matches!(op, LogicalOp::Not),
            _ => false,
        };
        if !(u0.is_operand() && u1.is_operand() && binop_ok) {
            return Err(
                ExprError::InvalidExpression(
                    String::from_str("three units must be two operands and a binary operator"),
                ),
            );
        }
        let a = match u0.eval_as_borrow_object(context) {
            Ok(Some(v)) => v,
            Ok(None) => {
                return Err(ExprError::NoneOperand);
            },
            Err(e) => {
                return Err(e);
            },
        };
        let b = match u1.eval_as_borrow_object(context) {
            Ok(Some(v)) => v,
            Ok(None) => {
                return Err(ExprError::NoneOperand);
            },
            Err(e) => {
                return Err(e);
            },
        };
        match u2 {
            InnerOpr::Arith(op) => apply_arith(op, &a, &b),
            InnerOpr::Logical(op) => apply_logical_binary(op, &a, &b),
            _ => {
                proof {
                    assert(false);
                }
                Err(ExprError::InvalidExpression(String::from_str("not a binary operator")))
            },
        }
    }
}

} // verus!

