//! The turtle interpreter.  An expanded symbol sequence is turned into a
//! stream of cursor operations; the save/restore stack discipline is
//! checked here, so a sequence that pops an empty stack is rejected with
//! `MalformedSequence` before anything is drawn.
//!
//! The drawing itself is floating-point work on the surface and is done
//! by the embedding, one operation at a time.  Its exact state is modeled
//! here: the cursor's heading is the net turn count applied to the start
//! heading, and its position is determined by the headings of the forward
//! steps walked since the origin, because a restore returns to the saved
//! accumulated position.

use vstd::prelude::*;
use crate::errors::RenderError;

verus! {

/// One cursor operation of the drawing loop.
#[derive(Clone, Copy, Debug, PartialEq, Eq, Structural)]
pub enum TurtleOp {
    /// Advance one stroke length along the current heading, drawing.
    Forward,
    /// Turn one step the `+` way (the heading decreases).
    TurnPlus,
    /// Turn one step the `-` way (the heading increases).
    TurnMinus,
    /// Save the cursor on the stack.
    Push,
    /// Restore the most recently saved cursor and move there, not drawing.
    Pop,
}

/// The operation a symbol stands for: `F`, `A` and `B` advance, `+` and
/// `-` turn, `[` and `]` save and restore; every other symbol is ignored.
pub open spec fn op_of(c: char) -> Option<TurtleOp> {
    if c == 'F' || c == 'A' || c == 'B' {
        Some(TurtleOp::Forward)
    } else if c == '+' {
        Some(TurtleOp::TurnPlus)
    } else if c == '-' {
        Some(TurtleOp::TurnMinus)
    } else if c == '[' {
        Some(TurtleOp::Push)
    } else if c == ']' {
        Some(TurtleOp::Pop)
    } else {
        None
    }
}

/// The operation stream of a symbol sequence, ignored symbols dropped.
pub open spec fn ops_of(s: Seq<char>) -> Seq<TurtleOp>
    decreases s.len(),
{
    if s.len() == 0 {
        Seq::empty()
    } else {
        let rest = ops_of(s.drop_first());
        match op_of(s[0]) {
            Some(op) => seq![op] + rest,
            None => rest,
        }
    }
}

/// How one operation changes the stack depth.
pub open spec fn op_depth_delta(op: TurtleOp) -> int {
    match op {
        TurtleOp::Push => 1,
        TurtleOp::Pop => -1,
        _ => 0,
    }
}

/// The stack depth after running `ops` from an empty stack: saves minus
/// restores.
pub open spec fn depth_of(ops: Seq<TurtleOp>) -> int
    decreases ops.len(),
{
    if ops.len() == 0 {
        0
    } else {
        depth_of(ops.drop_last()) + op_depth_delta(ops.last())
    }
}

/// Stack discipline: no prefix restores more than was saved before it, so
/// no restore ever meets an empty stack.
pub open spec fn well_bracketed(ops: Seq<TurtleOp>) -> bool {
    forall|i: int| 0 <= i <= ops.len() ==> depth_of(#[trigger] ops.take(i)) >= 0
}

/// The cursor state of the drawing loop, exactly.  `heading` counts net
/// turn steps from the start heading; `path` holds the heading of every
/// forward step walked since the origin on the current branch, which
/// determines the drawn position (a restore returns to the saved
/// accumulated position, so the position is always the fold of `path`).
pub ghost struct TurtleState {
    pub path: Seq<int>,
    pub heading: int,
    pub stack: Seq<(Seq<int>, int)>,
}

impl TurtleState {
    /// The state the drawing loop starts in.
    pub open spec fn initial() -> TurtleState {
        TurtleState { path: Seq::empty(), heading: 0, stack: Seq::empty() }
    }
}

/// One step of the drawing loop.  A restore on an empty stack leaves the
/// state unchanged; `well_bracketed` streams never take that branch, and
/// the interpreter refuses every other stream.
pub open spec fn step(st: TurtleState, op: TurtleOp) -> TurtleState {
    match op {
        TurtleOp::Forward => TurtleState { path: st.path.push(st.heading), ..st },
        TurtleOp::TurnPlus => TurtleState { heading: st.heading - 1, ..st },
        TurtleOp::TurnMinus => TurtleState { heading: st.heading + 1, ..st },
        TurtleOp::Push => TurtleState { stack: st.stack.push((st.path, st.heading)), ..st },
        TurtleOp::Pop => {
            if st.stack.len() > 0 {
                TurtleState {
                    path: st.stack.last().0,
                    heading: st.stack.last().1,
                    stack: st.stack.drop_last(),
                }
            } else {
                st
            }
        },
    }
}

/// The state after running `ops` from `st`.
pub open spec fn run(st: TurtleState, ops: Seq<TurtleOp>) -> TurtleState
    decreases ops.len(),
{
    if ops.len() == 0 {
        st
    } else {
        run(step(st, ops[0]), ops.drop_first())
    }
}

/// Turn a symbol sequence into its operation stream, checking the stack
/// discipline.  The stream is returned exactly when no restore meets an
/// empty stack; otherwise the sequence is malformed and rejected.
pub fn interpret(sequence: &Vec<char>) -> (r: Result<Vec<TurtleOp>, RenderError>)
    ensures
        r is Ok <==> well_bracketed(ops_of(sequence@)),
        r is Ok ==> r->Ok_0@ == ops_of(sequence@),
        r is Err ==> r->Err_0 == RenderError::MalformedSequence,
{
    let mut ops: Vec<TurtleOp> = Vec::new();
    let mut depth: usize = 0;
    let mut i: usize = 0;
    proof {
        assert(sequence@.take(0) =~= Seq::<char>::empty());
    }
    while i < sequence.len()
        invariant
            i <= sequence.len(),
            ops@ == ops_of(sequence@.take(i as int)),
            ops@.len() <= i,
            depth == depth_of(ops@),
            well_bracketed(ops@),
        decreases sequence.len() - i,
    {
        let c = sequence[i];
        proof {
            assert(sequence@.take(i as int).push(c) =~= sequence@.take(i as int + 1));
            lemma_ops_of_push(sequence@.take(i as int), c);
        }
        match op_of_exec(c) {
            Some(op) => {
                if matches!(op, TurtleOp::Pop) {
                    if depth == 0 {
                        proof {
                            lemma_underflow_everywhere(sequence@, i as int, ops@);
                        }
                        return Err(RenderError::MalformedSequence);
                    }
                    depth = depth - 1;
                } else if matches!(op, TurtleOp::Push) {
                    assert(depth < usize::MAX) by {
                        lemma_depth_le_len(ops@);
                    }
                    depth = depth + 1;
                }
                proof {
                    lemma_well_bracketed_push(ops@, op);
                }
                ops.push(op);
            },
            None => {},
        }
        i += 1;
    }
    proof {
        assert(sequence@.take(sequence@.len() as int) =~= sequence@);
    }
    Ok(ops)
}

/// `op_of` as executable code.
fn op_of_exec(c: char) -> (r: Option<TurtleOp>)
    ensures
        r == op_of(c),
{
    if c == 'F' || c == 'A' || c == 'B' {
        Some(TurtleOp::Forward)
    } else if c == '+' {
        Some(TurtleOp::TurnPlus)
    } else if c == '-' {
        Some(TurtleOp::TurnMinus)
    } else if c == '[' {
        Some(TurtleOp::Push)
    } else if c == ']' {
        Some(TurtleOp::Pop)
    } else {
        None
    }
}

/// The operation stream distributes over concatenation.
pub proof fn lemma_ops_of_concat(a: Seq<char>, b: Seq<char>)
    ensures
        ops_of(a + b) == ops_of(a) + ops_of(b),
    decreases a.len(),
{
    if a.len() == 0 {
        assert(a + b =~= b);
        assert(ops_of(a) + ops_of(b) =~= ops_of(b));
    } else {
        assert((a + b).drop_first() =~= a.drop_first() + b);
        lemma_ops_of_concat(a.drop_first(), b);
        assert(ops_of(a + b) =~= ops_of(a) + ops_of(b));
    }
}

/// Extending the sequence by one symbol appends that symbol's operation,
/// if it has one.
pub proof fn lemma_ops_of_push(s: Seq<char>, c: char)
    ensures
        ops_of(s.push(c)) == match op_of(c) {
            Some(op) => ops_of(s).push(op),
            None => ops_of(s),
        },
{
    reveal_with_fuel(ops_of, 3);
    lemma_ops_of_concat(s, seq![c]);
    assert(s.push(c) =~= s + seq![c]);
    assert(seq![c].drop_first() =~= Seq::<char>::empty());
    match op_of(c) {
        Some(op) => {
            assert(ops_of(seq![c]) =~= seq![op]);
            assert(ops_of(s) + seq![op] =~= ops_of(s).push(op));
        },
        None => {
            assert(ops_of(seq![c]) =~= Seq::<TurtleOp>::empty());
            assert(ops_of(s) + ops_of(seq![c]) =~= ops_of(s));
        },
    }
}

/// The depth after a stream can never exceed its length.
proof fn lemma_depth_le_len(ops: Seq<TurtleOp>)
    ensures
        depth_of(ops) <= ops.len(),
    decreases ops.len(),
{
    if ops.len() > 0 {
        lemma_depth_le_len(ops.drop_last());
    }
}

/// A well-bracketed stream stays well bracketed when an operation that
/// does not underflow is appended.
proof fn lemma_well_bracketed_push(ops: Seq<TurtleOp>, op: TurtleOp)
    requires
        well_bracketed(ops),
        depth_of(ops) + op_depth_delta(op) >= 0,
    ensures
        well_bracketed(ops.push(op)),
        depth_of(ops.push(op)) == depth_of(ops) + op_depth_delta(op),
{
    assert(ops.push(op).drop_last() =~= ops);
    assert forall|i: int| 0 <= i <= ops.len() + 1 implies depth_of(
        #[trigger] ops.push(op).take(i),
    ) >= 0 by {
        if i <= ops.len() {
            assert(ops.push(op).take(i) =~= ops.take(i));
        } else {
            assert(ops.push(op).take(i) =~= ops.push(op));
        }
    }
}

/// When a restore meets depth zero, the whole sequence's operation stream
/// breaks the stack discipline, wherever the scan stopped.
proof fn lemma_underflow_everywhere(s: Seq<char>, i: int, ops: Seq<TurtleOp>)
    requires
        0 <= i < s.len(),
        ops == ops_of(s.take(i)),
        depth_of(ops) == 0,
        op_of(s[i]) == Some(TurtleOp::Pop),
    ensures
        !well_bracketed(ops_of(s)),
{
    let bad = ops.push(TurtleOp::Pop);
    assert(bad.drop_last() =~= ops);
    assert(depth_of(bad) == -1);
    assert(s =~= s.take(i + 1) + s.skip(i + 1));
    lemma_ops_of_concat(s.take(i + 1), s.skip(i + 1));
    assert(s.take(i).push(s[i]) =~= s.take(i + 1));
    lemma_ops_of_push(s.take(i), s[i]);
    assert(ops_of(s) == bad + ops_of(s.skip(i + 1)));
    assert(ops_of(s).take(bad.len() as int) =~= bad);
}

/// Running a concatenated stream is running its parts in turn.
pub proof fn lemma_run_concat(st: TurtleState, a: Seq<TurtleOp>, b: Seq<TurtleOp>)
    ensures
        run(st, a + b) == run(run(st, a), b),
    decreases a.len(),
{
    if a.len() == 0 {
        assert(a + b =~= b);
    } else {
        assert((a + b).drop_first() =~= a.drop_first() + b);
        assert((a + b)[0] == a[0]);
        lemma_run_concat(step(st, a[0]), a.drop_first(), b);
    }
}

/// A stream whose prefixes never dip below the watermark `k` leaves the
/// bottom `k` stack entries untouched and changes the depth by its own
/// balance.
proof fn lemma_run_preserves_bottom(st: TurtleState, ops: Seq<TurtleOp>, k: int)
    requires
        0 <= k <= st.stack.len(),
        forall|i: int|
            0 <= i <= ops.len() ==> st.stack.len() + depth_of(#[trigger] ops.take(i)) >= k,
    ensures
        run(st, ops).stack.len() == st.stack.len() + depth_of(ops),
        run(st, ops).stack.take(k) == st.stack.take(k),
    decreases ops.len(),
{
    reveal_with_fuel(depth_of, 2);
    if ops.len() == 0 {
        assert(ops.take(0) =~= ops);
    } else {
        let op = ops[0];
        let st2 = step(st, op);
        let rest = ops.drop_first();
        assert(ops.take(1) =~= seq![op]);
        assert(seq![op].drop_last() =~= Seq::<TurtleOp>::empty());
        assert(depth_of(seq![op]) == op_depth_delta(op));
        assert(st.stack.len() + op_depth_delta(op) >= k);
        assert forall|i: int| 0 <= i <= rest.len() implies st2.stack.len() + depth_of(
            #[trigger] rest.take(i),
        ) >= k by {
            assert(ops.take(i + 1) =~= seq![op] + rest.take(i));
            lemma_depth_concat(seq![op], rest.take(i));
            assert(st.stack.len() + depth_of(ops.take(i + 1)) >= k);
            assert(st2.stack.len() == st.stack.len() + op_depth_delta(op));
        }
        lemma_run_preserves_bottom(st2, rest, k);
        assert(ops =~= seq![op] + rest);
        lemma_depth_concat(seq![op], rest);
        assert(depth_of(ops) == op_depth_delta(op) + depth_of(rest));
        match op {
            TurtleOp::Push => {
                assert(st2.stack.take(k) =~= st.stack.take(k));
            },
            TurtleOp::Pop => {
                assert(st.stack.len() >= k + 1);
                assert(st2.stack.take(k) =~= st.stack.take(k));
            },
            _ => {
                assert(st2.stack == st.stack);
            },
        }
    }
}

/// Depth is additive over concatenation.
proof fn lemma_depth_concat(a: Seq<TurtleOp>, b: Seq<TurtleOp>)
    ensures
        depth_of(a + b) == depth_of(a) + depth_of(b),
    decreases b.len(),
{
    if b.len() == 0 {
        assert(a + b =~= a);
    } else {
        assert((a + b).drop_last() =~= a + b.drop_last());
        assert((a + b).last() == b.last());
        lemma_depth_concat(a, b.drop_last());
    }
}

/// In a well-bracketed stream every restore finds a save: when the
/// drawing loop reaches a `Pop`, the stack it has built from the start
/// state is not empty.  This is what `interpret` checks, so a stream it
/// accepts can never underflow the embedding's cursor stack.
pub proof fn lemma_pop_finds_a_save(ops: Seq<TurtleOp>, i: int)
    requires
        well_bracketed(ops),
        0 <= i < ops.len(),
        ops[i] == TurtleOp::Pop,
    ensures
        run(TurtleState::initial(), ops.take(i)).stack.len() > 0,
{
    let pre = ops.take(i);
    assert forall|j: int| 0 <= j <= pre.len() implies TurtleState::initial().stack.len()
        + depth_of(#[trigger] pre.take(j)) >= 0 by {
        assert(pre.take(j) =~= ops.take(j));
    }
    lemma_run_preserves_bottom(TurtleState::initial(), pre, 0);
    assert(ops.take(i + 1) =~= pre.push(TurtleOp::Pop));
    assert(pre.push(TurtleOp::Pop).drop_last() =~= pre);
    assert(depth_of(ops.take(i + 1)) == depth_of(pre) - 1);
}

/// Stack discipline restores the cursor: around any balanced, well
/// bracketed body, a save and its matching restore bring the cursor's
/// position and heading back to what was recorded at the save, and leave
/// the stack as it was.  The branch walked between the brackets leaves no
/// trace on the cursor.
pub proof fn lemma_push_pop_restores(st: TurtleState, body: Seq<TurtleOp>)
    requires
        depth_of(body) == 0,
        well_bracketed(body),
    ensures
        run(st, seq![TurtleOp::Push] + body + seq![TurtleOp::Pop]) == (TurtleState {
            path: st.path,
            heading: st.heading,
            stack: st.stack,
        }),
{
    reveal_with_fuel(run, 2);
    let st1 = step(st, TurtleOp::Push);
    let k = st.stack.len() as int + 1;
    assert(seq![TurtleOp::Push].drop_first() =~= Seq::<TurtleOp>::empty());
    assert(run(st, seq![TurtleOp::Push]) == st1);
    lemma_run_concat(st, seq![TurtleOp::Push], body);
    lemma_run_concat(st, seq![TurtleOp::Push] + body, seq![TurtleOp::Pop]);
    assert((seq![TurtleOp::Push] + body + seq![TurtleOp::Pop]) =~= (seq![TurtleOp::Push] + body)
        + seq![TurtleOp::Pop]);
    assert forall|i: int| 0 <= i <= body.len() implies st1.stack.len() + depth_of(
        #[trigger] body.take(i),
    ) >= k by {
        assert(depth_of(body.take(i)) >= 0);
    }
    lemma_run_preserves_bottom(st1, body, k);
    let st2 = run(st1, body);
    assert(st2.stack.len() == k);
    assert(st2.stack.take(k) =~= st2.stack);
    assert(st1.stack.take(k) =~= st1.stack);
    assert(st2.stack == st1.stack);
    assert(st2.stack.last() == (st.path, st.heading));
    let st3 = step(st2, TurtleOp::Pop);
    assert(st3.stack =~= st.stack);
    assert(seq![TurtleOp::Pop].drop_first() =~= Seq::<TurtleOp>::empty());
    assert(run(st2, seq![TurtleOp::Pop]) == st3);
}

} // verus!
