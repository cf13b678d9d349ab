//! What holds of every plan: how its items follow from the lines of the
//! document, and what filtering does to it.

use vstd::prelude::*;
use crate::executor::executable::ExecutableView;
use crate::executor::execution_plan::{
    code_of, inside, keeps, kept, opener, plan_of, raw_items, EnvironmentView, ExecutionItemView,
};
use crate::fenced_attributes::code_chunk::{is_fence, CodeChunkView};

verus! {

/// How many of the first `n` lines are fences.
pub open spec fn fence_count(lines: Seq<Seq<char>>, n: int) -> nat
    decreases n,
{
    if n <= 0 {
        0
    } else if is_fence(lines[n - 1]) {
        fence_count(lines, n - 1) + 1
    } else {
        fence_count(lines, n - 1)
    }
}

/// Those of the first `n` lines that are no fences, in their order.
pub open spec fn plain_lines(lines: Seq<Seq<char>>, n: int) -> Seq<Seq<char>>
    decreases n,
{
    if n <= 0 {
        Seq::empty()
    } else if is_fence(lines[n - 1]) {
        plain_lines(lines, n - 1)
    } else {
        plain_lines(lines, n - 1).push(lines[n - 1])
    }
}

/// How many fragments a sequence of items holds.
pub open spec fn fragment_count(items: Seq<ExecutionItemView>) -> nat
    decreases items.len(),
{
    if items.len() == 0 {
        0
    } else if items.last() is Execute {
        fragment_count(items.drop_last()) + 1
    } else {
        fragment_count(items.drop_last())
    }
}

/// The lines that a sequence of items shows, in their order.
pub open spec fn shown_lines(items: Seq<ExecutionItemView>) -> Seq<Seq<char>>
    decreases items.len(),
{
    if items.len() == 0 {
        Seq::empty()
    } else {
        match items.last() {
            ExecutionItemView::OutputString(line) => shown_lines(items.drop_last()).push(line),
            ExecutionItemView::OutputCode(line) => shown_lines(items.drop_last()).push(line),
            ExecutionItemView::Execute(_) => shown_lines(items.drop_last()),
        }
    }
}

/// The lines from `from` up to `to`, each as an item of code.
pub open spec fn code_lines(lines: Seq<Seq<char>>, from: int, to: int) -> Seq<ExecutionItemView> {
    Seq::new((to - from) as nat, |k: int| ExecutionItemView::OutputCode(lines[from + k]))
}

/// Inside a fence, the last fence before line `n` opened it: it is no
/// closing fence, and no fence stands between it and line `n`.
pub proof fn lemma_opener(lines: Seq<Seq<char>>, n: int)
    requires
        0 <= n <= lines.len(),
        inside(lines, n),
    ensures
        0 <= opener(lines, n) < n,
        is_fence(lines[opener(lines, n)]),
        !inside(lines, opener(lines, n)),
        forall|j: int| opener(lines, n) < j < n ==> !is_fence(#[trigger] lines[j]),
    decreases n,
{
    if n > 0 && !is_fence(lines[n - 1]) {
        lemma_opener(lines, n - 1);
    }
}

/// Before filtering, a document gives one fragment for each pair of
/// fences, and shows each line that is no fence, once and in the order
/// of the document. A line is inside a fence after an odd number of
/// fences.
pub proof fn lemma_items_of_lines(
    lines: Seq<Seq<char>>,
    chunks: Seq<Option<CodeChunkView>>,
    ending: Seq<char>,
    n: int,
)
    requires
        0 <= n <= lines.len(),
    ensures
        inside(lines, n) == (fence_count(lines, n) % 2 == 1),
        fragment_count(raw_items(lines, chunks, ending, n)) == fence_count(lines, n) / 2,
        shown_lines(raw_items(lines, chunks, ending, n)) == plain_lines(lines, n),
    decreases n,
{
    if n > 0 {
        lemma_items_of_lines(lines, chunks, ending, n - 1);
        let before = raw_items(lines, chunks, ending, n - 1);
        let now = raw_items(lines, chunks, ending, n);
        if is_fence(lines[n - 1]) {
            if inside(lines, n - 1) {
                assert(now.drop_last() =~= before);
            }
        } else {
            assert(now.drop_last() =~= before);
        }
    }
}

/// Filtering takes fragments out, never lines, and leaves what stays in
/// its order: the lines that a plan shows are those that its items
/// showed before.
pub proof fn lemma_filter_keeps_lines(items: Seq<ExecutionItemView>, environment: EnvironmentView)
    ensures
        shown_lines(kept(items, environment)) == shown_lines(items),
        fragment_count(kept(items, environment)) <= fragment_count(items),
        kept(items, environment).len() <= items.len(),
    decreases items.len(),
{
    if items.len() > 0 {
        lemma_filter_keeps_lines(items.drop_last(), environment);
        if keeps(environment, items.last()) {
            assert(kept(items, environment).drop_last() =~= kept(
                items.drop_last(),
                environment,
            ));
        }
    }
}

/// The plan of a document shows each line that is no fence, once and in
/// the order of the document, and holds at most one fragment for each
/// pair of fences.
pub proof fn lemma_plan_of_lines(
    lines: Seq<Seq<char>>,
    chunks: Seq<Option<CodeChunkView>>,
    environment: EnvironmentView,
)
    ensures
        shown_lines(plan_of(lines, chunks, environment)) == plain_lines(
            lines,
            lines.len() as int,
        ),
        fragment_count(plan_of(lines, chunks, environment)) <= fence_count(
            lines,
            lines.len() as int,
        ) / 2,
{
    let n = lines.len() as int;
    lemma_items_of_lines(lines, chunks, environment.line_ending, n);
    lemma_filter_keeps_lines(raw_items(lines, chunks, environment.line_ending, n), environment);
}

/// Every item that filtering leaves is one that the environment keeps.
pub proof fn lemma_kept_are_kept(items: Seq<ExecutionItemView>, environment: EnvironmentView)
    ensures
        forall|k: int|
            0 <= k < kept(items, environment).len() ==> keeps(
                environment,
                #[trigger] kept(items, environment)[k],
            ),
    decreases items.len(),
{
    if items.len() > 0 {
        lemma_kept_are_kept(items.drop_last(), environment);
        let rest = kept(items.drop_last(), environment);
        let all = kept(items, environment);
        assert forall|k: int| 0 <= k < all.len() implies keeps(environment, #[trigger] all[k]) by {
            if k < rest.len() {
                assert(all[k] == rest[k]);
            }
        }
    }
}

/// Filtering changes nothing where the environment keeps every item.
pub proof fn lemma_filter_nothing(items: Seq<ExecutionItemView>, environment: EnvironmentView)
    requires
        forall|k: int| 0 <= k < items.len() ==> keeps(environment, #[trigger] items[k]),
    ensures
        kept(items, environment) == items,
    decreases items.len(),
{
    if items.len() > 0 {
        lemma_filter_nothing(items.drop_last(), environment);
        assert(items.drop_last().push(items.last()) =~= items);
    }
}

/// Filtering a plan that was filtered for the same environment changes
/// nothing.
pub proof fn lemma_filter_idempotent(items: Seq<ExecutionItemView>, environment: EnvironmentView)
    ensures
        kept(kept(items, environment), environment) == kept(items, environment),
{
    lemma_kept_are_kept(items, environment);
    lemma_filter_nothing(kept(items, environment), environment);
}

/// Filtering one sequence behind another filters each.
pub proof fn lemma_filter_concat(
    a: Seq<ExecutionItemView>,
    b: Seq<ExecutionItemView>,
    environment: EnvironmentView,
)
    ensures
        kept(a + b, environment) == kept(a, environment) + kept(b, environment),
    decreases b.len(),
{
    if b.len() == 0 {
        assert(a + b =~= a);
        assert(kept(a, environment) + kept(b, environment) =~= kept(a, environment));
    } else {
        lemma_filter_concat(a, b.drop_last(), environment);
        assert((a + b).drop_last() =~= a + b.drop_last());
        assert((a + b).last() == b.last());
        if keeps(environment, b.last()) {
            assert(kept(a + b, environment) =~= kept(a, environment) + kept(b, environment));
        }
    }
}

/// A fragment stands for a pair of fences among the first `n` lines: it
/// starts at a fence and ends at the next one; its code chunk is that of
/// the opening line; and its code is made of the lines between the two,
/// each followed by the line ending, and of nothing else.
pub open spec fn closes_a_pair(
    lines: Seq<Seq<char>>,
    chunks: Seq<Option<CodeChunkView>>,
    ending: Seq<char>,
    n: int,
    fragment: ExecutableView,
) -> bool {
    let start = fragment.position.start as int;
    let end = fragment.position.end as int;
    &&& 0 <= start < end < n
    &&& is_fence(lines[start])
    &&& is_fence(lines[end])
    &&& forall|j: int| start < j < end ==> !is_fence(#[trigger] lines[j])
    &&& fragment.code_chunk == chunks[start]
    &&& fragment.code == code_of(lines, start + 1, end, ending)
}

/// Every fragment among the items of the first `n` lines closes a pair
/// of fences, and its code is the lines between them.
pub proof fn lemma_fragments_round_trip(
    lines: Seq<Seq<char>>,
    chunks: Seq<Option<CodeChunkView>>,
    ending: Seq<char>,
    n: int,
)
    requires
        0 <= n <= lines.len(),
        n <= usize::MAX,
    ensures
        forall|k: int|
            0 <= k < raw_items(lines, chunks, ending, n).len() && (#[trigger] raw_items(
                lines,
                chunks,
                ending,
                n,
            )[k]) is Execute ==> closes_a_pair(
                lines,
                chunks,
                ending,
                n,
                raw_items(lines, chunks, ending, n)[k]->Execute_0,
            ),
    decreases n,
{
    if n > 0 {
        lemma_fragments_round_trip(lines, chunks, ending, n - 1);
        let before = raw_items(lines, chunks, ending, n - 1);
        let now = raw_items(lines, chunks, ending, n);
        assert forall|k: int| 0 <= k < now.len() && (#[trigger] now[k]) is Execute implies closes_a_pair(
            lines,
            chunks,
            ending,
            n,
            now[k]->Execute_0,
        ) by {
            if k < before.len() {
                assert(now[k] == before[k]);
                assert(closes_a_pair(lines, chunks, ending, n - 1, before[k]->Execute_0));
            } else {
                lemma_opener(lines, n - 1);
            }
        }
    }
}

/// Every item that filtering leaves is one of the items that were
/// filtered.
pub proof fn lemma_kept_are_items(items: Seq<ExecutionItemView>, environment: EnvironmentView)
    ensures
        forall|k: int|
            0 <= k < kept(items, environment).len() ==> items.contains(
                #[trigger] kept(items, environment)[k],
            ),
    decreases items.len(),
{
    if items.len() > 0 {
        lemma_kept_are_items(items.drop_last(), environment);
        let rest = kept(items.drop_last(), environment);
        let all = kept(items, environment);
        assert forall|k: int| 0 <= k < all.len() implies items.contains(#[trigger] all[k]) by {
            if k < rest.len() {
                assert(all[k] == rest[k]);
                let j = choose|j: int| 0 <= j < items.drop_last().len() && items.drop_last()[j] == rest[k];
                assert(items[j] == all[k]);
            } else {
                assert(items[items.len() - 1] == all[k]);
            }
        }
    }
}

/// Every fragment of a document's plan closes a pair of fences, and its
/// code is the lines between them, each followed by the line ending.
pub proof fn lemma_plan_round_trip(
    lines: Seq<Seq<char>>,
    chunks: Seq<Option<CodeChunkView>>,
    environment: EnvironmentView,
)
    requires
        lines.len() <= usize::MAX,
    ensures
        forall|k: int|
            0 <= k < plan_of(lines, chunks, environment).len() && (#[trigger] plan_of(
                lines,
                chunks,
                environment,
            )[k]) is Execute ==> closes_a_pair(
                lines,
                chunks,
                environment.line_ending,
                lines.len() as int,
                plan_of(lines, chunks, environment)[k]->Execute_0,
            ),
{
    let n = lines.len() as int;
    let raw = raw_items(lines, chunks, environment.line_ending, n);
    let plan = plan_of(lines, chunks, environment);
    lemma_fragments_round_trip(lines, chunks, environment.line_ending, n);
    lemma_kept_are_items(raw, environment);
    assert forall|k: int| 0 <= k < plan.len() && (#[trigger] plan[k]) is Execute implies closes_a_pair(
        lines,
        chunks,
        environment.line_ending,
        n,
        plan[k]->Execute_0,
    ) by {
        let j = choose|j: int| 0 <= j < raw.len() && raw[j] == plan[k];
        assert(raw[j] is Execute);
    }
}

/// A fence that is never closed gives no fragment: from the line behind
/// it on, the items are the lines themselves, as code.
pub proof fn lemma_unclosed_fence(
    lines: Seq<Seq<char>>,
    chunks: Seq<Option<CodeChunkView>>,
    ending: Seq<char>,
    n: int,
)
    requires
        0 <= n <= lines.len(),
        inside(lines, n),
    ensures
        raw_items(lines, chunks, ending, n) == raw_items(
            lines,
            chunks,
            ending,
            opener(lines, n),
        ) + code_lines(lines, opener(lines, n) + 1, n),
    decreases n,
{
    lemma_opener(lines, n);
    let o = opener(lines, n);
    if is_fence(lines[n - 1]) {
        assert(raw_items(lines, chunks, ending, n) =~= raw_items(lines, chunks, ending, o)
            + code_lines(lines, o + 1, n));
    } else {
        lemma_unclosed_fence(lines, chunks, ending, n - 1);
        assert(raw_items(lines, chunks, ending, n) =~= raw_items(lines, chunks, ending, o)
            + code_lines(lines, o + 1, n));
    }
}

/// In the plan of a document that ends inside a fence, the lines behind
/// that fence all stand as code, after the plan of what precedes it.
pub proof fn lemma_plan_with_unclosed_fence(
    lines: Seq<Seq<char>>,
    chunks: Seq<Option<CodeChunkView>>,
    environment: EnvironmentView,
)
    requires
        inside(lines, lines.len() as int),
    ensures
        plan_of(lines, chunks, environment) == kept(
            raw_items(
                lines,
                chunks,
                environment.line_ending,
                opener(lines, lines.len() as int),
            ),
            environment,
        ) + code_lines(lines, opener(lines, lines.len() as int) + 1, lines.len() as int),
{
    let n = lines.len() as int;
    let o = opener(lines, n);
    let tail = code_lines(lines, o + 1, n);
    lemma_unclosed_fence(lines, chunks, environment.line_ending, n);
    lemma_filter_concat(
        raw_items(lines, chunks, environment.line_ending, o),
        tail,
        environment,
    );
    lemma_filter_nothing(tail, environment);
}

} // verus!
