use vstd::prelude::*;

use crate::bridge::HostReply;
use crate::delegate::{cached_after, planned_step, reply_outcome, InitStepView};
use crate::diagnostic::diag;
use crate::options::{
    default_options, indent_width_in_range, line_width_in_range, member, normalized,
    INDENT_WIDTH_DEFAULT, LINE_WIDTH_DEFAULT, IndentStyle, LineEnding, QuoteStyle, RawValue,
    Semicolons,
};
use crate::response::{entry_problem, extends_message, problems, ConfigEntry};

verus! {

/// Normalisation is total and leaves no option unset: whatever the payload, the
/// widths lie in their supported ranges, a payload that is not an object gives
/// the defaults, and each option whose field is absent takes its default.
pub proof fn lemma_normalized_populated(v: RawValue)
    ensures
        indent_width_in_range(normalized(v).indent_width as u64),
        line_width_in_range(normalized(v).line_width as u64),
        !(v is Object) ==> normalized(v) == default_options(),
        member(v, "useTabs"@).is_none() ==> normalized(v).indent_style == IndentStyle::Space,
        member(v, "tabWidth"@).is_none() ==> normalized(v).indent_width == INDENT_WIDTH_DEFAULT,
        member(v, "printWidth"@).is_none() ==> normalized(v).line_width == LINE_WIDTH_DEFAULT,
        member(v, "singleQuote"@).is_none() ==> normalized(v).quote_style == QuoteStyle::Double,
        member(v, "jsxSingleQuote"@).is_none() ==> normalized(v).jsx_quote_style
            == QuoteStyle::Double,
        member(v, "semi"@).is_none() ==> normalized(v).semicolons == Semicolons::Always,
        member(v, "endOfLine"@).is_none() ==> normalized(v).line_ending == LineEnding::Lf,
        member(v, "_tailwindPluginEnabled"@).is_none() && member(v, "experimentalTailwindcss"@).is_none()
            ==> !normalized(v).experimental_tailwindcss,
        member(v, "experimentalSortImports"@).is_none() ==> !normalized(v).experimental_sort_imports,
{
}

/// Initialisation happens once: the first request calls the host; after its
/// reply, whether success or failure, a further request is served with that same
/// outcome and does not call the host, and later replies change nothing.
pub proof fn lemma_init_once(
    first: HostReply<Vec<String>>,
    later: HostReply<Vec<String>>,
    first_threads: usize,
    later_threads: usize,
)
    ensures
        planned_step(None, first_threads) == InitStepView::CallHost(first_threads),
        planned_step(cached_after(None, first), later_threads) == InitStepView::Cached(
            reply_outcome(first),
        ),
        cached_after(cached_after(None, first), later) == cached_after(None, first),
{
}

/// A batch is all or nothing: it yields no diagnostic exactly when every entry
/// is admissible, so any inadmissible entry leaves the batch without entries.
pub proof fn lemma_batch_clean_iff<C>(es: Seq<ConfigEntry<C>>)
    ensures
        problems(es).len() == 0 <==> forall|i: int|
            0 <= i < es.len() ==> (#[trigger] entry_problem(es[i])).is_none(),
    decreases es.len(),
{
    if es.len() > 0 {
        lemma_batch_clean_iff(es.drop_last());
        if problems(es).len() == 0 {
            assert forall|i: int| 0 <= i < es.len() implies (#[trigger] entry_problem(
                es[i],
            )).is_none() by {
                if i < es.len() - 1 {
                    assert(es[i] == es.drop_last()[i]);
                }
            }
        }
        if forall|i: int| 0 <= i < es.len() ==> (#[trigger] entry_problem(es[i])).is_none() {
            assert forall|i: int| 0 <= i < es.drop_last().len() implies (#[trigger] entry_problem(
                es.drop_last()[i],
            )).is_none() by {
                assert(es[i] == es.drop_last()[i]);
            }
            assert(entry_problem(es[es.len() - 1]).is_none());
        }
    }
}

/// A batch of one admissible entry and one whose `extends` is non-empty yields
/// exactly one diagnostic, naming the second entry's path.
pub proof fn lemma_batch_with_extends<C>(ok: ConfigEntry<C>, ext: ConfigEntry<C>)
    requires
        entry_problem(ok).is_none(),
        ext.config matches Ok(d) && d.extends@.len() > 0,
    ensures
        problems(seq![ok, ext]) == seq![diag(extends_message(ext.path@), None)],
{
    let es = seq![ok, ext];
    assert(es.drop_last() =~= seq![ok]);
    assert(seq![ok].drop_last() =~= Seq::<ConfigEntry<C>>::empty());
    assert(problems(Seq::<ConfigEntry<C>>::empty()) =~= Seq::empty());
    assert(seq![ok].last() == ok);
    assert(problems(seq![ok]) =~= Seq::empty());
    assert(es.last() == ext);
    assert(problems(es) =~= seq![diag(extends_message(ext.path@), None)]);
}

} // verus!
