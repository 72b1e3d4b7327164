//! The model of the input ledger: the table of in-progress text values keyed
//! by (page, button), in insertion order.

use vstd::laws_eq::obeys_concrete_eq;
use vstd::prelude::*;

verus! {

/// The ledger as contracts see it: each entry with its text as characters.
pub type LedgerView<PageId, ButtonId> = Seq<(PageId, ButtonId, Seq<char>)>;

/// The view of a stored ledger.
pub open spec fn view_of<PageId, ButtonId>(ledger: Seq<(PageId, ButtonId, String)>) -> LedgerView<
    PageId,
    ButtonId,
> {
    Seq::new(ledger.len(), |i: int| (ledger[i].0, ledger[i].1, ledger[i].2@))
}

/// The views of a list of strings.
pub open spec fn texts_of(strings: Seq<String>) -> Seq<Seq<char>> {
    Seq::new(strings.len(), |i: int| strings[i]@)
}

/// The texts of a ledger in ledger order: what page builders read by
/// position.
pub open spec fn flattened<PageId, ButtonId>(ledger: LedgerView<PageId, ButtonId>) -> Seq<
    Seq<char>,
> {
    Seq::new(ledger.len(), |i: int| ledger[i].2)
}

/// `==` on identifiers decides whether two identifiers are the same value.
pub open spec fn ids_comparable<PageId: PartialEq, ButtonId: PartialEq>() -> bool {
    obeys_concrete_eq::<PageId>() && obeys_concrete_eq::<ButtonId>()
}

/// Index of the first entry for (page, button) at or after `from`, or the
/// ledger's length if there is none.
pub open spec fn entry_from<PageId, ButtonId>(
    ledger: LedgerView<PageId, ButtonId>,
    page: PageId,
    button: ButtonId,
    from: int,
) -> int
    decreases ledger.len() - from,
{
    if from < 0 || from >= ledger.len() {
        ledger.len() as int
    } else if ledger[from].0 == page && ledger[from].1 == button {
        from
    } else {
        entry_from(ledger, page, button, from + 1)
    }
}

/// Index of the first entry for (page, button), or the ledger's length if
/// there is none.
pub open spec fn entry_index<PageId, ButtonId>(
    ledger: LedgerView<PageId, ButtonId>,
    page: PageId,
    button: ButtonId,
) -> int {
    entry_from(ledger, page, button, 0)
}

/// Whether the ledger holds an entry for (page, button).
pub open spec fn has_entry<PageId, ButtonId>(
    ledger: LedgerView<PageId, ButtonId>,
    page: PageId,
    button: ButtonId,
) -> bool {
    entry_index(ledger, page, button) < ledger.len()
}

/// No two entries share a (page, button) pair.
pub open spec fn unique_keys<PageId, ButtonId>(ledger: LedgerView<PageId, ButtonId>) -> bool {
    forall|i: int, j: int|
        0 <= i < j < ledger.len() ==> !(#[trigger] ledger[i].0 == #[trigger] ledger[j].0
            && ledger[i].1 == ledger[j].1)
}

/// The ledger with an empty entry appended for (page, button) unless it
/// already has one.
pub open spec fn with_entry<PageId, ButtonId>(
    ledger: LedgerView<PageId, ButtonId>,
    page: PageId,
    button: ButtonId,
) -> LedgerView<PageId, ButtonId> {
    if has_entry(ledger, page, button) {
        ledger
    } else {
        ledger.push((page, button, Seq::empty()))
    }
}

/// The ledger after `with_entry` for each required pair from `from` on.
pub open spec fn ensured_from<PageId, ButtonId>(
    ledger: LedgerView<PageId, ButtonId>,
    required: Seq<(PageId, ButtonId)>,
    from: int,
) -> LedgerView<PageId, ButtonId>
    decreases required.len() - from,
{
    if from < 0 || from >= required.len() {
        ledger
    } else {
        ensured_from(
            with_entry(ledger, required[from].0, required[from].1),
            required,
            from + 1,
        )
    }
}

/// The ledger after every required pair has been given an entry.
pub open spec fn ensured<PageId, ButtonId>(
    ledger: LedgerView<PageId, ButtonId>,
    required: Seq<(PageId, ButtonId)>,
) -> LedgerView<PageId, ButtonId> {
    ensured_from(ledger, required, 0)
}

/// What `entry_from` finds is a match, and nothing before it is.
pub proof fn lemma_entry_from<PageId, ButtonId>(
    ledger: LedgerView<PageId, ButtonId>,
    page: PageId,
    button: ButtonId,
    from: int,
)
    requires
        0 <= from <= ledger.len(),
    ensures
        from <= entry_from(ledger, page, button, from) <= ledger.len(),
        entry_from(ledger, page, button, from) < ledger.len() ==> {
            let k = entry_from(ledger, page, button, from);
            ledger[k].0 == page && ledger[k].1 == button
        },
        forall|j: int|
            from <= j < entry_from(ledger, page, button, from) ==> !(#[trigger] ledger[j].0 == page
                && ledger[j].1 == button),
    decreases ledger.len() - from,
{
    if from < ledger.len() && !(ledger[from].0 == page && ledger[from].1 == button) {
        lemma_entry_from(ledger, page, button, from + 1);
    }
}

/// A ledger has an entry for a pair exactly when some entry carries it.
pub proof fn lemma_has_entry<PageId, ButtonId>(
    ledger: LedgerView<PageId, ButtonId>,
    page: PageId,
    button: ButtonId,
)
    ensures
        has_entry(ledger, page, button) <==> exists|j: int|
            0 <= j < ledger.len() && #[trigger] ledger[j].0 == page && ledger[j].1 == button,
{
    lemma_entry_from(ledger, page, button, 0);
    let k = entry_index(ledger, page, button);
    if k < ledger.len() {
        assert(ledger[k].0 == page && ledger[k].1 == button);
    }
}

/// Giving a pair an entry keeps every entry in place and keeps the keys
/// unique.
pub proof fn lemma_with_entry<PageId, ButtonId>(
    ledger: LedgerView<PageId, ButtonId>,
    page: PageId,
    button: ButtonId,
)
    ensures
        ledger.len() <= with_entry(ledger, page, button).len() <= ledger.len() + 1,
        with_entry(ledger, page, button).subrange(0, ledger.len() as int) == ledger,
        has_entry(with_entry(ledger, page, button), page, button),
        unique_keys(ledger) ==> unique_keys(with_entry(ledger, page, button)),
{
    let after = with_entry(ledger, page, button);
    lemma_has_entry(ledger, page, button);
    lemma_has_entry(after, page, button);
    if !has_entry(ledger, page, button) {
        assert(after[ledger.len() as int].0 == page && after[ledger.len() as int].1 == button);
    }
    assert(after.subrange(0, ledger.len() as int) =~= ledger);
    if unique_keys(ledger) {
        assert forall|i: int, j: int| 0 <= i < j < after.len() implies !(#[trigger] after[i].0
            == #[trigger] after[j].0 && after[i].1 == after[j].1) by {
            if j < ledger.len() {
                assert(after[i] == ledger[i] && after[j] == ledger[j]);
            } else {
                assert(after[i] == ledger[i]);
                assert(!(ledger[i].0 == page && ledger[i].1 == button));
            }
        }
    }
}

/// Ensuring entries never removes or changes an entry, keeps the keys
/// unique, and keeps every entry that was there.
pub proof fn lemma_ensured_from<PageId, ButtonId>(
    ledger: LedgerView<PageId, ButtonId>,
    required: Seq<(PageId, ButtonId)>,
    from: int,
)
    requires
        0 <= from <= required.len(),
    ensures
        ledger.len() <= ensured_from(ledger, required, from).len(),
        ensured_from(ledger, required, from).subrange(0, ledger.len() as int) == ledger,
        unique_keys(ledger) ==> unique_keys(ensured_from(ledger, required, from)),
        forall|j: int|
            from <= j < required.len() ==> has_entry(
                ensured_from(ledger, required, from),
                (#[trigger] required[j]).0,
                required[j].1,
            ),
    decreases required.len() - from,
{
    let result = ensured_from(ledger, required, from);
    if from < required.len() {
        let next = with_entry(ledger, required[from].0, required[from].1);
        lemma_with_entry(ledger, required[from].0, required[from].1);
        lemma_ensured_from(next, required, from + 1);
        assert(result.subrange(0, ledger.len() as int) =~= ledger) by {
            assert(result.subrange(0, next.len() as int) == next);
            assert(next.subrange(0, ledger.len() as int) == ledger);
            assert forall|i: int| 0 <= i < ledger.len() implies result[i] == ledger[i] by {
                assert(result.subrange(0, next.len() as int)[i] == result[i]);
                assert(next.subrange(0, ledger.len() as int)[i] == next[i]);
            }
        }
        assert(has_entry(result, required[from].0, required[from].1)) by {
            lemma_has_entry(next, required[from].0, required[from].1);
            lemma_has_entry(result, required[from].0, required[from].1);
            let k = choose|k: int|
                0 <= k < next.len() && #[trigger] next[k].0 == required[from].0 && next[k].1
                    == required[from].1;
            assert(result.subrange(0, next.len() as int)[k] == result[k]);
            assert(result[k].0 == required[from].0 && result[k].1 == required[from].1);
        }
    } else {
        assert(result.subrange(0, ledger.len() as int) =~= ledger);
    }
}

/// The ledger after a series of calls, each asking for entries for its
/// pairs.
pub open spec fn ensured_all<PageId, ButtonId>(
    ledger: LedgerView<PageId, ButtonId>,
    calls: Seq<Seq<(PageId, ButtonId)>>,
) -> LedgerView<PageId, ButtonId>
    decreases calls.len(),
{
    if calls.len() == 0 {
        ledger
    } else {
        ensured(ensured_all(ledger, calls.drop_last()), calls.last())
    }
}

/// Ledger uniqueness: whatever entries are asked for, and in however many
/// calls, a ledger that began empty never holds two entries for one
/// (page, button) pair.
pub proof fn lemma_ledger_stays_unique<PageId, ButtonId>(calls: Seq<Seq<(PageId, ButtonId)>>)
    ensures
        unique_keys(ensured_all(Seq::<(PageId, ButtonId, Seq<char>)>::empty(), calls)),
    decreases calls.len(),
{
    if calls.len() > 0 {
        lemma_ledger_stays_unique(calls.drop_last());
        lemma_ensured_from(
            ensured_all(Seq::<(PageId, ButtonId, Seq<char>)>::empty(), calls.drop_last()),
            calls.last(),
            0,
        );
    }
}

/// Ensuring entries gives every required pair an entry, keeps what was
/// there, and keeps unique keys unique.
pub proof fn lemma_ensured<PageId, ButtonId>(
    ledger: LedgerView<PageId, ButtonId>,
    required: Seq<(PageId, ButtonId)>,
)
    ensures
        ensured(ledger, required).len() >= ledger.len(),
        ensured(ledger, required).subrange(0, ledger.len() as int) == ledger,
        unique_keys(ledger) ==> unique_keys(ensured(ledger, required)),
        forall|j: int|
            0 <= j < required.len() ==> has_entry(
                ensured(ledger, required),
                (#[trigger] required[j]).0,
                required[j].1,
            ),
{
    lemma_ensured_from(ledger, required, 0);
}

/// Index of the first entry for (page, button), or the ledger's length.
pub fn find_entry<PageId: Copy + Eq, ButtonId: Copy + Eq>(
    ledger: &Vec<(PageId, ButtonId, String)>,
    page: PageId,
    button: ButtonId,
) -> (k: usize)
    requires
        ids_comparable::<PageId, ButtonId>(),
    ensures
        k == entry_index(view_of(ledger@), page, button),
        k <= ledger.len(),
{
    proof {
        reveal(obeys_concrete_eq);
    }
    let ghost model = view_of(ledger@);
    let mut i: usize = 0;
    while i < ledger.len()
        invariant
            i <= ledger.len(),
            model == view_of(ledger@),
            ids_comparable::<PageId, ButtonId>(),
            entry_index(model, page, button) == entry_from(model, page, button, i as int),
        decreases ledger.len() - i,
    {
        proof {
            reveal(obeys_concrete_eq);
        }
        if ledger[i].0 == page && ledger[i].1 == button {
            return i;
        }
        i += 1;
    }
    i
}

/// The texts of the ledger, in ledger order.
pub fn flatten<PageId, ButtonId>(ledger: &Vec<(PageId, ButtonId, String)>) -> (strings: Vec<String>)
    ensures
        texts_of(strings@) == flattened(view_of(ledger@)),
{
    let mut strings: Vec<String> = Vec::new();
    let mut i: usize = 0;
    while i < ledger.len()
        invariant
            i <= ledger.len(),
            strings@.len() == i,
            forall|j: int| 0 <= j < i ==> (#[trigger] strings@[j])@ == ledger@[j].2@,
        decreases ledger.len() - i,
    {
        strings.push(ledger[i].2.clone());
        i += 1;
    }
    assert(texts_of(strings@) =~= flattened(view_of(ledger@)));
    strings
}

/// An independent copy of the ledger, entry for entry.
pub fn snapshot<PageId: Copy, ButtonId: Copy>(ledger: &Vec<(PageId, ButtonId, String)>) -> (copy:
    Vec<(PageId, ButtonId, String)>)
    ensures
        copy@ == ledger@,
{
    let mut copy: Vec<(PageId, ButtonId, String)> = Vec::new();
    let mut i: usize = 0;
    while i < ledger.len()
        invariant
            i <= ledger.len(),
            copy@.len() == i,
            forall|j: int| 0 <= j < i ==> #[trigger] copy@[j] == ledger@[j],
        decreases ledger.len() - i,
    {
        copy.push((ledger[i].0, ledger[i].1, ledger[i].2.clone()));
        i += 1;
    }
    assert(copy@ =~= ledger@);
    copy
}

/// Adds an empty entry for every required pair that has none; entries that
/// exist stay where and as they are.
pub fn ensure_entries<PageId: Copy + Eq, ButtonId: Copy + Eq>(
    ledger: &mut Vec<(PageId, ButtonId, String)>,
    required: &Vec<(PageId, ButtonId)>,
) -> (changed: bool)
    requires
        ids_comparable::<PageId, ButtonId>(),
    ensures
        view_of(final(ledger)@) == ensured(view_of(old(ledger)@), required@),
        final(ledger)@.len() >= old(ledger)@.len(),
        final(ledger)@.subrange(0, old(ledger)@.len() as int) == old(ledger)@,
        unique_keys(view_of(old(ledger)@)) ==> unique_keys(view_of(final(ledger)@)),
        changed == (final(ledger)@.len() != old(ledger)@.len()),
{
    let ghost start = ledger@;
    let mut changed = false;
    let mut i: usize = 0;
    while i < required.len()
        invariant
            i <= required.len(),
            ids_comparable::<PageId, ButtonId>(),
            ledger@.len() >= start.len(),
            ledger@.subrange(0, start.len() as int) == start,
            changed == (ledger@.len() != start.len()),
            ensured(view_of(start), required@) == ensured_from(
                view_of(ledger@),
                required@,
                i as int,
            ),
        decreases required.len() - i,
    {
        let page = required[i].0;
        let button = required[i].1;
        let ghost before = ledger@;
        let k = find_entry(ledger, page, button);
        if k == ledger.len() {
            ledger.push((page, button, String::new()));
            proof {
                assert(view_of(ledger@) =~= view_of(before).push((page, button, Seq::empty())));
                assert(ledger@.subrange(0, start.len() as int) =~= start) by {
                    assert forall|j: int| 0 <= j < start.len() implies ledger@[j] == start[j] by {
                        assert(before.subrange(0, start.len() as int)[j] == before[j]);
                    }
                }
            }
            changed = true;
        }
        i += 1;
    }
    proof {
        lemma_ensured_from(view_of(start), required@, 0);
    }
    changed
}

} // verus!
