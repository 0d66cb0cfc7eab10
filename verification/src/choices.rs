//! The programs that the settings window offers: one entry for each program that has a
//! visible window, in the order of their labels.

use vstd::prelude::*;
use vstd::utf8;

use crate::text;

verus! {

/// This program, which is not offered.
pub const OWN_EXECUTABLE: &'static str = "curosu.exe";

/// What stands between the parts of a label.
pub const SEPARATOR: &'static str = " — ";

/// A window, as the system tells of it.
#[derive(Debug)]
pub struct WindowSeen {
    pub visible: bool,
    /// The units of its title.
    pub title: Vec<u16>,
    /// The file name of its program, if that is known.
    pub executable: Option<String>,
}

/// A window as mathematical values.
#[verifier::ext_equal]
pub ghost struct SeenValue {
    pub visible: bool,
    pub title: Seq<u16>,
    pub executable: Option<Seq<char>>,
}

impl View for WindowSeen {
    type V = SeenValue;

    open spec fn view(&self) -> SeenValue {
        SeenValue {
            visible: self.visible,
            title: self.title@,
            executable: match self.executable {
                Some(name) => Some(name@),
                None => None,
            },
        }
    }
}

/// An entry of the list.
#[derive(Debug)]
pub struct WindowChoice {
    pub executable: String,
    pub label: String,
}

/// An entry as mathematical values.
#[verifier::ext_equal]
pub ghost struct ChoiceValue {
    pub executable: Seq<char>,
    pub label: Seq<char>,
}

impl View for WindowChoice {
    type V = ChoiceValue;

    open spec fn view(&self) -> ChoiceValue {
        ChoiceValue { executable: self.executable@, label: self.label@ }
    }
}

/// The values of windows.
pub open spec fn seen_values(list: Seq<WindowSeen>) -> Seq<SeenValue> {
    list.map_values(|w: WindowSeen| w@)
}

/// The values of entries.
pub open spec fn values(list: Seq<WindowChoice>) -> Seq<ChoiceValue> {
    list.map_values(|c: WindowChoice| c@)
}

/// Whether a list holds an entry for a program, the case of letters left aside.
pub open spec fn offers(list: Seq<ChoiceValue>, executable: Seq<char>) -> bool {
    exists|i: int|
        0 <= i < list.len() && text::same_ignoring_case(
            (#[trigger] list[i]).executable,
            executable,
        )
}

/// Whether a window makes its program one to offer: it can be seen, it has a title, and
/// its program is known and another one than this.
pub open spec fn counts(seen: SeenValue) -> bool {
    &&& seen.visible
    &&& seen.title.len() > 0
    &&& seen.executable is Some
    &&& !text::same_ignoring_case(seen.executable->0, OWN_EXECUTABLE@)
}

/// The entry for the program of a window.
pub open spec fn choice_for(seen: SeenValue) -> ChoiceValue {
    ChoiceValue {
        executable: seen.executable->0,
        label: seen.executable->0 + SEPARATOR@ + text::decoded(seen.title),
    }
}

/// The list after a window has been seen: its program is added, unless it does not count
/// or is there already.
pub open spec fn with_window(list: Seq<ChoiceValue>, seen: SeenValue) -> Seq<ChoiceValue> {
    if counts(seen) && !offers(list, seen.executable->0) {
        list.push(choice_for(seen))
    } else {
        list
    }
}

/// The list after all windows have been seen, in the order in which they were.
pub open spec fn with_windows(seen: Seq<SeenValue>) -> Seq<ChoiceValue>
    decreases seen.len(),
{
    if seen.len() == 0 {
        Seq::empty()
    } else {
        with_window(with_windows(seen.drop_last()), seen.last())
    }
}

/// Takes note of a window.
pub fn collect_visible_window(windows: &mut Vec<WindowChoice>, seen: &WindowSeen)
    ensures
        values(final(windows)@) == with_window(values(old(windows)@), seen@),
{
    if !seen.visible || seen.title.len() == 0 {
        return;
    }
    match &seen.executable {
        None => {},
        Some(executable) => {
            if text::equal_ignoring_case(executable.as_str(), OWN_EXECUTABLE) {
                return;
            }
            if is_offered(windows, executable.as_str()) {
                return;
            }
            let mut label: String = executable.clone();
            label.append(SEPARATOR);
            let title: String = text::from_wide(seen.title.as_slice());
            label.append(title.as_str());
            windows.push(WindowChoice { executable: executable.clone(), label });
            assert(values(windows@) =~= values(old(windows)@).push(choice_for(seen@)));
        },
    }
}

fn is_offered(windows: &Vec<WindowChoice>, executable: &str) -> (r: bool)
    ensures
        r == offers(values(windows@), executable@),
{
    let mut i: usize = 0;
    while i < windows.len()
        invariant
            i <= windows@.len(),
            forall|j: int|
                0 <= j < i ==> !text::same_ignoring_case(
                    (#[trigger] values(windows@)[j]).executable,
                    executable@,
                ),
        decreases windows@.len() - i,
    {
        assert(values(windows@)[i as int].executable == windows@[i as int].executable@);
        if text::equal_ignoring_case(windows[i].executable.as_str(), executable) {
            return true;
        }
        i = i + 1;
    }
    false
}

/// Whether one text comes before another: at the first byte in which they differ it has
/// the smaller one, or it ends there.
pub open spec fn before(a: Seq<u8>, b: Seq<u8>) -> bool
    decreases b.len(),
{
    if b.len() == 0 {
        false
    } else if a.len() == 0 {
        true
    } else if a[0] != b[0] {
        a[0] < b[0]
    } else {
        before(a.skip(1), b.skip(1))
    }
}

/// Whether one entry comes before another, by the bytes of their labels.
pub open spec fn label_before(a: ChoiceValue, b: ChoiceValue) -> bool {
    before(utf8::encode_utf8(a.label), utf8::encode_utf8(b.label))
}

/// Whether no entry comes before one that precedes it in the list.
pub open spec fn ordered(list: Seq<ChoiceValue>) -> bool {
    forall|i: int, j: int|
        0 <= i < j < list.len() ==> !label_before(#[trigger] list[j], #[trigger] list[i])
}

/// The entries with a certain label, in the order of the list.
pub open spec fn labelled(list: Seq<ChoiceValue>, label: Seq<char>) -> Seq<ChoiceValue> {
    list.filter(|c: ChoiceValue| c.label == label)
}

/// Whether two lists hold the same entries, those with equal labels in the same order.
pub open spec fn same_entries(a: Seq<ChoiceValue>, b: Seq<ChoiceValue>) -> bool {
    forall|label: Seq<char>| #[trigger] labelled(a, label) == labelled(b, label)
}

fn is_before(a: &[u8], b: &[u8]) -> (r: bool)
    ensures
        r == before(a@, b@),
{
    let mut i: usize = 0;
    assert(a@.skip(0) =~= a@);
    assert(b@.skip(0) =~= b@);
    while i < a.len() && i < b.len()
        invariant
            i <= a@.len(),
            i <= b@.len(),
            before(a@, b@) == before(a@.skip(i as int), b@.skip(i as int)),
        decreases a@.len() - i,
    {
        if a[i] != b[i] {
            return a[i] < b[i];
        }
        assert(a@.skip(i as int).skip(1) =~= a@.skip(i + 1));
        assert(b@.skip(i as int).skip(1) =~= b@.skip(i + 1));
        i = i + 1;
    }
    i < b.len()
}

proof fn lemma_before_is_asymmetric(a: Seq<u8>, b: Seq<u8>)
    requires
        before(a, b),
    ensures
        !before(b, a),
    decreases b.len(),
{
    if a.len() > 0 && a[0] == b[0] {
        lemma_before_is_asymmetric(a.skip(1), b.skip(1));
    }
}

proof fn lemma_before_what_is_not_before(a: Seq<u8>, b: Seq<u8>, c: Seq<u8>)
    requires
        before(a, b),
        !before(c, b),
    ensures
        before(a, c),
    decreases b.len(),
{
    if a.len() > 0 && c.len() > 0 && a[0] == b[0] && c[0] == b[0] {
        lemma_before_what_is_not_before(a.skip(1), b.skip(1), c.skip(1));
    }
}

proof fn lemma_inserting(list: Seq<ChoiceValue>, entry: ChoiceValue, at: int)
    requires
        ordered(list),
        0 <= at <= list.len(),
        forall|j: int| 0 <= j < at ==> !label_before(entry, #[trigger] list[j]),
        at < list.len() ==> label_before(entry, list[at]),
    ensures
        ordered(list.insert(at, entry)),
        same_entries(list.insert(at, entry), list.push(entry)),
{
    let more = list.insert(at, entry);
    assert forall|j: int| at <= j < list.len() implies label_before(entry, #[trigger] list[j])
        && !label_before(list[j], entry) by {
        if j > at {
            lemma_before_what_is_not_before(
                utf8::encode_utf8(entry.label),
                utf8::encode_utf8(list[at].label),
                utf8::encode_utf8(list[j].label),
            );
        }
        lemma_before_is_asymmetric(utf8::encode_utf8(entry.label), utf8::encode_utf8(list[j].label));
    }
    assert forall|i: int, j: int| 0 <= i < j < more.len() implies !label_before(
        #[trigger] more[j],
        #[trigger] more[i],
    ) by {
        let old_i = if i < at {
            i
        } else {
            i - 1
        };
        let old_j = if j < at {
            j
        } else {
            j - 1
        };
        if i != at {
            assert(more[i] == list[old_i]);
        }
        if j != at {
            assert(more[j] == list[old_j]);
        }
    }
    assert forall|label: Seq<char>| #[trigger]
        labelled(more, label) == labelled(list.push(entry), label) by {
        lemma_labelled_after_inserting(list, entry, at, label);
    }
}

proof fn lemma_labelled_after_inserting(
    list: Seq<ChoiceValue>,
    entry: ChoiceValue,
    at: int,
    label: Seq<char>,
)
    requires
        0 <= at <= list.len(),
        forall|j: int| at <= j < list.len() ==> label_before(entry, #[trigger] list[j]),
    ensures
        labelled(list.insert(at, entry), label) == labelled(list.push(entry), label),
{
    let pred = |c: ChoiceValue| c.label == label;
    let head = list.take(at);
    let tail = list.skip(at);
    let one = seq![entry];
    assert(list.insert(at, entry) =~= head + one + tail);
    assert(list.push(entry) =~= head + tail + one);
    Seq::filter_distributes_over_add(head + one, tail, pred);
    Seq::filter_distributes_over_add(head, one, pred);
    Seq::filter_distributes_over_add(head + tail, one, pred);
    Seq::filter_distributes_over_add(head, tail, pred);
    if entry.label == label {
        assert forall|j: int| 0 <= j < tail.len() implies !pred(#[trigger] tail[j]) by {
            assert(tail[j] == list[at + j]);
            if tail[j].label == label {
                lemma_before_is_asymmetric(utf8::encode_utf8(label), utf8::encode_utf8(label));
            }
        }
        lemma_none_left(tail, pred);
    } else {
        lemma_none_left(one, pred);
    }
    assert(labelled(list.insert(at, entry), label) =~= labelled(list.push(entry), label));
}

proof fn lemma_none_left(list: Seq<ChoiceValue>, pred: spec_fn(ChoiceValue) -> bool)
    requires
        forall|j: int| 0 <= j < list.len() ==> !pred(#[trigger] list[j]),
    ensures
        list.filter(pred) == Seq::<ChoiceValue>::empty(),
    decreases list.len(),
{
    reveal(Seq::filter);
    if list.len() > 0 {
        lemma_none_left(list.drop_last(), pred);
        assert(!pred(list[list.len() - 1]));
    }
}

proof fn lemma_pushing_the_same(a: Seq<ChoiceValue>, b: Seq<ChoiceValue>, entry: ChoiceValue)
    requires
        same_entries(a, b),
    ensures
        same_entries(a.push(entry), b.push(entry)),
{
    assert forall|label: Seq<char>| #[trigger]
        labelled(a.push(entry), label) == labelled(b.push(entry), label) by {
        reveal(Seq::filter);
        assert(a.push(entry).drop_last() =~= a);
        assert(b.push(entry).drop_last() =~= b);
        assert(labelled(a, label) == labelled(b, label));
    }
}

/// Puts entries in the order of their labels. Those with equal labels stay in the order in
/// which they were.
pub fn sort_choices(list: &Vec<WindowChoice>) -> (r: Vec<WindowChoice>)
    ensures
        ordered(values(r@)),
        same_entries(values(r@), values(list@)),
{
    let mut out: Vec<WindowChoice> = Vec::new();
    let mut i: usize = 0;
    assert(values(out@) =~= values(list@.take(0)));
    while i < list.len()
        invariant
            i <= list@.len(),
            ordered(values(out@)),
            same_entries(values(out@), values(list@.take(i as int))),
        decreases list@.len() - i,
    {
        let entry: WindowChoice = WindowChoice {
            executable: list[i].executable.clone(),
            label: list[i].label.clone(),
        };
        let ghost sofar = values(out@);
        let mut at: usize = 0;
        while at < out.len() && !is_before(
            entry.label.as_str().as_bytes(),
            out[at].label.as_str().as_bytes(),
        )
            invariant
                at <= out@.len(),
                sofar == values(out@),
                forall|j: int| 0 <= j < at ==> !label_before(entry@, #[trigger] sofar[j]),
            ensures
                at <= out@.len(),
                forall|j: int| 0 <= j < at ==> !label_before(entry@, #[trigger] sofar[j]),
                at < out@.len() ==> label_before(entry@, sofar[at as int]),
            decreases out@.len() - at,
        {
            at = at + 1;
        }
        proof {
            lemma_inserting(sofar, entry@, at as int);
            lemma_pushing_the_same(sofar, values(list@.take(i as int)), entry@);
            assert(values(list@.take(i + 1)) =~= values(list@.take(i as int)).push(entry@));
            assert(values(out@.insert(at as int, entry)) =~= sofar.insert(at as int, entry@));
        }
        out.insert(at, entry);
        i = i + 1;
    }
    assert(list@.take(i as int) =~= list@);
    out
}

/// Makes the list of the programs to offer.
pub fn enumerate_visible_windows(seen: &Vec<WindowSeen>) -> (r: Vec<WindowChoice>)
    ensures
        ordered(values(r@)),
        same_entries(values(r@), with_windows(seen_values(seen@))),
{
    let mut windows: Vec<WindowChoice> = Vec::new();
    let mut i: usize = 0;
    assert(values(windows@) =~= Seq::<ChoiceValue>::empty());
    assert(seen_values(seen@.take(0)) =~= Seq::<SeenValue>::empty());
    while i < seen.len()
        invariant
            i <= seen@.len(),
            values(windows@) == with_windows(seen_values(seen@.take(i as int))),
        decreases seen@.len() - i,
    {
        collect_visible_window(&mut windows, &seen[i]);
        proof {
            let more = seen_values(seen@.take(i + 1));
            assert(more.drop_last() =~= seen_values(seen@.take(i as int)));
            assert(more.last() == seen@[i as int]@);
        }
        i = i + 1;
    }
    assert(seen@.take(i as int) =~= seen@);
    sort_choices(&windows)
}

/// Whether no two entries are for the same program, the case of letters left aside.
pub open spec fn one_each(list: Seq<ChoiceValue>) -> bool {
    forall|i: int, j: int|
        0 <= i < j < list.len() ==> !text::same_ignoring_case(
            (#[trigger] list[i]).executable,
            (#[trigger] list[j]).executable,
        )
}

/// Lists with the same entries are rearrangements of each other.
pub proof fn law_sorting_rearranges(a: Seq<ChoiceValue>, b: Seq<ChoiceValue>)
    requires
        same_entries(a, b),
    ensures
        a.to_multiset() == b.to_multiset(),
{
    assert forall|entry: ChoiceValue| #[trigger]
        a.to_multiset().count(entry) == b.to_multiset().count(entry) by {
        lemma_counted_among_labelled(a, entry);
        lemma_counted_among_labelled(b, entry);
        assert(labelled(a, entry.label) == labelled(b, entry.label));
    }
    assert(a.to_multiset() =~= b.to_multiset());
}

proof fn lemma_counted_among_labelled(list: Seq<ChoiceValue>, entry: ChoiceValue)
    ensures
        list.to_multiset().count(entry) == labelled(list, entry.label).to_multiset().count(entry),
    decreases list.len(),
{
    reveal(Seq::filter);
    if list.len() > 0 {
        let front = list.drop_last();
        lemma_counted_among_labelled(front, entry);
        assert(front.push(list.last()) =~= list);
        vstd::seq_lib::to_multiset_build(front, list.last());
        vstd::seq_lib::to_multiset_build(labelled(front, entry.label), list.last());
    }
}

proof fn lemma_shared(a: Seq<ChoiceValue>, b: Seq<ChoiceValue>, i: int)
    requires
        same_entries(a, b),
        0 <= i < a.len(),
    ensures
        b.contains(a[i]),
{
    law_sorting_rearranges(a, b);
    vstd::seq_lib::to_multiset_contains(a, a[i]);
    vstd::seq_lib::to_multiset_contains(b, a[i]);
    assert(a.contains(a[i]));
}

/// Every program is offered once.
pub proof fn law_programs_are_offered_once(seen: Seq<SeenValue>, list: Seq<ChoiceValue>)
    requires
        same_entries(list, with_windows(seen)),
    ensures
        one_each(list),
{
    let found = with_windows(seen);
    lemma_one_each(seen);
    law_sorting_rearranges(list, found);
    assert forall|i: int, j: int| 0 <= i < j < list.len() implies !text::same_ignoring_case(
        (#[trigger] list[i]).executable,
        (#[trigger] list[j]).executable,
    ) by {
        assert(found.no_duplicates()) by {
            assert forall|k: int, l: int| 0 <= k < l < found.len() implies found[k] != found[l] by {
                assert(!text::same_ignoring_case(found[k].executable, found[l].executable));
            }
        }
        found.lemma_multiset_has_no_duplicates();
        list.lemma_multiset_has_no_duplicates_conv();
        lemma_shared(list, found, i);
        lemma_shared(list, found, j);
        let k = choose|k: int| 0 <= k < found.len() && found[k] == list[i];
        let l = choose|l: int| 0 <= l < found.len() && found[l] == list[j];
        assert(k != l);
        if k < l {
            assert(!text::same_ignoring_case(found[k].executable, found[l].executable));
        } else {
            assert(!text::same_ignoring_case(found[l].executable, found[k].executable));
        }
    }
}

proof fn lemma_one_each(seen: Seq<SeenValue>)
    ensures
        one_each(with_windows(seen)),
    decreases seen.len(),
{
    if seen.len() > 0 {
        lemma_one_each(seen.drop_last());
    }
}

/// This program is never offered, and neither is one without a visible, titled window:
/// every entry stands for a window that counts.
pub proof fn law_entries_stand_for_windows(seen: Seq<SeenValue>, list: Seq<ChoiceValue>, i: int)
    requires
        same_entries(list, with_windows(seen)),
        0 <= i < list.len(),
    ensures
        exists|k: int|
            0 <= k < seen.len() && counts(#[trigger] seen[k]) && list[i] == choice_for(seen[k]),
        !text::same_ignoring_case(list[i].executable, OWN_EXECUTABLE@),
{
    let found = with_windows(seen);
    lemma_shared(list, found, i);
    let at = choose|at: int| 0 <= at < found.len() && found[at] == list[i];
    lemma_entry_has_window(seen, at);
}

proof fn lemma_entry_has_window(seen: Seq<SeenValue>, at: int)
    requires
        0 <= at < with_windows(seen).len(),
    ensures
        exists|k: int|
            0 <= k < seen.len() && counts(#[trigger] seen[k]) && with_windows(seen)[at]
                == choice_for(seen[k]),
    decreases seen.len(),
{
    let front = seen.drop_last();
    if at < with_windows(front).len() {
        lemma_entry_has_window(front, at);
        let k = choose|k: int|
            0 <= k < front.len() && counts(#[trigger] front[k]) && with_windows(front)[at]
                == choice_for(front[k]);
        assert(seen[k] == front[k]);
    } else {
        assert(counts(seen[seen.len() - 1]));
    }
}

/// Every program that has a window that counts is offered.
pub proof fn law_every_program_is_offered(seen: Seq<SeenValue>, list: Seq<ChoiceValue>, k: int)
    requires
        same_entries(list, with_windows(seen)),
        0 <= k < seen.len(),
        counts(seen[k]),
    ensures
        offers(list, seen[k].executable->0),
{
    let found = with_windows(seen);
    lemma_window_has_entry(seen, k);
    let at = choose|at: int|
        0 <= at < found.len() && text::same_ignoring_case(
            (#[trigger] found[at]).executable,
            seen[k].executable->0,
        );
    lemma_shared(found, list, at);
    let i = choose|i: int| 0 <= i < list.len() && list[i] == found[at];
    assert(text::same_ignoring_case(list[i].executable, seen[k].executable->0));
}

proof fn lemma_window_has_entry(seen: Seq<SeenValue>, k: int)
    requires
        0 <= k < seen.len(),
        counts(seen[k]),
    ensures
        offers(with_windows(seen), seen[k].executable->0),
    decreases seen.len(),
{
    let front = seen.drop_last();
    let before_last = with_windows(front);
    let all = with_windows(seen);
    if k < front.len() {
        lemma_window_has_entry(front, k);
        let at = choose|at: int|
            0 <= at < before_last.len() && text::same_ignoring_case(
                (#[trigger] before_last[at]).executable,
                seen[k].executable->0,
            );
        assert(all[at] == before_last[at]);
    } else if !offers(before_last, seen[k].executable->0) {
        assert(all[all.len() - 1] == choice_for(seen[k]));
    }
}

/// A window counts if and only if it can be seen, has a title, and belongs to a known
/// program that is not `curosu.exe` in any case of its letters.
pub proof fn law_windows_that_count(seen: SeenValue)
    ensures
        !seen.visible ==> !counts(seen),
        seen.title.len() == 0 ==> !counts(seen),
        seen.executable is None ==> !counts(seen),
        seen.executable matches Some(name) ==> (text::same_ignoring_case(name, "curosu.exe"@)
            ==> !counts(seen)),
        seen.visible && seen.title.len() > 0 && (seen.executable matches Some(name)
            && !text::same_ignoring_case(name, "curosu.exe"@)) ==> counts(seen),
{
}

/// An entry names the program as it is, and its label is the program, a dash between two
/// spaces, and the title of the window.
pub proof fn law_labels_name_program_and_title(seen: SeenValue)
    requires
        seen.executable is Some,
    ensures
        choice_for(seen).executable == seen.executable->0,
        choice_for(seen).label == seen.executable->0 + " — "@ + text::decoded(seen.title),
{
}

/// A window that is seen adds at most one entry, at the end: its own, if it counts and no
/// entry is for its program yet. No entry is changed or lost.
pub proof fn law_windows_add_at_the_end(list: Seq<ChoiceValue>, seen: SeenValue)
    ensures
        ({
            let after = with_window(list, seen);
            let there = exists|i: int|
                0 <= i < list.len() && text::same_ignoring_case(
                    (#[trigger] list[i]).executable,
                    seen.executable->0,
                );
            &&& forall|i: int| 0 <= i < list.len() ==> #[trigger] after[i] == list[i]
            &&& counts(seen) && !there ==> after.len() == list.len() + 1 && after.last()
                == choice_for(seen)
            &&& !counts(seen) || there ==> after.len() == list.len()
            &&& offers(list, seen.executable->0) <==> there
        }),
{
}

/// Windows are seen one after the other, and the first one of a program gives its entry.
pub proof fn law_windows_are_seen_in_turn(seen: Seq<SeenValue>, next: SeenValue)
    ensures
        with_windows(Seq::<SeenValue>::empty()).len() == 0,
        with_windows(seen.push(next)) == with_window(with_windows(seen), next),
{
    assert(seen.push(next).drop_last() =~= seen);
}

/// One text comes before another if and only if, after as much as both have in common, it
/// goes on with a smaller byte, or ends where the other goes on.
pub proof fn law_order_of_texts(a: Seq<u8>, b: Seq<u8>)
    ensures
        before(a, b) <==> exists|k: int|
            0 <= k <= a.len() && k < b.len() && #[trigger] a.take(k) == b.take(k) && (k == a.len()
                || a[k] < b[k]),
    decreases b.len(),
{
    if b.len() > 0 && a.len() > 0 && a[0] == b[0] {
        let x = a.skip(1);
        let y = b.skip(1);
        law_order_of_texts(x, y);
        if before(a, b) {
            let k = choose|k: int|
                0 <= k <= x.len() && k < y.len() && #[trigger] x.take(k) == y.take(k) && (k
                    == x.len() || x[k] < y[k]);
            assert(a.take(k + 1) =~= seq![a[0]] + x.take(k));
            assert(b.take(k + 1) =~= seq![b[0]] + y.take(k));
            assert(a.take(k + 1) == b.take(k + 1));
        }
        if exists|k: int|
            0 <= k <= a.len() && k < b.len() && #[trigger] a.take(k) == b.take(k) && (k == a.len()
                || a[k] < b[k]) {
            let k = choose|k: int|
                0 <= k <= a.len() && k < b.len() && #[trigger] a.take(k) == b.take(k) && (k
                    == a.len() || a[k] < b[k]);
            assert(k > 0);
            assert(x.take(k - 1) =~= a.take(k).skip(1));
            assert(y.take(k - 1) =~= b.take(k).skip(1));
            assert(x.take(k - 1) == y.take(k - 1));
        }
    } else if b.len() > 0 {
        assert(a.take(0) =~= b.take(0));
        if exists|k: int|
            0 <= k <= a.len() && k < b.len() && #[trigger] a.take(k) == b.take(k) && (k == a.len()
                || a[k] < b[k]) {
            let k = choose|k: int|
                0 <= k <= a.len() && k < b.len() && #[trigger] a.take(k) == b.take(k) && (k
                    == a.len() || a[k] < b[k]);
            if k > 0 {
                assert(a.take(k)[0] == a[0]);
                assert(b.take(k)[0] == b[0]);
            }
        }
    }
}

/// In an ordered list the labels ascend, by their bytes in UTF-8: of any two entries the
/// later one does not come before the earlier one.
pub proof fn law_labels_ascend(list: Seq<ChoiceValue>, i: int, j: int)
    requires
        ordered(list),
        0 <= i < j < list.len(),
    ensures
        !before(utf8::encode_utf8(list[j].label), utf8::encode_utf8(list[i].label)),
{
}

/// Entries with equal labels keep their order, and none is added or lost: for every label
/// the entries with it are the same ones in the same order.
pub proof fn law_equal_labels_keep_their_order(
    a: Seq<ChoiceValue>,
    b: Seq<ChoiceValue>,
    label: Seq<char>,
)
    requires
        same_entries(a, b),
    ensures
        a.filter(|c: ChoiceValue| c.label == label) == b.filter(|c: ChoiceValue| c.label == label),
        a.len() == b.len(),
{
    assert(labelled(a, label) == labelled(b, label));
    law_sorting_rearranges(a, b);
    vstd::seq_lib::to_multiset_len(a);
    vstd::seq_lib::to_multiset_len(b);
}

/// A list has one entry for each program if no two of its entries name the same program but
/// for the case of letters.
pub proof fn law_one_entry_for_each_program(list: Seq<ChoiceValue>, i: int, j: int)
    requires
        one_each(list),
        0 <= i < list.len(),
        0 <= j < list.len(),
        text::same_ignoring_case(list[i].executable, list[j].executable),
    ensures
        i == j,
{
}

/// What is known of windows and entries is what they say.
pub proof fn law_windows_are_what_they_say(
    seen: Seq<WindowSeen>,
    list: Seq<WindowChoice>,
    i: int,
)
    ensures
        seen_values(seen).len() == seen.len(),
        values(list).len() == list.len(),
        0 <= i < seen.len() ==> seen_values(seen)[i].visible == seen[i].visible && seen_values(
            seen,
        )[i].title == seen[i].title@ && (match seen[i].executable {
            Some(name) => seen_values(seen)[i].executable == Some(name@),
            None => seen_values(seen)[i].executable is None,
        }),
        0 <= i < list.len() ==> values(list)[i].executable == list[i].executable@ && values(
            list,
        )[i].label == list[i].label@,
{
}

} // verus!
