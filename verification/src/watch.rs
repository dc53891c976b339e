//! Watching a show episode by episode: which episode is on, which source to
//! try first, and when progress is reported.

use vstd::prelude::*;
use vstd::string::StringExecFns;
use crate::config::AuthConfig;
use crate::player::progress::{whole_number_bits, WatchedFraction};
use crate::player::traits::{EpisodeAction, PlayOptions};
use crate::provider::models::{EpisodeResultData, ShowEdge, SourceUrl};
use crate::text::{
    first_offer, is_first_offer, lemma_first_offer_is_unique, offers, parse_i32, parsed_i32,
    push_signed_decimal, signed_decimal, texts,
};

verus! {

/// Where the cursor stands after `action`: one further for the next episode,
/// one back for the previous one, but never back from the first.
pub open spec fn cursor_after(cursor: int, action: EpisodeAction) -> int {
    match action {
        EpisodeAction::Next => cursor + 1,
        EpisodeAction::Previous => if cursor > 1 {
            cursor - 1
        } else {
            cursor
        },
    }
}

/// The episode to look up for `action`, or `None` where there is none to
/// look up: before the first episode.
pub open spec fn target_of(cursor: int, action: EpisodeAction) -> Option<int> {
    match action {
        EpisodeAction::Next => Some(cursor + 1),
        EpisodeAction::Previous => if cursor > 1 {
            Some(cursor - 1)
        } else {
            None
        },
    }
}

/// Where the cursor stands after all of `actions`, one after the other.
pub open spec fn cursor_after_all(cursor: int, actions: Seq<EpisodeAction>) -> int
    decreases actions.len(),
{
    if actions.len() == 0 {
        cursor
    } else {
        cursor_after(cursor_after_all(cursor, actions.drop_last()), actions.last())
    }
}

/// The number of the episode that is loaded, counted from one.
#[derive(Debug, Clone, Copy)]
pub struct EpisodeCursor {
    index: i32,
}

impl View for EpisodeCursor {
    type V = int;

    closed spec fn view(&self) -> int {
        self.index as int
    }
}

impl EpisodeCursor {
    /// A cursor on episode `index`.
    pub fn new(index: i32) -> (cursor: EpisodeCursor)
        ensures
            cursor@ == index,
    {
        EpisodeCursor { index }
    }

    /// A cursor on the episode that `label` names; on the first episode
    /// where `label` is no number.
    pub fn from_label(label: &str) -> (cursor: EpisodeCursor)
        ensures
            cursor@ == match parsed_i32(label@) {
                Some(index) => index as int,
                None => 1,
            },
    {
        match parse_i32(label) {
            Some(index) => EpisodeCursor { index },
            None => EpisodeCursor { index: 1 },
        }
    }

    /// The episode the cursor is on.
    pub fn index(&self) -> (index: i32)
        ensures
            index == self@,
    {
        self.index
    }

    /// The episode the cursor is on, as the provider is asked for it.
    pub fn label(&self) -> (label: String)
        ensures
            label@ == signed_decimal(self@),
    {
        let mut label = String::new();
        push_signed_decimal(&mut label, self.index as i64);
        label
    }

    /// Moves the cursor for `action` and returns the episode to look up.
    /// Asked for the episode before the first, it stays where it is and
    /// returns `None`.
    pub fn step(&mut self, action: EpisodeAction) -> (target: Option<i32>)
        requires
            action is Next ==> old(self)@ < i32::MAX,
        ensures
            final(self)@ == cursor_after(old(self)@, action),
            match target {
                Some(index) => target_of(old(self)@, action) == Some(index as int),
                None => target_of(old(self)@, action) is None,
            },
    {
        match action {
            EpisodeAction::Next => {
                self.index = self.index + 1;
                Some(self.index)
            },
            EpisodeAction::Previous => {
                if self.index > 1 {
                    self.index = self.index - 1;
                    Some(self.index)
                } else {
                    None
                }
            },
        }
    }
}

/// Asked for the previous episode on the first one, the cursor stays on the
/// first and there is nothing to look up.
pub proof fn lemma_previous_at_first()
    ensures
        cursor_after(1, EpisodeAction::Previous) == 1,
        target_of(1, EpisodeAction::Previous) is None,
{
}

/// A cursor on the first episode or later never leaves that range, and never
/// asks for an episode before the first.
pub proof fn lemma_cursor_stays_positive(cursor: int, action: EpisodeAction)
    requires
        cursor >= 1,
    ensures
        cursor_after(cursor, action) >= 1,
        target_of(cursor, action) matches Some(index) ==> index >= 1,
{
}

/// Every request for the next episode moves the cursor by exactly one and
/// asks for exactly the episode it then stands on: after `n` such requests
/// the cursor has passed `n` episodes, none skipped and none twice.
pub proof fn lemma_next_counts_up(cursor: int, actions: Seq<EpisodeAction>)
    requires
        forall|i: int| 0 <= i < actions.len() ==> #[trigger] actions[i] is Next,
    ensures
        cursor_after_all(cursor, actions) == cursor + actions.len(),
        forall|i: int|
            0 <= i < actions.len() ==> target_of(
                cursor_after_all(cursor, #[trigger] actions.take(i)),
                actions[i],
            ) == Some(cursor + i + 1),
    decreases actions.len(),
{
    if actions.len() > 0 {
        let earlier = actions.drop_last();
        assert(actions.last() is Next);
        assert forall|i: int| 0 <= i < earlier.len() implies (#[trigger] earlier[i]) is Next by {
            assert(earlier[i] == actions[i]);
        }
        lemma_next_counts_up(cursor, earlier);
        assert forall|i: int| 0 <= i < actions.len() implies target_of(
            cursor_after_all(cursor, #[trigger] actions.take(i)),
            actions[i],
        ) == Some(cursor + i + 1) by {
            if i < earlier.len() {
                assert(actions.take(i) =~= earlier.take(i));
                assert(actions[i] == earlier[i]);
            } else {
                assert(actions.take(i) =~= earlier);
            }
        }
    }
}

/// The labels of `candidates`, in order.
pub open spec fn labels_of(candidates: Seq<SourceUrl>) -> Seq<Seq<char>> {
    candidates.map_values(|candidate: SourceUrl| candidate.source_name@)
}

/// What a list of string slices holds.
pub open spec fn slices(items: Seq<&str>) -> Seq<Seq<char>> {
    items.map_values(|item: &str| item@)
}

/// Whether candidate `i` is the one to prefer: the first candidate to carry
/// the earliest label of `priorities` that any candidate carries.
pub open spec fn is_preferred(priorities: Seq<Seq<char>>, labels: Seq<Seq<char>>, i: int) -> bool {
    exists|p: int|
        0 <= p < priorities.len() && is_first_offer(labels, #[trigger] priorities[p], i)
            && forall|q: int| 0 <= q < p ==> !offers(labels, #[trigger] priorities[q])
}

/// The candidates that carry `label`, in the order of the list.
pub open spec fn carriers(labels: Seq<Seq<char>>, label: Seq<char>) -> Seq<int>
    decreases labels.len(),
{
    if labels.len() == 0 {
        Seq::empty()
    } else if labels.last() == label {
        carriers(labels.drop_last(), label).push(labels.len() - 1)
    } else {
        carriers(labels.drop_last(), label)
    }
}

/// The candidates to try when preferred labels are present: for each label
/// of `priorities`, in the order of `priorities`, every candidate that
/// carries it, in the order of the list.
pub open spec fn preferred_order(priorities: Seq<Seq<char>>, labels: Seq<Seq<char>>) -> Seq<int>
    decreases priorities.len(),
{
    if priorities.len() == 0 {
        Seq::empty()
    } else {
        preferred_order(priorities.drop_last(), labels) + carriers(labels, priorities.last())
    }
}

/// The candidates to try, in order: those with a preferred label as
/// [`preferred_order`] gives them; where no candidate carries a preferred
/// label, all candidates in the order of the list.
pub open spec fn attempt_order(priorities: Seq<Seq<char>>, labels: Seq<Seq<char>>) -> Seq<int> {
    if preferred_order(priorities, labels).len() > 0 {
        preferred_order(priorities, labels)
    } else {
        Seq::new(labels.len(), |i: int| i)
    }
}

/// The carriers of a label are candidates of the list, they carry the
/// label, they stand in the order of the list, and no candidate that
/// carries the label is missing.
pub proof fn lemma_carriers(labels: Seq<Seq<char>>, label: Seq<char>)
    ensures
        forall|k: int|
            0 <= k < carriers(labels, label).len() ==> 0 <= #[trigger] carriers(labels, label)[k]
                < labels.len() && labels[carriers(labels, label)[k]] == label,
        forall|j: int, k: int|
            0 <= j < k < carriers(labels, label).len() ==> #[trigger] carriers(labels, label)[j]
                < #[trigger] carriers(labels, label)[k],
        forall|i: int|
            0 <= i < labels.len() && #[trigger] labels[i] == label ==> carriers(
                labels,
                label,
            ).contains(i),
    decreases labels.len(),
{
    if labels.len() > 0 {
        let shorter = labels.drop_last();
        let before = carriers(shorter, label);
        let all = carriers(labels, label);
        lemma_carriers(shorter, label);
        assert forall|k: int| 0 <= k < all.len() implies 0 <= #[trigger] all[k] < labels.len()
            && labels[all[k]] == label by {
            if k < before.len() {
                assert(all[k] == before[k]);
                assert(shorter[before[k]] == labels[before[k]]);
            }
        }
        assert forall|j: int, k: int| 0 <= j < k < all.len() implies #[trigger] all[j]
            < #[trigger] all[k] by {
            assert(all[j] == before[j]);
            if k < before.len() {
                assert(all[k] == before[k]);
            }
        }
        assert forall|i: int| 0 <= i < labels.len() && #[trigger] labels[i] == label implies all.contains(
            i,
        ) by {
            if i < shorter.len() {
                assert(shorter[i] == labels[i]);
                assert(before.contains(i));
                let k = choose|k: int| 0 <= k < before.len() && before[k] == i;
                assert(all[k] == i);
            } else {
                assert(all[all.len() - 1] == i);
            }
        }
    }
}

/// Where no candidate carries any of the labels, there is no preferred
/// candidate to try, and the candidates are tried in the order of the list.
pub proof fn lemma_nothing_preferred(priorities: Seq<Seq<char>>, labels: Seq<Seq<char>>)
    requires
        forall|p: int| 0 <= p < priorities.len() ==> !offers(labels, #[trigger] priorities[p]),
    ensures
        preferred_order(priorities, labels).len() == 0,
        attempt_order(priorities, labels) == Seq::new(labels.len(), |i: int| i),
    decreases priorities.len(),
{
    if priorities.len() > 0 {
        let earlier = priorities.drop_last();
        let last = priorities[priorities.len() - 1];
        assert(!offers(labels, last));
        lemma_carriers(labels, last);
        if carriers(labels, last).len() > 0 {
            assert(labels[carriers(labels, last)[0]] == last);
        }
        assert forall|p: int| 0 <= p < earlier.len() implies !offers(
            labels,
            #[trigger] earlier[p],
        ) by {
            assert(earlier[p] == priorities[p]);
        }
        lemma_nothing_preferred(earlier, labels);
    }
}

/// The preferred candidate is the first one to be tried.
pub proof fn lemma_preferred_comes_first(
    priorities: Seq<Seq<char>>,
    labels: Seq<Seq<char>>,
    i: int,
)
    requires
        is_preferred(priorities, labels, i),
    ensures
        preferred_order(priorities, labels).len() > 0,
        attempt_order(priorities, labels) == preferred_order(priorities, labels),
        attempt_order(priorities, labels)[0] == i,
    decreases priorities.len(),
{
    let p = choose|p: int|
        0 <= p < priorities.len() && is_first_offer(labels, #[trigger] priorities[p], i)
            && forall|q: int| 0 <= q < p ==> !offers(labels, #[trigger] priorities[q]);
    let earlier = priorities.drop_last();
    if p == priorities.len() - 1 {
        assert forall|q: int| 0 <= q < earlier.len() implies !offers(
            labels,
            #[trigger] earlier[q],
        ) by {
            assert(earlier[q] == priorities[q]);
        }
        lemma_nothing_preferred(earlier, labels);
        let found = carriers(labels, priorities.last());
        lemma_carriers(labels, priorities.last());
        assert(found.contains(i));
        let k = choose|k: int| 0 <= k < found.len() && found[k] == i;
        assert(labels[found[0]] == priorities.last());
        if k > 0 {
            assert(found[0] < found[k]);
        }
        assert(found[0] == i);
    } else {
        assert(earlier[p] == priorities[p]);
        assert forall|q: int| 0 <= q < p implies !offers(labels, #[trigger] earlier[q]) by {
            assert(earlier[q] == priorities[q]);
        }
        assert(is_preferred(earlier, labels, i));
        lemma_preferred_comes_first(earlier, labels, i);
    }
}

/// Every candidate that carries a preferred label is tried.
pub proof fn lemma_preferred_candidates_are_tried(
    priorities: Seq<Seq<char>>,
    labels: Seq<Seq<char>>,
    i: int,
    p: int,
)
    requires
        0 <= i < labels.len(),
        0 <= p < priorities.len(),
        labels[i] == priorities[p],
    ensures
        preferred_order(priorities, labels).contains(i),
        attempt_order(priorities, labels).contains(i),
    decreases priorities.len(),
{
    let earlier = preferred_order(priorities.drop_last(), labels);
    let found = carriers(labels, priorities.last());
    let all = preferred_order(priorities, labels);
    if p == priorities.len() - 1 {
        lemma_carriers(labels, priorities.last());
        assert(found.contains(i));
        let k = choose|k: int| 0 <= k < found.len() && found[k] == i;
        assert(all[earlier.len() + k] == i);
    } else {
        assert(priorities.drop_last()[p] == priorities[p]);
        lemma_preferred_candidates_are_tried(priorities.drop_last(), labels, i, p);
        let k = choose|k: int| 0 <= k < earlier.len() && earlier[k] == i;
        assert(all[k] == i);
    }
}

/// Whatever is tried for its label carries one of the labels.
pub proof fn lemma_tried_carry_preferred_labels(
    priorities: Seq<Seq<char>>,
    labels: Seq<Seq<char>>,
    b: int,
) -> (q: int)
    requires
        0 <= b < preferred_order(priorities, labels).len(),
    ensures
        0 <= q < priorities.len(),
        0 <= preferred_order(priorities, labels)[b] < labels.len(),
        labels[preferred_order(priorities, labels)[b]] == priorities[q],
    decreases priorities.len(),
{
    let earlier = preferred_order(priorities.drop_last(), labels);
    if b < earlier.len() {
        let q = lemma_tried_carry_preferred_labels(priorities.drop_last(), labels, b);
        assert(priorities.drop_last()[q] == priorities[q]);
        q
    } else {
        lemma_carriers(labels, priorities.last());
        let found = carriers(labels, priorities.last());
        assert(preferred_order(priorities, labels)[b] == found[b - earlier.len()]);
        priorities.len() - 1
    }
}

/// The better label is tried first: before a candidate comes up, only
/// candidates are tried whose label stands no later among the labels than
/// its own.
pub proof fn lemma_better_labels_are_tried_first(
    priorities: Seq<Seq<char>>,
    labels: Seq<Seq<char>>,
    i: int,
    p: int,
) -> (a: int)
    requires
        0 <= i < labels.len(),
        0 <= p < priorities.len(),
        labels[i] == priorities[p],
    ensures
        0 <= a < preferred_order(priorities, labels).len(),
        preferred_order(priorities, labels)[a] == i,
        forall|b: int|
            0 <= b < a ==> exists|q: int|
                0 <= q <= p && labels[#[trigger] preferred_order(priorities, labels)[b]]
                    == #[trigger] priorities[q],
    decreases priorities.len(),
{
    let shorter = priorities.drop_last();
    let earlier = preferred_order(shorter, labels);
    let found = carriers(labels, priorities.last());
    let all = preferred_order(priorities, labels);
    if p == priorities.len() - 1 {
        lemma_carriers(labels, priorities.last());
        assert(found.contains(i));
        let k = choose|k: int| 0 <= k < found.len() && found[k] == i;
        let a = earlier.len() + k;
        assert(all[a] == i);
        assert forall|b: int| 0 <= b < a implies exists|q: int|
            0 <= q <= p && labels[#[trigger] all[b]] == #[trigger] priorities[q] by {
            if b < earlier.len() {
                let q = lemma_tried_carry_preferred_labels(shorter, labels, b);
                assert(all[b] == earlier[b]);
                assert(shorter[q] == priorities[q]);
                assert(0 <= q <= p && labels[all[b]] == priorities[q]);
            } else {
                assert(all[b] == found[b - earlier.len()]);
                assert(0 <= p <= p && labels[all[b]] == priorities[p]);
            }
        }
        a
    } else {
        assert(shorter[p] == priorities[p]);
        let a = lemma_better_labels_are_tried_first(shorter, labels, i, p);
        assert(all[a] == earlier[a]);
        assert forall|b: int| 0 <= b < a implies exists|q: int|
            0 <= q <= p && labels[#[trigger] all[b]] == #[trigger] priorities[q] by {
            assert(all[b] == earlier[b]);
            let q = choose|q: int|
                0 <= q <= p && labels[earlier[b]] == #[trigger] shorter[q];
            assert(shorter[q] == priorities[q]);
            assert(0 <= q <= p && labels[all[b]] == priorities[q]);
        }
        a
    }
}

/// Where no candidate carries a preferred label, every candidate is tried.
pub proof fn lemma_all_candidates_are_tried(
    priorities: Seq<Seq<char>>,
    labels: Seq<Seq<char>>,
    i: int,
)
    requires
        0 <= i < labels.len(),
        preferred_order(priorities, labels).len() == 0,
    ensures
        attempt_order(priorities, labels).contains(i),
{
    assert(attempt_order(priorities, labels)[i] == i);
}

/// The labels to prefer, the most reliable first.
pub fn preferred_labels() -> (labels: Vec<&'static str>)
    ensures
        slices(labels@) == seq![
            "S-mp4"@,
            "Luf-mp4"@,
            "Luf-Mp4"@,
            "Sak"@,
            "Default"@,
            "Yt-mp4"@,
        ],
{
    let mut labels: Vec<&'static str> = Vec::new();
    labels.push("S-mp4");
    labels.push("Luf-mp4");
    labels.push("Luf-Mp4");
    labels.push("Sak");
    labels.push("Default");
    labels.push("Yt-mp4");
    assert(slices(labels@) =~= seq![
        "S-mp4"@,
        "Luf-mp4"@,
        "Luf-Mp4"@,
        "Sak"@,
        "Default"@,
        "Yt-mp4"@,
    ]);
    labels
}

/// The first candidate that carries `label`.
pub fn find_label(candidates: &Vec<SourceUrl>, label: &str) -> (found: Option<usize>)
    ensures
        match found {
            Some(i) => is_first_offer(labels_of(candidates@), label@, i as int),
            None => !offers(labels_of(candidates@), label@),
        },
        optional_index(found) == first_offer(labels_of(candidates@), label@),
{
    let ghost labels = labels_of(candidates@);
    let mut i: usize = 0;
    while i < candidates.len()
        invariant
            i <= candidates@.len(),
            labels == labels_of(candidates@),
            forall|j: int| 0 <= j < i ==> #[trigger] labels[j] != label@,
        decreases candidates@.len() - i,
    {
        if candidates[i].source_name.as_str().eq(label) {
            assert(labels[i as int] == label@);
            assert(is_first_offer(labels, label@, i as int));
            proof {
                lemma_first_offer_is_unique(labels, label@, i as int);
            }
            return Some(i);
        }
        i += 1;
    }
    None
}

/// An index as a mathematical integer.
pub open spec fn optional_index(found: Option<usize>) -> Option<int> {
    match found {
        Some(i) => Some(i as int),
        None => None,
    }
}

/// Picks the candidate to prefer: the labels of `priorities` are gone
/// through in order, and the first label that any candidate carries wins,
/// even if a candidate with a later label stands earlier in the list. Of the
/// candidates with the winning label the first is taken. `None` where no
/// candidate carries any of the labels: no candidate is made up.
pub fn select_preferred(priorities: &[&str], candidates: &Vec<SourceUrl>) -> (selected: Option<
    usize,
>)
    ensures
        match selected {
            Some(i) => is_preferred(slices(priorities@), labels_of(candidates@), i as int),
            None => forall|p: int|
                0 <= p < priorities@.len() ==> !offers(
                    labels_of(candidates@),
                    #[trigger] slices(priorities@)[p],
                ),
        },
{
    let ghost wanted = slices(priorities@);
    let ghost labels = labels_of(candidates@);
    let mut p: usize = 0;
    while p < priorities.len()
        invariant
            p <= priorities@.len(),
            wanted == slices(priorities@),
            labels == labels_of(candidates@),
            forall|q: int| 0 <= q < p ==> !offers(labels, #[trigger] wanted[q]),
        decreases priorities@.len() - p,
    {
        assert(wanted[p as int] == priorities@[p as int]@);
        match find_label(candidates, priorities[p]) {
            Some(i) => {
                assert(is_first_offer(labels, wanted[p as int], i as int));
                return Some(i);
            },
            None => {},
        }
        p += 1;
    }
    None
}

/// Computes [`attempt_order`]: the candidates to try, one after the other,
/// until one can be played.
pub fn attempts(priorities: &[&str], candidates: &Vec<SourceUrl>) -> (order: Vec<usize>)
    ensures
        order@.map_values(|i: usize| i as int) == attempt_order(
            slices(priorities@),
            labels_of(candidates@),
        ),
        forall|k: int| 0 <= k < order@.len() ==> (#[trigger] order@[k]) < candidates@.len(),
{
    let ghost wanted = slices(priorities@);
    let ghost labels = labels_of(candidates@);
    let mut order: Vec<usize> = Vec::new();
    let mut p: usize = 0;
    while p < priorities.len()
        invariant
            p <= priorities@.len(),
            wanted == slices(priorities@),
            labels == labels_of(candidates@),
            order@.map_values(|i: usize| i as int) == preferred_order(
                wanted.take(p as int),
                labels,
            ),
            forall|k: int| 0 <= k < order@.len() ==> (#[trigger] order@[k]) < candidates@.len(),
        decreases priorities@.len() - p,
    {
        assert(wanted.take(p + 1).drop_last() =~= wanted.take(p as int));
        assert(wanted.take(p + 1).last() == priorities@[p as int]@);
        let ghost base = order@.map_values(|i: usize| i as int);
        let ghost label = priorities@[p as int]@;
        let mut i: usize = 0;
        assert(labels.take(0) =~= Seq::<Seq<char>>::empty());
        assert(base + carriers(labels.take(0), label) =~= base);
        while i < candidates.len()
            invariant
                i <= candidates@.len(),
                p < priorities@.len(),
                labels == labels_of(candidates@),
                label == priorities@[p as int]@,
                order@.map_values(|i: usize| i as int) == base + carriers(
                    labels.take(i as int),
                    label,
                ),
                forall|k: int|
                    0 <= k < order@.len() ==> (#[trigger] order@[k]) < candidates@.len(),
            decreases candidates@.len() - i,
        {
            assert(labels.take(i + 1).drop_last() =~= labels.take(i as int));
            assert(labels.take(i + 1).last() == candidates@[i as int].source_name@);
            if candidates[i].source_name.as_str().eq(priorities[p]) {
                let ghost before = order@.map_values(|i: usize| i as int);
                order.push(i);
                assert(order@.map_values(|i: usize| i as int) =~= before.push(i as int));
                assert(before.push(i as int) =~= base + carriers(labels.take(i as int), label).push(
                    i as int,
                ));
            }
            i += 1;
        }
        assert(labels.take(candidates@.len() as int) =~= labels);
        p += 1;
    }
    assert(wanted.take(priorities@.len() as int) =~= wanted);
    if order.len() == 0 {
        let mut i: usize = 0;
        while i < candidates.len()
            invariant
                i <= candidates@.len(),
                order@.len() == i,
                forall|k: int| 0 <= k < i ==> (#[trigger] order@[k]) == k,
            decreases candidates@.len() - i,
        {
            order.push(i);
            i += 1;
        }
        assert(order@.map_values(|i: usize| i as int) =~= Seq::new(
            labels.len(),
            |i: int| i,
        ));
    }
    order
}

/// The title under which an episode plays: the show's name and the episode.
pub open spec fn episode_title_text(show_name: Seq<char>, episode: Seq<char>) -> Seq<char> {
    show_name + " - Episode "@ + episode
}

/// Computes [`episode_title_text`].
pub fn episode_title(show_name: &str, episode: &str) -> (title: String)
    ensures
        title@ == episode_title_text(show_name@, episode@),
{
    let mut title = show_name.to_owned();
    title.append(" - Episode ");
    title.append(episode);
    title
}

/// Whether `titled` is the request `options` under the title `title`.
pub open spec fn is_titled(options: PlayOptions, title: Seq<char>, titled: PlayOptions) -> bool {
    &&& titled.title matches Some(text) && text@ == title
    &&& titled.url == options.url
    &&& titled.start_time == options.start_time
    &&& titled.headers == options.headers
    &&& titled.subtitles == options.subtitles
}

/// The candidates that the provider's answer holds: none where it knows no
/// such episode.
pub open spec fn candidates_of(answer: EpisodeResultData) -> Seq<SourceUrl> {
    match answer.episode {
        Some(episode) => episode.source_urls@,
        None => Seq::empty(),
    }
}

/// The references of the candidates, in the order in which they are tried.
pub open spec fn references_in_order(
    priorities: Seq<Seq<char>>,
    candidates: Seq<SourceUrl>,
) -> Seq<Seq<char>> {
    attempt_order(priorities, labels_of(candidates)).map_values(
        |i: int| candidates[i].source_url@,
    )
}

/// How far the resolution of one episode has come.
pub struct ResolutionView {
    /// The title that the episode will play under.
    pub title: Seq<char>,
    /// The source references, in the order in which they are tried.
    pub references: Seq<Seq<char>>,
    /// How many of them were handed out already.
    pub tried: nat,
}

/// What is to be done next, as far as the resolution itself knows.
pub enum Progress {
    /// Try this source reference.
    Extract(Seq<char>),
    /// The episode is resolved with this request, still under its own title.
    Found(PlayOptions),
    /// No source is left to try.
    NotFound,
}

/// What is to be done next, given what the last attempt brought: `None`
/// where it failed or where nothing was tried yet.
pub open spec fn progress_of(state: ResolutionView, extracted: Option<PlayOptions>) -> Progress {
    match extracted {
        Some(options) => Progress::Found(options),
        None => if state.tried < state.references.len() {
            Progress::Extract(state.references[state.tried as int])
        } else {
            Progress::NotFound
        },
    }
}

/// The state after that step: one more source is handed out where one is
/// tried, and nothing changes otherwise.
pub open spec fn advanced(state: ResolutionView, extracted: Option<PlayOptions>) -> ResolutionView {
    if extracted is None && state.tried < state.references.len() {
        ResolutionView { tried: state.tried + 1, ..state }
    } else {
        state
    }
}

/// What the resolution ends with when it is carried through from `state`
/// and every source reference extracts as `extracts` says.
pub open spec fn outcome(
    state: ResolutionView,
    extracts: spec_fn(Seq<char>) -> Option<PlayOptions>,
    extracted: Option<PlayOptions>,
) -> Option<PlayOptions>
    decreases state.references.len() - state.tried,
{
    match extracted {
        Some(options) => Some(options),
        None => if state.tried < state.references.len() {
            outcome(
                advanced(state, extracted),
                extracts,
                extracts(state.references[state.tried as int]),
            )
        } else {
            None
        },
    }
}

/// A failed extraction only moves on to the next source: the resolution
/// ends with the request of the first source, in the order of the attempts,
/// that extracts, and finds nothing only where none does.
pub proof fn lemma_first_playable_source_wins(
    state: ResolutionView,
    extracts: spec_fn(Seq<char>) -> Option<PlayOptions>,
)
    requires
        state.tried <= state.references.len(),
    ensures
        match outcome(state, extracts, None) {
            Some(options) => exists|k: int|
                state.tried <= k < state.references.len() && extracts(
                    #[trigger] state.references[k],
                ) == Some(options) && forall|j: int|
                    state.tried <= j < k ==> extracts(#[trigger] state.references[j]) is None,
            None => forall|k: int|
                state.tried <= k < state.references.len() ==> extracts(
                    #[trigger] state.references[k],
                ) is None,
        },
    decreases state.references.len() - state.tried,
{
    if state.tried < state.references.len() {
        let here = state.references[state.tried as int];
        let next = advanced(state, None);
        match extracts(here) {
            Some(options) => {
                assert(outcome(next, extracts, Some(options)) == Some(options));
            },
            None => {
                lemma_first_playable_source_wins(next, extracts);
                match outcome(next, extracts, None) {
                    Some(options) => {
                        let k = choose|k: int|
                            next.tried <= k < next.references.len() && extracts(
                                #[trigger] next.references[k],
                            ) == Some(options) && forall|j: int|
                                next.tried <= j < k ==> extracts(
                                    #[trigger] next.references[j],
                                ) is None;
                        assert forall|j: int| state.tried <= j < k implies extracts(
                            #[trigger] state.references[j],
                        ) is None by {
                            if j > state.tried {
                                assert(next.tried <= j);
                            }
                        }
                        assert(state.tried <= k < state.references.len() && extracts(
                            state.references[k],
                        ) == Some(options));
                    },
                    None => {
                        assert forall|k: int|
                            state.tried <= k < state.references.len() implies extracts(
                            #[trigger] state.references[k],
                        ) is None by {
                            if k > state.tried {
                                assert(next.tried <= k);
                            }
                        }
                    },
                }
            },
        }
    }
}

/// A candidate that is among those tried and can be extracted is enough for
/// the episode to be found: the resolution then ends with a request.
pub proof fn lemma_playable_candidate_is_found(
    priorities: Seq<Seq<char>>,
    candidates: Seq<SourceUrl>,
    title: Seq<char>,
    extracts: spec_fn(Seq<char>) -> Option<PlayOptions>,
    i: int,
)
    requires
        attempt_order(priorities, labels_of(candidates)).contains(i),
        extracts(candidates[i].source_url@) is Some,
    ensures
        outcome(
            ResolutionView {
                title,
                references: references_in_order(priorities, candidates),
                tried: 0,
            },
            extracts,
            None,
        ) is Some,
{
    let order = attempt_order(priorities, labels_of(candidates));
    let state = ResolutionView {
        title,
        references: references_in_order(priorities, candidates),
        tried: 0,
    };
    let k = choose|k: int| 0 <= k < order.len() && order[k] == i;
    assert(state.references[k] == candidates[i].source_url@);
    lemma_first_playable_source_wins(state, extracts);
}

/// What the caller does next while an episode is resolved.
#[derive(Debug)]
pub enum ResolutionStep {
    /// Turn this source reference into a request and report how that went.
    Extract(String),
    /// The episode is resolved: play this.
    Found(PlayOptions),
    /// There is no such episode, or none of its sources can be played.
    NotFound,
}

/// The resolution of one episode: its sources are tried one after the other
/// until one can be played.
pub struct Resolution {
    title: String,
    references: Vec<String>,
    tried: usize,
}

impl View for Resolution {
    type V = ResolutionView;

    closed spec fn view(&self) -> ResolutionView {
        ResolutionView {
            title: self.title@,
            references: texts(self.references@),
            tried: self.tried as nat,
        }
    }
}

impl Resolution {
    /// Holds of every resolution: no more sources were handed out than
    /// there are.
    #[verifier::type_invariant]
    closed spec fn inv(&self) -> bool {
        self.tried <= self.references@.len()
    }

    /// Begins the resolution of an episode with the provider's answer about
    /// its sources. An answer that is an error is handed on as it is. The
    /// sources are put in the order in which they will be tried, and the
    /// episode will play under the show's name and its own number.
    pub fn begin<E>(
        answer: Result<EpisodeResultData, E>,
        priorities: &[&str],
        show_name: &str,
        episode: &str,
    ) -> (started: Result<Resolution, E>)
        ensures
            match started {
                Ok(resolution) => answer matches Ok(data) && resolution@ == (ResolutionView {
                    title: episode_title_text(show_name@, episode@),
                    references: references_in_order(slices(priorities@), candidates_of(data)),
                    tried: 0,
                }),
                Err(error) => answer matches Err(given) && given == error,
            },
    {
        let data = match answer {
            Ok(data) => data,
            Err(error) => {
                return Err(error);
            },
        };
        let candidates = match data.episode {
            Some(episode) => episode.source_urls,
            None => Vec::new(),
        };
        let order = attempts(priorities, &candidates);
        let ghost wanted = attempt_order(slices(priorities@), labels_of(candidates@));
        let mut references: Vec<String> = Vec::new();
        let mut k: usize = 0;
        while k < order.len()
            invariant
                k <= order@.len(),
                order@.map_values(|i: usize| i as int) == wanted,
                forall|j: int|
                    0 <= j < order@.len() ==> (#[trigger] order@[j]) < candidates@.len(),
                references@.len() == k,
                forall|j: int|
                    0 <= j < k ==> (#[trigger] references@[j])@ == candidates@[wanted[j]].source_url@,
            decreases order@.len() - k,
        {
            assert(wanted[k as int] == order@[k as int]);
            references.push(candidates[order[k]].source_url.clone());
            k += 1;
        }
        assert(texts(references@) =~= wanted.map_values(
            |i: int| candidates@[i].source_url@,
        ));
        Ok(Resolution { title: episode_title(show_name, episode), references, tried: 0 })
    }

    /// Says what to do next. `extracted` is what the last attempt brought:
    /// the request where the source could be extracted, `None` where it could
    /// not or where nothing was tried yet. A request ends the resolution and
    /// is given the episode's title; a failure moves on to the next source;
    /// and when no source is left, the episode is not found.
    pub fn advance(&mut self, extracted: Option<PlayOptions>) -> (step: ResolutionStep)
        ensures
            final(self)@ == advanced(old(self)@, extracted),
            match step {
                ResolutionStep::Extract(reference) => progress_of(old(self)@, extracted)
                    == Progress::Extract(reference@),
                ResolutionStep::Found(options) => extracted matches Some(given) && is_titled(
                    given,
                    old(self)@.title,
                    options,
                ),
                ResolutionStep::NotFound => progress_of(old(self)@, extracted) is NotFound,
            },
    {
        proof {
            use_type_invariant(&*self);
        }
        match extracted {
            Some(options) => ResolutionStep::Found(options.titled(self.title.clone())),
            None => {
                if self.tried < self.references.len() {
                    let reference = self.references[self.tried].clone();
                    self.tried = self.tried + 1;
                    ResolutionStep::Extract(reference)
                } else {
                    ResolutionStep::NotFound
                }
            },
        }
    }
}

/// Why there is nothing to watch.
#[derive(Debug, Clone, Copy, PartialEq, Eq, Structural)]
pub enum WatchError {
    /// The provider knows no show by that name.
    NoResults,
    /// The episode to begin with has no source that can be played.
    NoStreams,
}

impl WatchError {
    /// The error in words.
    pub fn message(&self) -> (text: &'static str)
        ensures
            text@ == match self {
                WatchError::NoResults => "No results found on AllAnime"@,
                WatchError::NoStreams => "No streams found."@,
            },
    {
        match self {
            WatchError::NoResults => "No results found on AllAnime",
            WatchError::NoStreams => "No streams found.",
        }
    }
}

/// The show to watch: the first that the search found.
pub fn first_show(results: &Vec<ShowEdge>) -> (show: Result<&ShowEdge, WatchError>)
    ensures
        match show {
            Ok(found) => results@.len() > 0 && *found == results@[0],
            Err(error) => results@.len() == 0 && error == WatchError::NoResults,
        },
{
    if results.len() > 0 {
        Ok(&results[0])
    } else {
        Err(WatchError::NoResults)
    }
}

/// The request to begin with: what the first episode resolved to.
pub fn first_stream(resolved: Option<PlayOptions>) -> (stream: Result<PlayOptions, WatchError>)
    ensures
        match stream {
            Ok(options) => resolved == Some(options),
            Err(error) => resolved is None && error == WatchError::NoStreams,
        },
{
    match resolved {
        Some(options) => Ok(options),
        None => Err(WatchError::NoStreams),
    }
}

/// What to do about the user's list once playback has ended.
#[derive(Debug, Clone, Copy, PartialEq, Eq, Structural)]
pub enum SyncPlan {
    /// Too little was watched: the episode does not count as seen.
    Incomplete,
    /// The episode counts, but nobody is logged in or the show is not known
    /// to the list: there is nothing to report to.
    Unlinked,
    /// The episode counts: compare with the progress recorded for this show.
    Compare(i32),
}

/// Decides what to do about the user's list: an episode counts as seen when
/// at least `threshold` percent of it were watched.
pub fn sync_plan(
    watched: WatchedFraction,
    threshold: u8,
    auth: &AuthConfig,
    media_id: Option<i32>,
) -> (plan: SyncPlan)
    ensures
        plan == if watched.bits() < whole_number_bits(threshold) {
            SyncPlan::Incomplete
        } else if auth.anilist_token is Some && auth.username is Some && media_id is Some {
            SyncPlan::Compare(media_id->0)
        } else {
            SyncPlan::Unlinked
        },
{
    if !watched.reaches(threshold) {
        SyncPlan::Incomplete
    } else {
        match (&auth.anilist_token, &auth.username, media_id) {
            (Some(_), Some(_), Some(id)) => SyncPlan::Compare(id),
            _ => SyncPlan::Unlinked,
        }
    }
}

/// The progress to record, if any: the episode that was on last, where it
/// lies beyond what is recorded. A show that is not on the list counts as
/// not begun.
pub fn progress_to_record(last_episode: i32, recorded: Option<i32>) -> (update: Option<i32>)
    ensures
        update == if last_episode > (match recorded {
            Some(progress) => progress,
            None => 0,
        }) {
            Some(last_episode)
        } else {
            None
        },
{
    let known = match recorded {
        Some(progress) => progress,
        None => 0,
    };
    if last_episode > known {
        Some(last_episode)
    } else {
        None
    }
}

} // verus!
