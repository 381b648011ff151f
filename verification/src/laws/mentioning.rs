//! Whom a text mentions.

use crate::text::{alphanumeric, byte_len, lemma_byte_len_grows, lowercase};
use crate::ui::mentions::{
    best_at, candidates, chosen_at, first_named, id_named, matches_at, mention_at, mentioned_at,
    mentions_are_sound, mentions_from, mentions_in, pings_everyone, resolved_ids, sound_mention,
    MentionView,
};
use vstd::prelude::*;

verus! {

/// At this place of a text in lower case stands an `@`, not in the middle of a
/// word, and behind it the name, which ends there.
pub open spec fn names_at(lower: Seq<char>, p: int, name: Seq<char>) -> bool {
    let w = lowercase(name);
    let end = p + 1 + w.len();
    &&& 0 <= p < lower.len()
    &&& lower[p] == '@'
    &&& p == 0 || !alphanumeric(lower[p - 1])
    &&& w.len() > 0
    &&& end <= lower.len()
    &&& lower.subrange(p + 1, end) == w
    &&& end == lower.len() || !alphanumeric(lower[end])
}

/// A mention reaches over this place of the text.
pub open spec fn reaches(m: MentionView, lower: Seq<char>, p: int) -> bool {
    m.start <= byte_len(lower.take(p)) < m.end
}

proof fn lemma_best(lower: Seq<char>, p: int, cands: Seq<Seq<char>>, i: int, n: int) -> (b: int)
    requires
        matches_at(lower, p, cands, i),
        0 <= i < n <= cands.len(),
    ensures
        0 <= b < n,
        matches_at(lower, p, cands, b),
        forall|j: int|
            0 <= j < n && #[trigger] matches_at(lower, p, cands, j) ==> {
                ||| lowercase(cands[j]).len() < lowercase(cands[b]).len()
                ||| lowercase(cands[j]).len() == lowercase(cands[b]).len() && b <= j
            },
    decreases n,
{
    let last = n - 1;
    if exists|j: int| 0 <= j < last && #[trigger] matches_at(lower, p, cands, j) {
        let j = choose|j: int| 0 <= j < last && #[trigger] matches_at(lower, p, cands, j);
        let b = lemma_best(lower, p, cands, j, last);
        if matches_at(lower, p, cands, last) && lowercase(cands[last]).len() > lowercase(
            cands[b],
        ).len() {
            last
        } else {
            b
        }
    } else {
        last
    }
}

proof fn lemma_found(lower: Seq<char>, cands: Seq<Seq<char>>, q: int, p: int)
    requires
        0 <= q <= p < lower.len(),
        mentioned_at(lower, p, cands),
    ensures
        exists|k: int|
            0 <= k < mentions_from(lower, cands, q).len() && reaches(
                #[trigger] mentions_from(lower, cands, q)[k],
                lower,
                p,
            ),
    decreases lower.len() - q,
{
    let ms = mentions_from(lower, cands, q);
    if mentioned_at(lower, q, cands) {
        let c = chosen_at(lower, q, cands);
        assert(best_at(lower, q, cands, c));
        assert(matches_at(lower, q, cands, c));
        let w = lowercase(cands[c]);
        let end = q + 1 + w.len();
        let rest = mentions_from(lower, cands, end);
        if p < end {
            lemma_byte_len_grows(lower, q, p);
            lemma_byte_len_grows(lower, p, end);
            assert(reaches(ms[0], lower, p));
        } else {
            lemma_found(lower, cands, end, p);
            let k = choose|k: int| 0 <= k < rest.len() && reaches(#[trigger] rest[k], lower, p);
            assert(ms[k + 1] == rest[k]);
        }
    } else {
        assert(q != p);
        lemma_found(lower, cands, q + 1, p);
        assert(ms == mentions_from(lower, cands, q + 1));
    }
}

proof fn lemma_mentioned(text: Seq<char>, names: Seq<Seq<char>>, p: int, i: int)
    requires
        0 <= i <= names.len(),
        names_at(lowercase(text), p, names.push("everyone"@)[i]),
    ensures
        mentioned_at(lowercase(text), p, candidates(names)),
{
    let lower = lowercase(text);
    let cands = candidates(names);
    assert(matches_at(lower, p, cands, i));
    let b = lemma_best(lower, p, cands, i, cands.len() as int);
    assert(best_at(lower, p, cands, b)) by {
        assert forall|j: int| #[trigger] matches_at(lower, p, cands, j) implies {
            ||| lowercase(cands[j]).len() < lowercase(cands[b]).len()
            ||| lowercase(cands[j]).len() == lowercase(cands[b]).len() && b <= j
        } by {}
    }
}

/// No name is passed over: wherever a text has an `@` that is not inside a
/// word and behind it one of the names, in whatever case, up to the end of a
/// word, a mention reaches over that place.
pub proof fn no_name_is_passed_over(text: Seq<char>, names: Seq<Seq<char>>, p: int, i: int)
    requires
        0 <= i < names.len(),
        names_at(lowercase(text), p, names[i]),
    ensures
        exists|k: int|
            0 <= k < mentions_in(text, names).len() && reaches(
                #[trigger] mentions_in(text, names)[k],
                lowercase(text),
                p,
            ),
{
    assert(names.push("everyone"@)[i] == names[i]);
    lemma_mentioned(text, names, p, i);
    lemma_found(lowercase(text), candidates(names), 0, p);
    let ms = mentions_in(text, names);
    let k = choose|k: int| 0 <= k < ms.len() && reaches(#[trigger] ms[k], lowercase(text), p);
    assert(reaches(mentions_in(text, names)[k], lowercase(text), p));
}

/// A text that begins with the `@` of a name, with no longer name there,
/// mentions that name first.
pub proof fn leading_names_come_first(text: Seq<char>, names: Seq<Seq<char>>, i: int)
    requires
        0 <= i < names.len(),
        names_at(lowercase(text), 0, names[i]),
        forall|j: int|
            0 <= j <= names.len() && j != i ==> !names_at(
                lowercase(text),
                0,
                #[trigger] names.push("everyone"@)[j],
            ),
    ensures
        mentions_in(text, names).len() > 0,
        mentions_in(text, names)[0].name == names[i],
        mentions_in(text, names)[0].start == 0,
        mentions_in(text, names)[0].everyone <==> lowercase(names[i]) == "everyone"@,
{
    let lower = lowercase(text);
    let cands = candidates(names);
    assert(names.push("everyone"@)[i] == names[i]);
    lemma_mentioned(text, names, 0, i);
    let c = chosen_at(lower, 0, cands);
    assert(best_at(lower, 0, cands, c));
    assert(matches_at(lower, 0, cands, c));
    assert(c == i) by {
        if c != i {
            assert(names_at(lower, 0, names.push("everyone"@)[c]));
        }
    }
    assert(lower.take(0) =~= Seq::<char>::empty());
    assert(byte_len(Seq::<char>::empty()) == 0);
}

/// A text that names everyone pings everyone, unless it stands inside a word.
pub proof fn everyone_is_found(text: Seq<char>, p: int)
    requires
        names_at(lowercase(text), p, "everyone"@),
    ensures
        pings_everyone(text),
{
    let names = Seq::<Seq<char>>::empty();
    assert(names.push("everyone"@)[0] == "everyone"@);
    lemma_mentioned(text, names, p, 0);
    lemma_found(lowercase(text), candidates(names), 0, p);
    let ms = mentions_in(text, names);
    let k = choose|k: int| 0 <= k < ms.len() && reaches(#[trigger] ms[k], lowercase(text), p);
    mentions_are_sound(text, names);
    assert(sound_mention(lowercase(text), candidates(names), ms[k]));
    let (a, b) = choose|a: int, b: int|
        mention_at(lowercase(text), candidates(names), ms[k], a, b);
    assert(candidates(names)[b] == "everyone"@);
    reveal_strlit("everyone");
    assert(lowercase("everyone"@) =~= "everyone"@);
    assert(ms[k].everyone);
}

/// Whoever is mentioned by a name that belongs to someone is among those who
/// are pinged: the first of that name.
pub proof fn mentioned_people_are_pinged(
    ms: Seq<MentionView>,
    pairs: Seq<(Seq<char>, Seq<char>)>,
    k: int,
    i: int,
)
    requires
        0 <= k < ms.len(),
        !ms[k].everyone,
        0 <= i < pairs.len(),
        lowercase(pairs[i].0) == lowercase(ms[k].name),
        forall|j: int| 0 <= j < i ==> lowercase((#[trigger] pairs[j]).0) != lowercase(ms[k].name),
    ensures
        resolved_ids(ms, pairs).contains(pairs[i].1),
    decreases ms.len(),
{
    let t = ms.drop_last();
    let before = resolved_ids(t, pairs);
    let all = resolved_ids(ms, pairs);
    if k < t.len() {
        mentioned_people_are_pinged(t, pairs, k, i);
        let n = choose|n: int| 0 <= n < before.len() && before[n] == pairs[i].1;
        assert(all[n] == before[n]);
    } else {
        let low = lowercase(ms[k].name);
        assert(first_named(pairs, low, i));
        let c = choose|c: int| first_named(pairs, low, c);
        assert(c == i) by {
            if c < i {
                assert(lowercase(pairs[c].0) != low);
            }
            if c > i {
                assert(lowercase(pairs[i].0) != low);
            }
        }
        assert(id_named(pairs, low) == Some(pairs[i].1));
        if before.contains(pairs[i].1) {
            assert(all == before);
        } else {
            assert(all[all.len() - 1] == pairs[i].1);
        }
    }
}

} // verus!
