//! `@mention` parsing from plain message text. Parsed twice with different
//! goals: at render time to highlight rows that ping us, and at send time
//! ([`resolve_mentions`]) to attach user ids to the message.
//!
//! Matching rules:
//! - a `@` only starts a mention at the beginning of the text or after a
//!   non-alphanumeric character (so `someone@example.com` never matches);
//! - candidate display names are matched case-insensitively, and the longest
//!   matching name wins (`@Anna Maria` wins over `@Anna`);
//! - the name must be followed by the end of the text or a non-alphanumeric
//!   character (`@Annette` does not match `Anne`);
//! - the literal `@everyone` (any case) is always recognized; callers decide
//!   whether it applies (channels and groups) or is just text (1:1 DMs).

use crate::strmap::{
    holds_text, lemma_less_total, lemma_less_transitive, less, text_less, texts,
};
use crate::text::{
    all_ascii, alphanumeric, byte_len, cat4, char_count, chars_of, has_char, lemma_byte_len_grows, lowercase,
    owned, same, stands_at, text_len, text_of, trim, trimmed, white_space,
};
use vstd::prelude::*;

verus! {

/// One parsed mention. `start` and `end` are byte offsets into the
/// lowercased text, which has the byte positions of the source text wherever
/// lowercasing keeps the encoded length of every character.
#[derive(Debug, PartialEq, Eq)]
pub struct Mention {
    /// Offset of the `@`.
    pub start: usize,
    /// One past the last byte of the name.
    pub end: usize,
    /// The name as it appears in the candidate list.
    pub name: String,
    /// Whether this is the `@everyone` token.
    pub everyone: bool,
}

/// What a [`Mention`] says, with the name by its characters.
pub struct MentionView {
    pub start: nat,
    pub end: nat,
    pub name: Seq<char>,
    pub everyone: bool,
}

impl View for Mention {
    type V = MentionView;

    open spec fn view(&self) -> MentionView {
        MentionView {
            start: self.start as nat,
            end: self.end as nat,
            name: self.name@,
            everyone: self.everyone,
        }
    }
}

/// The views of a list of mentions.
pub open spec fn mention_views(ms: Seq<Mention>) -> Seq<MentionView> {
    Seq::new(ms.len(), |i: int| ms[i]@)
}

// ---------- Boundaries ----------

/// No letter or digit stands right before position `at`.
pub open spec fn starts_fresh(s: Seq<char>, at: int) -> bool {
    at == 0 || !alphanumeric(s[at - 1])
}

/// No letter or digit stands at position `at`.
pub open spec fn ends_name(s: Seq<char>, at: int) -> bool {
    at >= s.len() || !alphanumeric(s[at])
}

/// Whether a mention may start at character `at`.
pub fn boundary_before(lower: &Vec<char>, at: usize) -> (r: bool)
    requires
        at <= lower@.len(),
    ensures
        r == starts_fresh(lower@, at as int),
{
    at == 0 || !lower[at - 1].is_alphanumeric()
}

/// Whether a name may end right before character `at`.
pub fn boundary_after(lower: &Vec<char>, at: usize) -> (r: bool)
    requires
        at <= lower@.len(),
    ensures
        r == ends_name(lower@, at as int),
{
    at >= lower.len() || !lower[at].is_alphanumeric()
}

// ---------- Parsing ----------

/// The candidate names, with the implicit one behind them.
pub open spec fn candidates(names: Seq<Seq<char>>) -> Seq<Seq<char>> {
    names.push("everyone"@)
}

/// Candidate `i` is mentioned by the `@` at position `p` of the lowercased
/// text.
pub open spec fn matches_at(lower: Seq<char>, p: int, cands: Seq<Seq<char>>, i: int) -> bool {
    let w = lowercase(cands[i]);
    &&& 0 <= i < cands.len()
    &&& w.len() > 0
    &&& stands_at(lower, p + 1, w)
    &&& ends_name(lower, p + 1 + w.len())
}

/// Candidate `i` is the one mentioned at `p`: the longest that matches there,
/// and among equal names the first.
pub open spec fn best_at(lower: Seq<char>, p: int, cands: Seq<Seq<char>>, i: int) -> bool {
    &&& matches_at(lower, p, cands, i)
    &&& forall|j: int| #[trigger]
        matches_at(lower, p, cands, j) ==> {
            ||| lowercase(cands[j]).len() < lowercase(cands[i]).len()
            ||| lowercase(cands[j]).len() == lowercase(cands[i]).len() && i <= j
        }
}

/// A mention starts at `p`.
pub open spec fn mentioned_at(lower: Seq<char>, p: int, cands: Seq<Seq<char>>) -> bool {
    lower[p] == '@' && starts_fresh(lower, p) && exists|i: int| best_at(lower, p, cands, i)
}

/// The candidate mentioned at `p`.
pub open spec fn chosen_at(lower: Seq<char>, p: int, cands: Seq<Seq<char>>) -> int {
    choose|i: int| best_at(lower, p, cands, i)
}

/// The mentions from position `p` on, left to right; what a mention covers is
/// not searched again.
pub open spec fn mentions_from(lower: Seq<char>, cands: Seq<Seq<char>>, p: int) -> Seq<MentionView>
    decreases lower.len() - p,
{
    if p < 0 || p >= lower.len() {
        Seq::empty()
    } else if mentioned_at(lower, p, cands) {
        let i = chosen_at(lower, p, cands);
        let w = lowercase(cands[i]);
        let end = p + 1 + w.len();
        seq![
            MentionView {
                start: byte_len(lower.take(p)),
                end: byte_len(lower.take(end)),
                name: cands[i],
                everyone: w == "everyone"@,
            },
        ] + mentions_from(lower, cands, end)
    } else {
        mentions_from(lower, cands, p + 1)
    }
}

/// Every mention in `text` against the candidate display `names`.
pub open spec fn mentions_in(text: Seq<char>, names: Seq<Seq<char>>) -> Seq<MentionView> {
    mentions_from(lowercase(text), candidates(names), 0)
}

proof fn lemma_best_unique(lower: Seq<char>, p: int, cands: Seq<Seq<char>>, i: int)
    requires
        best_at(lower, p, cands, i),
    ensures
        chosen_at(lower, p, cands) == i,
{
    let j = chosen_at(lower, p, cands);
    assert(best_at(lower, p, cands, j));
    assert(matches_at(lower, p, cands, j));
    assert(matches_at(lower, p, cands, i));
}

fn stands(s: &Vec<char>, at: usize, w: &Vec<char>) -> (r: bool)
    requires
        at <= s@.len(),
    ensures
        r == stands_at(s@, at as int, w@),
{
    let n: usize = s.len();
    if w.len() > n - at {
        return false;
    }
    let mut i: usize = 0;
    while i < w.len()
        invariant
            i <= w@.len(),
            n == s@.len(),
            at + w@.len() <= n,
            forall|j: int| 0 <= j < i ==> s@[at + j] == w@[j],
        decreases w@.len() - i,
    {
        if s[at + i] != w[i] {
            assert(s@.subrange(at as int, at + w@.len())[i as int] != w@[i as int]);
            return false;
        }
        i += 1;
    }
    assert(s@.subrange(at as int, at + w@.len()) =~= w@);
    true
}

/// The lowercased candidates, the implicit one last.
fn lowered(names: &[String]) -> (r: Vec<Vec<char>>)
    ensures
        r@.len() == names@.len() + 1,
        forall|i: int|
            0 <= i < r@.len() ==> (#[trigger] r@[i])@ == lowercase(candidates(texts(names@))[i]),
{
    let mut r: Vec<Vec<char>> = Vec::new();
    let ghost cands = candidates(texts(names@));
    let mut i: usize = 0;
    while i < names.len()
        invariant
            i <= names@.len(),
            cands == candidates(texts(names@)),
            r@.len() == i,
            forall|j: int| 0 <= j < i ==> (#[trigger] r@[j])@ == lowercase(cands[j]),
        decreases names@.len() - i,
    {
        let low = names[i].as_str().to_lowercase();
        r.push(chars_of(&low));
        assert(cands[i as int] == names@[i as int]@);
        i += 1;
    }
    let low = "everyone".to_lowercase();
    r.push(chars_of(&low));
    r
}

/// Finds the candidate mentioned at `p`.
fn find_best(lower: &Vec<char>, p: usize, cands: &Vec<Vec<char>>, Ghost(given): Ghost<Seq<Seq<char>>>) -> (r:
    Option<usize>)
    requires
        p < lower@.len(),
        cands@.len() == given.len(),
        forall|i: int| 0 <= i < cands@.len() ==> (#[trigger] cands@[i])@ == lowercase(given[i]),
    ensures
        match r {
            Some(i) => best_at(lower@, p as int, given, i as int),
            None => forall|i: int| !best_at(lower@, p as int, given, i),
        },
{
    let n: usize = lower.len();
    let mut best: Option<usize> = None;
    let mut k: usize = 0;
    while k < cands.len()
        invariant
            p < n,
            n == lower@.len(),
            k <= cands@.len(),
            cands@.len() == given.len(),
            forall|i: int| 0 <= i < cands@.len() ==> (#[trigger] cands@[i])@ == lowercase(given[i]),
            match best {
                Some(b) => {
                    &&& b < k
                    &&& matches_at(lower@, p as int, given, b as int)
                    &&& forall|j: int|
                        j < k && #[trigger] matches_at(lower@, p as int, given, j) ==> {
                            ||| lowercase(given[j]).len() < lowercase(given[b as int]).len()
                            ||| lowercase(given[j]).len() == lowercase(given[b as int]).len() && b <= j
                        }
                },
                None => forall|j: int| j < k ==> !#[trigger] matches_at(lower@, p as int, given, j),
            },
        decreases cands@.len() - k,
    {
        let w = &cands[k];
        if w.len() > 0 && stands(lower, p + 1, w) && boundary_after(lower, p + 1 + w.len()) {
            assert(matches_at(lower@, p as int, given, k as int));
            let better = match best {
                Some(b) => w.len() > cands[b].len(),
                None => true,
            };
            if better {
                best = Some(k);
            }
        } else {
            assert(!matches_at(lower@, p as int, given, k as int));
        }
        k += 1;
    }
    best
}

/// Parses every mention in `text` against the candidate display `names`
/// (friends, server members, group members). `@everyone` is detected
/// automatically.
pub fn parse_mentions(text: &str, names: &[String]) -> (out: Vec<Mention>)
    ensures
        mention_views(out@) == mentions_in(text@, texts(names@)),
{
    let low = text.to_lowercase();
    let lower = chars_of(&low);
    let cands = lowered(names);
    let ghost given = candidates(texts(names@));
    let mut out: Vec<Mention> = Vec::new();
    let mut p: usize = 0;
    assert(mention_views(out@) + mentions_from(lower@, given, 0) =~= mentions_from(lower@, given, 0));
    while p < lower.len()
        invariant
            p <= lower@.len(),
            lower@ == lowercase(text@),
            given == candidates(texts(names@)),
            cands@.len() == given.len(),
            cands@.len() == names@.len() + 1,
            forall|i: int| 0 <= i < cands@.len() ==> (#[trigger] cands@[i])@ == lowercase(given[i]),
            mention_views(out@) + mentions_from(lower@, given, p as int) == mentions_from(lower@, given, 0),
        decreases lower@.len() - p,
    {
        let mut found: Option<usize> = None;
        if lower[p] == '@' && boundary_before(&lower, p) {
            found = find_best(&lower, p, &cands, Ghost(given));
        }
        match found {
            Some(i) => {
                proof {
                    lemma_best_unique(lower@, p as int, given, i as int);
                }
                let end: usize = p + 1 + cands[i].len();
                let name = if i < names.len() {
                    names[i].clone()
                } else {
                    owned("everyone")
                };
                assert(name@ == given[i as int]);
                let word = text_of(&lower, p + 1, end);
                let everyone = same(&word, "everyone");
                assert(word@ == lowercase(given[i as int]));
                let start_text = text_of(&lower, 0, p);
                let end_text = text_of(&lower, 0, end);
                assert(lower@.subrange(0, p as int) =~= lower@.take(p as int));
                assert(lower@.subrange(0, end as int) =~= lower@.take(end as int));
                let m = Mention {
                    start: text_len(&start_text),
                    end: text_len(&end_text),
                    name,
                    everyone,
                };
                let ghost before = mention_views(out@);
                out.push(m);
                assert(mention_views(out@) =~= before.push(m@));
                assert(mention_views(out@) + mentions_from(lower@, given, end as int) =~= before + mentions_from(
                    lower@,
                    given,
                    p as int,
                ));
                p = end;
            },
            None => {
                assert(!mentioned_at(lower@, p as int, given));
                p += 1;
            },
        }
    }
    assert(mention_views(out@) + mentions_from(lower@, given, p as int) =~= mention_views(out@));
    out
}

// ---------- Questions about a text ----------

/// The lowercase form of each text.
pub open spec fn lowercases(s: Seq<Seq<char>>) -> Seq<Seq<char>> {
    Seq::new(s.len(), |i: int| lowercase(s[i]))
}

/// `text` mentions one of `names`, other than by `@everyone`.
pub open spec fn pings(text: Seq<char>, names: Seq<Seq<char>>) -> bool {
    let ms = mentions_in(text, names);
    exists|i: int|
        0 <= i < ms.len() && !(#[trigger] ms[i]).everyone && lowercases(names).contains(
            lowercase(ms[i].name),
        )
}

/// `text` contains the `@everyone` token.
pub open spec fn pings_everyone(text: Seq<char>) -> bool {
    let ms = mentions_in(text, Seq::empty());
    exists|i: int| 0 <= i < ms.len() && (#[trigger] ms[i]).everyone
}

fn has_lowercase(names: &[String], low: &str) -> (r: bool)
    ensures
        r == lowercases(texts(names@)).contains(low@),
{
    let ghost ls = lowercases(texts(names@));
    let mut i: usize = 0;
    while i < names.len()
        invariant
            i <= names@.len(),
            ls == lowercases(texts(names@)),
            forall|j: int| 0 <= j < i ==> #[trigger] ls[j] != low@,
        decreases names@.len() - i,
    {
        let l = names[i].as_str().to_lowercase();
        assert(ls[i as int] == l@);
        if same(&l, low) {
            return true;
        }
        i += 1;
    }
    false
}

/// True when `text` mentions any of `my_names` (case-insensitive).
/// `@everyone` is deliberately not included -- see [`has_everyone`].
pub fn mentions_any(text: &str, my_names: &[String]) -> (r: bool)
    ensures
        r == pings(text@, texts(my_names@)),
{
    let found = parse_mentions(text, my_names);
    let ghost ms = mentions_in(text@, texts(my_names@));
    let mut i: usize = 0;
    while i < found.len()
        invariant
            i <= found@.len(),
            ms == mentions_in(text@, texts(my_names@)),
            mention_views(found@) == ms,
            forall|j: int|
                0 <= j < i ==> (#[trigger] ms[j]).everyone || !lowercases(texts(my_names@)).contains(
                    lowercase(ms[j].name),
                ),
        decreases found@.len() - i,
    {
        assert(ms[i as int] == found@[i as int]@);
        if !found[i].everyone {
            let low = found[i].name.as_str().to_lowercase();
            if has_lowercase(my_names, &low) {
                return true;
            }
        }
        i += 1;
    }
    false
}

/// True when `text` contains the literal `@everyone` token.
pub fn has_everyone(text: &str) -> (r: bool)
    ensures
        r == pings_everyone(text@),
{
    let none: Vec<String> = Vec::new();
    let found = parse_mentions(text, none.as_slice());
    let ghost ms = mentions_in(text@, Seq::empty());
    assert(texts(none@) =~= Seq::<Seq<char>>::empty());
    let mut i: usize = 0;
    while i < found.len()
        invariant
            i <= found@.len(),
            ms == mentions_in(text@, Seq::empty()),
            mention_views(found@) == ms,
            forall|j: int| 0 <= j < i ==> !(#[trigger] ms[j]).everyone,
        decreases found@.len() - i,
    {
        assert(ms[i as int] == found@[i as int]@);
        if found[i].everyone {
            return true;
        }
        i += 1;
    }
    false
}

// ---------- The composer's @-token ----------

/// A character that can be part of a name while it is typed.
pub open spec fn name_char(c: char) -> bool {
    alphanumeric(c) || c == '_'
}

/// Whether `c` can be part of a name while it is typed.
pub fn is_name_char(c: char) -> (r: bool)
    ensures
        r == name_char(c),
{
    c.is_alphanumeric() || c == '_'
}

/// `p` is the position of the last `@`.
pub open spec fn last_at(s: Seq<char>, p: int) -> bool {
    &&& 0 <= p < s.len()
    &&& s[p] == '@'
    &&& forall|j: int| p < j < s.len() ==> #[trigger] s[j] != '@'
}

/// The last `@`, at `p`, starts a plausible mention that is still being
/// typed.
pub open spec fn open_token(s: Seq<char>, p: int) -> bool {
    let prefix = s.subrange(p + 1, s.len() as int);
    &&& last_at(s, p)
    &&& p == 0 || !name_char(s[p - 1])
    &&& !prefix.contains('\n')
    &&& prefix.len() <= 24
}

/// Finds the position of the `@` of the token being typed.
fn token_position(v: &Vec<char>) -> (r: Option<usize>)
    ensures
        match r {
            Some(p) => open_token(v@, p as int),
            None => forall|p: int| !open_token(v@, p),
        },
{
    let mut k: usize = v.len();
    while k > 0 && v[k - 1] != '@'
        invariant
            k <= v@.len(),
            forall|j: int| k <= j < v@.len() ==> #[trigger] v@[j] != '@',
        decreases k,
    {
        k -= 1;
    }
    if k == 0 {
        return None;
    }
    let p: usize = k - 1;
    assert(last_at(v@, p as int));
    assert forall|q: int| open_token(v@, q) implies q == p by {
        if q < p {
            assert(v@[p as int] != '@');
        }
    }
    if p > 0 && is_name_char(v[p - 1]) {
        return None;
    }
    let prefix = text_of(v, p + 1, v.len());
    if has_char(&prefix, '\n') || char_count(&prefix) > 24 {
        return None;
    }
    Some(p)
}

/// What [`active_at_token`] finds: the byte offset of the `@` and the text
/// behind it.
pub open spec fn token_of(s: Seq<char>) -> Option<(nat, Seq<char>)> {
    if exists|p: int| open_token(s, p) {
        let p = choose|p: int| open_token(s, p);
        Some((byte_len(s.take(p)), s.subrange(p + 1, s.len() as int)))
    } else {
        None
    }
}

proof fn lemma_token_unique(s: Seq<char>, p: int, q: int)
    requires
        open_token(s, p),
        open_token(s, q),
    ensures
        p == q,
{
    if p < q {
        assert(s[q] != '@');
    }
    if q < p {
        assert(s[p] != '@');
    }
}

/// Finds the "@prefix" token being typed at the end of `input`: the byte
/// offset of the `@` and the prefix after it. `None` hides the popup.
pub fn active_at_token(input: &str) -> (r: Option<(usize, String)>)
    ensures
        match r {
            Some((at, prefix)) => token_of(input@) == Some((at as nat, prefix@)),
            None => token_of(input@) is None,
        },
{
    let v = chars_of(input);
    match token_position(&v) {
        Some(p) => {
            proof {
                lemma_token_unique(v@, p as int, choose|q: int| open_token(v@, q));
            }
            let head = text_of(&v, 0, p);
            assert(v@.subrange(0, p as int) =~= v@.take(p as int));
            Some((text_len(&head), text_of(&v, p + 1, v.len())))
        },
        None => None,
    }
}

/// Inserts a picked suggestion: the active `@prefix` token becomes `@Name `.
/// When no token is active the mention is appended instead, after a space
/// where the text does not end in white space.
pub open spec fn completed(input: Seq<char>, name: Seq<char>) -> Seq<char> {
    let mention = seq!['@'] + name + seq![' '];
    if exists|p: int| open_token(input, p) {
        input.take(choose|p: int| open_token(input, p)) + mention
    } else if input.len() == 0 || white_space(input.last()) {
        input + mention
    } else {
        input + seq![' '] + mention
    }
}

/// See [`completed`].
pub fn complete(input: &str, name: &str) -> (r: String)
    ensures
        r@ == completed(input@, name@),
{
    let v = chars_of(input);
    proof {
        reveal_strlit("@");
        reveal_strlit(" ");
        reveal_strlit(" @");
        assert("@"@ =~= seq!['@']);
        assert(" "@ =~= seq![' ']);
        assert(" @"@ =~= seq![' '] + seq!['@']);
    }
    match token_position(&v) {
        Some(p) => {
            proof {
                lemma_token_unique(v@, p as int, choose|q: int| open_token(v@, q));
            }
            let head = text_of(&v, 0, p);
            assert(v@.subrange(0, p as int) =~= v@.take(p as int));
            let r = cat4(&head, "@", name, " ");
            assert(r@ =~= completed(input@, name@));
            r
        },
        None => {
            if v.len() > 0 && !v[v.len() - 1].is_whitespace() {
                let r = cat4(input, " @", name, " ");
                assert(r@ =~= completed(input@, name@));
                r
            } else {
                let r = cat4(input, "@", name, " ");
                assert(r@ =~= completed(input@, name@));
                r
            }
        },
    }
}

// ---------- Suggestions ----------

/// A candidate is offered for a prefix (given in lower case).
pub open spec fn offered(prefix: Seq<char>, c: Seq<char>) -> bool {
    let t = trimmed(c);
    &&& t.len() > 0
    &&& prefix.len() == 0 || stands_at(lowercase(t), 0, prefix)
}

/// The offered candidates, trimmed, in the given order, without those whose
/// name came before in another case.
pub open spec fn offers(prefix: Seq<char>, cands: Seq<Seq<char>>) -> Seq<Seq<char>>
    decreases cands.len(),
{
    if cands.len() == 0 {
        Seq::empty()
    } else {
        let before = offers(prefix, cands.drop_last());
        let c = cands.last();
        if offered(prefix, c) && !lowercases(before).contains(lowercase(trimmed(c))) {
            before.push(trimmed(c))
        } else {
            before
        }
    }
}

/// Ascending by lowercase form.
pub open spec fn alphabetical(s: Seq<Seq<char>>) -> bool {
    forall|i: int, j: int|
        0 <= i < j < s.len() ==> text_less(lowercase(#[trigger] s[i]), lowercase(#[trigger] s[j]))
}

/// `all` lists `offers` in alphabetical order.
pub open spec fn sorted_offers(prefix: Seq<char>, cands: Seq<Seq<char>>, all: Seq<Seq<char>>) -> bool {
    alphabetical(all) && all.to_multiset() == offers(prefix, cands).to_multiset()
}

/// `r` is what [`suggest`] returns: nothing where no token is being typed,
/// else the first `limit` offers in alphabetical order.
pub open spec fn suggests(
    input: Seq<char>,
    cands: Seq<Seq<char>>,
    limit: nat,
    r: Seq<Seq<char>>,
) -> bool {
    match token_of(input) {
        None => r.len() == 0,
        Some((at, prefix)) => exists|all: Seq<Seq<char>>|
            {
                &&& #[trigger] sorted_offers(lowercase(prefix), cands, all)
                &&& r == all.take(if limit < all.len() { limit as int } else { all.len() as int })
            },
    }
}

/// Whether `hits` has an entry with the lowercase form `low`.
fn holds_lowercase(hits: &Vec<String>, low: &str) -> (r: bool)
    ensures
        r == lowercases(texts(hits@)).contains(low@),
{
    has_lowercase(hits.as_slice(), low)
}

proof fn lemma_same_lowercases(a: Seq<Seq<char>>, b: Seq<Seq<char>>, low: Seq<char>)
    requires
        a.to_multiset() == b.to_multiset(),
        lowercases(a).contains(low),
    ensures
        lowercases(b).contains(low),
{
    let i = choose|i: int| 0 <= i < lowercases(a).len() && lowercases(a)[i] == low;
    assert(a.contains(a[i]));
    a.to_multiset_ensures();
    b.to_multiset_ensures();
    assert(b.to_multiset().count(a[i]) > 0);
    assert(b.contains(a[i]));
    let j = choose|j: int| 0 <= j < b.len() && b[j] == a[i];
    assert(lowercases(b)[j] == low);
}

fn comes_before(hit: &String, low: &String) -> (r: bool)
    ensures
        r == text_less(lowercase(hit@), low@),
{
    let l = hit.as_str().to_lowercase();
    less(&l, low)
}

/// Inserts `c`, whose lowercase form is `low`, at its alphabetical place.
fn insert_hit(hits: &mut Vec<String>, c: String, low: &String)
    requires
        alphabetical(texts(old(hits)@)),
        low@ == lowercase(c@),
        !lowercases(texts(old(hits)@)).contains(low@),
    ensures
        alphabetical(texts(final(hits)@)),
        texts(final(hits)@).to_multiset() == texts(old(hits)@).to_multiset().insert(c@),
{
    let ghost before = hits@;
    let ghost t = texts(before);
    let mut i: usize = 0;
    while i < hits.len() && comes_before(&hits[i], low)
        invariant
            i <= hits@.len(),
            hits@ == before,
            t == texts(before),
            forall|j: int| 0 <= j < i ==> text_less(lowercase(#[trigger] t[j]), low@),
        decreases hits@.len() - i,
    {
        assert(t[i as int] == hits@[i as int]@);
        i += 1;
    }
    assert(i < hits@.len() ==> t[i as int] == hits@[i as int]@);
    let ghost k = c@;
    hits.insert(i, c);
    proof {
        let u = texts(hits@);
        assert(hits@ == before.insert(i as int, c));
        assert(u =~= t.insert(i as int, k));
        assert(forall|j: int|
            0 <= j < u.len() && j != i ==> #[trigger] u[j] == t[if j < i {
                j
            } else {
                j - 1
            }]);
        assert forall|j: int| i <= j < t.len() implies text_less(low@, lowercase(#[trigger] t[j])) by {
            assert(lowercases(t)[i as int] == lowercase(t[i as int]));
            assert(lowercases(t).contains(lowercase(t[i as int])));
            lemma_less_total(lowercase(t[i as int]), low@);
            if i < j {
                lemma_less_transitive(low@, lowercase(t[i as int]), lowercase(t[j]));
            }
        }
        assert forall|a: int, b: int| 0 <= a < b < u.len() implies text_less(
            lowercase(#[trigger] u[a]),
            lowercase(#[trigger] u[b]),
        ) by {
            if a == i {
                assert(u[b] == t[b - 1]);
            } else if b == i {
                assert(u[a] == t[a]);
            } else {
                let m = if a < i { a } else { a - 1 };
                let n = if b < i { b } else { b - 1 };
                assert(text_less(lowercase(t[m]), lowercase(t[n])));
            }
        }
        t.to_multiset_ensures();
        assert(t.insert(i as int, k).to_multiset() =~= t.to_multiset().insert(k)) by {
            vstd::seq_lib::to_multiset_insert(t, i as int, k);
        }
    }
}

/// Autocomplete suggestions for the active `@` token: candidate names
/// starting with the typed prefix (case-insensitive), alphabetical, deduped,
/// capped at `limit`. An empty prefix lists every candidate.
pub fn suggest(input: &str, candidates: &[String], limit: usize) -> (hits: Vec<String>)
    ensures
        suggests(input@, texts(candidates@), limit as nat, texts(hits@)),
{
    let (_, typed) = match active_at_token(input) {
        Some(t) => t,
        None => {
            return Vec::new();
        },
    };
    let prefix = typed.as_str().to_lowercase();
    let pre = chars_of(&prefix);
    let ghost cs = texts(candidates@);
    let mut hits: Vec<String> = Vec::new();
    let mut i: usize = 0;
    assert(cs.take(0) =~= Seq::<Seq<char>>::empty());
    assert(texts(hits@) =~= Seq::<Seq<char>>::empty());
    while i < candidates.len()
        invariant
            i <= candidates@.len(),
            cs == texts(candidates@),
            pre@ == prefix@,
            alphabetical(texts(hits@)),
            texts(hits@).to_multiset() == offers(prefix@, cs.take(i as int)).to_multiset(),
        decreases candidates@.len() - i,
    {
        let c = trim(&candidates[i]);
        assert(cs.take(i + 1).drop_last() =~= cs.take(i as int));
        assert(cs.take(i + 1).last() == candidates@[i as int]@);
        let low = c.as_str().to_lowercase();
        let low_chars = chars_of(&low);
        let ghost before = offers(prefix@, cs.take(i as int));
        let wanted = !c.as_str().is_empty() && (prefix.as_str().is_empty() || stands(&low_chars, 0, &pre));
        assert(wanted == offered(prefix@, cs[i as int]));
        if wanted {
            proof {
                if lowercases(before).contains(low@) {
                    lemma_same_lowercases(before, texts(hits@), low@);
                }
                if lowercases(texts(hits@)).contains(low@) {
                    lemma_same_lowercases(texts(hits@), before, low@);
                }
            }
            if !holds_lowercase(&hits, &low) {
                proof {
                    before.to_multiset_ensures();
                }
                insert_hit(&mut hits, c, &low);
            }
        }
        i += 1;
    }
    assert(cs.take(cs.len() as int) =~= cs);
    let ghost all = texts(hits@);
    assert(sorted_offers(lowercase(typed@), cs, all));
    if limit < hits.len() {
        hits.truncate(limit);
        assert(texts(hits@) =~= all.take(limit as int));
    } else {
        assert(texts(hits@) =~= all.take(all.len() as int));
    }
    proof {
        let n = limit as nat;
        assert(texts(hits@) == all.take(if n < all.len() {
            n as int
        } else {
            all.len() as int
        }));
        assert(token_of(input@) is Some && (token_of(input@)->0).1 == typed@);
    }
    hits
}

// ---------- Resolving mentions to user ids ----------

/// `(display name, user id)` pairs by their characters.
pub open spec fn pair_views(s: Seq<(String, String)>) -> Seq<(Seq<char>, Seq<char>)> {
    Seq::new(s.len(), |i: int| (s[i].0@, s[i].1@))
}

/// The names of the pairs.
pub open spec fn pair_names(s: Seq<(Seq<char>, Seq<char>)>) -> Seq<Seq<char>> {
    Seq::new(s.len(), |i: int| s[i].0)
}

/// `i` is the first pair whose name has the lowercase form `low`.
pub open spec fn first_named(pairs: Seq<(Seq<char>, Seq<char>)>, low: Seq<char>, i: int) -> bool {
    &&& 0 <= i < pairs.len()
    &&& lowercase(pairs[i].0) == low
    &&& forall|j: int| 0 <= j < i ==> lowercase((#[trigger] pairs[j]).0) != low
}

/// The id of the first pair whose name has the lowercase form `low`.
pub open spec fn id_named(pairs: Seq<(Seq<char>, Seq<char>)>, low: Seq<char>) -> Option<Seq<char>> {
    if exists|i: int| first_named(pairs, low, i) {
        Some(pairs[choose|i: int| first_named(pairs, low, i)].1)
    } else {
        None
    }
}

/// The ids that a list of mentions resolves to, each once, in order of first
/// appearance. `@everyone` and unknown names give none.
pub open spec fn resolved_ids(
    ms: Seq<MentionView>,
    pairs: Seq<(Seq<char>, Seq<char>)>,
) -> Seq<Seq<char>>
    decreases ms.len(),
{
    if ms.len() == 0 {
        Seq::empty()
    } else {
        let before = resolved_ids(ms.drop_last(), pairs);
        let m = ms.last();
        match id_named(pairs, lowercase(m.name)) {
            Some(id) => if !m.everyone && !before.contains(id) {
                before.push(id)
            } else {
                before
            },
            None => before,
        }
    }
}

fn id_for(candidates: &[(String, String)], low: &str) -> (r: Option<String>)
    ensures
        match r {
            Some(id) => id_named(pair_views(candidates@), low@) == Some(id@),
            None => id_named(pair_views(candidates@), low@) is None,
        },
{
    let ghost pairs = pair_views(candidates@);
    let mut i: usize = 0;
    while i < candidates.len()
        invariant
            i <= candidates@.len(),
            pairs == pair_views(candidates@),
            forall|j: int| 0 <= j < i ==> lowercase((#[trigger] pairs[j]).0) != low@,
        decreases candidates@.len() - i,
    {
        let l = candidates[i].0.as_str().to_lowercase();
        assert(pairs[i as int].0 == candidates@[i as int].0@);
        if same(&l, low) {
            proof {
                assert(first_named(pairs, low@, i as int));
                let k = choose|k: int| first_named(pairs, low@, k);
                assert(k == i) by {
                    if k < i {
                        assert(lowercase(pairs[k].0) != low@);
                    }
                    if i < k {
                        assert(lowercase(pairs[i as int].0) != low@);
                    }
                }
            }
            return Some(candidates[i].1.clone());
        }
        i += 1;
    }
    None
}

/// Resolves the mentions in `text` against `(display_name, user_id)`
/// `candidates`: the deduped ids of every mentioned user, and whether
/// `@everyone` appears. Name matching is case-insensitive; when two
/// candidates share a display name the first wins.
pub fn resolve_mentions(text: &str, candidates: &[(String, String)]) -> (r: (Vec<String>, bool))
    ensures
        ({
            let pairs = pair_views(candidates@);
            let ms = mentions_in(text@, pair_names(pairs));
            &&& texts(r.0@) == resolved_ids(ms, pairs)
            &&& r.1 == exists|i: int| 0 <= i < ms.len() && (#[trigger] ms[i]).everyone
        }),
{
    let ghost pairs = pair_views(candidates@);
    let mut names: Vec<String> = Vec::new();
    let mut k: usize = 0;
    while k < candidates.len()
        invariant
            k <= candidates@.len(),
            pairs == pair_views(candidates@),
            names@.len() == k,
            forall|j: int| 0 <= j < k ==> (#[trigger] names@[j])@ == pairs[j].0,
        decreases candidates@.len() - k,
    {
        names.push(candidates[k].0.clone());
        k += 1;
    }
    assert(texts(names@) =~= pair_names(pairs));
    let found = parse_mentions(text, names.as_slice());
    let ghost ms = mentions_in(text@, pair_names(pairs));
    let mut ids: Vec<String> = Vec::new();
    let mut everyone = false;
    let mut i: usize = 0;
    assert(ms.take(0) =~= Seq::<MentionView>::empty());
    assert(texts(ids@) =~= Seq::<Seq<char>>::empty());
    while i < found.len()
        invariant
            i <= found@.len(),
            pairs == pair_views(candidates@),
            mention_views(found@) == ms,
            texts(ids@) == resolved_ids(ms.take(i as int), pairs),
            everyone == exists|j: int| 0 <= j < i && (#[trigger] ms[j]).everyone,
        decreases found@.len() - i,
    {
        assert(ms[i as int] == found@[i as int]@);
        assert(ms.take(i + 1).drop_last() =~= ms.take(i as int));
        assert(ms.take(i + 1).last() == ms[i as int]);
        if found[i].everyone {
            everyone = true;
        } else {
            let low = found[i].name.as_str().to_lowercase();
            match id_for(candidates, &low) {
                Some(id) => {
                    if !holds_text(&ids, &id) {
                        let ghost before = texts(ids@);
                        ids.push(id);
                        assert(texts(ids@) =~= before.push(id@));
                    }
                },
                None => {},
            }
        }
        i += 1;
    }
    assert(ms.take(ms.len() as int) =~= ms);
    (ids, everyone)
}

// ---------- Excerpts ----------

/// `s` on one line.
pub open spec fn one_line(s: Seq<char>) -> Seq<char> {
    Seq::new(
        s.len(),
        |i: int|
            if s[i] == '\n' {
                ' '
            } else {
                s[i]
            },
    )
}

/// The one-line form of `s`, cut to at most `max` characters where it is
/// longer, with an ellipsis for what was cut.
pub open spec fn excerpt(s: Seq<char>, max: nat) -> Seq<char> {
    if s.len() <= max {
        one_line(s)
    } else {
        one_line(s).take(if max == 0 { 0 } else { max - 1 }).push('\u{2026}')
    }
}

/// Short single-line excerpt of a message body for notifications.
pub fn snippet(body: &str, max_chars: usize) -> (r: String)
    ensures
        r@ == excerpt(body@, max_chars as nat),
{
    let v = chars_of(body);
    let whole = v.len() <= max_chars;
    let keep: usize = if whole {
        v.len()
    } else if max_chars == 0 {
        0
    } else {
        max_chars - 1
    };
    let mut r = String::new();
    let mut i: usize = 0;
    while i < keep
        invariant
            i <= keep <= v@.len(),
            v@ == body@,
            r@ == one_line(body@).take(i as int),
        decreases keep - i,
    {
        let c = if v[i] == '\n' {
            ' '
        } else {
            v[i]
        };
        r.push(c);
        i += 1;
        assert(one_line(body@).take(i as int) =~= one_line(body@).take(i - 1).push(c));
    }
    if whole {
        assert(one_line(body@).take(keep as int) =~= one_line(body@));
    } else {
        r.push('\u{2026}');
    }
    r
}

// ---------- Laws ----------

/// An `@` at position `p`, byte offset `start`, may start a mention.
pub open spec fn fresh_at(lower: Seq<char>, p: int, start: nat) -> bool {
    &&& 0 <= p < lower.len()
    &&& lower[p] == '@'
    &&& starts_fresh(lower, p)
    &&& start == byte_len(lower.take(p))
}

/// The mention is the one that candidate `i` makes at position `p`.
pub open spec fn mention_at(lower: Seq<char>, cands: Seq<Seq<char>>, m: MentionView, p: int, i: int) -> bool {
    let w = lowercase(m.name);
    &&& fresh_at(lower, p, m.start)
    &&& 0 <= i < cands.len()
    &&& m.name == cands[i]
    &&& stands_at(lower, p + 1, w)
    &&& ends_name(lower, p + 1 + w.len())
    &&& m.end == byte_len(lower.take(p + 1 + w.len()))
    &&& forall|j: int| #[trigger]
        matches_at(lower, p, cands, j) ==> lowercase(cands[j]).len() <= w.len()
}

/// A mention stands at an `@` that may start one, covers the name of a
/// candidate, and is marked as `@everyone` exactly where the name says so.
pub open spec fn sound_mention(lower: Seq<char>, cands: Seq<Seq<char>>, m: MentionView) -> bool {
    &&& exists|p: int, i: int| mention_at(lower, cands, m, p, i)
    &&& m.everyone == (lowercase(m.name) == "everyone"@)
}

/// Every mention starts at an `@` that stands at the beginning of the text or
/// behind a character that is neither letter nor digit: an address such as
/// `someone@example.com` never mentions anyone. Behind the `@` stands one of
/// the candidates, or `everyone`, in whatever case; behind the name the text
/// ends or a character follows that is neither letter nor digit; and no longer
/// candidate stands there.
pub proof fn mentions_are_sound(text: Seq<char>, names: Seq<Seq<char>>)
    ensures
        forall|k: int|
            0 <= k < mentions_in(text, names).len() ==> sound_mention(
                lowercase(text),
                candidates(names),
                #[trigger] mentions_in(text, names)[k],
            ),
{
    lemma_mentions_from(lowercase(text), candidates(names), 0);
}

proof fn lemma_mentions_from(lower: Seq<char>, cands: Seq<Seq<char>>, p: int)
    requires
        0 <= p,
    ensures
        forall|k: int|
            0 <= k < mentions_from(lower, cands, p).len() ==> {
                let m = #[trigger] mentions_from(lower, cands, p)[k];
                &&& sound_mention(lower, cands, m)
                &&& m.start < m.end
                &&& p <= lower.len() ==> byte_len(lower.take(p)) <= m.start
            },
        forall|j: int, k: int|
            0 <= j < k < mentions_from(lower, cands, p).len() ==> (#[trigger] mentions_from(
                lower,
                cands,
                p,
            )[j]).end <= (#[trigger] mentions_from(lower, cands, p)[k]).start,
    decreases lower.len() - p,
{
    if p < lower.len() {
        let ms = mentions_from(lower, cands, p);
        if mentioned_at(lower, p, cands) {
            let i = chosen_at(lower, p, cands);
            assert(best_at(lower, p, cands, i));
            let end = p + 1 + lowercase(cands[i]).len();
            lemma_mentions_from(lower, cands, end);
            lemma_byte_len_grows(lower, p, end);
            let rest = mentions_from(lower, cands, end);
            assert(mention_at(lower, cands, ms[0], p, i));
            assert(sound_mention(lower, cands, ms[0]));
            assert(forall|k: int| 0 < k < ms.len() ==> #[trigger] ms[k] == rest[k - 1]);
        } else {
            lemma_mentions_from(lower, cands, p + 1);
            lemma_byte_len_grows(lower, p, p + 1);
            assert(ms == mentions_from(lower, cands, p + 1));
        }
    }
}

proof fn lemma_picked_from(lower: Seq<char>, name: Seq<char>, q: int, p: int)
    requires
        0 <= p <= q,
        q + 2 + lowercase(name).len() == lower.len(),
        lowercase(name).len() > 0,
        lowercase(name) != "everyone"@,
        lowercase("everyone"@) == "everyone"@,
        !"everyone"@.contains('@') && !"everyone"@.contains(' '),
        lower[q] == '@',
        starts_fresh(lower, q),
        stands_at(lower, q + 1, lowercase(name)),
        lower.last() == ' ',
    ensures
        exists|k: int|
            0 <= k < mentions_from(lower, candidates(seq![name]), p).len() && (
            #[trigger] mentions_from(lower, candidates(seq![name]), p)[k]).name == name,
    decreases q - p,
{
    let cands = candidates(seq![name]);
    let w = lowercase(name);
    let ms = mentions_from(lower, cands, p);
    assert(cands[0] == name && cands[1] == "everyone"@);
    if p == q {
        assert(!alphanumeric(' '));
        assert(matches_at(lower, q, cands, 0));
        assert forall|j: int| #[trigger] matches_at(lower, q, cands, j) implies {
            ||| lowercase(cands[j]).len() < w.len()
            ||| lowercase(cands[j]).len() == w.len() && 0 <= j
        } by {
            if j == 1 {
                let e = "everyone"@;
                let here = lower.subrange(q + 1, q + 1 + e.len());
                assert(here == e);
                if w.len() < e.len() {
                    assert(here[w.len() as int] == lower.last());
                    assert(e.contains(' '));
                }
            }
        }
        assert(best_at(lower, q, cands, 0));
        lemma_best_unique(lower, q, cands, 0);
        assert(ms[0].name == name);
    } else if mentioned_at(lower, p, cands) {
        let i = chosen_at(lower, p, cands);
        assert(best_at(lower, p, cands, i));
        if i == 0 {
            assert(ms[0].name == name);
        } else {
            let e = "everyone"@;
            let end = p + 1 + e.len();
            assert(lower.subrange(p + 1, end) == e);
            if q < end {
                assert(lower.subrange(p + 1, end)[q - p - 1] == '@');
                assert(e.contains('@'));
            }
            lemma_picked_from(lower, name, q, end);
            let rest = mentions_from(lower, cands, end);
            let k = choose|k: int| 0 <= k < rest.len() && (#[trigger] rest[k]).name == name;
            assert(ms[k + 1] == rest[k]);
        }
    } else {
        lemma_picked_from(lower, name, q, p + 1);
        let rest = mentions_from(lower, cands, p + 1);
        let k = choose|k: int| 0 <= k < rest.len() && (#[trigger] rest[k]).name == name;
        assert(ms[k] == rest[k]);
    }
}

/// Where the `@` of a picked suggestion stands.
proof fn lemma_picked_place(input: Seq<char>, name: Seq<char>) -> (q: int)
    ensures
        0 <= q,
        completed(input, name).len() == q + 2 + name.len(),
        q <= input.len() + 1,
        forall|i: int|
            0 <= i < q ==> #[trigger] completed(input, name)[i] == ' ' || (i < input.len()
                && completed(input, name)[i] == input[i]),
        starts_fresh(completed(input, name), q) || white_space(completed(input, name)[q - 1]),
        completed(input, name).subrange(q, q + 2 + name.len()) == seq!['@'] + name + seq![' '],
{
    let mention = seq!['@'] + name + seq![' '];
    let all = completed(input, name);
    let q = all.len() - mention.len();
    assert(mention.len() == name.len() + 2);
    if exists|p: int| open_token(input, p) {
        let p = choose|p: int| open_token(input, p);
        assert(q == p);
        assert(p > 0 ==> all[p - 1] == input[p - 1]);
    } else if input.len() == 0 || white_space(input.last()) {
        assert(q == input.len());
        assert(q > 0 ==> all[q - 1] == input.last());
    } else {
        assert(q == input.len() + 1);
        assert(all[q - 1] == ' ');
    }
    assert(all.subrange(q, q + 2 + name.len()) =~= mention);
    q
}

/// Whoever is picked from the suggestions is mentioned, whatever was typed
/// before. Stated for texts and names within the ASCII range, on which the
/// case mapping is known, and for names other than `everyone`.
pub proof fn picked_names_are_mentioned(input: Seq<char>, name: Seq<char>)
    requires
        all_ascii(input),
        all_ascii(name),
        name.len() > 0,
        lowercase(name) != "everyone"@,
    ensures
        pings(completed(input, name), seq![name]),
{
    reveal_strlit("everyone");
    let e = "everyone"@;
    assert(all_ascii(e));
    assert(lowercase(e) =~= e);
    let q = lemma_picked_place(input, name);
    let all = completed(input, name);
    let mention = seq!['@'] + name + seq![' '];
    let tail = all.subrange(q, q + 2 + name.len());
    assert forall|i: int| 0 <= i < all.len() implies (#[trigger] all[i] as u32) < 128 by {
        if i >= q {
            assert(all[i] == tail[i - q]);
            if 0 < i - q <= name.len() {
                assert(mention[i - q] == name[i - q - 1]);
            }
        }
    }
    let lower = lowercase(all);
    let w = lowercase(name);
    assert(all[q] == tail[0] && tail[0] == '@');
    assert(all[all.len() - 1] == tail[tail.len() - 1]);
    assert(tail[tail.len() - 1] == mention.last());
    assert(lower.subrange(q + 1, q + 1 + w.len()) =~= w) by {
        assert forall|k: int| 0 <= k < w.len() implies lower[q + 1 + k] == w[k] by {
            assert(all[q + 1 + k] == tail[1 + k]);
            assert(mention[1 + k] == name[k]);
        }
    }
    if q > 0 {
        assert((all[q - 1] as u32) < 128);
    }
    lemma_picked_from(lower, name, q, 0);
    let ms = mentions_in(all, seq![name]);
    let k = choose|k: int| 0 <= k < ms.len() && (#[trigger] ms[k]).name == name;
    lemma_mentions_from(lower, candidates(seq![name]), 0);
    assert(sound_mention(lower, candidates(seq![name]), ms[k]));
    assert(lowercases(seq![name])[0] == w);
    assert(lowercases(seq![name]).contains(w));
}

/// Mentions are reported from left to right and do not overlap.
pub proof fn mentions_are_ordered(text: Seq<char>, names: Seq<Seq<char>>)
    ensures
        ({
            let ms = mentions_in(text, names);
            &&& forall|k: int| 0 <= k < ms.len() ==> (#[trigger] ms[k]).start < ms[k].end
            &&& forall|j: int, k: int|
                0 <= j < k < ms.len() ==> (#[trigger] ms[j]).end <= (#[trigger] ms[k]).start
        }),
{
    lemma_mentions_from(lowercase(text), candidates(names), 0);
}

/// Resolved ids are distinct and each belongs to a candidate: unknown names
/// never become ids.
pub proof fn resolved_ids_are_candidates(
    ms: Seq<MentionView>,
    pairs: Seq<(Seq<char>, Seq<char>)>,
)
    ensures
        resolved_ids(ms, pairs).no_duplicates(),
        forall|k: int|
            0 <= k < resolved_ids(ms, pairs).len() ==> exists|i: int|
                0 <= i < pairs.len() && (#[trigger] pairs[i]).1 == #[trigger] resolved_ids(ms, pairs)[k],
    decreases ms.len(),
{
    if ms.len() > 0 {
        resolved_ids_are_candidates(ms.drop_last(), pairs);
        let before = resolved_ids(ms.drop_last(), pairs);
        let low = lowercase(ms.last().name);
        if exists|i: int| first_named(pairs, low, i) {
            let i = choose|i: int| first_named(pairs, low, i);
            assert(pairs[i].1 == id_named(pairs, low)->0);
        }
        let all = resolved_ids(ms, pairs);
        assert forall|k: int| 0 <= k < all.len() implies exists|i: int|
            0 <= i < pairs.len() && (#[trigger] pairs[i]).1 == #[trigger] all[k] by {
            if k < before.len() {
                assert(all[k] == before[k]);
            } else {
                let i = choose|i: int| first_named(pairs, low, i);
                assert(pairs[i].1 == all[k]);
            }
        }
    }
}

/// Suggestions are at most `limit`, come in alphabetical order, differ in more
/// than case, and each is a trimmed candidate.
pub proof fn suggestions_are_candidates(
    input: Seq<char>,
    cands: Seq<Seq<char>>,
    limit: nat,
    r: Seq<Seq<char>>,
)
    requires
        suggests(input, cands, limit, r),
    ensures
        r.len() <= limit,
        alphabetical(r),
        forall|k: int|
            0 <= k < r.len() ==> exists|i: int|
                0 <= i < cands.len() && #[trigger] trimmed(cands[i]) == #[trigger] r[k],
{
    if token_of(input) is Some {
        let prefix = (token_of(input)->0).1;
        let all = choose|all: Seq<Seq<char>>|
            {
                &&& #[trigger] sorted_offers(lowercase(prefix), cands, all)
                &&& r == all.take(if limit < all.len() { limit as int } else { all.len() as int })
            };
        let os = offers(lowercase(prefix), cands);
        assert forall|k: int| 0 <= k < r.len() implies exists|i: int|
            0 <= i < cands.len() && #[trigger] trimmed(cands[i]) == #[trigger] r[k] by {
            all.to_multiset_ensures();
            os.to_multiset_ensures();
            assert(all[k] == r[k]);
            assert(all.contains(r[k]));
            assert(os.to_multiset().count(r[k]) > 0);
            assert(os.contains(r[k]));
            let j = choose|j: int| 0 <= j < os.len() && os[j] == r[k];
            lemma_offer_origin(lowercase(prefix), cands, j);
        }
    }
}

proof fn lemma_offer_origin(prefix: Seq<char>, cands: Seq<Seq<char>>, j: int)
    requires
        0 <= j < offers(prefix, cands).len(),
    ensures
        exists|i: int|
            0 <= i < cands.len() && #[trigger] trimmed(cands[i]) == offers(prefix, cands)[j],
    decreases cands.len(),
{
    let before = offers(prefix, cands.drop_last());
    if j < before.len() {
        lemma_offer_origin(prefix, cands.drop_last(), j);
        let i = choose|i: int|
            0 <= i < cands.drop_last().len() && #[trigger] trimmed(cands.drop_last()[i]) == before[j];
        assert(trimmed(cands[i]) == offers(prefix, cands)[j]);
    } else {
        assert(trimmed(cands[cands.len() - 1]) == offers(prefix, cands)[j]);
    }
}

} // verus!
