//! Choosing a YouTube video among the results of a search by words.

use vstd::prelude::*;
use vstd::string::*;

use crate::pattern::{regex_compiles, regex_replace_all, Pattern};
use crate::text::{lowercase, split_words, to_lowercase, whitespace_words};

verus! {

/// The characters removed from a query and from a video title before their
/// words are compared.
pub const SYMBOL_PATTERN: &'static str = r#"[\\~#%&*{}/:<>?|"-\.,]"#;

/// The words of `text` that a search compares: lower-cased, with the
/// characters of `SYMBOL_PATTERN` removed, split at white space.
pub open spec fn normalized_words(text: Seq<char>) -> Seq<Seq<char>> {
    whitespace_words(regex_replace_all(SYMBOL_PATTERN@, lowercase(text), ""@))
}

/// How many entries of `words` equal `w`.
pub open spec fn occurrences(words: Seq<Seq<char>>, w: Seq<char>) -> nat
    decreases words.len(),
{
    if words.len() == 0 {
        0
    } else {
        occurrences(words.drop_last(), w) + if words.last() == w { 1nat } else { 0nat }
    }
}

/// The number of pairs of a query word and an equal title word.
pub open spec fn shared_words(query: Seq<Seq<char>>, title: Seq<Seq<char>>) -> nat
    decreases query.len(),
{
    if query.len() == 0 {
        0
    } else {
        shared_words(query.drop_last(), title) + occurrences(title, query.last())
    }
}

/// The number of shared pairs a title needs: half the query words, and at
/// least one.
pub open spec fn required_matches(query_len: nat) -> nat {
    if query_len / 2 == 0 {
        1
    } else {
        query_len / 2
    }
}

/// Whether a title is taken as a match of the query.
pub open spec fn title_accepted(query: Seq<Seq<char>>, title: Seq<Seq<char>>) -> bool {
    shared_words(query, title) >= required_matches(query.len())
}

/// The link to the YouTube video with id `id`.
pub open spec fn video_url_text(id: Seq<char>) -> Seq<char> {
    "https://youtube.com/watch?v="@ + id
}

/// The request of the YouTube Data API that searches videos for `query`.
pub open spec fn search_url_text(query: Seq<char>, key: Seq<char>) -> Seq<char> {
    "https://www.googleapis.com/youtube/v3/search?part=snippet&maxResults=5&q="@ + query
        + "&type=video&key="@ + key
}

/// A search result reduced to what the choice reads: the words of its title,
/// when it has a title, and its video id, when it has one.
pub struct Candidate {
    pub title_words: Option<Vec<String>>,
    pub video_id: Option<String>,
}

/// A search result as the YouTube Data API returns it: the `snippet.title`
/// and `id.videoId` strings, where present.
pub struct SearchItem {
    pub title: Option<String>,
    pub video_id: Option<String>,
}

/// The spec value of a candidate.
pub open spec fn candidate_view(c: Candidate) -> (Option<Seq<Seq<char>>>, Option<Seq<char>>) {
    (c.title_words.deep_view(), c.video_id.deep_view())
}

/// The spec value of the candidate that a search result gives.
pub open spec fn item_view(item: SearchItem) -> (Option<Seq<Seq<char>>>, Option<Seq<char>>) {
    (
        match item.title {
            Some(t) => Some(normalized_words(t@)),
            None => None,
        },
        item.video_id.deep_view(),
    )
}

/// The video chosen for `query` among `cands`: the first candidate with a
/// title that is accepted decides; its link when it has an id, nothing when
/// it has none. No accepted title chooses nothing.
pub open spec fn chosen_video(
    query: Seq<Seq<char>>,
    cands: Seq<(Option<Seq<Seq<char>>>, Option<Seq<char>>)>,
) -> Option<Seq<char>>
    decreases cands.len(),
{
    if cands.len() == 0 {
        None
    } else if cands[0].0 matches Some(t) && title_accepted(query, t) {
        match cands[0].1 {
            Some(id) => Some(video_url_text(id)),
            None => None,
        }
    } else {
        chosen_video(query, cands.drop_first())
    }
}

proof fn lemma_occurrences_step(t: Seq<Seq<char>>, w: Seq<char>, j: int)
    requires
        0 <= j < t.len(),
    ensures
        occurrences(t.take(j + 1), w) == occurrences(t.take(j), w) + if t[j] == w {
            1nat
        } else {
            0nat
        },
{
    assert(t.take(j + 1).drop_last() =~= t.take(j));
}

proof fn lemma_occurrences_prefix(t: Seq<Seq<char>>, w: Seq<char>, j: int)
    requires
        0 <= j <= t.len(),
    ensures
        occurrences(t.take(j), w) <= occurrences(t, w),
    decreases t.len() - j,
{
    if j < t.len() {
        lemma_occurrences_step(t, w, j);
        lemma_occurrences_prefix(t, w, j + 1);
    } else {
        assert(t.take(j) =~= t);
    }
}

proof fn lemma_shared_step(q: Seq<Seq<char>>, t: Seq<Seq<char>>, i: int)
    requires
        0 <= i < q.len(),
    ensures
        shared_words(q.take(i + 1), t) == shared_words(q.take(i), t) + occurrences(t, q[i]),
{
    assert(q.take(i + 1).drop_last() =~= q.take(i));
}

proof fn lemma_shared_prefix(q: Seq<Seq<char>>, t: Seq<Seq<char>>, i: int)
    requires
        0 <= i <= q.len(),
    ensures
        shared_words(q.take(i), t) <= shared_words(q, t),
    decreases q.len() - i,
{
    if i < q.len() {
        lemma_shared_step(q, t, i);
        lemma_shared_prefix(q, t, i + 1);
    } else {
        assert(q.take(i) =~= q);
    }
}

/// Whether the title words `title` match the query words `query`: the pairs
/// of equal words are counted query word by query word, and the title is
/// accepted as soon as the count reaches half the number of query words
/// (and at least one pair).
pub fn title_matches(query: &Vec<String>, title: &Vec<String>) -> (res: bool)
    ensures
        res == title_accepted(query.deep_view(), title.deep_view()),
        res == (shared_words(query.deep_view(), title.deep_view()) >= 1 && shared_words(
            query.deep_view(),
            title.deep_view(),
        ) >= query.len() / 2),
{
    let ghost q = query.deep_view();
    let ghost t = title.deep_view();
    let needed = query.len() / 2;
    let mut count: usize = 0;
    let mut i: usize = 0;
    assert(q.take(0) =~= Seq::<Seq<char>>::empty());
    while i < query.len()
        invariant
            i <= query.len(),
            q == query.deep_view(),
            t == title.deep_view(),
            needed == query.len() / 2,
            count == shared_words(q.take(i as int), t),
            count < required_matches(q.len()),
        decreases query.len() - i,
    {
        let mut j: usize = 0;
        assert(t.take(0) =~= Seq::<Seq<char>>::empty());
        while j < title.len()
            invariant
                i < query.len(),
                j <= title.len(),
                q == query.deep_view(),
                t == title.deep_view(),
                needed == query.len() / 2,
                count == shared_words(q.take(i as int), t) + occurrences(
                    t.take(j as int),
                    q[i as int],
                ),
                count < required_matches(q.len()),
            decreases title.len() - j,
        {
            proof {
                lemma_occurrences_step(t, q[i as int], j as int);
            }
            if query[i] == title[j] {
                count = count + 1;
                if count >= needed {
                    proof {
                        lemma_occurrences_prefix(t, q[i as int], j + 1);
                        lemma_shared_step(q, t, i as int);
                        lemma_shared_prefix(q, t, i + 1);
                    }
                    return true;
                }
            }
            j = j + 1;
        }
        proof {
            assert(t.take(j as int) =~= t);
            lemma_shared_step(q, t, i as int);
        }
        i = i + 1;
    }
    proof {
        assert(q.take(i as int) =~= q);
    }
    false
}

/// The link to the YouTube video with id `id`.
pub fn video_url(id: &str) -> (res: String)
    ensures
        res@ == video_url_text(id@),
{
    let mut url = String::from_str("https://youtube.com/watch?v=");
    url.append(id);
    url
}

/// The YouTube Data API request that searches for up to five videos matching
/// `query`, authorised by `key`.
pub fn search_url(query: &str, key: &str) -> (res: String)
    ensures
        res@ == search_url_text(query@, key@),
{
    let mut url = String::from_str(
        "https://www.googleapis.com/youtube/v3/search?part=snippet&maxResults=5&q=",
    );
    url.append(query);
    url.append("&type=video&key=");
    url.append(key);
    url
}

/// The candidate views of `cands`.
pub open spec fn candidates_view(cands: Seq<Candidate>) -> Seq<
    (Option<Seq<Seq<char>>>, Option<Seq<char>>),
> {
    cands.map_values(|c: Candidate| candidate_view(c))
}

/// Chooses the video for the query words `query` among `cands`, in order:
/// the first candidate whose title matches decides, and gives the link to
/// its video, or nothing when it has no id.
pub fn select_video(query: &Vec<String>, cands: &Vec<Candidate>) -> (res: Option<String>)
    ensures
        res.deep_view() == chosen_video(query.deep_view(), candidates_view(cands@)),
{
    let ghost q = query.deep_view();
    let ghost all = candidates_view(cands@);
    let mut i: usize = 0;
    assert(all.skip(0) =~= all);
    while i < cands.len()
        invariant
            i <= cands.len(),
            q == query.deep_view(),
            all == candidates_view(cands@),
            chosen_video(q, all) == chosen_video(q, all.skip(i as int)),
        decreases cands.len() - i,
    {
        let ghost rest = all.skip(i as int);
        assert(rest[0] == candidate_view(cands@[i as int]));
        assert(rest.drop_first() =~= all.skip(i + 1));
        let c = &cands[i];
        match &c.title_words {
            Some(words) => {
                if title_matches(query, words) {
                    return match &c.video_id {
                        Some(id) => Some(video_url(id.as_str())),
                        None => None,
                    };
                }
            },
            None => {},
        }
        i = i + 1;
    }
    assert(all.skip(i as int) =~= Seq::<(Option<Seq<Seq<char>>>, Option<Seq<char>>)>::empty());
    None
}

/// The compiled pattern of the characters a search removes.
pub struct WordPattern {
    symbols: Pattern,
}

impl WordPattern {
    #[verifier::type_invariant]
    spec fn holds_symbol_pattern(self) -> bool {
        self.symbols@ == SYMBOL_PATTERN@
    }

    /// Compiles `SYMBOL_PATTERN`; `None` when the regex crate refuses it.
    pub fn new() -> (res: Option<WordPattern>)
        ensures
            res is Some <==> regex_compiles(SYMBOL_PATTERN@),
    {
        match Pattern::compile(SYMBOL_PATTERN) {
            Some(symbols) => Some(WordPattern { symbols }),
            None => None,
        }
    }

    /// The words of `text` that a search compares.
    pub fn search_words(&self, text: &str) -> (res: Vec<String>)
        ensures
            res.deep_view() == normalized_words(text@),
    {
        proof {
            use_type_invariant(self);
        }
        let lower = to_lowercase(text);
        let clean = self.symbols.replace_all(lower.as_str(), "");
        split_words(clean.as_str())
    }
}

/// The candidate views of the search results `items`.
pub open spec fn items_view(items: Seq<SearchItem>) -> Seq<
    (Option<Seq<Seq<char>>>, Option<Seq<char>>),
> {
    items.map_values(|it: SearchItem| item_view(it))
}

/// Chooses, among the results `items` of a YouTube search for `query`, the
/// video to play: titles and query are compared by their normalized words,
/// and the first result whose title matches decides.
pub fn pick_search_result(query: &str, items: &Vec<SearchItem>, words: &WordPattern) -> (res:
    Option<String>)
    ensures
        res.deep_view() == chosen_video(normalized_words(query@), items_view(items@)),
        forall|k: int|
            0 <= k < items@.len() && #[trigger] result_accepted(query@, items@[k]) && (forall|j: int|
                0 <= j < k ==> !result_accepted(query@, #[trigger] items@[j])) ==> res.deep_view()
                == result_link(items@[k]),
        (forall|k: int| 0 <= k < items@.len() ==> !result_accepted(query@, #[trigger] items@[k]))
            ==> res is None,
{
    proof {
        lemma_pick_first_accepted_result(query@, items@);
    }
    let query_words = words.search_words(query);
    let mut cands: Vec<Candidate> = Vec::new();
    let mut i: usize = 0;
    while i < items.len()
        invariant
            i <= items.len(),
            cands@.len() == i,
            forall|k: int|
                0 <= k < i ==> candidate_view(#[trigger] cands@[k]) == item_view(items@[k]),
        decreases items.len() - i,
    {
        let item = &items[i];
        let title_words = match &item.title {
            Some(t) => Some(words.search_words(t.as_str())),
            None => None,
        };
        let video_id = match &item.video_id {
            Some(id) => Some(id.clone()),
            None => None,
        };
        cands.push(Candidate { title_words, video_id });
        i = i + 1;
    }
    assert(candidates_view(cands@) =~= items_view(items@));
    select_video(&query_words, &cands)
}

/// Whether candidate `c` has a title accepted for `query`.
pub open spec fn accepted_candidate(
    query: Seq<Seq<char>>,
    c: (Option<Seq<Seq<char>>>, Option<Seq<char>>),
) -> bool {
    c.0 matches Some(t) && title_accepted(query, t)
}

/// A search only ever plays a video it returned: the chosen link is that of
/// the first result whose title is accepted, and that result has an id.
pub proof fn lemma_chosen_is_first_accepted(
    query: Seq<Seq<char>>,
    cands: Seq<(Option<Seq<Seq<char>>>, Option<Seq<char>>)>,
    url: Seq<char>,
)
    requires
        chosen_video(query, cands) == Some(url),
    ensures
        exists|i: int|
            0 <= i < cands.len() && accepted_candidate(query, #[trigger] cands[i]) && (
            cands[i].1 matches Some(id) && url == video_url_text(id)) && forall|j: int|
                0 <= j < i ==> !accepted_candidate(query, #[trigger] cands[j]),
    decreases cands.len(),
{
    if accepted_candidate(query, cands[0]) {
        assert(accepted_candidate(query, cands[0]));
    } else {
        lemma_chosen_is_first_accepted(query, cands.drop_first(), url);
        let i = choose|i: int|
            0 <= i < cands.drop_first().len() && accepted_candidate(
                query,
                #[trigger] cands.drop_first()[i],
            ) && (cands.drop_first()[i].1 matches Some(id) && url == video_url_text(id))
                && forall|j: int|
                0 <= j < i ==> !accepted_candidate(query, #[trigger] cands.drop_first()[j]);
        assert(cands[i + 1] == cands.drop_first()[i]);
        assert forall|j: int| 0 <= j < i + 1 implies !accepted_candidate(
            query,
            #[trigger] cands[j],
        ) by {
            if j > 0 {
                assert(cands[j] == cands.drop_first()[j - 1]);
            }
        }
    }
}

/// Without a result whose title is accepted, no video is chosen.
pub proof fn lemma_nothing_accepted(
    query: Seq<Seq<char>>,
    cands: Seq<(Option<Seq<Seq<char>>>, Option<Seq<char>>)>,
)
    requires
        forall|i: int| 0 <= i < cands.len() ==> !accepted_candidate(query, #[trigger] cands[i]),
    ensures
        chosen_video(query, cands) is None,
    decreases cands.len(),
{
    if cands.len() > 0 {
        assert(!accepted_candidate(query, cands[0]));
        assert forall|i: int| 0 <= i < cands.drop_first().len() implies !accepted_candidate(
            query,
            #[trigger] cands.drop_first()[i],
        ) by {
            assert(cands.drop_first()[i] == cands[i + 1]);
        }
        lemma_nothing_accepted(query, cands.drop_first());
    }
}

/// Whether the search result `item` has a title accepted for the typed
/// query `query`, comparing normalized words.
pub open spec fn result_accepted(query: Seq<char>, item: SearchItem) -> bool {
    match item.title {
        Some(t) => title_accepted(normalized_words(query), normalized_words(t@)),
        None => false,
    }
}

/// The link a search result gives: its video's link, or none without an id.
pub open spec fn result_link(item: SearchItem) -> Option<Seq<char>> {
    match item.video_id {
        Some(id) => Some(video_url_text(id@)),
        None => None,
    }
}

proof fn lemma_occurrences_push(t: Seq<Seq<char>>, w: Seq<char>, x: Seq<char>)
    ensures
        occurrences(t.push(w), x) == occurrences(t, x) + if w == x {
            1nat
        } else {
            0nat
        },
{
    assert(t.push(w).drop_last() =~= t);
}

/// A title is accepted exactly when it shares at least one word pair with
/// the query, and at least half as many pairs as the query has words.
pub proof fn lemma_acceptance_threshold(query: Seq<Seq<char>>, title: Seq<Seq<char>>)
    ensures
        title_accepted(query, title) <==> (shared_words(query, title) >= 1 && shared_words(
            query,
            title,
        ) >= query.len() / 2),
{
}

/// Only the shared pairs decide: two titles that share as many pairs with
/// the query are both accepted or both refused, whatever their lengths.
pub proof fn lemma_acceptance_ignores_title_length(
    query: Seq<Seq<char>>,
    t1: Seq<Seq<char>>,
    t2: Seq<Seq<char>>,
)
    requires
        shared_words(query, t1) == shared_words(query, t2),
    ensures
        title_accepted(query, t1) == title_accepted(query, t2),
{
}

/// A title word the query does not hold changes nothing: it adds no shared
/// pair, and acceptance stays as it was.
pub proof fn lemma_unrelated_title_word(query: Seq<Seq<char>>, title: Seq<Seq<char>>, w: Seq<char>)
    requires
        !query.contains(w),
    ensures
        shared_words(query, title.push(w)) == shared_words(query, title),
        title_accepted(query, title.push(w)) == title_accepted(query, title),
    decreases query.len(),
{
    if query.len() > 0 {
        assert(query.drop_last().contains(w) ==> query.contains(w)) by {
            if query.drop_last().contains(w) {
                let i = choose|i: int| 0 <= i < query.drop_last().len() && query.drop_last()[i] == w;
                assert(query[i] == w);
            }
        }
        lemma_unrelated_title_word(query.drop_last(), title, w);
        lemma_occurrences_push(title, w, query.last());
        assert(query.last() != w) by {
            assert(query[query.len() - 1] == query.last());
        }
    }
}

/// The first accepted candidate decides the choice: its link when it has an
/// id, nothing otherwise.
pub proof fn lemma_chosen_at_first_accepted(
    query: Seq<Seq<char>>,
    cands: Seq<(Option<Seq<Seq<char>>>, Option<Seq<char>>)>,
    k: int,
)
    requires
        0 <= k < cands.len(),
        accepted_candidate(query, cands[k]),
        forall|j: int| 0 <= j < k ==> !accepted_candidate(query, #[trigger] cands[j]),
    ensures
        chosen_video(query, cands) == match cands[k].1 {
            Some(id) => Some(video_url_text(id)),
            None => None,
        },
    decreases k,
{
    if k > 0 {
        assert(!accepted_candidate(query, cands[0]));
        assert forall|j: int| 0 <= j < k - 1 implies !accepted_candidate(
            query,
            #[trigger] cands.drop_first()[j],
        ) by {
            assert(cands.drop_first()[j] == cands[j + 1]);
        }
        assert(cands.drop_first()[k - 1] == cands[k]);
        lemma_chosen_at_first_accepted(query, cands.drop_first(), k - 1);
    }
}

/// The search plays the results in the order the API gave them: the link
/// chosen is that of the lowest-index result whose title is accepted (none
/// when that result has no id), and nothing when no title is accepted.
pub proof fn lemma_pick_first_accepted_result(query: Seq<char>, items: Seq<SearchItem>)
    ensures
        forall|k: int|
            0 <= k < items.len() && #[trigger] result_accepted(query, items[k]) && (forall|j: int|
                0 <= j < k ==> !result_accepted(query, #[trigger] items[j])) ==> chosen_video(
                normalized_words(query),
                items_view(items),
            ) == result_link(items[k]),
        (forall|k: int| 0 <= k < items.len() ==> !result_accepted(query, #[trigger] items[k]))
            ==> chosen_video(normalized_words(query), items_view(items)) is None,
{
    let q = normalized_words(query);
    let c = items_view(items);
    assert(c.len() == items.len());
    assert forall|k: int| 0 <= k < items.len() implies (accepted_candidate(q, #[trigger] c[k])
        == result_accepted(query, items[k]) && c[k].1 == items[k].video_id.deep_view()) by {
        assert(c[k] == item_view(items[k]));
    }
    assert forall|k: int|
        0 <= k < items.len() && #[trigger] result_accepted(query, items[k]) && (forall|j: int|
            0 <= j < k ==> !result_accepted(query, #[trigger] items[j])) implies chosen_video(
        q,
        c,
    ) == result_link(items[k]) by {
        assert forall|j: int| 0 <= j < k implies !accepted_candidate(q, #[trigger] c[j]) by {
            assert(!result_accepted(query, items[j]));
        }
        assert(accepted_candidate(q, c[k]));
        lemma_chosen_at_first_accepted(q, c, k);
    }
    if forall|k: int| 0 <= k < items.len() ==> !result_accepted(query, #[trigger] items[k]) {
        assert forall|k: int| 0 <= k < c.len() implies !accepted_candidate(q, #[trigger] c[k]) by {
            assert(!result_accepted(query, items[k]));
        }
        lemma_nothing_accepted(q, c);
    }
}

/// Counting pairs: no words share nothing, one more title word adds one
/// pair for each equal query word, and the pairs of a query are those of
/// its words together.
pub proof fn lemma_shared_words_count(
    q1: Seq<Seq<char>>,
    q2: Seq<Seq<char>>,
    t: Seq<Seq<char>>,
    w: Seq<char>,
    x: Seq<char>,
)
    ensures
        occurrences(Seq::<Seq<char>>::empty(), x) == 0,
        occurrences(t.push(w), x) == occurrences(t, x) + if w == x {
            1nat
        } else {
            0nat
        },
        shared_words(Seq::<Seq<char>>::empty(), t) == 0,
        shared_words(seq![w], t) == occurrences(t, w),
        shared_words(q1 + q2, t) == shared_words(q1, t) + shared_words(q2, t),
    decreases q2.len(),
{
    lemma_occurrences_push(t, w, x);
    assert(seq![w].drop_last() =~= Seq::<Seq<char>>::empty());
    if q2.len() == 0 {
        assert(q1 + q2 =~= q1);
    } else {
        assert((q1 + q2).drop_last() =~= q1 + q2.drop_last());
        lemma_shared_words_count(q1, q2.drop_last(), t, w, x);
    }
}

} // verus!
