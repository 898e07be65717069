//! Episodic memory: a bounded store of execution reports, recalled by how many of a query's
//! entities their outputs mention.
use vstd::prelude::*;

use crate::text::{
    contains_text, decimal, has_substring, join, join_texts, lowercase, owned, texts,
    to_lowercase, u64_text,
};
use crate::types::{ExecutionReport, ExecutionReportView, Facts, MemoryContext, StepResult, WeightedPassage};

verus! {

/// The most episodes the store keeps; the oldest is evicted to make room.
pub const MAX_EPISODES: usize = 256;

/// The most passages a recall returns.
pub const RETRIEVE_TOP_K: usize = 5;

/// The output texts of an episode, joined by single spaces.
pub open spec fn episode_text(episode: ExecutionReportView) -> Seq<char> {
    join(episode.results.map_values(|r: StepResult| r.output@), " "@)
}

/// Whether an episode mentions `entity`, comparing lower-cased texts.
pub open spec fn mentions(episode: ExecutionReportView, entity: Seq<char>) -> bool {
    has_substring(lowercase(episode_text(episode)), lowercase(entity))
}

/// How many of `entities` an episode mentions.
pub open spec fn match_count(episode: ExecutionReportView, entities: Seq<Seq<char>>) -> nat
    decreases entities.len(),
{
    if entities.len() == 0 {
        0
    } else {
        match_count(episode, entities.drop_last()) + if mentions(episode, entities.last()) {
            1nat
        } else {
            0nat
        }
    }
}

/// Episode `a` ranks before episode `b`: it matches more entities, or as many and is older.
pub open spec fn ranks_before(scores: Seq<nat>, a: int, b: int) -> bool {
    scores[a] > scores[b] || (scores[a] == scores[b] && a < b)
}

/// `picked` lists the best-ranked episodes with at least one match, best first: at most
/// `RETRIEVE_TOP_K` of them, all of them if there are fewer, and every matching episode left
/// out ranks after every one picked.
pub open spec fn is_top_ranking(scores: Seq<nat>, picked: Seq<usize>) -> bool {
    &&& picked.len() <= RETRIEVE_TOP_K
    &&& forall|k: int| 0 <= k < picked.len() ==> #[trigger] picked[k] < scores.len() && scores[picked[k] as int] > 0
    &&& forall|a: int, b: int|
        0 <= a < b < picked.len() ==> ranks_before(scores, #[trigger] picked[a] as int, #[trigger] picked[b] as int)
    &&& forall|i: int|
        0 <= i < scores.len() && scores[i] > 0 && !picked.contains(i as usize) ==> {
            &&& picked.len() == RETRIEVE_TOP_K
            &&& forall|k: int| 0 <= k < picked.len() ==> ranks_before(scores, #[trigger] picked[k] as int, i)
        }
}

/// The summary line of a recall that found `count` passages for `entities`.
pub open spec fn summary_line(count: nat, entities: Seq<Seq<char>>) -> Seq<char> {
    "Retrieved "@ + decimal(count) + " relevant episode(s) matching entities: "@ + join(
        entities,
        ", "@,
    )
}

/// Keeps the most recent execution reports.
pub struct InMemoryStore {
    episodes: std::collections::VecDeque<ExecutionReport>,
}

impl InMemoryStore {
    /// The stored episodes, oldest first.
    pub closed spec fn episodes(&self) -> Seq<ExecutionReportView> {
        self.episodes@.map_values(|r: ExecutionReport| r@)
    }

    /// How many entities each stored episode matches.
    pub open spec fn scores(&self, entities: Seq<Seq<char>>) -> Seq<nat> {
        self.episodes().map_values(|e: ExecutionReportView| match_count(e, entities))
    }

    /// An empty store.
    pub fn new() -> (res: InMemoryStore)
        ensures
            res.episodes().len() == 0,
    {
        InMemoryStore { episodes: std::collections::VecDeque::new() }
    }

    /// How many episodes are stored.
    pub fn len(&self) -> (res: usize)
        ensures
            res == self.episodes().len(),
    {
        self.episodes.len()
    }

    /// Stores `report` as the newest episode, evicting the oldest when the store is full.
    pub fn persist(&mut self, report: &ExecutionReport)
        ensures
            final(self).episodes() == (if old(self).episodes().len() >= MAX_EPISODES {
                old(self).episodes().drop_first()
            } else {
                old(self).episodes()
            }).push(report@),
    {
        let ghost before = self.episodes@;
        if self.episodes.len() >= MAX_EPISODES {
            let _ = self.episodes.pop_front();
            assert(self.episodes@.map_values(|r: ExecutionReport| r@) =~= before.map_values(
                |r: ExecutionReport| r@,
            ).drop_first());
        }
        let ghost kept = self.episodes@;
        let copy = report.clone();
        self.episodes.push_back(copy);
        assert(self.episodes@.map_values(|r: ExecutionReport| r@) =~= kept.map_values(
            |r: ExecutionReport| r@,
        ).push(report@));
    }

    /// The passages for the episodes that best match `facts`'s entities, best first, and a
    /// summary line when there is any.
    pub fn retrieve(&self, facts: &Facts) -> (res: MemoryContext)
        ensures
            ({
                let entities = texts(facts.entities@);
                let scores = self.scores(entities);
                let passages = res.weighted_passages@;
                &&& res.relevant_episodes@.len() == 0
                &&& is_top_ranking(scores, passages.map_values(|p: WeightedPassage| p.source_episode_index))
                &&& forall|k: int| 0 <= k < passages.len() ==> {
                    let p = #[trigger] passages[k];
                    &&& p.content@ == episode_text(self.episodes()[p.source_episode_index as int])
                    &&& p.matched_entities == scores[p.source_episode_index as int]
                    &&& p.query_entities == facts.entities@.len()
                }
                &&& passages.len() == 0 ==> res.summary is None
                &&& passages.len() > 0 ==> (res.summary matches Some(s) && s@ == summary_line(
                    passages.len() as nat,
                    entities,
                ))
            }),
    {
        let ghost entities = texts(facts.entities@);
        let ghost scores = self.scores(entities);
        let n = self.episodes.len();
        let mut lowered: Vec<String> = Vec::new();
        let mut e: usize = 0;
        while e < facts.entities.len()
            invariant
                e <= facts.entities.len(),
                lowered@.len() == e,
                forall|j: int| 0 <= j < e ==> (#[trigger] lowered@[j])@ == lowercase(facts.entities@[j]@),
            decreases facts.entities.len() - e,
        {
            lowered.push(to_lowercase(facts.entities[e].as_str()));
            e = e + 1;
        }
        let mut counts: Vec<usize> = Vec::new();
        let mut contents: Vec<String> = Vec::new();
        let mut i: usize = 0;
        while i < n
            invariant
                i <= n,
                n == self.episodes().len(),
                entities == texts(facts.entities@),
                scores == self.scores(entities),
                lowered@.len() == facts.entities@.len(),
                forall|j: int| 0 <= j < lowered@.len() ==> (#[trigger] lowered@[j])@ == lowercase(facts.entities@[j]@),
                counts@.len() == i,
                contents@.len() == i,
                forall|j: int| 0 <= j < i ==> #[trigger] counts@[j] == scores[j],
                forall|j: int| 0 <= j < i ==> (#[trigger] contents@[j])@ == episode_text(self.episodes()[j]),
            decreases n - i,
        {
            let text = episode_text_of(&self.episodes[i]);
            let haystack = to_lowercase(text.as_str());
            let ghost episode = self.episodes()[i as int];
            assert(episode == self.episodes@[i as int]@);
            let mut count: usize = 0;
            let mut j: usize = 0;
            while j < lowered.len()
                invariant
                    j <= lowered.len(),
                    lowered@.len() == facts.entities@.len(),
                    forall|k: int| 0 <= k < lowered@.len() ==> (#[trigger] lowered@[k])@ == lowercase(facts.entities@[k]@),
                    haystack@ == lowercase(episode_text(episode)),
                    count == match_count(episode, texts(facts.entities@.subrange(0, j as int))),
                    count <= j,
                decreases lowered.len() - j,
            {
                let ghost prefix = facts.entities@.subrange(0, j + 1);
                assert(texts(prefix).drop_last() =~= texts(facts.entities@.subrange(0, j as int)));
                assert(texts(prefix).last() == facts.entities@[j as int]@);
                if contains_text(haystack.as_str(), lowered[j].as_str()) {
                    count = count + 1;
                }
                j = j + 1;
            }
            assert(facts.entities@.subrange(0, lowered@.len() as int) =~= facts.entities@);
            assert(scores[i as int] == match_count(episode, entities));
            counts.push(count);
            contents.push(text);
            i = i + 1;
        }
        let picked = top_ranked(&counts);
        proof {
            assert(counts@.map_values(|c: usize| c as nat) =~= scores);
        }
        let mut passages: Vec<WeightedPassage> = Vec::new();
        let mut k: usize = 0;
        while k < picked.len()
            invariant
                k <= picked.len(),
                counts@.len() == n,
                contents@.len() == n,
                is_top_ranking(counts@.map_values(|c: usize| c as nat), picked@),
                passages@.len() == k,
                forall|j: int| 0 <= j < k ==> (#[trigger] passages@[j]).source_episode_index == picked@[j],
                forall|j: int| 0 <= j < k ==> {
                    let p = #[trigger] passages@[j];
                    &&& p.content@ == contents@[p.source_episode_index as int]@
                    &&& p.matched_entities == counts@[p.source_episode_index as int]
                    &&& p.query_entities == facts.entities@.len()
                },
            decreases picked.len() - k,
        {
            let idx = picked[k];
            assert(picked@[k as int] < counts@.map_values(|c: usize| c as nat).len());
            passages.push(
                WeightedPassage {
                    content: contents[idx].clone(),
                    source_episode_index: idx,
                    matched_entities: counts[idx],
                    query_entities: facts.entities.len(),
                },
            );
            k = k + 1;
        }
        proof {
            assert(passages@.map_values(|p: WeightedPassage| p.source_episode_index) =~= picked@);
        }
        let summary = if passages.len() == 0 {
            None
        } else {
            let mut line = owned("Retrieved ");
            let count = u64_text(passages.len() as u64);
            line.append(count.as_str());
            line.append(" relevant episode(s) matching entities: ");
            let names = join_texts(&facts.entities, ", ");
            line.append(names.as_str());
            Some(line)
        };
        MemoryContext { relevant_episodes: Vec::new(), summary, weighted_passages: passages }
    }
}

impl Default for InMemoryStore {
    fn default() -> (res: InMemoryStore)
        ensures
            res.episodes().len() == 0,
    {
        InMemoryStore::new()
    }
}

/// The output texts of `episode`, joined by single spaces.
fn episode_text_of(episode: &ExecutionReport) -> (res: String)
    ensures
        res@ == episode_text(episode@),
{
    let mut outputs: Vec<String> = Vec::new();
    let mut i: usize = 0;
    while i < episode.results.len()
        invariant
            i <= episode.results.len(),
            texts(outputs@) == episode.results@.subrange(0, i as int).map_values(|r: StepResult| r.output@),
        decreases episode.results.len() - i,
    {
        let ghost prev = outputs@;
        outputs.push(episode.results[i].output.clone());
        assert(texts(outputs@) =~= texts(prev).push(episode.results@[i as int].output@));
        assert(episode.results@.subrange(0, i + 1).map_values(|r: StepResult| r.output@)
            =~= episode.results@.subrange(0, i as int).map_values(|r: StepResult| r.output@).push(
            episode.results@[i as int].output@,
        ));
        i = i + 1;
        assert(texts(outputs@) =~= episode.results@.subrange(0, i as int).map_values(|r: StepResult| r.output@));
    }
    assert(episode.results@.subrange(0, episode.results@.len() as int) =~= episode.results@);
    join_texts(&outputs, " ")
}

/// Whether `index` occurs in `picked`.
fn picked_already(picked: &Vec<usize>, index: usize) -> (res: bool)
    ensures
        res == picked@.contains(index),
{
    let mut i: usize = 0;
    while i < picked.len()
        invariant
            i <= picked.len(),
            forall|j: int| 0 <= j < i ==> picked@[j] != index,
        decreases picked.len() - i,
    {
        if picked[i] == index {
            return true;
        }
        i = i + 1;
    }
    false
}

/// The best-ranked indices with a positive count, best first: at most `RETRIEVE_TOP_K` of
/// them.
pub fn top_ranked(counts: &Vec<usize>) -> (picked: Vec<usize>)
    ensures
        is_top_ranking(counts@.map_values(|c: usize| c as nat), picked@),
{
    let ghost scores = counts@.map_values(|c: usize| c as nat);
    let n = counts.len();
    let mut picked: Vec<usize> = Vec::new();
    while picked.len() < RETRIEVE_TOP_K
        invariant
            n == counts.len(),
            scores == counts@.map_values(|c: usize| c as nat),
            picked.len() <= RETRIEVE_TOP_K,
            forall|k: int| 0 <= k < picked.len() ==> #[trigger] picked@[k] < scores.len() && scores[picked@[k] as int] > 0,
            forall|a: int, b: int|
                0 <= a < b < picked.len() ==> ranks_before(scores, #[trigger] picked@[a] as int, #[trigger] picked@[b] as int),
            forall|i: int|
                0 <= i < scores.len() && scores[i] > 0 && !picked@.contains(i as usize) ==>
                    forall|k: int| 0 <= k < picked.len() ==> ranks_before(scores, #[trigger] picked@[k] as int, i),
        ensures
            is_top_ranking(scores, picked@),
        decreases RETRIEVE_TOP_K - picked.len(),
    {
        let mut best: Option<usize> = None;
        let mut i: usize = 0;
        while i < n
            invariant
                i <= n,
                n == counts.len(),
                scores == counts@.map_values(|c: usize| c as nat),
                match best {
                    Some(b) => b < i && scores[b as int] > 0 && !picked@.contains(b) && forall|j: int|
                        0 <= j < i && scores[j] > 0 && !picked@.contains(j as usize) && j != b ==> ranks_before(scores, b as int, j),
                    None => forall|j: int| 0 <= j < i ==> scores[j] == 0 || picked@.contains(j as usize),
                },
            decreases n - i,
        {
            assert(scores[i as int] == counts@[i as int] as nat);
            if let Some(b) = best {
                assert(scores[b as int] == counts@[b as int] as nat);
            }
            let ghost old_best = best;
            let candidate = counts[i] > 0 && !picked_already(&picked, i);
            if candidate {
                match best {
                    Some(b) => {
                        if counts[i] > counts[b] {
                            best = Some(i);
                        }
                    },
                    None => {
                        best = Some(i);
                    },
                }
            }
            proof {
                if let Some(nb) = best {
                    assert forall|j: int|
                        0 <= j < i + 1 && scores[j] > 0 && !picked@.contains(j as usize) && j != nb
                            implies ranks_before(scores, nb as int, j) by {
                        match old_best {
                            Some(ob) => {
                                if j == i {
                                    assert(nb == ob);
                                } else if nb != ob {
                                    if j != ob {
                                        assert(ranks_before(scores, ob as int, j));
                                    }
                                }
                            },
                            None => {},
                        }
                    }
                }
            }
            i = i + 1;
        }
        match best {
            Some(b) => {
                let ghost before = picked@;
                picked.push(b);
                proof {
                    assert forall|a: int, c: int| 0 <= a < c < picked.len() implies ranks_before(
                        scores,
                        #[trigger] picked@[a] as int,
                        #[trigger] picked@[c] as int,
                    ) by {
                        if c == picked.len() - 1 {
                            assert(picked@[c] == b);
                            assert(picked@[a] == before[a]);
                        } else {
                            assert(picked@[a] == before[a]);
                            assert(picked@[c] == before[c]);
                        }
                    }
                    assert forall|j: int|
                        0 <= j < scores.len() && scores[j] > 0 && !picked@.contains(j as usize) implies
                        forall|k: int| 0 <= k < picked.len() ==> ranks_before(scores, #[trigger] picked@[k] as int, j) by {
                        assert(!before.contains(j as usize)) by {
                            if before.contains(j as usize) {
                                let w = choose|w: int| 0 <= w < before.len() && before[w] == j as usize;
                                assert(picked@[w] == j as usize);
                            }
                        }
                        assert(picked@[picked.len() - 1] == b);
                        assert(j != b);
                        assert forall|k: int| 0 <= k < picked.len() implies ranks_before(scores, #[trigger] picked@[k] as int, j) by {
                            if k < before.len() {
                                assert(picked@[k] == before[k]);
                            }
                        }
                    }
                    assert forall|k: int| 0 <= k < picked.len() implies #[trigger] picked@[k] < scores.len() && scores[picked@[k] as int] > 0 by {
                        if k < before.len() {
                            assert(picked@[k] == before[k]);
                        }
                    }
                }
            },
            None => {
                proof {
                    assert forall|j: int| 0 <= j < scores.len() && scores[j] > 0 && !picked@.contains(j as usize) implies
                        false by {
                    }
                }
                break;
            },
        }
    }
    picked
}

/// The store never holds more than `MAX_EPISODES` episodes: persisting into a store within
/// capacity leaves it within capacity, one episode longer unless it was full.
pub proof fn lemma_persist_respects_capacity(before: Seq<ExecutionReportView>, report: ExecutionReportView)
    requires
        before.len() <= MAX_EPISODES,
    ensures
        ({
            let after = (if before.len() >= MAX_EPISODES {
                before.drop_first()
            } else {
                before
            }).push(report);
            &&& after.len() <= MAX_EPISODES
            &&& after.len() == if before.len() < MAX_EPISODES { before.len() + 1 } else { before.len() }
            &&& after.last() == report
        }),
{
}

/// Matching ignores the case of the entity: two entities with the same lower-case form are
/// mentioned by the same episodes.
pub proof fn lemma_entity_case_is_ignored(episode: ExecutionReportView, a: Seq<char>, b: Seq<char>)
    requires
        lowercase(a) == lowercase(b),
    ensures
        mentions(episode, a) == mentions(episode, b),
{
}

/// Matching ignores the case of the outputs: two episodes whose output texts have the same
/// lower-case form mention the same entities.
pub proof fn lemma_output_case_is_ignored(first: ExecutionReportView, second: ExecutionReportView, entity: Seq<char>)
    requires
        lowercase(episode_text(first)) == lowercase(episode_text(second)),
    ensures
        mentions(first, entity) == mentions(second, entity),
{
}

/// An episode's score does not change when each query entity is replaced by one with the same
/// lower-case form.
pub proof fn lemma_score_ignores_entity_case(
    episode: ExecutionReportView,
    entities: Seq<Seq<char>>,
    others: Seq<Seq<char>>,
)
    requires
        entities.len() == others.len(),
        forall|i: int| 0 <= i < entities.len() ==> lowercase(#[trigger] entities[i]) == lowercase(others[i]),
    ensures
        match_count(episode, entities) == match_count(episode, others),
    decreases entities.len(),
{
    if entities.len() > 0 {
        let (e, o) = (entities.drop_last(), others.drop_last());
        assert forall|i: int| 0 <= i < e.len() implies lowercase(#[trigger] e[i]) == lowercase(o[i]) by {
            assert(e[i] == entities[i]);
            assert(o[i] == others[i]);
        }
        lemma_score_ignores_entity_case(episode, e, o);
        assert(lowercase(entities.last()) == lowercase(others.last())) by {
            assert(entities.last() == entities[entities.len() - 1]);
        }
        lemma_entity_case_is_ignored(episode, entities.last(), others.last());
    }
}

/// An episode's score counts the query entities it mentions: it is never more than their
/// number, and every entity it mentions adds one.
pub proof fn lemma_score_counts_mentions(episode: ExecutionReportView, entities: Seq<Seq<char>>)
    ensures
        match_count(episode, entities) <= entities.len(),
        (forall|i: int| 0 <= i < entities.len() ==> mentions(episode, #[trigger] entities[i]))
            ==> match_count(episode, entities) == entities.len(),
        (forall|i: int| 0 <= i < entities.len() ==> !mentions(episode, #[trigger] entities[i]))
            ==> match_count(episode, entities) == 0,
    decreases entities.len(),
{
    if entities.len() > 0 {
        let e = entities.drop_last();
        lemma_score_counts_mentions(episode, e);
        assert(entities.last() == entities[entities.len() - 1]);
        if forall|i: int| 0 <= i < entities.len() ==> mentions(episode, #[trigger] entities[i]) {
            assert forall|i: int| 0 <= i < e.len() implies mentions(episode, #[trigger] e[i]) by {
                assert(e[i] == entities[i]);
            }
        }
        if forall|i: int| 0 <= i < entities.len() ==> !mentions(episode, #[trigger] entities[i]) {
            assert forall|i: int| 0 <= i < e.len() implies !mentions(episode, #[trigger] e[i]) by {
                assert(e[i] == entities[i]);
            }
        }
    }
}

} // verus!
