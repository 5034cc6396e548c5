//! The aggregator: elect a canonical identity from the per-source result
//! sets in priority order (Steam, then Nuuvem), search every source for that
//! name case-insensitively, and assemble the per-source comparison that the
//! caller renders.

use vstd::prelude::*;
use vstd::string::StringExecFns;
use crate::record::{clone_game, source_title, GameOpt, GameView, GamesVec, Source};
use crate::text::{lower_of, lowercase};

verus! {

/// The first record whose name equals `text` up to case, in document order.
pub open spec fn first_match(games: Seq<GameView>, text: Seq<char>) -> Option<GameView>
    decreases games.len(),
{
    if games.len() == 0 {
        None
    } else if lower_of(games[0].name) == lower_of(text) {
        Some(games[0])
    } else {
        first_match(games.drop_first(), text)
    }
}

/// Search one source's result set for a name: the first record matching
/// case-insensitively wins; none is a displayable "not found", not an error.
pub fn search_in(games_searched: &GamesVec, text: &str) -> (r: GameOpt)
    ensures
        r@ == first_match(games_searched@, text@),
{
    let target = lowercase(text);
    let n = games_searched.games.len();
    proof {
        assert(games_searched@.skip(0) =~= games_searched@);
    }
    let mut i: usize = 0;
    while i < n
        invariant
            i <= n,
            n == games_searched.games@.len(),
            target@ == lower_of(text@),
            first_match(games_searched@, text@) == first_match(
                games_searched@.skip(i as int),
                text@,
            ),
        decreases n - i,
    {
        let g = &games_searched.games[i];
        let lname = lowercase(g.name.as_str());
        proof {
            assert(games_searched@.skip(i as int)[0] == games_searched@[i as int]);
            assert(games_searched@.skip(i as int).drop_first() =~= games_searched@.skip(i + 1));
        }
        if lname == target {
            return GameOpt { game: Some(clone_game(g)) };
        }
        i += 1;
    }
    proof {
        assert(games_searched@.skip(n as int) =~= Seq::<GameView>::empty());
    }
    GameOpt { game: None }
}

/// A transport failure fetching one source. It degrades that source's
/// contribution to an empty result set and never aborts the comparison.
#[derive(Debug)]
pub struct NetworkError {
    pub message: String,
}

impl View for NetworkError {
    type V = Seq<char>;

    open spec fn view(&self) -> Seq<char> {
        self.message@
    }
}

/// The outcome of searching one source for the canonical name.
#[derive(Debug)]
pub struct MatchResult {
    pub source: Source,
    pub record: GameOpt,
}

/// The mathematical shape of a [`MatchResult`].
pub struct MatchResultView {
    pub source: Source,
    pub record: Option<GameView>,
}

impl View for MatchResult {
    type V = MatchResultView;

    open spec fn view(&self) -> MatchResultView {
        MatchResultView { source: self.source, record: self.record@ }
    }
}

/// The final artifact of one query: the canonical identity and one
/// [`MatchResult`] per active source, in presentation order.
#[derive(Debug)]
pub struct ComparisonResult {
    pub canonical_name: String,
    pub img_url: String,
    pub per_source: Vec<MatchResult>,
}

/// The mathematical shape of a [`ComparisonResult`].
pub struct ComparisonView {
    pub canonical_name: Seq<char>,
    pub img_url: Seq<char>,
    pub per_source: Seq<MatchResultView>,
}

impl View for ComparisonResult {
    type V = ComparisonView;

    open spec fn view(&self) -> ComparisonView {
        ComparisonView {
            canonical_name: self.canonical_name@,
            img_url: self.img_url@,
            per_source: Seq::new(self.per_source@.len(), |i: int| self.per_source@[i]@),
        }
    }
}

/// What one source contributes to the comparison: its result set where the
/// fetch succeeded, nothing where it failed.
pub open spec fn outcome_games(o: Result<GamesVec, NetworkError>) -> Seq<GameView> {
    match o {
        Ok(v) => v@,
        Err(_) => Seq::empty(),
    }
}

/// The canonical display name: the first record's name of the
/// highest-priority source with a non-empty result set, or the raw query
/// where every set is empty.
pub open spec fn canonical_name_of(
    query: Seq<char>,
    steam: Seq<GameView>,
    nuuvem: Seq<GameView>,
) -> Seq<char> {
    if steam.len() > 0 {
        steam[0].name
    } else if nuuvem.len() > 0 {
        nuuvem[0].name
    } else {
        query
    }
}

/// The canonical image, elected alongside the canonical name; empty where
/// every result set is empty.
pub open spec fn canonical_img_of(steam: Seq<GameView>, nuuvem: Seq<GameView>) -> Seq<char> {
    if steam.len() > 0 {
        steam[0].img_url
    } else if nuuvem.len() > 0 {
        nuuvem[0].img_url
    } else {
        Seq::empty()
    }
}

/// The whole comparison: canonical identity, then one case-insensitive
/// search per active source, listed Steam first, then Nuuvem.
pub open spec fn compare_spec(
    query: Seq<char>,
    steam: Seq<GameView>,
    nuuvem: Seq<GameView>,
) -> ComparisonView {
    let cname = canonical_name_of(query, steam, nuuvem);
    ComparisonView {
        canonical_name: cname,
        img_url: canonical_img_of(steam, nuuvem),
        per_source: seq![
            MatchResultView { source: Source::Steam, record: first_match(steam, cname) },
            MatchResultView { source: Source::Nuuvem, record: first_match(nuuvem, cname) },
        ],
    }
}

/// Reconcile the per-source outcomes of one query into the comparison the
/// caller renders. A failed fetch degrades its source to an empty set; the
/// comparison itself always comes back whole, with every active source
/// listed, found or not.
pub fn compare(
    query: &str,
    steam: Result<GamesVec, NetworkError>,
    nuuvem: Result<GamesVec, NetworkError>,
) -> (r: ComparisonResult)
    ensures
        r@ == compare_spec(query@, outcome_games(steam), outcome_games(nuuvem)),
{
    let ghost s = outcome_games(steam);
    let ghost nv = outcome_games(nuuvem);
    let steam_set = match steam {
        Ok(v) => v,
        Err(_) => GamesVec { games: Vec::new() },
    };
    let nuuvem_set = match nuuvem {
        Ok(v) => v,
        Err(_) => GamesVec { games: Vec::new() },
    };
    proof {
        assert(steam_set@ =~= s);
        assert(nuuvem_set@ =~= nv);
    }
    let (canonical_name, img_url) = if !steam_set.games.is_empty() {
        (steam_set.games[0].name.clone(), steam_set.games[0].img_url.clone())
    } else if !nuuvem_set.games.is_empty() {
        (nuuvem_set.games[0].name.clone(), nuuvem_set.games[0].img_url.clone())
    } else {
        (String::from_str(query), String::new())
    };
    let steam_found = search_in(&steam_set, canonical_name.as_str());
    let nuuvem_found = search_in(&nuuvem_set, canonical_name.as_str());
    let mut per_source: Vec<MatchResult> = Vec::new();
    per_source.push(MatchResult { source: Source::Steam, record: steam_found });
    per_source.push(MatchResult { source: Source::Nuuvem, record: nuuvem_found });
    let r = ComparisonResult { canonical_name, img_url, per_source };
    proof {
        assert(r@.per_source =~= compare_spec(query@, s, nv).per_source);
        assert(r@ == compare_spec(query@, s, nv));
    }
    r
}

/// When every source's fetch has failed, the comparison still comes back
/// whole: it lists every active source as "not found", and falls back to the
/// raw query as canonical name with an empty image. No input makes it an
/// error.
pub proof fn lemma_all_sources_failed(
    query: Seq<char>,
    steam: NetworkError,
    nuuvem: NetworkError,
)
    ensures
        ({
            let r = compare_spec(
                query,
                outcome_games(Err(steam)),
                outcome_games(Err(nuuvem)),
            );
            &&& r.canonical_name == query
            &&& r.img_url == Seq::<char>::empty()
            &&& r.per_source.len() == 2
            &&& forall|i: int|
                0 <= i < r.per_source.len() ==> (#[trigger] r.per_source[i]).record is None
        }),
{
    let r = compare_spec(query, outcome_games(Err(steam)), outcome_games(Err(nuuvem)));
    assert(r.per_source[0].record is None);
    assert(r.per_source[1].record is None);
}

/// Every comparison lists every active source exactly once, in fixed order,
/// whatever each source's outcome was: a slow or failed source still ends up
/// represented, never silently omitted.
pub proof fn lemma_every_source_represented(
    query: Seq<char>,
    steam: Seq<GameView>,
    nuuvem: Seq<GameView>,
)
    ensures
        ({
            let ps = compare_spec(query, steam, nuuvem).per_source;
            &&& ps.len() == 2
            &&& ps[0].source == Source::Steam
            &&& ps[1].source == Source::Nuuvem
        }),
{
}

/// Lexicographically strictly smaller, character by character.
pub open spec fn lex_lt(a: Seq<char>, b: Seq<char>) -> bool
    decreases a.len(),
{
    b.len() > 0 && (a.len() == 0 || (a[0] as u32) < (b[0] as u32) || (a[0] == b[0] && lex_lt(
        a.drop_first(),
        b.drop_first(),
    )))
}

/// The per-source listing of every comparison is strictly descending in the
/// lexicographic order of the source display names.
pub proof fn lemma_per_source_order(query: Seq<char>, steam: Seq<GameView>, nuuvem: Seq<GameView>)
    ensures
        ({
            let ps = compare_spec(query, steam, nuuvem).per_source;
            forall|i: int, j: int|
                0 <= i < j < ps.len() ==> lex_lt(
                    source_title(ps[j].source),
                    source_title(ps[i].source),
                )
        }),
{
    reveal_strlit("Steam");
    reveal_strlit("Nuuvem");
    let ps = compare_spec(query, steam, nuuvem).per_source;
    assert(ps.len() == 2);
    assert(ps[0].source == Source::Steam);
    assert(ps[1].source == Source::Nuuvem);
    assert(("Nuuvem"@)[0] == 'N' && ("Steam"@)[0] == 'S');
    assert(('N' as u32) < ('S' as u32));
    assert(lex_lt("Nuuvem"@, "Steam"@));
    assert forall|i: int, j: int| 0 <= i < j < ps.len() implies lex_lt(
        source_title(ps[j].source),
        source_title(ps[i].source),
    ) by {
        assert(i == 0 && j == 1);
    }
}

} // verus!
