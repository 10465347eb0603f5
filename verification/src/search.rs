//! The search engine: strategy-parameterized constraints, evaluation of the
//! candidates a traversal yielded, ranking by score, capping, and the engine's
//! error taxonomy. Traversal itself is I/O and is the caller's business; the
//! engine consumes its outcome and pins down exactly what it returns.

use vstd::prelude::*;
use vstd::string::StringExecFns;
use crate::file_system::FileInfo;
use crate::text::{dec_str, u64_to_string};
use crate::matching::{
    evaluate, evaluate_local, evaluate_spec, local_score_spec, MatchType,
};

verus! {

/// One ranked hit: the entry, the score its match earned, and which rule hit.
#[derive(Debug)]
pub struct SearchResult {
    pub file_info: FileInfo,
    pub score: i64,
    pub match_type: MatchType,
}

impl Clone for SearchResult {
    fn clone(&self) -> (r: Self)
        ensures
            r == *self,
    {
        SearchResult {
            file_info: self.file_info.clone(),
            score: self.score,
            match_type: self.match_type,
        }
    }
}

/// The three traversal/scoring policies, cyclically ordered for toggling.
#[derive(Debug, Clone, Copy, PartialEq, Eq, Structural)]
pub enum SearchStrategy {
    Fast,
    Comprehensive,
    LocalOnly,
}

/// Traversal bounds for one strategy, kept as data so strategies are
/// declaratively comparable.
#[derive(Debug, Clone, Copy, PartialEq, Eq, Structural)]
pub struct WalkConstraints {
    /// Directory levels below the root that the walk may descend.
    pub max_depth: u64,
    /// Entries larger than this many bytes are skipped.
    pub max_file_size: u64,
    /// Honor `.gitignore`-style ignore rules.
    pub respect_ignore_files: bool,
    /// Do not skip hidden entries.
    pub include_hidden: bool,
}

/// Traversal depth bound for the fast strategy.
pub const FAST_MAX_DEPTH: u64 = 4;

/// File-size ceiling for the fast strategy: 50 MB.
pub const FAST_MAX_FILE_SIZE: u64 = 50 * 1024 * 1024;

/// Traversal depth bound for the comprehensive strategy.
pub const COMPREHENSIVE_MAX_DEPTH: u64 = 8;

/// File-size ceiling for the comprehensive strategy: 100 MB.
pub const COMPREHENSIVE_MAX_FILE_SIZE: u64 = 100 * 1024 * 1024;

/// The successor in the toggle cycle.
pub open spec fn next_strategy(s: SearchStrategy) -> SearchStrategy {
    match s {
        SearchStrategy::Fast => SearchStrategy::Comprehensive,
        SearchStrategy::Comprehensive => SearchStrategy::LocalOnly,
        SearchStrategy::LocalOnly => SearchStrategy::Fast,
    }
}

impl SearchStrategy {
    /// The next strategy in the toggle cycle.
    pub fn next(&self) -> (r: Self)
        ensures
            r == next_strategy(*self),
    {
        match self {
            SearchStrategy::Fast => SearchStrategy::Comprehensive,
            SearchStrategy::Comprehensive => SearchStrategy::LocalOnly,
            SearchStrategy::LocalOnly => SearchStrategy::Fast,
        }
    }

    /// A short human-readable label.
    pub fn description(&self) -> (r: &'static str)
        ensures
            r@ == strategy_description(*self),
    {
        match self {
            SearchStrategy::Fast => "Fast (limited depth)",
            SearchStrategy::Comprehensive => "Comprehensive (full search)",
            SearchStrategy::LocalOnly => "Local (current dir only)",
        }
    }

    /// The traversal bounds this strategy walks under; the local strategy does
    /// not traverse at all.
    pub fn walk_constraints(&self) -> (r: Option<WalkConstraints>)
        ensures
            match *self {
                SearchStrategy::Fast => r == Some(
                    (WalkConstraints {
                        max_depth: FAST_MAX_DEPTH,
                        max_file_size: FAST_MAX_FILE_SIZE,
                        respect_ignore_files: true,
                        include_hidden: true,
                    }),
                ),
                SearchStrategy::Comprehensive => r == Some(
                    (WalkConstraints {
                        max_depth: COMPREHENSIVE_MAX_DEPTH,
                        max_file_size: COMPREHENSIVE_MAX_FILE_SIZE,
                        respect_ignore_files: true,
                        include_hidden: true,
                    }),
                ),
                SearchStrategy::LocalOnly => r is None,
            },
    {
        match self {
            SearchStrategy::Fast => Some(
                WalkConstraints {
                    max_depth: FAST_MAX_DEPTH,
                    max_file_size: FAST_MAX_FILE_SIZE,
                    respect_ignore_files: true,
                    include_hidden: true,
                },
            ),
            SearchStrategy::Comprehensive => Some(
                WalkConstraints {
                    max_depth: COMPREHENSIVE_MAX_DEPTH,
                    max_file_size: COMPREHENSIVE_MAX_FILE_SIZE,
                    respect_ignore_files: true,
                    include_hidden: true,
                },
            ),
            SearchStrategy::LocalOnly => None,
        }
    }
}

/// The label each strategy shows.
pub open spec fn strategy_description(s: SearchStrategy) -> Seq<char> {
    match s {
        SearchStrategy::Fast => "Fast (limited depth)"@,
        SearchStrategy::Comprehensive => "Comprehensive (full search)"@,
        SearchStrategy::LocalOnly => "Local (current dir only)"@,
    }
}

/// Why a whole search failed. Per-entry failures never surface; they only drop
/// the entry.
#[derive(Debug)]
pub enum SearchError {
    /// The root path is missing or is not a directory.
    InvalidRoot { reason: String },
    /// The search exceeded its time budget of this many seconds.
    TimedOut { elapsed_limit: u64 },
}

/// The operator-facing text of a timeout that elapsed after `limit` seconds,
/// hinting at a narrower query.
pub open spec fn timeout_text(limit: int) -> Seq<char> {
    if limit == 30 {
        "Search timed out after 30 seconds. Try a more specific search term or search from a smaller directory."@
    } else if limit == 10 {
        "Fast search timed out after 10 seconds. Try a more specific search term."@
    } else {
        "Search timed out after "@ + dec_str(limit) + " seconds."@
    }
}

/// The operator-facing text of a search error.
pub open spec fn error_text(e: SearchError) -> Seq<char> {
    match e {
        SearchError::InvalidRoot { reason } => reason@,
        SearchError::TimedOut { elapsed_limit } => timeout_text(elapsed_limit as int),
    }
}

impl SearchError {
    /// The error rendered as operator-facing text.
    pub fn message(&self) -> (r: String)
        ensures
            r@ == error_text(*self),
    {
        match self {
            SearchError::InvalidRoot { reason } => reason.clone(),
            SearchError::TimedOut { elapsed_limit } => {
                if *elapsed_limit == 30 {
                    String::from_str(
                        "Search timed out after 30 seconds. Try a more specific search term or search from a smaller directory.",
                    )
                } else if *elapsed_limit == 10 {
                    String::from_str(
                        "Fast search timed out after 10 seconds. Try a more specific search term.",
                    )
                } else {
                    let mut s = String::from_str("Search timed out after ");
                    let num = u64_to_string(*elapsed_limit);
                    s.append(num.as_str());
                    s.append(" seconds.");
                    s
                }
            },
        }
    }
}

/// What the strategy-parameterized traversal of the root produced, as the
/// caller that performed it reports it.
pub enum WalkOutcome {
    /// The root path does not exist.
    MissingRoot,
    /// The root path exists but is not a directory.
    NotADirectory,
    /// Traversal finished and yielded these candidate entries.
    Completed { candidates: Vec<FileInfo> },
    /// The time budget elapsed before the traversal finished.
    DeadlineExceeded,
}

/// What the evaluator makes of a single candidate: one result, or nothing.
pub open spec fn one_match(f: FileInfo, pattern: Seq<char>) -> Seq<SearchResult> {
    match evaluate_spec(f.name@, f.path@, pattern) {
        Some(sk) => seq![
            SearchResult { file_info: f, score: sk.0, match_type: sk.1 },
        ],
        None => Seq::empty(),
    }
}

/// All candidates evaluated in order, non-matches dropped.
pub open spec fn evaluate_all(files: Seq<FileInfo>, pattern: Seq<char>) -> Seq<SearchResult>
    decreases files.len(),
{
    if files.len() == 0 {
        Seq::empty()
    } else {
        evaluate_all(files.drop_last(), pattern) + one_match(files.last(), pattern)
    }
}

/// What the name-only scoring makes of a single candidate.
pub open spec fn one_local_match(f: FileInfo, pattern: Seq<char>) -> Seq<SearchResult> {
    match local_score_spec(f.name@, pattern) {
        Some(s) => seq![
            SearchResult { file_info: f, score: s, match_type: MatchType::FileName },
        ],
        None => Seq::empty(),
    }
}

/// All candidates scored by name only, in order, non-matches dropped.
pub open spec fn evaluate_all_local(files: Seq<FileInfo>, pattern: Seq<char>) -> Seq<
    SearchResult,
>
    decreases files.len(),
{
    if files.len() == 0 {
        Seq::empty()
    } else {
        evaluate_all_local(files.drop_last(), pattern) + one_local_match(files.last(), pattern)
    }
}

/// `x` placed into the already-sorted `s`, after every element whose score is
/// at least `x`'s: a stable descending insertion.
pub open spec fn insert_desc(x: SearchResult, s: Seq<SearchResult>) -> Seq<SearchResult>
    decreases s.len(),
{
    if s.len() == 0 {
        seq![x]
    } else if s[0].score >= x.score {
        seq![s[0]] + insert_desc(x, s.drop_first())
    } else {
        seq![x] + s
    }
}

/// Stable sort by score, descending: elements with equal scores keep the
/// relative order the input produced them in.
pub open spec fn sort_by_score_desc(s: Seq<SearchResult>) -> Seq<SearchResult>
    decreases s.len(),
{
    if s.len() == 0 {
        Seq::empty()
    } else {
        insert_desc(s.last(), sort_by_score_desc(s.drop_last()))
    }
}

/// Scores never increase along the list.
pub open spec fn sorted_desc(s: Seq<SearchResult>) -> bool {
    forall|i: int, j: int| 0 <= i <= j < s.len() ==> #[trigger] s[i].score >= #[trigger] s[j].score
}

/// `s` cut down to at most `cap` leading elements.
pub open spec fn capped(s: Seq<SearchResult>, cap: int) -> Seq<SearchResult> {
    if s.len() <= cap {
        s
    } else {
        s.take(cap)
    }
}

proof fn lemma_insert_desc_sorted(x: SearchResult, s: Seq<SearchResult>)
    requires
        sorted_desc(s),
    ensures
        insert_desc(x, s).len() == s.len() + 1,
        sorted_desc(insert_desc(x, s)),
        forall|k: int|
            0 <= k < insert_desc(x, s).len() ==> (#[trigger] insert_desc(x, s)[k].score <= x.score
                || (s.len() > 0 && insert_desc(x, s)[k].score <= s[0].score)),
    decreases s.len(),
{
    let r = insert_desc(x, s);
    if s.len() == 0 {
    } else if s[0].score >= x.score {
        let rest = s.drop_first();
        assert(sorted_desc(rest)) by {
            assert forall|i: int, j: int| 0 <= i <= j < rest.len() implies #[trigger] rest[i].score
                >= #[trigger] rest[j].score by {
                assert(s[i + 1].score >= s[j + 1].score);
            }
        }
        lemma_insert_desc_sorted(x, rest);
        let rr = insert_desc(x, rest);
        assert(r == seq![s[0]] + rr);
        assert forall|i: int, j: int| 0 <= i <= j < r.len() implies #[trigger] r[i].score
            >= #[trigger] r[j].score by {
            if i == 0 && j > 0 {
                assert(r[j] == rr[j - 1]);
                if rest.len() > 0 {
                    assert(s[0].score >= rest[0].score);
                }
            } else if i > 0 {
                assert(r[i] == rr[i - 1] && r[j] == rr[j - 1]);
            }
        }
    } else {
        assert(r == seq![x] + s);
    }
}

proof fn lemma_sort_desc_props(s: Seq<SearchResult>)
    ensures
        sort_by_score_desc(s).len() == s.len(),
        sorted_desc(sort_by_score_desc(s)),
    decreases s.len(),
{
    if s.len() > 0 {
        lemma_sort_desc_props(s.drop_last());
        lemma_insert_desc_sorted(s.last(), sort_by_score_desc(s.drop_last()));
    }
}

proof fn lemma_insert_desc_at(x: SearchResult, s: Seq<SearchResult>, j: int)
    requires
        0 <= j <= s.len(),
        forall|k: int| 0 <= k < j ==> #[trigger] s[k].score >= x.score,
        j < s.len() ==> s[j].score < x.score,
    ensures
        insert_desc(x, s) == s.take(j) + seq![x] + s.skip(j),
    decreases j,
{
    if j == 0 {
        if s.len() == 0 {
            assert(insert_desc(x, s) =~= s.take(0) + seq![x] + s.skip(0));
        } else {
            assert(insert_desc(x, s) =~= s.take(0) + seq![x] + s.skip(0));
        }
    } else {
        let rest = s.drop_first();
        lemma_insert_desc_at(x, rest, j - 1);
        assert(insert_desc(x, s) == seq![s[0]] + insert_desc(x, rest));
        assert(seq![s[0]] + (rest.take(j - 1) + seq![x] + rest.skip(j - 1)) =~= s.take(j)
            + seq![x] + s.skip(j));
    }
}

/// The number of matches never exceeds the number of candidates.
proof fn lemma_evaluate_all_local_len(files: Seq<FileInfo>, pattern: Seq<char>)
    ensures
        evaluate_all_local(files, pattern).len() <= files.len(),
    decreases files.len(),
{
    if files.len() > 0 {
        lemma_evaluate_all_local_len(files.drop_last(), pattern);
    }
}

/// Position at which `score` belongs in the sorted list `out`: past every
/// element scoring at least `score`.
fn insert_pos(out: &Vec<SearchResult>, score: i64) -> (j: usize)
    ensures
        j <= out@.len(),
        forall|k: int| 0 <= k < j ==> #[trigger] out@[k].score >= score,
        j < out@.len() ==> out@[j as int].score < score,
{
    let mut j: usize = 0;
    while j < out.len()
        invariant
            j <= out@.len(),
            forall|k: int| 0 <= k < j ==> #[trigger] out@[k].score >= score,
        decreases out@.len() - j,
    {
        if out[j].score < score {
            return j;
        }
        j = j + 1;
    }
    j
}

/// Stable insertion sort by score, descending.
fn sort_results(input: Vec<SearchResult>) -> (r: Vec<SearchResult>)
    ensures
        r@ == sort_by_score_desc(input@),
        sorted_desc(r@),
        r@.len() == input@.len(),
{
    let mut out: Vec<SearchResult> = Vec::new();
    let mut i: usize = 0;
    proof {
        assert(input@.take(0int) =~= Seq::<SearchResult>::empty());
    }
    while i < input.len()
        invariant
            i <= input@.len(),
            out@ == sort_by_score_desc(input@.take(i as int)),
            sorted_desc(out@),
            out@.len() == i,
        decreases input@.len() - i,
    {
        let x = input[i].clone();
        let j = insert_pos(&out, x.score);
        proof {
            lemma_insert_desc_at(x, out@, j as int);
            lemma_insert_desc_sorted(x, out@);
        }
        let ghost prev = out@;
        out.insert(j, x);
        proof {
            assert(out@ =~= prev.take(j as int) + seq![x] + prev.skip(j as int));
            assert(out@ == insert_desc(x, prev));
            assert(input@.take(i + 1).drop_last() =~= input@.take(i as int));
            assert(input@.take(i + 1).last() == x);
        }
        i = i + 1;
    }
    proof {
        assert(input@.take(input@.len() as int) =~= input@);
    }
    out
}

/// The search engine itself is stateless; strategy and inputs arrive with each
/// invocation.
pub struct SearchEngine {}

impl SearchEngine {
    pub fn new() -> (e: Self) {
        SearchEngine {}
    }

    /// Comprehensive search over the outcome of a bounded traversal: every
    /// surviving candidate is evaluated, results are sorted by score
    /// descending (ties keep traversal order) and cut to the top 1000. A
    /// missing or non-directory root is rejected; an elapsed 30-second budget
    /// is reported as a timeout.
    pub fn search(&self, walk: WalkOutcome, pattern: &str) -> (r: Result<
        Vec<SearchResult>,
        SearchError,
    >)
        ensures
            match walk {
                WalkOutcome::MissingRoot => r matches Err(SearchError::InvalidRoot { reason })
                    && reason@ == "search path does not exist"@,
                WalkOutcome::NotADirectory => r matches Err(SearchError::InvalidRoot { reason })
                    && reason@ == "search path is not a directory"@,
                WalkOutcome::DeadlineExceeded => r matches Err(SearchError::TimedOut {
                    elapsed_limit,
                }) && elapsed_limit == 30,
                WalkOutcome::Completed { candidates } => r matches Ok(results) && results@
                    == capped(sort_by_score_desc(evaluate_all(candidates@, pattern@)), 1000),
            },
            r matches Ok(results) ==> sorted_desc(results@) && results@.len() <= 1000,
    {
        match walk {
            WalkOutcome::MissingRoot => Err(
                SearchError::InvalidRoot {
                    reason: String::from_str("search path does not exist"),
                },
            ),
            WalkOutcome::NotADirectory => Err(
                SearchError::InvalidRoot {
                    reason: String::from_str("search path is not a directory"),
                },
            ),
            WalkOutcome::DeadlineExceeded => Err(SearchError::TimedOut { elapsed_limit: 30 }),
            WalkOutcome::Completed { candidates } => {
                let matches = evaluate_candidates(&candidates, pattern);
                let mut sorted = sort_results(matches);
                let ghost full = sorted@;
                sorted.truncate(1000);
                proof {
                    if full.len() > 1000 {
                        assert(sorted@ =~= capped(full, 1000));
                        lemma_sorted_desc_take(full, 1000);
                    }
                }
                Ok(sorted)
            },
        }
    }

    /// Fast search: the same scoring over the outcome of a shallower
    /// traversal, cut to `max_results`, with a 10-second budget.
    pub fn search_fast(&self, walk: WalkOutcome, pattern: &str, max_results: usize) -> (r: Result<
        Vec<SearchResult>,
        SearchError,
    >)
        ensures
            match walk {
                WalkOutcome::MissingRoot => r matches Err(SearchError::InvalidRoot { reason })
                    && reason@ == "search path does not exist"@,
                WalkOutcome::NotADirectory => r matches Err(SearchError::InvalidRoot { reason })
                    && reason@ == "search path is not a directory"@,
                WalkOutcome::DeadlineExceeded => r matches Err(SearchError::TimedOut {
                    elapsed_limit,
                }) && elapsed_limit == 10,
                WalkOutcome::Completed { candidates } => r matches Ok(results) && results@
                    == capped(
                    sort_by_score_desc(evaluate_all(candidates@, pattern@)),
                    max_results as int,
                ),
            },
            r matches Ok(results) ==> sorted_desc(results@) && results@.len() <= max_results,
    {
        match walk {
            WalkOutcome::MissingRoot => Err(
                SearchError::InvalidRoot {
                    reason: String::from_str("search path does not exist"),
                },
            ),
            WalkOutcome::NotADirectory => Err(
                SearchError::InvalidRoot {
                    reason: String::from_str("search path is not a directory"),
                },
            ),
            WalkOutcome::DeadlineExceeded => Err(SearchError::TimedOut { elapsed_limit: 10 }),
            WalkOutcome::Completed { candidates } => {
                let matches = evaluate_candidates(&candidates, pattern);
                let mut sorted = sort_results(matches);
                let ghost full = sorted@;
                sorted.truncate(max_results);
                proof {
                    if full.len() > max_results {
                        assert(sorted@ =~= capped(full, max_results as int));
                        lemma_sorted_desc_take(full, max_results as int);
                    }
                }
                Ok(sorted)
            },
        }
    }

    /// Local search over an already-materialized entry list: name-only
    /// scoring (the fuzzy score when there is one, a fixed 25 for
    /// substring-only hits), sorted by score descending. Never fails and
    /// never returns more results than entries it was given.
    pub fn search_in_files(&self, files: &Vec<FileInfo>, pattern: &str) -> (r: Vec<SearchResult>)
        ensures
            r@ == sort_by_score_desc(evaluate_all_local(files@, pattern@)),
            sorted_desc(r@),
            r@.len() <= files@.len(),
    {
        let mut matches: Vec<SearchResult> = Vec::new();
        let mut i: usize = 0;
        proof {
            assert(files@.take(0int) =~= Seq::<FileInfo>::empty());
        }
        while i < files.len()
            invariant
                i <= files@.len(),
                matches@ == evaluate_all_local(files@.take(i as int), pattern@),
                matches@.len() <= i,
            decreases files@.len() - i,
        {
            let f = &files[i];
            match evaluate_local(f.name.as_str(), pattern) {
                Some(score) => {
                    matches.push(
                        SearchResult {
                            file_info: f.clone(),
                            score,
                            match_type: MatchType::FileName,
                        },
                    );
                },
                None => {},
            }
            proof {
                assert(files@.take(i + 1).drop_last() =~= files@.take(i as int));
                assert(files@.take(i + 1).last() == files@[i as int]);
            }
            i = i + 1;
        }
        proof {
            assert(files@.take(files@.len() as int) =~= files@);
            lemma_evaluate_all_local_len(files@, pattern@);
        }
        let r = sort_results(matches);
        r
    }
}

/// Evaluate every candidate in order, keeping the matches.
fn evaluate_candidates(candidates: &Vec<FileInfo>, pattern: &str) -> (r: Vec<SearchResult>)
    ensures
        r@ == evaluate_all(candidates@, pattern@),
{
    let mut matches: Vec<SearchResult> = Vec::new();
    let mut i: usize = 0;
    proof {
        assert(candidates@.take(0int) =~= Seq::<FileInfo>::empty());
    }
    while i < candidates.len()
        invariant
            i <= candidates@.len(),
            matches@ == evaluate_all(candidates@.take(i as int), pattern@),
        decreases candidates@.len() - i,
    {
        let f = &candidates[i];
        match evaluate(f.name.as_str(), f.path.as_str(), pattern) {
            Some((score, kind)) => {
                matches.push(
                    SearchResult { file_info: f.clone(), score, match_type: kind },
                );
            },
            None => {},
        }
        proof {
            assert(candidates@.take(i + 1).drop_last() =~= candidates@.take(i as int));
            assert(candidates@.take(i + 1).last() == candidates@[i as int]);
        }
        i = i + 1;
    }
    proof {
        assert(candidates@.take(candidates@.len() as int) =~= candidates@);
    }
    matches
}

/// A prefix of a sorted list is sorted.
proof fn lemma_sorted_desc_take(s: Seq<SearchResult>, n: int)
    requires
        sorted_desc(s),
        0 <= n <= s.len(),
    ensures
        sorted_desc(s.take(n)),
{
    assert forall|i: int, j: int| 0 <= i <= j < s.take(n).len() implies #[trigger] s.take(
        n,
    )[i].score >= #[trigger] s.take(n)[j].score by {
        assert(s[i].score >= s[j].score);
    }
}

/// Identical inputs give the identical ordered result list: the local search's
/// outcome is a function of the entry list and the query alone, so repeating
/// a call can never reorder or change it.
pub proof fn lemma_local_search_deterministic(
    files: Seq<FileInfo>,
    pattern: Seq<char>,
    r1: Seq<SearchResult>,
    r2: Seq<SearchResult>,
)
    requires
        r1 == sort_by_score_desc(evaluate_all_local(files, pattern)),
        r2 == sort_by_score_desc(evaluate_all_local(files, pattern)),
    ensures
        r1 == r2,
{
}

} // verus!
