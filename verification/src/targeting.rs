//! Request targeting and matching logic.

use vstd::prelude::*;

use crate::config::PathMatcher;
use crate::config::Targeting;
use crate::random::RandomSource;
use crate::text::lower_of;
use crate::text::str_eq;
use crate::text::str_starts_with;
use crate::text::to_lowercase_str;
use crate::text::to_uppercase_str;
use crate::text::upper_of;

verus! {

// ------------------------------------------------------------------
// Trusted view of the regex engine.
// ------------------------------------------------------------------

#[verifier::external_type_specification]
#[verifier::external_body]
pub struct ExRegex(regex::Regex);

/// Whether the regex engine compiles `pattern`.
pub uninterp spec fn regex_valid(pattern: Seq<char>) -> bool;

/// The pattern a compiled regex was built from.
pub uninterp spec fn regex_source(re: regex::Regex) -> Seq<char>;

/// Whether the pattern, compiled, finds a match anywhere in `text`
/// (the unanchored search `Regex::is_match` performs).
pub uninterp spec fn regex_match(pattern: Seq<char>, text: Seq<char>) -> bool;

/// Relies on `regex::Regex::new`: compilation succeeds exactly for patterns
/// the engine accepts, and the compiled regex holds the pattern it was
/// built from.
#[verifier::external_body]
pub(crate) fn regex_compile(pattern: &str) -> (r: Option<regex::Regex>)
    ensures
        r is Some <==> regex_valid(pattern@),
        r matches Some(re) ==> regex_source(re) == pattern@,
{
    regex::Regex::new(pattern).ok()
}

/// Relies on `regex::Regex::is_match`: the result is a function of the
/// compiled pattern and the text alone.
#[verifier::external_body]
fn regex_is_match(re: &regex::Regex, text: &str) -> (r: bool)
    ensures
        r == regex_match(regex_source(*re), text@),
{
    re.is_match(text)
}

// ------------------------------------------------------------------
// Compiled path matchers.
// ------------------------------------------------------------------

/// A path matcher ready for evaluation.
pub enum CompiledPathMatcher {
    /// Matches the whole path exactly.
    Exact(String),
    /// Matches any path with the given prefix.
    Prefix(String),
    /// Matches any path in which the compiled regex finds a match.
    Regex(regex::Regex),
}

/// What one compiled matcher accepts.
pub open spec fn compiled_path_matches(m: CompiledPathMatcher, path: Seq<char>) -> bool {
    match m {
        CompiledPathMatcher::Exact(s) => path == s@,
        CompiledPathMatcher::Prefix(s) => s@.len() <= path.len() && path.subrange(
            0,
            s@.len() as int,
        ) == s@,
        CompiledPathMatcher::Regex(re) => regex_match(regex_source(re), path),
    }
}

/// How one declared matcher relates to one compiled matcher.
pub open spec fn compiled_pair_ok(p: PathMatcher, c: CompiledPathMatcher) -> bool {
    match p {
        PathMatcher::Exact { exact } => c == CompiledPathMatcher::Exact(exact),
        PathMatcher::Prefix { prefix } => c == CompiledPathMatcher::Prefix(prefix),
        PathMatcher::Regex { regex } => regex_valid(regex@) && (c matches CompiledPathMatcher::Regex(
            re,
        ) && regex_source(re) == regex@),
    }
}

/// The relation between declared path matchers and their compiled forms:
/// kept in declaration order, with regexes that fail to compile dropped.
pub open spec fn compiled_from_paths(ps: Seq<PathMatcher>, cs: Seq<CompiledPathMatcher>) -> bool
    decreases ps.len(),
{
    if ps.len() == 0 {
        cs.len() == 0
    } else {
        match ps[0] {
            PathMatcher::Regex { regex } => {
                if regex_valid(regex@) {
                    cs.len() > 0 && compiled_pair_ok(ps[0], cs[0]) && compiled_from_paths(
                        ps.drop_first(),
                        cs.drop_first(),
                    )
                } else {
                    compiled_from_paths(ps.drop_first(), cs)
                }
            },
            _ => cs.len() > 0 && compiled_pair_ok(ps[0], cs[0]) && compiled_from_paths(
                ps.drop_first(),
                cs.drop_first(),
            ),
        }
    }
}

proof fn lemma_compiled_push_kept(
    ps: Seq<PathMatcher>,
    cs: Seq<CompiledPathMatcher>,
    p: PathMatcher,
    c: CompiledPathMatcher,
)
    requires
        compiled_from_paths(ps, cs),
        compiled_pair_ok(p, c),
        p matches PathMatcher::Regex { regex } ==> regex_valid(regex@),
    ensures
        compiled_from_paths(ps.push(p), cs.push(c)),
    decreases ps.len(),
{
    if ps.len() == 0 {
        assert(ps.push(p).drop_first() =~= Seq::<PathMatcher>::empty());
        assert(cs.push(c).drop_first() =~= Seq::<CompiledPathMatcher>::empty());
        assert(compiled_from_paths(
            Seq::<PathMatcher>::empty(),
            Seq::<CompiledPathMatcher>::empty(),
        ));
        assert(cs.len() == 0);
        assert(ps.push(p)[0] == p);
    } else {
        assert(ps.push(p).drop_first() =~= ps.drop_first().push(p));
        match ps[0] {
            PathMatcher::Regex { regex } => {
                if regex_valid(regex@) {
                    assert(cs.len() > 0);
                    assert(cs.push(c).drop_first() =~= cs.drop_first().push(c));
                    lemma_compiled_push_kept(ps.drop_first(), cs.drop_first(), p, c);
                } else {
                    lemma_compiled_push_kept(ps.drop_first(), cs, p, c);
                }
            },
            _ => {
                assert(cs.len() > 0);
                assert(cs.push(c).drop_first() =~= cs.drop_first().push(c));
                lemma_compiled_push_kept(ps.drop_first(), cs.drop_first(), p, c);
            },
        }
    }
}

proof fn lemma_compiled_push_dropped(
    ps: Seq<PathMatcher>,
    cs: Seq<CompiledPathMatcher>,
    p: PathMatcher,
)
    requires
        compiled_from_paths(ps, cs),
        p matches PathMatcher::Regex { regex } && !regex_valid(regex@),
    ensures
        compiled_from_paths(ps.push(p), cs),
    decreases ps.len(),
{
    if ps.len() == 0 {
        assert(ps.push(p).drop_first() =~= Seq::<PathMatcher>::empty());
        assert(compiled_from_paths(
            Seq::<PathMatcher>::empty(),
            Seq::<CompiledPathMatcher>::empty(),
        ));
        assert(cs =~= Seq::<CompiledPathMatcher>::empty());
        assert(ps.push(p)[0] == p);
    } else {
        assert(ps.push(p).drop_first() =~= ps.drop_first().push(p));
        match ps[0] {
            PathMatcher::Regex { regex } => {
                if regex_valid(regex@) {
                    lemma_compiled_push_dropped(ps.drop_first(), cs.drop_first(), p);
                } else {
                    lemma_compiled_push_dropped(ps.drop_first(), cs, p);
                }
            },
            _ => {
                lemma_compiled_push_dropped(ps.drop_first(), cs.drop_first(), p);
            },
        }
    }
}

// ------------------------------------------------------------------
// Compiled targeting.
// ------------------------------------------------------------------

/// The first value, if any, held by the case-insensitively named header.
pub open spec fn lookup_header_ci(headers: Seq<(Seq<char>, Seq<char>)>, name_lower: Seq<char>) -> Option<
    Seq<char>,
>
    decreases headers.len(),
{
    if headers.len() == 0 {
        None
    } else if lower_of(headers[0].0) == name_lower {
        Some(headers[0].1)
    } else {
        lookup_header_ci(headers.drop_first(), name_lower)
    }
}

/// Compiled targeting rules for efficient matching.
pub struct CompiledTargeting {
    paths: Vec<CompiledPathMatcher>,
    methods: Vec<String>,
    headers: Vec<(String, String)>,
    percentage: u8,
}

/// The relation between a declared targeting and its compiled form.
pub open spec fn compiled_from_targeting(t: Targeting, c: CompiledTargeting) -> bool {
    &&& compiled_from_paths(t.paths@, c.spec_paths())
    &&& c.spec_methods() == t.methods@.map_values(|m: String| upper_of(m@))
    &&& c.spec_headers() == t.headers.deep_view()
    &&& c.spec_percentage() == t.percentage
}

impl CompiledTargeting {
    pub closed spec fn spec_paths(&self) -> Seq<CompiledPathMatcher> {
        self.paths@
    }

    pub closed spec fn spec_methods(&self) -> Seq<Seq<char>> {
        self.methods@.map_values(|m: String| m@)
    }

    pub closed spec fn spec_headers(&self) -> Seq<(Seq<char>, Seq<char>)> {
        self.headers.deep_view()
    }

    pub closed spec fn spec_percentage(&self) -> u8 {
        self.percentage
    }

    /// The method check: an empty method set matches every method.
    pub open spec fn method_ok_spec(&self, method: Seq<char>) -> bool {
        self.spec_methods().len() == 0 || self.spec_methods().contains(upper_of(method))
    }

    /// The path check: an empty matcher list matches every path.
    pub open spec fn path_ok_spec(&self, path: Seq<char>) -> bool {
        self.spec_paths().len() == 0 || exists|i: int|
            0 <= i < self.spec_paths().len() && compiled_path_matches(
                #[trigger] self.spec_paths()[i],
                path,
            )
    }

    /// The header check: every required header must be present (name matched
    /// case-insensitively) with exactly the required value.
    pub open spec fn headers_ok_spec(&self, headers: Seq<(Seq<char>, Seq<char>)>) -> bool {
        forall|j: int|
            0 <= j < self.spec_headers().len() ==> lookup_header_ci(
                headers,
                lower_of((#[trigger] self.spec_headers()[j]).0),
            ) == Some(self.spec_headers()[j].1)
    }

    /// Whether a request matches all three targeting dimensions.
    pub open spec fn matches_spec(
        &self,
        method: Seq<char>,
        path: Seq<char>,
        headers: Seq<(Seq<char>, Seq<char>)>,
    ) -> bool {
        self.method_ok_spec(method) && self.path_ok_spec(path) && self.headers_ok_spec(headers)
    }

    /// Compile targeting rules from configuration.
    pub fn new(targeting: &Targeting) -> (r: Self)
        ensures
            compiled_from_targeting(*targeting, r),
    {
        let mut paths: Vec<CompiledPathMatcher> = Vec::new();
        let mut i: usize = 0;
        while i < targeting.paths.len()
            invariant
                i <= targeting.paths@.len(),
                compiled_from_paths(targeting.paths@.subrange(0, i as int), paths@),
            decreases targeting.paths@.len() - i,
        {
            let ghost prefix = targeting.paths@.subrange(0, i as int);
            match &targeting.paths[i] {
                PathMatcher::Exact { exact } => {
                    let c = CompiledPathMatcher::Exact(exact.clone());
                    proof {
                        lemma_compiled_push_kept(prefix, paths@, targeting.paths@[i as int], c);
                    }
                    paths.push(c);
                },
                PathMatcher::Prefix { prefix: p } => {
                    let c = CompiledPathMatcher::Prefix(p.clone());
                    proof {
                        lemma_compiled_push_kept(prefix, paths@, targeting.paths@[i as int], c);
                    }
                    paths.push(c);
                },
                PathMatcher::Regex { regex } => {
                    match regex_compile(regex.as_str()) {
                        Some(re) => {
                            let c = CompiledPathMatcher::Regex(re);
                            proof {
                                lemma_compiled_push_kept(
                                    prefix,
                                    paths@,
                                    targeting.paths@[i as int],
                                    c,
                                );
                            }
                            paths.push(c);
                        },
                        None => {
                            proof {
                                lemma_compiled_push_dropped(
                                    prefix,
                                    paths@,
                                    targeting.paths@[i as int],
                                );
                            }
                        },
                    }
                },
            }
            proof {
                assert(targeting.paths@.subrange(0, i as int).push(targeting.paths@[i as int])
                    =~= targeting.paths@.subrange(0, i as int + 1));
            }
            i += 1;
        }
        proof {
            assert(targeting.paths@.subrange(0, targeting.paths@.len() as int) =~= targeting.paths@);
        }

        let mut methods: Vec<String> = Vec::new();
        let mut i: usize = 0;
        while i < targeting.methods.len()
            invariant
                i <= targeting.methods@.len(),
                methods@.len() == i,
                forall|k: int|
                    0 <= k < i ==> (#[trigger] methods@[k])@ == upper_of(targeting.methods@[k]@),
            decreases targeting.methods@.len() - i,
        {
            methods.push(to_uppercase_str(targeting.methods[i].as_str()));
            i += 1;
        }

        let mut headers: Vec<(String, String)> = Vec::new();
        let mut i: usize = 0;
        while i < targeting.headers.len()
            invariant
                i <= targeting.headers@.len(),
                headers@.len() == i,
                forall|k: int| 0 <= k < i ==> #[trigger] headers@[k] == targeting.headers@[k],
            decreases targeting.headers@.len() - i,
        {
            let name = targeting.headers[i].0.clone();
            let value = targeting.headers[i].1.clone();
            headers.push((name, value));
            i += 1;
        }

        let r = CompiledTargeting { paths, methods, headers, percentage: targeting.percentage };
        proof {
            assert(r.spec_methods() =~= targeting.methods@.map_values(|m: String| upper_of(m@)));
            assert(headers@ =~= targeting.headers@);
        }
        r
    }

    /// Check whether a request matches the targeting rules.
    pub fn matches(&self, method: &str, path: &str, headers: &Vec<(String, String)>) -> (r: bool)
        ensures
            r == self.matches_spec(method@, path@, headers.deep_view()),
    {
        if self.methods.len() > 0 && !self.method_matches(method) {
            return false;
        }
        if self.paths.len() > 0 && !self.matches_path(path) {
            return false;
        }
        if !self.matches_headers(headers) {
            return false;
        }
        true
    }

    fn method_matches(&self, method: &str) -> (r: bool)
        ensures
            r == self.spec_methods().contains(upper_of(method@)),
    {
        let upper = to_uppercase_str(method);
        let mut i: usize = 0;
        while i < self.methods.len()
            invariant
                i <= self.methods@.len(),
                upper@ == upper_of(method@),
                forall|k: int| 0 <= k < i ==> (#[trigger] self.methods@[k])@ != upper_of(method@),
            decreases self.methods@.len() - i,
        {
            if str_eq(self.methods[i].as_str(), upper.as_str()) {
                proof {
                    assert(self.spec_methods()[i as int] == upper_of(method@));
                }
                return true;
            }
            i += 1;
        }
        proof {
            assert forall|k: int| 0 <= k < self.spec_methods().len() implies (
            #[trigger] self.spec_methods()[k]) != upper_of(method@) by {
                assert(self.spec_methods()[k] == self.methods@[k]@);
            }
        }
        false
    }

    fn matches_path(&self, path: &str) -> (r: bool)
        ensures
            r == exists|i: int|
                0 <= i < self.spec_paths().len() && compiled_path_matches(
                    #[trigger] self.spec_paths()[i],
                    path@,
                ),
    {
        let mut i: usize = 0;
        while i < self.paths.len()
            invariant
                i <= self.paths@.len(),
                forall|k: int|
                    0 <= k < i ==> !compiled_path_matches(#[trigger] self.paths@[k], path@),
            decreases self.paths@.len() - i,
        {
            let hit = match &self.paths[i] {
                CompiledPathMatcher::Exact(s) => str_eq(path, s.as_str()),
                CompiledPathMatcher::Prefix(s) => str_starts_with(path, s.as_str()),
                CompiledPathMatcher::Regex(re) => regex_is_match(re, path),
            };
            if hit {
                proof {
                    assert(compiled_path_matches(self.spec_paths()[i as int], path@));
                }
                return true;
            }
            i += 1;
        }
        false
    }

    fn matches_headers(&self, headers: &Vec<(String, String)>) -> (r: bool)
        ensures
            r == self.headers_ok_spec(headers.deep_view()),
    {
        let mut j: usize = 0;
        while j < self.headers.len()
            invariant
                j <= self.headers@.len(),
                forall|k: int|
                    0 <= k < j ==> lookup_header_ci(
                        headers.deep_view(),
                        lower_of((#[trigger] self.spec_headers()[k]).0),
                    ) == Some(self.spec_headers()[k].1),
            decreases self.headers@.len() - j,
        {
            let name_lower = to_lowercase_str(self.headers[j].0.as_str());
            match Self::lookup_header(headers, name_lower.as_str()) {
                Some(value) => {
                    if !str_eq(value.as_str(), self.headers[j].1.as_str()) {
                        proof {
                            assert(lookup_header_ci(
                                headers.deep_view(),
                                lower_of(self.spec_headers()[j as int].0),
                            ) != Some(self.spec_headers()[j as int].1));
                        }
                        return false;
                    }
                },
                None => {
                    proof {
                        assert(lookup_header_ci(
                            headers.deep_view(),
                            lower_of(self.spec_headers()[j as int].0),
                        ) != Some(self.spec_headers()[j as int].1));
                    }
                    return false;
                },
            }
            j += 1;
        }
        true
    }

    /// Find the first header whose lower-cased name equals `name_lower`.
    fn lookup_header<'a>(headers: &'a Vec<(String, String)>, name_lower: &str) -> (r: Option<
        &'a String,
    >)
        ensures
            r matches Some(v) ==> lookup_header_ci(headers.deep_view(), name_lower@) == Some(v@),
            r is None ==> lookup_header_ci(headers.deep_view(), name_lower@) is None,
    {
        let ghost hs = headers.deep_view();
        proof {
            assert(hs.skip(0) =~= hs);
        }
        let mut i: usize = 0;
        while i < headers.len()
            invariant
                i <= headers@.len(),
                hs == headers.deep_view(),
                hs.len() == headers@.len(),
                forall|k: int| 0 <= k < hs.len() ==> #[trigger] hs[k] == (headers@[k].0@, headers@[k].1@),
                lookup_header_ci(hs, name_lower@) == lookup_header_ci(
                    hs.skip(i as int),
                    name_lower@,
                ),
            decreases headers@.len() - i,
        {
            let key_lower = to_lowercase_str(headers[i].0.as_str());
            proof {
                assert(hs.skip(i as int).len() == hs.len() - i);
                assert(hs.skip(i as int)[0] == hs[i as int]);
            }
            if str_eq(key_lower.as_str(), name_lower) {
                return Some(&headers[i].1);
            }
            proof {
                assert(hs.skip(i as int).drop_first() =~= hs.skip(i as int + 1));
            }
            i += 1;
        }
        proof {
            assert(hs.skip(headers@.len() as int).len() == 0);
        }
        None
    }

    /// Decide whether the fault should apply, by percentage sampling:
    /// 0 never applies, 100 (or more) always applies, and anything between
    /// applies exactly when an independent uniform draw from [0, 100) falls
    /// below the percentage.
    pub fn should_apply<R: RandomSource>(&self, rng: &mut R) -> (r: bool)
        ensures
            self.spec_percentage() == 0 ==> !r,
            self.spec_percentage() >= 100 ==> r,
    {
        if self.percentage >= 100 {
            return true;
        }
        if self.percentage == 0 {
            return false;
        }
        let draw = rng.pick(0, 99);
        draw < self.percentage as u64
    }
}

// ------------------------------------------------------------------
// Excluded paths.
// ------------------------------------------------------------------

/// Whether `entry` excludes `path`: either exactly, or as a parent path
/// (the entry followed by `/`).
pub open spec fn excluded_entry_matches(path: Seq<char>, entry: Seq<char>) -> bool {
    path == entry || (entry.len() < path.len() && path.subrange(0, entry.len() as int) == entry
        && path[entry.len() as int] == '/')
}

/// Whether any excluded entry excludes `path`.
pub open spec fn is_excluded_spec(path: Seq<char>, excluded: Seq<Seq<char>>) -> bool {
    exists|i: int| 0 <= i < excluded.len() && excluded_entry_matches(path, #[trigger] excluded[i])
}

/// Check whether a path is excluded: it equals an excluded entry, or starts
/// with an excluded entry followed by `/`.
pub fn is_excluded_path(path: &str, excluded_paths: &Vec<String>) -> (r: bool)
    ensures
        r == is_excluded_spec(path@, excluded_paths.deep_view()),
{
    let ghost ex = excluded_paths.deep_view();
    let mut i: usize = 0;
    while i < excluded_paths.len()
        invariant
            i <= excluded_paths@.len(),
            ex == excluded_paths.deep_view(),
            ex.len() == excluded_paths@.len(),
            forall|k: int| 0 <= k < ex.len() ==> #[trigger] ex[k] == excluded_paths@[k]@,
            forall|k: int| 0 <= k < i ==> !excluded_entry_matches(path@, #[trigger] ex[k]),
        decreases excluded_paths@.len() - i,
    {
        let entry = &excluded_paths[i];
        if str_eq(path, entry.as_str()) {
            proof {
                assert(excluded_entry_matches(path@, ex[i as int]));
            }
            return true;
        }
        if str_starts_with(path, entry.as_str()) {
            let elen = entry.unicode_len();
            let plen = path.unicode_len();
            if elen < plen && path.get_char(elen) == '/' {
                proof {
                    assert(excluded_entry_matches(path@, ex[i as int]));
                }
                return true;
            }
        }
        proof {
            assert(!excluded_entry_matches(path@, ex[i as int]));
        }
        i += 1;
    }
    false
}

} // verus!
