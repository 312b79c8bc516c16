//! Keyword buckets for free-text policy types: Life, Health, Motor and
//! Other. `policy_type` stays free text; the buckets are matched by keyword.
use vstd::prelude::*;
use crate::filter::{Cond, CondV, Filter, FilterV, Test, TestV};
use crate::text::{
    alphanumeric, chars_to_string, contains_chars, contains_seq, is_alphanumeric, lowercase,
    matches_at, occurs_at, push_str, str_chars, to_lowercase,
};
use crate::value::str_eq;

verus! {

/// Keywords that put a policy type in the Health bucket.
pub open spec fn health_keywords() -> Seq<Seq<char>> {
    seq!["health"@, "medical"@, "mediclaim"@, "hospital"@]
}

/// Keywords that put a policy type in the Life bucket.
pub open spec fn life_keywords() -> Seq<Seq<char>> {
    seq!["life"@, "term"@, "ulip"@, "endowment"@, "pension"@]
}

/// Keywords that put a policy type in the Motor bucket ("tw" is the
/// industry abbreviation for two-wheeler).
pub open spec fn motor_keywords() -> Seq<Seq<char>> {
    seq!["motor"@, "vehicle"@, "car"@, "bike"@, "wheeler"@, "auto"@, "tw"@]
}

/// Keywords short enough that only a whole word matches them.
pub open spec fn is_short_word(kw: Seq<char>) -> bool {
    kw == "tw"@
}

fn health_keyword_list() -> (v: Vec<&'static str>)
    ensures
        v@.map_values(|s: &str| s@) == health_keywords(),
{
    let v = vec!["health", "medical", "mediclaim", "hospital"];
    assert(v@.map_values(|s: &str| s@) =~= health_keywords());
    v
}

fn life_keyword_list() -> (v: Vec<&'static str>)
    ensures
        v@.map_values(|s: &str| s@) == life_keywords(),
{
    let v = vec!["life", "term", "ulip", "endowment", "pension"];
    assert(v@.map_values(|s: &str| s@) =~= life_keywords());
    v
}

fn motor_keyword_list() -> (v: Vec<&'static str>)
    ensures
        v@.map_values(|s: &str| s@) == motor_keywords(),
{
    let v = vec!["motor", "vehicle", "car", "bike", "wheeler", "auto", "tw"];
    assert(v@.map_values(|s: &str| s@) =~= motor_keywords());
    v
}

/// `c` separates words: it is not alphanumeric.
pub open spec fn is_separator(c: char) -> bool {
    !alphanumeric(c)
}

/// `w` is one of the pieces of `s` split at separators, starting at `i`.
pub open spec fn word_at(s: Seq<char>, w: Seq<char>, i: int) -> bool {
    &&& occurs_at(s, w, i)
    &&& (i == 0 || is_separator(s[i - 1]))
    &&& (i + w.len() == s.len() || is_separator(s[i + w.len()]))
    &&& forall|k: int| i <= k < i + w.len() ==> !is_separator(#[trigger] s[k])
}

/// `w` is one of the pieces of `s` split at separators.
pub open spec fn has_word(s: Seq<char>, w: Seq<char>) -> bool {
    exists|i: int| word_at(s, w, i)
}

/// How one keyword matches lower-cased text: as a whole word for the short
/// keywords, as a substring otherwise.
pub open spec fn keyword_matches(lower: Seq<char>, kw: Seq<char>) -> bool {
    if is_short_word(kw) {
        has_word(lower, kw)
    } else {
        contains_seq(lower, kw)
    }
}

/// Some keyword of the list matches.
pub open spec fn any_keyword(lower: Seq<char>, kws: Seq<Seq<char>>) -> bool {
    exists|i: int| 0 <= i < kws.len() && keyword_matches(lower, #[trigger] kws[i])
}

/// The four buckets.
#[derive(Clone, Copy, Debug, PartialEq, Eq, Structural)]
pub enum PolicyCategory {
    Health,
    Life,
    Motor,
    Other,
}

/// Bucket of lower-cased text, by keyword priority Health, Life, Motor.
pub open spec fn classify_lower(lower: Seq<char>) -> PolicyCategory {
    if any_keyword(lower, health_keywords()) {
        PolicyCategory::Health
    } else if any_keyword(lower, life_keywords()) {
        PolicyCategory::Life
    } else if any_keyword(lower, motor_keywords()) {
        PolicyCategory::Motor
    } else {
        PolicyCategory::Other
    }
}

/// Display name of a bucket.
pub open spec fn category_name(c: PolicyCategory) -> Seq<char> {
    match c {
        PolicyCategory::Health => "Health"@,
        PolicyCategory::Life => "Life"@,
        PolicyCategory::Motor => "Motor"@,
        PolicyCategory::Other => "Other"@,
    }
}

/// Whether `w` is a whole word of `s` at position `i`.
fn word_at_exec(s: &Vec<char>, w: &Vec<char>, i: usize) -> (r: bool)
    requires
        i <= s.len(),
    ensures
        r == word_at(s@, w@, i as int),
{
    if !matches_at(s, w, i) {
        return false;
    }
    if i > 0 && is_alphanumeric(s[i - 1]) {
        return false;
    }
    let end = i + w.len();
    if end < s.len() && is_alphanumeric(s[end]) {
        return false;
    }
    let mut k: usize = i;
    while k < end
        invariant
            i <= k <= end,
            end == i + w.len(),
            end <= s.len(),
            forall|j: int| i <= j < k ==> !is_separator(#[trigger] s@[j]),
        decreases end - k,
    {
        if !is_alphanumeric(s[k]) {
            return false;
        }
        k = k + 1;
    }
    true
}

/// Whether `w` is one of the separator-split pieces of `s`.
fn has_word_exec(s: &Vec<char>, w: &Vec<char>) -> (r: bool)
    ensures
        r == has_word(s@, w@),
{
    let mut i: usize = 0;
    while i <= s.len()
        invariant
            i <= s.len() + 1,
            forall|j: int| 0 <= j < i ==> !word_at(s@, w@, j),
        decreases s.len() + 1 - i,
    {
        if word_at_exec(s, w, i) {
            return true;
        }
        if i == s.len() {
            assert forall|j: int| !word_at(s@, w@, j) by {
                if 0 <= j && j <= i {
                } else {
                    assert(!occurs_at(s@, w@, j));
                }
            }
            return false;
        }
        i = i + 1;
    }
    false
}

/// Whether a keyword matches lower-cased text.
pub fn matches_keyword(lower: &Vec<char>, keyword: &str) -> (r: bool)
    ensures
        r == keyword_matches(lower@, keyword@),
{
    let kw = str_chars(keyword);
    if str_eq(keyword, "tw") {
        has_word_exec(lower, &kw)
    } else {
        contains_chars(lower, &kw)
    }
}

/// Whether some keyword of the list matches lower-cased text.
fn any_keyword_exec(lower: &Vec<char>, kws: &Vec<&'static str>) -> (r: bool)
    ensures
        r == any_keyword(lower@, kws@.map_values(|s: &str| s@)),
{
    let ghost ks = kws@.map_values(|s: &str| s@);
    let mut i: usize = 0;
    while i < kws.len()
        invariant
            i <= kws.len(),
            ks == kws@.map_values(|s: &str| s@),
            forall|j: int| 0 <= j < i ==> !keyword_matches(lower@, #[trigger] ks[j]),
        decreases kws.len() - i,
    {
        if matches_keyword(lower, kws[i]) {
            assert(keyword_matches(lower@, ks[i as int]));
            return true;
        }
        i = i + 1;
    }
    false
}

/// Classifies a free-text policy type into exactly one bucket: the first of
/// Health, Life and Motor with a keyword in the lower-cased text, else
/// Other.
pub fn classify(policy_type: &str) -> (r: &'static str)
    ensures
        r@ == category_name(classify_lower(lowercase(policy_type@))),
{
    let lower_s = to_lowercase(policy_type);
    let lower = str_chars(lower_s.as_str());
    if any_keyword_exec(&lower, &health_keyword_list()) {
        "Health"
    } else if any_keyword_exec(&lower, &life_keyword_list()) {
        "Life"
    } else if any_keyword_exec(&lower, &motor_keyword_list()) {
        "Motor"
    } else {
        "Other"
    }
}

/// The regex fragment for one keyword: word-boundary anchored for the short
/// keywords, the keyword itself otherwise.
pub open spec fn fragment(kw: Seq<char>) -> Seq<char> {
    if is_short_word(kw) {
        "\\b"@ + kw + "\\b"@
    } else {
        kw
    }
}

/// The regex fragment for one keyword.
pub fn keyword_regex_fragment(keyword: &str) -> (r: String)
    ensures
        r@ == fragment(keyword@),
{
    if str_eq(keyword, "tw") {
        let mut out = str_chars("\\b");
        push_str(&mut out, keyword);
        push_str(&mut out, "\\b");
        chars_to_string(&out)
    } else {
        keyword.to_string()
    }
}

/// Fragments joined by `|`: an alternation of the keywords.
pub open spec fn alternation(kws: Seq<Seq<char>>) -> Seq<char>
    decreases kws.len(),
{
    if kws.len() == 0 {
        seq![]
    } else if kws.len() == 1 {
        fragment(kws[0])
    } else {
        alternation(kws.subrange(0, kws.len() - 1)) + "|"@ + fragment(kws[kws.len() - 1])
    }
}

fn alternation_exec(kws: &Vec<&'static str>) -> (r: String)
    ensures
        r@ == alternation(kws@.map_values(|s: &str| s@)),
{
    let ghost ks = kws@.map_values(|s: &str| s@);
    let mut out: Vec<char> = Vec::new();
    let mut i: usize = 0;
    while i < kws.len()
        invariant
            i <= kws.len(),
            ks == kws@.map_values(|s: &str| s@),
            out@ == alternation(ks.subrange(0, i as int)),
        decreases kws.len() - i,
    {
        let f = keyword_regex_fragment(kws[i]);
        assert(ks.subrange(0, i + 1).subrange(0, i as int) =~= ks.subrange(0, i as int));
        if i > 0 {
            push_str(&mut out, "|");
        }
        push_str(&mut out, f.as_str());
        i = i + 1;
    }
    assert(ks.subrange(0, kws.len() as int) =~= ks);
    chars_to_string(&out)
}

/// All keywords of the three named buckets, in order.
pub open spec fn all_keywords() -> Seq<Seq<char>> {
    health_keywords() + life_keywords() + motor_keywords()
}

/// The filter that `category_filter` builds for a lower-cased category.
pub open spec fn category_filter_spec(lower: Seq<char>) -> Option<FilterV> {
    let cond = |pattern: Seq<char>, negate: bool|
        FilterV::Doc(seq![CondV { field: "policy_type"@, test: TestV::Regex { pattern, negate } }]);
    if lower == "health"@ {
        Some(cond(alternation(health_keywords()), false))
    } else if lower == "life"@ {
        Some(cond(alternation(life_keywords()), false))
    } else if lower == "motor"@ {
        Some(cond(alternation(motor_keywords()), false))
    } else if lower == "other"@ {
        Some(cond(alternation(all_keywords()), true))
    } else {
        None
    }
}

fn policy_type_regex(pattern: String, negate: bool) -> (f: Filter)
    ensures
        f@ == FilterV::Doc(seq![CondV { field: "policy_type"@, test: TestV::Regex { pattern: pattern@, negate } }]),
{
    let field = "policy_type".to_string();
    proof {
        vstd::string::to_string_from_display_ensures_for_str("policy_type", field);
    }
    Filter::single(Cond { field, test: Test::Regex { pattern, negate } })
}

/// The policy-type filter for a category ("life", "health", "motor" or
/// "other", in any case): a case-insensitive regex alternation of the
/// bucket's keywords, for "other" the negation of all of them; `None` for
/// any other category.
pub fn category_filter(category: &str) -> (r: Option<Filter>)
    ensures
        match r {
            Some(f) => category_filter_spec(lowercase(category@)) == Some(f@),
            None => category_filter_spec(lowercase(category@)) is None,
        },
{
    let lower = to_lowercase(category);
    if str_eq(lower.as_str(), "health") {
        Some(policy_type_regex(alternation_exec(&health_keyword_list()), false))
    } else if str_eq(lower.as_str(), "life") {
        Some(policy_type_regex(alternation_exec(&life_keyword_list()), false))
    } else if str_eq(lower.as_str(), "motor") {
        Some(policy_type_regex(alternation_exec(&motor_keyword_list()), false))
    } else if str_eq(lower.as_str(), "other") {
        let mut all = health_keyword_list();
        let mut life = life_keyword_list();
        let mut motor = motor_keyword_list();
        all.append(&mut life);
        all.append(&mut motor);
        assert(all@.map_values(|s: &str| s@) =~= all_keywords());
        Some(policy_type_regex(alternation_exec(&all), true))
    } else {
        None
    }
}


/// The text contains none of the Health words.
pub open spec fn no_health_word(lower: Seq<char>) -> bool {
    &&& !contains_seq(lower, "health"@)
    &&& !contains_seq(lower, "medical"@)
    &&& !contains_seq(lower, "mediclaim"@)
    &&& !contains_seq(lower, "hospital"@)
}

/// The text contains none of the Life words.
pub open spec fn no_life_word(lower: Seq<char>) -> bool {
    &&& !contains_seq(lower, "life"@)
    &&& !contains_seq(lower, "term"@)
    &&& !contains_seq(lower, "ulip"@)
    &&& !contains_seq(lower, "endowment"@)
    &&& !contains_seq(lower, "pension"@)
}

/// The text contains none of the Motor words, and "tw" is not one of its
/// words.
pub open spec fn no_motor_word(lower: Seq<char>) -> bool {
    &&& !contains_seq(lower, "motor"@)
    &&& !contains_seq(lower, "vehicle"@)
    &&& !contains_seq(lower, "car"@)
    &&& !contains_seq(lower, "bike"@)
    &&& !contains_seq(lower, "wheeler"@)
    &&& !contains_seq(lower, "auto"@)
    &&& !has_word(lower, "tw"@)
}

/// The keyword literals, told apart from the short word "tw".
proof fn lemma_keyword_literals()
    ensures
        health_keywords() == seq!["health"@, "medical"@, "mediclaim"@, "hospital"@],
        life_keywords() == seq!["life"@, "term"@, "ulip"@, "endowment"@, "pension"@],
        motor_keywords() == seq!["motor"@, "vehicle"@, "car"@, "bike"@, "wheeler"@, "auto"@, "tw"@],
        forall|i: int| 0 <= i < 4 ==> !is_short_word(#[trigger] health_keywords()[i]),
        forall|i: int| 0 <= i < 5 ==> !is_short_word(#[trigger] life_keywords()[i]),
        forall|i: int| 0 <= i < 6 ==> !is_short_word(#[trigger] motor_keywords()[i]),
        is_short_word(motor_keywords()[6]),
{
    reveal_strlit("health");
    reveal_strlit("medical");
    reveal_strlit("mediclaim");
    reveal_strlit("hospital");
    reveal_strlit("life");
    reveal_strlit("term");
    reveal_strlit("ulip");
    reveal_strlit("endowment");
    reveal_strlit("pension");
    reveal_strlit("motor");
    reveal_strlit("vehicle");
    reveal_strlit("car");
    reveal_strlit("bike");
    reveal_strlit("wheeler");
    reveal_strlit("auto");
    reveal_strlit("tw");
    assert forall|i: int| 0 <= i < 4 implies !is_short_word(#[trigger] health_keywords()[i]) by {
        assert(health_keywords()[i].len() != "tw"@.len());
    }
    assert forall|i: int| 0 <= i < 5 implies !is_short_word(#[trigger] life_keywords()[i]) by {
        assert(life_keywords()[i].len() != "tw"@.len());
    }
    assert forall|i: int| 0 <= i < 6 implies !is_short_word(#[trigger] motor_keywords()[i]) by {
        assert(motor_keywords()[i].len() != "tw"@.len());
    }
}

/// Text holding "health", "medical", "mediclaim" or "hospital" is Health.
pub proof fn lemma_health_bucket(lower: Seq<char>, w: Seq<char>)
    requires
        w == "health"@ || w == "medical"@ || w == "mediclaim"@ || w == "hospital"@,
        contains_seq(lower, w),
    ensures
        classify_lower(lower) == PolicyCategory::Health,
{
    lemma_keyword_literals();
    let hk = health_keywords();
    let i: int = if w == "health"@ { 0 } else if w == "medical"@ { 1 } else if w == "mediclaim"@ { 2 } else { 3 };
    assert(hk[i] == w);
    assert(keyword_matches(lower, hk[i]));
}

/// Text holding "life", "term", "ulip", "endowment" or "pension", and none
/// of the Health words, is Life.
pub proof fn lemma_life_bucket(lower: Seq<char>, w: Seq<char>)
    requires
        w == "life"@ || w == "term"@ || w == "ulip"@ || w == "endowment"@ || w == "pension"@,
        contains_seq(lower, w),
        no_health_word(lower),
    ensures
        classify_lower(lower) == PolicyCategory::Life,
{
    lemma_keyword_literals();
    let lk = life_keywords();
    let i: int = if w == "life"@ { 0 } else if w == "term"@ { 1 } else if w == "ulip"@ { 2 } else if w
        == "endowment"@ { 3 } else { 4 };
    assert(lk[i] == w);
    assert(keyword_matches(lower, lk[i]));
    assert(!any_keyword(lower, health_keywords()));
}

/// Text holding "motor", "vehicle", "car", "bike", "wheeler" or "auto", or
/// the word "tw", and none of the Health or Life words, is Motor.
pub proof fn lemma_motor_bucket(lower: Seq<char>, w: Seq<char>)
    requires
        (w == "motor"@ || w == "vehicle"@ || w == "car"@ || w == "bike"@ || w == "wheeler"@ || w == "auto"@)
            && contains_seq(lower, w) || w == "tw"@ && has_word(lower, w),
        no_health_word(lower),
        no_life_word(lower),
    ensures
        classify_lower(lower) == PolicyCategory::Motor,
{
    lemma_keyword_literals();
    let mk = motor_keywords();
    let i: int = if w == "motor"@ { 0 } else if w == "vehicle"@ { 1 } else if w == "car"@ { 2 } else if w
        == "bike"@ { 3 } else if w == "wheeler"@ { 4 } else if w == "auto"@ { 5 } else { 6 };
    assert(mk[i] == w);
    assert(keyword_matches(lower, mk[i]));
    assert(!any_keyword(lower, health_keywords()));
    assert(!any_keyword(lower, life_keywords()));
}

/// Text holding none of the keywords is Other.
pub proof fn lemma_other_bucket(lower: Seq<char>)
    requires
        no_health_word(lower),
        no_life_word(lower),
        no_motor_word(lower),
    ensures
        classify_lower(lower) == PolicyCategory::Other,
{
    lemma_keyword_literals();
    assert(!any_keyword(lower, health_keywords()));
    assert(!any_keyword(lower, life_keywords()));
    assert(!any_keyword(lower, motor_keywords()));
}


/// The regex condition on the policy type.
pub open spec fn policy_type_regex_cond(pattern: Seq<char>, negate: bool) -> FilterV {
    FilterV::Doc(seq![CondV { field: "policy_type"@, test: TestV::Regex { pattern, negate } }])
}

/// Alternation of keywords, unfolded one keyword at a time.
proof fn lemma_alternation_push(kws: Seq<Seq<char>>, kw: Seq<char>)
    requires
        kws.len() > 0,
    ensures
        alternation(kws.push(kw)) == alternation(kws) + "|"@ + fragment(kw),
{
    assert(kws.push(kw).subrange(0, kws.len() as int) =~= kws);
}

/// The category filters match the keyword buckets: for "health", "life"
/// and "motor" a regex on the policy type alternating exactly that
/// bucket's words, and for "other" the negated alternation of all of them
/// ("tw" only as a whole word); any other category has no filter.
pub proof fn lemma_category_filters(c: Seq<char>)
    ensures
        c == "health"@ ==> category_filter_spec(c) == Some(policy_type_regex_cond("health|medical|mediclaim|hospital"@, false)),
        c == "life"@ ==> category_filter_spec(c) == Some(policy_type_regex_cond("life|term|ulip|endowment|pension"@, false)),
        c == "motor"@ ==> category_filter_spec(c) == Some(policy_type_regex_cond("motor|vehicle|car|bike|wheeler|auto|\\btw\\b"@, false)),
        c == "other"@ ==> category_filter_spec(c) == Some(policy_type_regex_cond(
            "health|medical|mediclaim|hospital|life|term|ulip|endowment|pension|motor|vehicle|car|bike|wheeler|auto|\\btw\\b"@,
            true,
        )),
        c != "health"@ && c != "life"@ && c != "motor"@ && c != "other"@ ==> category_filter_spec(c) is None,
{
    lemma_keyword_literals();
    reveal_strlit("\\b");
    reveal_strlit("auto");
    reveal_strlit("bike");
    reveal_strlit("car");
    reveal_strlit("endowment");
    reveal_strlit("health");
    reveal_strlit("hospital");
    reveal_strlit("life");
    reveal_strlit("medical");
    reveal_strlit("mediclaim");
    reveal_strlit("motor");
    reveal_strlit("other");
    reveal_strlit("pension");
    reveal_strlit("term");
    reveal_strlit("tw");
    reveal_strlit("ulip");
    reveal_strlit("vehicle");
    reveal_strlit("wheeler");
    reveal_strlit("|");
    reveal_strlit("health|medical|mediclaim|hospital");
    reveal_strlit("life|term|ulip|endowment|pension");
    reveal_strlit("motor|vehicle|car|bike|wheeler|auto|\\btw\\b");
    reveal_strlit("health|medical|mediclaim|hospital|life|term|ulip|endowment|pension|motor|vehicle|car|bike|wheeler|auto|\\btw\\b");
    let h0: Seq<Seq<char>> = seq!["health"@];
    assert(alternation(h0) == fragment("health"@));
    let h1 = h0.push("medical"@);
    lemma_alternation_push(h0, "medical"@);
    let h2 = h1.push("mediclaim"@);
    lemma_alternation_push(h1, "mediclaim"@);
    let h3 = h2.push("hospital"@);
    lemma_alternation_push(h2, "hospital"@);
    assert(h3 =~= health_keywords());
    let l0: Seq<Seq<char>> = seq!["life"@];
    assert(alternation(l0) == fragment("life"@));
    let l1 = l0.push("term"@);
    lemma_alternation_push(l0, "term"@);
    let l2 = l1.push("ulip"@);
    lemma_alternation_push(l1, "ulip"@);
    let l3 = l2.push("endowment"@);
    lemma_alternation_push(l2, "endowment"@);
    let l4 = l3.push("pension"@);
    lemma_alternation_push(l3, "pension"@);
    assert(l4 =~= life_keywords());
    let m0: Seq<Seq<char>> = seq!["motor"@];
    assert(alternation(m0) == fragment("motor"@));
    let m1 = m0.push("vehicle"@);
    lemma_alternation_push(m0, "vehicle"@);
    let m2 = m1.push("car"@);
    lemma_alternation_push(m1, "car"@);
    let m3 = m2.push("bike"@);
    lemma_alternation_push(m2, "bike"@);
    let m4 = m3.push("wheeler"@);
    lemma_alternation_push(m3, "wheeler"@);
    let m5 = m4.push("auto"@);
    lemma_alternation_push(m4, "auto"@);
    let m6 = m5.push("tw"@);
    lemma_alternation_push(m5, "tw"@);
    assert(m6 =~= motor_keywords());
    let a0: Seq<Seq<char>> = seq!["health"@];
    assert(alternation(a0) == fragment("health"@));
    let a1 = a0.push("medical"@);
    lemma_alternation_push(a0, "medical"@);
    let a2 = a1.push("mediclaim"@);
    lemma_alternation_push(a1, "mediclaim"@);
    let a3 = a2.push("hospital"@);
    lemma_alternation_push(a2, "hospital"@);
    let a4 = a3.push("life"@);
    lemma_alternation_push(a3, "life"@);
    let a5 = a4.push("term"@);
    lemma_alternation_push(a4, "term"@);
    let a6 = a5.push("ulip"@);
    lemma_alternation_push(a5, "ulip"@);
    let a7 = a6.push("endowment"@);
    lemma_alternation_push(a6, "endowment"@);
    let a8 = a7.push("pension"@);
    lemma_alternation_push(a7, "pension"@);
    let a9 = a8.push("motor"@);
    lemma_alternation_push(a8, "motor"@);
    let a10 = a9.push("vehicle"@);
    lemma_alternation_push(a9, "vehicle"@);
    let a11 = a10.push("car"@);
    lemma_alternation_push(a10, "car"@);
    let a12 = a11.push("bike"@);
    lemma_alternation_push(a11, "bike"@);
    let a13 = a12.push("wheeler"@);
    lemma_alternation_push(a12, "wheeler"@);
    let a14 = a13.push("auto"@);
    lemma_alternation_push(a13, "auto"@);
    let a15 = a14.push("tw"@);
    lemma_alternation_push(a14, "tw"@);
    assert(a15 =~= all_keywords());
    assert(alternation(h3) =~= "health|medical|mediclaim|hospital"@);
    assert(alternation(l4) =~= "life|term|ulip|endowment|pension"@);
    assert(alternation(m6) =~= "motor|vehicle|car|bike|wheeler|auto|\\btw\\b"@);
    assert(alternation(a15) =~= "health|medical|mediclaim|hospital|life|term|ulip|endowment|pension|motor|vehicle|car|bike|wheeler|auto|\\btw\\b"@);
    assert(alternation(all_keywords()) == "health|medical|mediclaim|hospital|life|term|ulip|endowment|pension|motor|vehicle|car|bike|wheeler|auto|\\btw\\b"@);
    if c == "other"@ {
        assert("other"@.len() != "health"@.len() && "other"@.len() != "life"@.len());
        assert("other"@[0] != "motor"@[0]);
    }
}
} // verus!
