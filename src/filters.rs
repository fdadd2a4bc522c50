//! Filter rules that rewrite or suppress window observations before they
//! are reported. Patterns are regular expressions that must match the whole
//! text.
use regex::Regex;
use vstd::prelude::*;

verus! {

#[verifier::external_type_specification]
#[verifier::external_body]
pub struct ExRegex(regex::Regex);

#[verifier::external_type_specification]
#[verifier::external_body]
pub struct ExRegexError(regex::Error);

/// Whether the regex crate accepts `pattern`.
pub uninterp spec fn regex_compiles(pattern: Seq<char>) -> bool;

/// Whether the regex compiled from `pattern` matches somewhere in `text`.
pub uninterp spec fn regex_is_match(pattern: Seq<char>, text: Seq<char>) -> bool;

/// Number of capture groups of the regex compiled from `pattern`, counting
/// the implicit group of the whole match.
pub uninterp spec fn regex_captures_len(pattern: Seq<char>) -> nat;

/// `text` with the leftmost match of `pattern` replaced by `replacement`,
/// where `$n` and `${name}` refer to capture groups.
pub uninterp spec fn regex_replace(pattern: Seq<char>, text: Seq<char>, replacement: Seq<char>) -> Seq<char>;

/// Relies on `regex::Regex::new`: fails exactly on patterns that the crate
/// does not accept.
#[verifier::external_body]
fn compile_regex(pattern: &str) -> (r: Result<Regex, regex::Error>)
    ensures
        r.is_ok() == regex_compiles(pattern@),
{
    Regex::new(pattern)
}

/// Relies on `regex::Regex::is_match`. A pattern's regex is only ever
/// compiled from its source, by [`Pattern::new`], so this is the regex of
/// `p@`.
#[verifier::external_body]
fn regex_matches(p: &Pattern, text: &str) -> (r: bool)
    ensures
        r == regex_is_match(p@, text@),
{
    p.regex.is_match(text)
}

/// Relies on `regex::Regex::captures_len` of the regex of `p@` (see
/// [`regex_matches`]), which counts the implicit group of the whole match
/// and so is at least one.
#[verifier::external_body]
fn regex_group_count(p: &Pattern) -> (r: usize)
    ensures
        r as nat == regex_captures_len(p@),
        r >= 1,
{
    p.regex.captures_len()
}

/// Relies on `regex::Regex::replace` of the regex of `p@` (see
/// [`regex_matches`]), which substitutes capture references in
/// `replacement`.
#[verifier::external_body]
fn regex_substitute(p: &Pattern, text: &str, replacement: &str) -> (r: String)
    ensures
        r@ == regex_replace(p@, text@, replacement@),
{
    p.regex.replace(text, replacement).to_string()
}

/// `pattern` wrapped so that it must match the whole text: a group that
/// captures nothing keeps a top-level alternation inside the anchors.
pub open spec fn anchored(pattern: Seq<char>) -> Seq<char> {
    seq!['^', '(', '?', ':'] + pattern + seq![')', '$']
}

/// A compiled whole-text regular expression with its anchored source.
pub struct Pattern {
    source: String,
    regex: Regex,
}

impl View for Pattern {
    type V = Seq<char>;

    /// The anchored source that the regex was compiled from.
    closed spec fn view(&self) -> Seq<char> {
        self.source@
    }
}

/// A pattern that the regex crate refused.
#[derive(Debug, PartialEq, Eq)]
pub struct PatternError {
    pub pattern: String,
}

impl Pattern {
    /// Compiles `pattern` anchored at both ends, as `^(?:pattern)$`.
    pub fn new(pattern: &str) -> (r: Result<Pattern, PatternError>)
        ensures
            r.is_ok() == regex_compiles(anchored(pattern@)),
            r matches Ok(p) ==> p@ == anchored(pattern@),
            r matches Err(e) ==> e.pattern@ == pattern@,
    {
        let mut source = String::from_str("^(?:");
        source.append(pattern);
        source.append(")$");
        proof {
            reveal_strlit("^(?:");
            reveal_strlit(")$");
            assert(source@ == anchored(pattern@));
        }
        match compile_regex(source.as_str()) {
            Ok(regex) => Ok(Pattern { source, regex }),
            Err(_) => Err(PatternError { pattern: String::from_str(pattern) }),
        }
    }

    /// Whether the pattern matches the whole of `text`.
    pub fn is_match(&self, text: &str) -> (r: bool)
        ensures
            r == regex_is_match(self@, text@),
    {
        regex_matches(self, text)
    }
}

/// Replacement values of a matching rule.
#[derive(Default, Debug, PartialEq)]
pub struct Replacement {
    pub replace_app_id: Option<String>,
    pub replace_title: Option<String>,
}

/// What one rule, or a rule list, decides for an observation.
#[derive(Debug, PartialEq)]
pub enum FilterResult {
    /// Report with these values in place of the observed ones.
    Replace(Replacement),
    /// Matched, and the observation is not reported.
    Match,
    /// No rule matched: report the observation as it is.
    Skip,
}

/// [`FilterResult`] over character sequences.
pub enum Verdict {
    Replace(Option<Seq<char>>, Option<Seq<char>>),
    Match,
    Skip,
}

pub open spec fn opt_view(o: Option<String>) -> Option<Seq<char>> {
    match o {
        Some(s) => Some(s@),
        None => None,
    }
}

impl View for FilterResult {
    type V = Verdict;

    open spec fn view(&self) -> Verdict {
        match self {
            FilterResult::Replace(r) => Verdict::Replace(
                opt_view(r.replace_app_id),
                opt_view(r.replace_title),
            ),
            FilterResult::Match => Verdict::Match,
            FilterResult::Skip => Verdict::Skip,
        }
    }
}

/// Whether `pattern`, if present, matches `text`.
pub open spec fn field_matches(pattern: Option<Pattern>, text: Seq<char>) -> bool {
    match pattern {
        Some(p) => regex_is_match(p@, text),
        None => true,
    }
}

/// The replacement text for a field: capture references are substituted
/// when the field's pattern has capture groups, else the text is literal.
pub open spec fn replaced(pattern: Option<Pattern>, source: Seq<char>, replacement: Seq<char>) -> Seq<char> {
    match pattern {
        Some(p) => if regex_captures_len(p@) > 1 {
            regex_replace(p@, source, replacement)
        } else {
            replacement
        },
        None => replacement,
    }
}

/// One match/replace rule.
pub struct Filter {
    pub match_app_id: Option<Pattern>,
    pub match_title: Option<Pattern>,
    pub replace_app_id: Option<String>,
    pub replace_title: Option<String>,
}

impl Filter {
    /// A rule needs at least one match field.
    pub open spec fn valid(self) -> bool {
        self.match_app_id is Some || self.match_title is Some
    }

    /// Every present match field matches.
    pub open spec fn matches(self, app_id: Seq<char>, title: Seq<char>) -> bool {
        field_matches(self.match_app_id, app_id) && field_matches(self.match_title, title)
    }

    /// What the rule decides for `(app_id, title)`.
    pub open spec fn outcome(self, app_id: Seq<char>, title: Seq<char>) -> Verdict {
        if !self.valid() || !self.matches(app_id, title) {
            Verdict::Skip
        } else if self.replace_app_id is None && self.replace_title is None {
            Verdict::Match
        } else {
            Verdict::Replace(
                match self.replace_app_id {
                    Some(r) => Some(replaced(self.match_app_id, app_id, r@)),
                    None => None,
                },
                match self.replace_title {
                    Some(r) => Some(replaced(self.match_title, title, r@)),
                    None => None,
                },
            )
        }
    }

    pub fn new(
        match_app_id: Option<Pattern>,
        match_title: Option<Pattern>,
        replace_app_id: Option<String>,
        replace_title: Option<String>,
    ) -> (r: Filter)
        ensures
            r == (Filter { match_app_id, match_title, replace_app_id, replace_title }),
    {
        Filter { match_app_id, match_title, replace_app_id, replace_title }
    }

    fn is_valid(&self) -> (r: bool)
        ensures
            r == self.valid(),
    {
        self.match_app_id.is_some() || self.match_title.is_some()
    }

    fn is_match(&self, app_id: &str, title: &str) -> (r: bool)
        ensures
            r == self.matches(app_id@, title@),
    {
        match &self.match_app_id {
            Some(p) => {
                if !p.is_match(app_id) {
                    return false;
                }
            },
            None => {},
        }
        match &self.match_title {
            Some(p) => {
                if !p.is_match(title) {
                    return false;
                }
            },
            None => {},
        }
        true
    }

    fn replace(pattern: &Option<Pattern>, source: &str, replacement: &str) -> (r: String)
        ensures
            r@ == replaced(*pattern, source@, replacement@),
    {
        match pattern {
            Some(p) => {
                if regex_group_count(p) > 1 {
                    return regex_substitute(p, source, replacement);
                }
            },
            None => {},
        }
        String::from_str(replacement)
    }

    /// Applies the rule to an observation.
    pub fn apply(&self, app_id: &str, title: &str) -> (r: FilterResult)
        ensures
            r@ == self.outcome(app_id@, title@),
    {
        if !self.is_valid() || !self.is_match(app_id, title) {
            return FilterResult::Skip;
        }
        if self.replace_app_id.is_none() && self.replace_title.is_none() {
            return FilterResult::Match;
        }
        let replace_app_id = match &self.replace_app_id {
            Some(new_app_id) => Some(Self::replace(&self.match_app_id, app_id, new_app_id.as_str())),
            None => None,
        };
        let replace_title = match &self.replace_title {
            Some(new_title) => Some(Self::replace(&self.match_title, title, new_title.as_str())),
            None => None,
        };
        FilterResult::Replace(Replacement { replace_app_id, replace_title })
    }
}

/// The decision of a rule list: the first rule that does not skip decides.
pub open spec fn first_match(filters: Seq<Filter>, app_id: Seq<char>, title: Seq<char>) -> Verdict
    decreases filters.len(),
{
    if filters.len() == 0 {
        Verdict::Skip
    } else {
        match filters[0].outcome(app_id, title) {
            Verdict::Skip => first_match(filters.drop_first(), app_id, title),
            v => v,
        }
    }
}

} // verus!
