//! Compiled regular expressions, kept together with the source they were
//! compiled from.
use vstd::prelude::*;
use vstd::string::*;

verus! {

#[verifier::external_type_specification]
#[verifier::external_body]
pub struct ExRegex(fancy_regex::Regex);

#[verifier::external_type_specification]
#[verifier::external_body]
pub struct ExRegexError(fancy_regex::Error);

/// Whether a pattern is accepted by the regular-expression compiler.
pub uninterp spec fn regex_compiles(pattern: Seq<char>) -> bool;

/// The groups of the leftmost match of `pattern` in the UTF-8 bytes `text`, as
/// byte spans; group 0 is the whole match. `None` when nothing matches.
pub uninterp spec fn regex_captures(pattern: Seq<char>, text: Seq<u8>) -> Option<
    Seq<Option<(usize, usize)>>,
>;

/// Relies on `fancy_regex::Regex::new`: it succeeds exactly on the patterns it
/// can parse and compile, which depends on the pattern alone.
#[verifier::external_body]
fn compile(source: &str) -> (r: Result<fancy_regex::Regex, fancy_regex::Error>)
    ensures
        r.is_ok() == regex_compiles(source@),
{
    fancy_regex::Regex::new(source)
}

/// A pattern that failed to compile.
#[derive(Debug)]
pub struct PatternError {
    pub pattern: String,
}

/// A compiled regular expression. It is compiled once, in `Pattern::new`, from
/// the source it keeps, and never changes afterwards.
pub struct Pattern {
    source: String,
    regex: fancy_regex::Regex,
}

impl View for Pattern {
    type V = Seq<char>;

    closed spec fn view(&self) -> Seq<char> {
        self.source@
    }
}

impl Pattern {
    /// Compiles `source`; fails exactly when the compiler refuses it.
    pub fn new(source: &str) -> (r: Result<Pattern, PatternError>)
        ensures
            r.is_ok() == regex_compiles(source@),
            r matches Ok(p) ==> p@ == source@,
            r matches Err(e) ==> e.pattern@ == source@,
    {
        match compile(source) {
            Ok(regex) => Ok(Pattern { source: source.to_owned(), regex }),
            Err(_) => Err(PatternError { pattern: source.to_owned() }),
        }
    }

    /// The source the pattern was compiled from.
    pub fn as_str(&self) -> (r: &str)
        ensures
            r@ == self@,
    {
        self.source.as_str()
    }

    /// Relies on `fancy_regex::Regex::captures`, on the regex that `new`
    /// compiled from `self@`: the groups of the leftmost match as byte spans.
    /// An error of the matcher (its backtracking limit) is taken as no match.
    #[verifier::external_body]
    pub(crate) fn captures(&self, text: &str) -> (r: Option<Vec<Option<(usize, usize)>>>)
        ensures
            regex_captures(self@, text.spec_bytes()) == match r {
                Some(v) => Some(v@),
                None => None::<Seq<Option<(usize, usize)>>>,
            },
    {
        match self.regex.captures(text) {
            Ok(Some(caps)) => Some(caps.iter().map(|m| m.map(|m| (m.start(), m.end()))).collect()),
            _ => None,
        }
    }
}

} // verus!
