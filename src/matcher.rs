//! Matching a file name against a compiled expression and expanding the
//! replacement template with the captured groups.

use vstd::prelude::*;

verus! {

#[verifier::external_type_specification]
#[verifier::external_body]
pub struct ExRegex(regex::Regex);

#[verifier::external_type_specification]
#[verifier::external_body]
pub struct ExRegexError(regex::Error);

/// The name that `re` gives to `name` under `template`: `None` where `re`
/// matches nowhere in `name`, otherwise the template with each capture
/// reference replaced by the text of the first match's group.
pub uninterp spec fn expansion_of(re: regex::Regex, name: Seq<char>, template: Seq<char>) -> Option<
    Seq<char>,
>;

/// Whether `pattern` compiles: it is valid syntax and its regex stays within
/// the default size limit.
pub uninterp spec fn compiles(pattern: Seq<char>) -> bool;

/// Relies on `regex::Regex::new`: compiles `pattern` with the default
/// options, or reports why it cannot; which of the two depends on the
/// pattern alone.
#[verifier::external_body]
fn compile(pattern: &str) -> (r: Result<regex::Regex, regex::Error>)
    ensures
        r is Ok <==> compiles(pattern@),
{
    regex::Regex::new(pattern)
}

/// Relies on `regex::Regex::captures` (leftmost-first search anywhere in the
/// haystack) and `regex::Captures::expand` (template interpolation); together
/// they depend on the regex, the haystack and the template alone.
#[verifier::external_body]
fn captures_expanded(re: &regex::Regex, name: &str, template: &str) -> (r: Option<String>)
    ensures
        match r {
            Some(s) => expansion_of(*re, name@, template@) == Some(s@),
            None => expansion_of(*re, name@, template@) is None,
        },
{
    re.captures(name).map(
        |caps| {
            let mut out = String::new();
            caps.expand(template, &mut out);
            out
        },
    )
}

/// A compiled expression together with the replacement template.
pub struct Repl {
    expr: regex::Regex,
    repl: String,
    pattern: Ghost<Seq<char>>,
}

/// Why a renaming cannot be set up.
#[derive(Debug)]
pub enum ConfigError {
    /// The expression does not compile.
    InvalidExpression(regex::Error),
    /// `force` was combined with `interactive` or `no-clobber`.
    ConflictingFlags,
}

impl Repl {
    /// The compiled expression.
    pub closed spec fn expression(&self) -> regex::Regex {
        self.expr
    }

    /// The expression text that was compiled.
    pub closed spec fn pattern(&self) -> Seq<char> {
        self.pattern@
    }

    /// The replacement template.
    pub closed spec fn template(&self) -> Seq<char> {
        self.repl@
    }

    /// What `file_name` is renamed to, if the expression matches in it.
    pub open spec fn renamed(&self, file_name: Seq<char>) -> Option<Seq<char>> {
        expansion_of(self.expression(), file_name, self.template())
    }

    /// Compiles `expression` once; fails with `InvalidExpression` exactly when
    /// the expression does not compile.
    pub fn new(expression: &str, template: &str) -> (r: Result<Repl, ConfigError>)
        ensures
            r is Ok <==> compiles(expression@),
            r matches Ok(repl) ==> repl.pattern() == expression@ && repl.template() == template@,
            r is Err ==> r matches Err(ConfigError::InvalidExpression(_)),
    {
        match compile(expression) {
            Ok(expr) => Ok(Repl { expr, repl: template.to_string(), pattern: Ghost(expression@) }),
            Err(e) => Err(ConfigError::InvalidExpression(e)),
        }
    }

    /// The new name for `file_name`, or `None` where the expression finds no
    /// match in it.
    pub fn try_rename(&self, file_name: &str) -> (r: Option<String>)
        ensures
            match r {
                Some(s) => self.renamed(file_name@) == Some(s@),
                None => self.renamed(file_name@) is None,
            },
    {
        captures_expanded(&self.expr, file_name, self.repl.as_str())
    }
}

} // verus!
