//! Regexes over identifiers, and the cache that keeps the compiled ones.

use crate::errors::{FilterError, FilterErrorRepr};
use regex::bytes::{Regex, RegexBuilder};
use vstd::hash_map::StringHashMap;
use vstd::arithmetic::power2::pow2;
use vstd::prelude::*;
use vstd::utf8::encode_utf8;

verus! {

/// The first power of two to which the size of a compiled regex is limited.
pub const MIN_RE_POWER: u8 = 11;

/// The last power of two to which the size of a compiled regex is limited.
pub const MAX_RE_POWER: u8 = 20;

/// `regex::bytes::Regex`: a compiled regex.
#[verifier::external_type_specification]
#[verifier::external_body]
pub struct ExRegex(Regex);

/// The byte strings in which a compiled regex finds a match.
pub uninterp spec fn regex_language(re: Regex) -> Set<Seq<u8>>;

/// The byte strings in which the pattern finds a match under the given flags, or
/// `None` where the pattern does not parse.
pub uninterp spec fn pattern_language(
    pattern: Seq<char>,
    unicode: bool,
    case_insensitive: bool,
) -> Option<Set<Seq<u8>>>;

/// The byte strings in which `pattern` finds a match when it is read without
/// Unicode and without regard to case, or `None` where it does not parse.
pub open spec fn language(pattern: Seq<char>) -> Option<Set<Seq<u8>>> {
    pattern_language(pattern, false, true)
}

/// Whether `pattern` finds a match in `ident`.
pub open spec fn selects(pattern: Seq<char>, ident: Seq<char>) -> bool {
    language(pattern) matches Some(found) && found.contains(encode_utf8(ident))
}

/// Whether the pattern finds a match in every identifier.
pub open spec fn finds_all(pattern: Seq<char>) -> bool {
    forall|ident: Seq<char>| #[trigger] selects(pattern, ident)
}

/// Why a regex did not compile: it does not parse, or it takes more bytes than the
/// limit that was set.
#[derive(Debug, Clone, Copy, PartialEq, Eq, Structural)]
pub enum CompileError {
    Syntax,
    TooBig(usize),
}

/// `regex::bytes::RegexBuilder::build`: compiles a pattern under two flags and a
/// size limit.
///
/// A pattern that does not parse gives a syntax error, whatever the limit; one
/// that parses gives the regex, or the error that it is too big, with the limit
/// that was set. Which of the two is left unsaid: sizes are counted in the
/// machine's words. Above the limit stated here errors of other kinds are reported
/// as syntax errors too. The pattern `.*` parses, and its regex, which is one of a
/// few states, is not too big for the largest limit stated here. As it matches
/// nothing at all too, it finds a match in any text.
#[verifier::external_body]
fn compile(pattern: &str, unicode: bool, case_insensitive: bool, size_limit: usize) -> (r: Result<
    Regex,
    CompileError,
>)
    requires
        size_limit <= 0x10_0000,
    ensures
        match r {
            Ok(re) => {
                &&& pattern_language(pattern@, unicode, case_insensitive) == Some(
                    regex_language(re),
                )
                &&& pattern@ == ".*"@ ==> forall|text: Seq<u8>| #[trigger]
                    regex_language(re).contains(text)
            },
            Err(CompileError::Syntax) => {
                &&& pattern_language(pattern@, unicode, case_insensitive) is None
                &&& pattern@ != ".*"@
            },
            Err(CompileError::TooBig(limit)) => {
                &&& pattern_language(pattern@, unicode, case_insensitive) is Some
                &&& limit == size_limit
                &&& size_limit == 0x10_0000 ==> pattern@ != ".*"@
            },
        },
{
    match RegexBuilder::new(pattern)
        .unicode(unicode)
        .size_limit(size_limit)
        .case_insensitive(case_insensitive)
        .build()
    {
        Ok(re) => Ok(re),
        Err(regex::Error::CompiledTooBig(limit)) => Err(CompileError::TooBig(limit)),
        Err(_) => Err(CompileError::Syntax),
    }
}

/// `regex::bytes::Regex::is_match`: whether the regex finds a match in the bytes
/// of the text.
#[verifier::external_body]
pub(crate) fn is_match(re: &Regex, text: &str) -> (r: bool)
    ensures
        r == regex_language(*re).contains(encode_utf8(text@)),
{
    re.is_match(text.as_bytes())
}

/// The power of two to try after a compilation at `power` failed, if there is
/// one: only a regex that was too big is given more room.
pub fn retry(power: u8, why: CompileError) -> (r: Option<u8>)
    ensures
        r == (if why is TooBig && power < MAX_RE_POWER {
            Some((power + 1) as u8)
        } else {
            None
        }),
{
    match why {
        CompileError::TooBig(_) if power < MAX_RE_POWER => Some(power + 1),
        _ => None,
    }
}

/// `2` to the power of `power`.
fn size_of_power(power: u8) -> (r: usize)
    requires
        power <= MAX_RE_POWER,
    ensures
        r == pow2(power as nat),
        r <= 0x10_0000,
{
    let mut size: usize = 1;
    let mut i: u8 = 0;
    proof {
        vstd::arithmetic::power2::lemma2_to64();
    }
    while i < power
        invariant
            i <= power <= MAX_RE_POWER,
            size == pow2(i as nat),
            size <= 0x10_0000,
        decreases power - i,
    {
        proof {
            vstd::arithmetic::power2::lemma_pow2_unfold((i + 1) as nat);
            vstd::arithmetic::power2::lemma2_to64();
            if i + 1 < MAX_RE_POWER {
                vstd::arithmetic::power2::lemma_pow2_strictly_increases(
                    (i + 1) as nat,
                    MAX_RE_POWER as nat,
                );
            }
        }
        size = size * 2;
        i = i + 1;
    }
    size
}

/// Compiles a regex, giving it more and more room until it fits or the largest
/// size has been tried.
pub fn build_re(re: &str) -> (r: Result<Regex, CompileError>)
    ensures
        re@ == ".*"@ ==> r is Ok,
        match r {
            Ok(compiled) => {
                &&& language(re@) == Some(regex_language(compiled))
                &&& re@ == ".*"@ ==> finds_all(re@)
            },
            Err(CompileError::Syntax) => language(re@) is None,
            Err(CompileError::TooBig(limit)) => language(re@) is Some && limit == pow2(
                MAX_RE_POWER as nat,
            ),
        },
{
    let mut power: u8 = MIN_RE_POWER;
    proof {
        vstd::arithmetic::power2::lemma2_to64();
    }
    loop
        invariant
            MIN_RE_POWER <= power <= MAX_RE_POWER,
            pow2(MAX_RE_POWER as nat) == 0x10_0000,
        decreases MAX_RE_POWER - power,
    {
        match compile(re, false, true, size_of_power(power)) {
            Ok(compiled) => {
                return Ok(compiled);
            },
            Err(why) => match retry(power, why) {
                Some(next) => {
                    power = next;
                },
                None => {
                    return Err(why);
                },
            },
        }
    }
}

/// The error for a regex that did not compile.
pub open spec fn rejected(re: Seq<char>, why: CompileError, err: FilterErrorRepr) -> bool {
    &&& err.source() == re
    &&& err is RegexSyntax <==> why is Syntax
}

/// Names the regex that did not compile, and why.
pub fn reject(re: &str, why: CompileError) -> (r: FilterError)
    ensures
        rejected(re@, why, r.repr()),
{
    match why {
        CompileError::Syntax => FilterError::new(FilterErrorRepr::RegexSyntax(re.to_owned())),
        CompileError::TooBig(_) => FilterError::new(FilterErrorRepr::RegexTooBig(re.to_owned())),
    }
}

/// The regexes that have been compiled, by their pattern.
///
/// The cache is unbounded: the regexes that are submitted are written by hand.
pub struct ReCache {
    map: StringHashMap<Regex>,
}

impl ReCache {
    /// Every regex was compiled from the pattern that it is kept by, and finds all
    /// that this pattern is known to find.
    #[verifier::type_invariant]
    spec fn inv(self) -> bool {
        forall|p: Seq<char>| #[trigger]
            self.map@.dom().contains(p) ==> {
                &&& language(p) == Some(regex_language(self.map@[p]))
                &&& p == ".*"@ ==> finds_all(p)
            }
    }

    /// The patterns that have been compiled.
    pub closed spec fn known(self) -> Set<Seq<char>> {
        self.map@.dom()
    }

    pub fn new() -> (r: Self)
        ensures
            r.known() == Set::<Seq<char>>::empty(),
    {
        ReCache { map: StringHashMap::new() }
    }

    /// The regex that was compiled from the pattern, if it was.
    pub fn get(&self, re: &str) -> (r: Option<&Regex>)
        ensures
            r is Some <==> self.known().contains(re@),
            r matches Some(compiled) ==> language(re@) == Some(regex_language(*compiled)),
    {
        proof {
            use_type_invariant(self);
        }
        self.map.get(re)
    }

    /// Sees to it that the cache holds the regex.
    ///
    /// A regex that is there already is kept as it is. One that is not is
    /// compiled and added; where that fails, the cache stays as it was.
    pub fn probe_re(&mut self, re: &str) -> (r: Result<(), FilterError>)
        ensures
            old(self).known().contains(re@) ==> r is Ok && *final(self) == *old(self),
            re@ == ".*"@ ==> r is Ok,
            match r {
                Ok(()) => {
                    &&& final(self).known() == old(self).known().insert(re@)
                    &&& language(re@) is Some
                    &&& re@ == ".*"@ ==> finds_all(re@)
                },
                Err(err) => {
                    &&& *final(self) == *old(self)
                    &&& err.repr().source() == re@
                    &&& err.repr() is RegexSyntax <==> language(re@) is None
                },
            },
    {
        proof {
            use_type_invariant(&*self);
        }
        if !self.map.contains_key(re) {
            match build_re(re) {
                Ok(compiled) => {
                    let mut map: StringHashMap<Regex> = StringHashMap::new();
                    std::mem::swap(&mut map, &mut self.map);
                    map.insert(re.to_owned(), compiled);
                    self.map = map;
                },
                Err(why) => {
                    return Err(reject(re, why));
                },
            }
        }
        assert(self.known() =~= old(self).known().insert(re@));
        Ok(())
    }
}

} // verus!
