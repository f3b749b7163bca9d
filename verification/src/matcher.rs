//! Matching attachment entries by their display names: the set of acceptable
//! names, the exact match over a descriptor's two name fields, and the
//! matcher-independent suffix match used by the lenient fallback passes.
use vstd::prelude::*;
use crate::model::{DisplayName, FileDescriptor};

verus! {

/// `s` ends with `suffix`.
pub open spec fn spec_has_suffix(s: Seq<char>, suffix: Seq<char>) -> bool {
    s.len() >= suffix.len() && s.subrange(s.len() - suffix.len(), s.len() as int) == suffix
}

/// Whether the character sequence of `s` ends with that of `suffix`.
pub fn str_ends_with(s: &str, suffix: &str) -> (r: bool)
    ensures
        r == spec_has_suffix(s@, suffix@),
{
    let n = s.unicode_len();
    let m = suffix.unicode_len();
    if m > n {
        return false;
    }
    let off = n - m;
    let mut i: usize = 0;
    while i < m
        invariant
            0 <= i <= m,
            m <= n,
            n == s@.len(),
            m == suffix@.len(),
            off == n - m,
            forall|j: int| 0 <= j < i ==> s@[off + j] == suffix@[j],
        decreases m - i,
    {
        if s.get_char(off + i) != suffix.get_char(i) {
            proof {
                assert(s@.subrange(n - m, n as int)[i as int] == s@[off + i]);
            }
            return false;
        }
        i += 1;
    }
    proof {
        assert(s@.subrange(n - m, n as int) =~= suffix@);
    }
    true
}

/// Decides whether a candidate display name is one of the acceptable
/// attachment names.  The set is never empty: it holds either one explicit
/// or derived name, or the built-in default pair.
pub struct FileMatcher {
    names: Vec<String>,
}

/// `name` equals one of `names`, exactly and case-sensitively.
pub open spec fn names_match_text(names: Seq<Seq<char>>, name: Seq<char>) -> bool {
    exists|i: int| 0 <= i < names.len() && names[i] == name
}

/// A candidate matches iff it decoded as text and that text is one of
/// `names`; an undecodable candidate never matches.
pub open spec fn names_match(names: Seq<Seq<char>>, candidate: DisplayName) -> bool {
    match candidate.spec_text() {
        Some(t) => names_match_text(names, t),
        None => false,
    }
}

/// The exact-match result over one optional name field: the decoded text if
/// the field is present, decodable and one of `names`.
pub open spec fn field_text_matching(names: Seq<Seq<char>>, n: Option<DisplayName>) -> Option<
    Seq<char>,
> {
    match n {
        Some(d) => if names_match(names, d) {
            d.spec_text()
        } else {
            None
        },
        None => None,
    }
}

/// The display name under which a descriptor matches `names`: the plain
/// field is evaluated first and preferred, the Unicode field is the
/// fallback.
pub open spec fn spec_matching_name(names: Seq<Seq<char>>, d: FileDescriptor) -> Option<
    Seq<char>,
> {
    if field_text_matching(names, d.name_plain) is Some {
        field_text_matching(names, d.name_plain)
    } else {
        field_text_matching(names, d.name_unicode)
    }
}

/// The suffix-match result over one optional name field: the decoded text if
/// the field is present, decodable and ends with `suffix`.
pub open spec fn field_text_with_suffix(n: Option<DisplayName>, suffix: Seq<char>) -> Option<
    Seq<char>,
> {
    match n {
        Some(DisplayName::Decoded(s)) => if spec_has_suffix(s@, suffix) {
            Some(s@)
        } else {
            None
        },
        Some(DisplayName::Undecodable) => None,
        None => None,
    }
}

/// The display name under which a descriptor ends with `suffix`: the plain
/// field is preferred, the Unicode field is the fallback.
pub open spec fn spec_matching_suffix(d: FileDescriptor, suffix: Seq<char>) -> Option<Seq<char>> {
    if field_text_with_suffix(d.name_plain, suffix) is Some {
        field_text_with_suffix(d.name_plain, suffix)
    } else {
        field_text_with_suffix(d.name_unicode, suffix)
    }
}

impl FileMatcher {
    /// The acceptable names as character sequences.
    pub closed spec fn spec_names(self) -> Seq<Seq<char>> {
        self.names@.map(|i: int, s: String| s@)
    }

    /// The name set is never empty.
    pub open spec fn wf(self) -> bool {
        self.spec_names().len() > 0
    }

    /// `name` equals one of the acceptable names, exactly and case-sensitively.
    pub open spec fn spec_matches_text(self, name: Seq<char>) -> bool {
        names_match_text(self.spec_names(), name)
    }

    /// A candidate matches iff it decoded as text and that text is one of the
    /// acceptable names; an undecodable candidate never matches.
    pub open spec fn spec_matches(self, candidate: DisplayName) -> bool {
        names_match(self.spec_names(), candidate)
    }

    /// The display name under which a descriptor matches: the plain field is
    /// evaluated first and preferred, the Unicode field is the fallback.
    pub open spec fn spec_matching_name(self, d: FileDescriptor) -> Option<Seq<char>> {
        spec_matching_name(self.spec_names(), d)
    }

    /// A matcher for the given explicit name, or for the default pair when
    /// none is given.
    pub fn from(file: &Option<String>) -> (m: FileMatcher)
        ensures
            m.wf(),
            match file {
                Some(name) => m.spec_names() == seq![name@],
                None => m.spec_names() == seq!["factur-x.xml"@, "xrechnung.xml"@],
            },
    {
        match file {
            Some(name) => Self::from_name(name.as_str()),
            None => Self::from_default(),
        }
    }

    /// A matcher for the built-in default attachment names.
    pub fn from_default() -> (m: FileMatcher)
        ensures
            m.wf(),
            m.spec_names() == seq!["factur-x.xml"@, "xrechnung.xml"@],
    {
        let names: Vec<String> = vec![
            String::from_str("factur-x.xml"),
            String::from_str("xrechnung.xml"),
        ];
        let m = FileMatcher { names };
        proof {
            assert(m.spec_names() =~= seq!["factur-x.xml"@, "xrechnung.xml"@]);
        }
        m
    }

    /// A matcher that accepts exactly the given name.
    pub fn from_name(file: &str) -> (m: FileMatcher)
        ensures
            m.wf(),
            m.spec_names() == seq![file@],
    {
        let names: Vec<String> = vec![String::from_str(file)];
        let m = FileMatcher { names };
        proof {
            assert(m.spec_names() =~= seq![file@]);
        }
        m
    }

    /// Whether the given text equals any of the acceptable names.
    pub fn matches_text(&self, name: &String) -> (r: bool)
        ensures
            r == self.spec_matches_text(name@),
    {
        let mut i: usize = 0;
        while i < self.names.len()
            invariant
                0 <= i <= self.names@.len(),
                forall|j: int| 0 <= j < i ==> self.spec_names()[j] != name@,
            decreases self.names@.len() - i,
        {
            if self.names[i] == *name {
                proof {
                    assert(self.spec_names()[i as int] == name@);
                }
                return true;
            }
            i += 1;
        }
        false
    }

    /// Whether the candidate display name is acceptable.  A candidate whose
    /// decoding failed is treated as a non-match, not as an error.
    pub fn matches(&self, candidate: &DisplayName) -> (r: bool)
        ensures
            r == self.spec_matches(*candidate),
    {
        match candidate {
            DisplayName::Decoded(s) => self.matches_text(s),
            DisplayName::Undecodable => false,
        }
    }

    /// The exact match over one optional name field.
    fn field_match<'a>(&self, n: &'a Option<DisplayName>) -> (r: Option<&'a String>)
        ensures
            match r {
                Some(s) => field_text_matching(self.spec_names(), *n) == Some(s@),
                None => field_text_matching(self.spec_names(), *n) is None,
            },
    {
        match n {
            Some(DisplayName::Decoded(s)) => if self.matches_text(s) {
                Some(s)
            } else {
                None
            },
            _ => None,
        }
    }

    /// Evaluates both of the descriptor's name fields against the matcher,
    /// returning the first hit; the plain field is preferred when both match.
    pub fn matching_name<'a>(&self, d: &'a FileDescriptor) -> (r: Option<&'a String>)
        ensures
            match r {
                Some(s) => self.spec_matching_name(*d) == Some(s@),
                None => self.spec_matching_name(*d) is None,
            },
    {
        match self.field_match(&d.name_plain) {
            Some(s) => Some(s),
            None => self.field_match(&d.name_unicode),
        }
    }

    /// The suffix match over one optional name field.
    fn field_suffix<'a>(n: &'a Option<DisplayName>, suffix: &str) -> (r: Option<&'a String>)
        ensures
            match r {
                Some(s) => field_text_with_suffix(*n, suffix@) == Some(s@),
                None => field_text_with_suffix(*n, suffix@) is None,
            },
    {
        match n {
            Some(DisplayName::Decoded(s)) => if str_ends_with(s.as_str(), suffix) {
                Some(s)
            } else {
                None
            },
            _ => None,
        }
    }

    /// The display name under which either of the descriptor's name fields
    /// ends with the given suffix.  This pass is independent of any matcher
    /// and backs the lenient fallback searches.
    pub fn matching_suffix<'a>(d: &'a FileDescriptor, suffix: &str) -> (r: Option<&'a String>)
        ensures
            match r {
                Some(s) => spec_matching_suffix(*d, suffix@) == Some(s@),
                None => spec_matching_suffix(*d, suffix@) is None,
            },
    {
        match Self::field_suffix(&d.name_plain, suffix) {
            Some(s) => Some(s),
            None => Self::field_suffix(&d.name_unicode, suffix),
        }
    }
}

} // verus!
