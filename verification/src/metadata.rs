//! Deriving the attachment name from the document's metadata text: locate
//! the single description block that advertises the Factur-X invoice
//! namespace, then extract the file-name declaration inside it, which may
//! stand either as element text or as an attribute value.
use vstd::prelude::*;
use vstd::string::StrSliceExecFns;
use vstd::string::StringExecFns;

verus! {

/// The pattern `p` occurs in `t` at position `i`.
pub open spec fn occurs_at(t: Seq<char>, p: Seq<char>, i: int) -> bool {
    0 <= i && i + p.len() <= t.len() && t.subrange(i, i + p.len()) == p
}

/// The first position at or after `from` where `p` occurs in `t`.
pub open spec fn spec_find(t: Seq<char>, p: Seq<char>, from: int) -> Option<int>
    decreases t.len() + 1 - from,
{
    if from < 0 || from + p.len() > t.len() {
        None
    } else if t.subrange(from, from + p.len()) == p {
        Some(from)
    } else {
        spec_find(t, p, from + 1)
    }
}

/// The first position at or after `from` holding `c`.
pub open spec fn spec_find_char(t: Seq<char>, from: int, c: char) -> Option<int>
    decreases t.len() + 1 - from,
{
    if from < 0 || from >= t.len() {
        None
    } else if t[from] == c {
        Some(from)
    } else {
        spec_find_char(t, from + 1, c)
    }
}

/// The first position at or after `from` holding a tag delimiter, `/` or `>`.
pub open spec fn spec_find_delim(t: Seq<char>, from: int) -> Option<int>
    decreases t.len() + 1 - from,
{
    if from < 0 || from >= t.len() {
        None
    } else if t[from] == '/' || t[from] == '>' {
        Some(from)
    } else {
        spec_find_delim(t, from + 1)
    }
}

/// `c` occurs in `t` somewhere in `[lo, hi)`.
pub open spec fn has_char_in(t: Seq<char>, lo: int, hi: int, c: char) -> bool {
    exists|k: int| lo <= k < hi && t[k] == c
}

/// One of the characters an XML document treats as white space.
pub open spec fn is_space_char(c: char) -> bool {
    c == ' ' || c == '\t' || c == '\n' || c == '\r'
}

/// `s` holds nothing but white space (so also when it is empty).
pub open spec fn is_blank(s: Seq<char>) -> bool {
    forall|k: int| 0 <= k < s.len() ==> is_space_char(s[k])
}

/// The opening of a description element, up to its first attribute.
pub open spec fn desc_open_pat() -> Seq<char> {
    "<rdf:Description "@
}

/// The namespace declaration that identifies the Factur-X cross-industry
/// invoice block.
pub open spec fn ns_marker_pat() -> Seq<char> {
    "xmlns:fx=\"urn:factur-x:pdfa:CrossIndustryDocument:invoice"@
}

/// The closing tag of the description element.
pub open spec fn desc_close_pat() -> Seq<char> {
    "</rdf:Description>"@
}

/// The file-name declaration in element form, as the opening tag's tail.
pub open spec fn elem_open_pat() -> Seq<char> {
    "fx:DocumentFileName>"@
}

/// The closing tag of the file-name element.
pub open spec fn elem_close_pat() -> Seq<char> {
    "</fx:DocumentFileName>"@
}

/// The file-name declaration in attribute form, up to the opening quote.
pub open spec fn attr_open_pat() -> Seq<char> {
    "fx:DocumentFileName=\""@
}

/// Where the description block starting at `i` ends, one past its last
/// character: the block opens at `i`, declares the invoice namespace inside
/// its opening tag (no `>` before the declaration), and is either
/// self-closed (`/>`) or runs to the first closing tag after the opening
/// tag's `>`.  `None` when no such block starts at `i`.
pub open spec fn spec_candidate_end(t: Seq<char>, i: int) -> Option<int> {
    if !occurs_at(t, desc_open_pat(), i) {
        None
    } else {
        let p = i + desc_open_pat().len();
        match spec_find(t, ns_marker_pat(), p) {
            None => None,
            Some(m) => if has_char_in(t, p, m, '>') {
                None
            } else {
                let q = m + ns_marker_pat().len();
                match spec_find_delim(t, q) {
                    None => None,
                    Some(r) => if r == q {
                        None
                    } else if t[r] == '/' {
                        if r + 1 < t.len() && t[r + 1] == '>' {
                            Some(r + 2)
                        } else {
                            None
                        }
                    } else {
                        match spec_find(t, desc_close_pat(), r + 1) {
                            None => None,
                            Some(c) => Some(c + desc_close_pat().len()),
                        }
                    },
                }
            },
        }
    }
}

/// The first description block in `t` at or after `pos`, as its bounds.
pub open spec fn spec_locate_block(t: Seq<char>, pos: int) -> Option<(int, int)>
    decreases t.len() + 1 - pos,
{
    if pos < 0 || pos >= t.len() {
        None
    } else {
        match spec_candidate_end(t, pos) {
            Some(e) => Some((pos, e)),
            None => spec_locate_block(t, pos + 1),
        }
    }
}

/// The value of the first element-form file-name declaration in the block.
pub open spec fn spec_element_value(b: Seq<char>) -> Option<Seq<char>> {
    match spec_find(b, elem_open_pat(), 0) {
        None => None,
        Some(e) => {
            let vs = e + elem_open_pat().len();
            match spec_find(b, elem_close_pat(), vs) {
                None => None,
                Some(c) => Some(b.subrange(vs, c)),
            }
        },
    }
}

/// The value of the first attribute-form file-name declaration in the block.
pub open spec fn spec_attr_value(b: Seq<char>) -> Option<Seq<char>> {
    match spec_find(b, attr_open_pat(), 0) {
        None => None,
        Some(a) => {
            let vs = a + attr_open_pat().len();
            match spec_find_char(b, vs, '"') {
                None => None,
                Some(c) => Some(b.subrange(vs, c)),
            }
        },
    }
}

/// The file name declared in the block: the element-text form is preferred,
/// the attribute form is the fallback, and a value that is blank after
/// trimming is rejected.
pub open spec fn spec_block_name(b: Seq<char>) -> Option<Seq<char>> {
    let ev = spec_element_value(b);
    let av = spec_attr_value(b);
    if ev is Some && !is_blank(ev.unwrap()) {
        ev
    } else if av is Some && !is_blank(av.unwrap()) {
        av
    } else {
        None
    }
}

/// Why no attachment name could be derived from the metadata text: the
/// description block is absent, or it holds no usable file-name declaration.
/// The two are distinct failures of this component; the pipeline classifies
/// both under the same error kind.
#[derive(Clone, Copy, PartialEq, Eq, Structural, Debug)]
pub enum NameScanError {
    DescriptionMissing,
    FileNameMissing,
}

/// The attachment name the metadata text declares.
pub open spec fn spec_extract_name(t: Seq<char>) -> Result<Seq<char>, NameScanError> {
    match spec_locate_block(t, 0) {
        None => Err(NameScanError::DescriptionMissing),
        Some((s, e)) => match spec_block_name(t.subrange(s, e)) {
            Some(v) => Ok(v),
            None => Err(NameScanError::FileNameMissing),
        },
    }
}

/// Whether `pat` occurs in `t` at position `i`.
pub(crate) fn matches_at(t: &str, pat: &str, i: usize) -> (r: bool)
    ensures
        r == occurs_at(t@, pat@, i as int),
{
    let n = t.unicode_len();
    let m = pat.unicode_len();
    if i > n || m > n - i {
        return false;
    }
    let mut j: usize = 0;
    while j < m
        invariant
            0 <= j <= m,
            i + m <= n,
            n == t@.len(),
            m == pat@.len(),
            forall|k: int| 0 <= k < j ==> t@[i + k] == pat@[k],
        decreases m - j,
    {
        if t.get_char(i + j) != pat.get_char(j) {
            proof {
                assert(t@.subrange(i as int, i + m)[j as int] == t@[i + j]);
            }
            return false;
        }
        j += 1;
    }
    proof {
        assert(t@.subrange(i as int, i + m) =~= pat@);
    }
    true
}

/// The first occurrence of `pat` in `t` at or after `from`.
pub(crate) fn find_from(t: &str, pat: &str, from: usize) -> (r: Option<usize>)
    ensures
        match r {
            Some(i) => spec_find(t@, pat@, from as int) == Some(i as int) && from <= i
                && occurs_at(t@, pat@, i as int),
            None => spec_find(t@, pat@, from as int) is None,
        },
{
    let n = t.unicode_len();
    let m = pat.unicode_len();
    let mut pos = from;
    while pos <= n && m <= n - pos
        invariant
            from <= pos,
            n == t@.len(),
            m == pat@.len(),
            spec_find(t@, pat@, from as int) == spec_find(t@, pat@, pos as int),
        decreases n + 1 - pos,
    {
        if matches_at(t, pat, pos) {
            return Some(pos);
        }
        proof {
            assert(pos + m <= n);
            assert(t@.subrange(pos as int, pos + m) != pat@);
            if m == 0 {
                assert(t@.subrange(pos as int, pos as int) =~= pat@);
            }
        }
        pos += 1;
    }
    None
}

/// The first position at or after `from` holding `c`.
pub(crate) fn find_char(t: &str, from: usize, c: char) -> (r: Option<usize>)
    ensures
        match r {
            Some(k) => spec_find_char(t@, from as int, c) == Some(k as int) && from <= k && k
                < t@.len() && t@[k as int] == c,
            None => spec_find_char(t@, from as int, c) is None,
        },
{
    let n = t.unicode_len();
    let mut pos = from;
    while pos < n
        invariant
            from <= pos,
            n == t@.len(),
            spec_find_char(t@, from as int, c) == spec_find_char(t@, pos as int, c),
        decreases n - pos,
    {
        if t.get_char(pos) == c {
            return Some(pos);
        }
        pos += 1;
    }
    None
}

/// The first position at or after `from` holding `/` or `>`.
pub(crate) fn find_delim(t: &str, from: usize) -> (r: Option<usize>)
    ensures
        match r {
            Some(k) => spec_find_delim(t@, from as int) == Some(k as int) && from <= k && k
                < t@.len() && (t@[k as int] == '/' || t@[k as int] == '>'),
            None => spec_find_delim(t@, from as int) is None,
        },
{
    let n = t.unicode_len();
    let mut pos = from;
    while pos < n
        invariant
            from <= pos,
            n == t@.len(),
            spec_find_delim(t@, from as int) == spec_find_delim(t@, pos as int),
        decreases n - pos,
    {
        let c = t.get_char(pos);
        if c == '/' || c == '>' {
            return Some(pos);
        }
        pos += 1;
    }
    None
}

/// Whether `c` occurs in `t` somewhere in `[lo, hi)`.
pub(crate) fn contains_char_between(t: &str, lo: usize, hi: usize, c: char) -> (r: bool)
    requires
        lo <= hi <= t@.len(),
    ensures
        r == has_char_in(t@, lo as int, hi as int, c),
{
    let mut pos = lo;
    while pos < hi
        invariant
            lo <= pos <= hi <= t@.len(),
            forall|k: int| lo <= k < pos ==> t@[k] != c,
        decreases hi - pos,
    {
        if t.get_char(pos) == c {
            return true;
        }
        pos += 1;
    }
    false
}

/// Whether `s` holds nothing but white space.
pub(crate) fn is_blank_str(s: &str) -> (r: bool)
    ensures
        r == is_blank(s@),
{
    let n = s.unicode_len();
    let mut pos: usize = 0;
    while pos < n
        invariant
            0 <= pos <= n,
            n == s@.len(),
            forall|k: int| 0 <= k < pos ==> is_space_char(s@[k]),
        decreases n - pos,
    {
        let c = s.get_char(pos);
        if !(c == ' ' || c == '\t' || c == '\n' || c == '\r') {
            return false;
        }
        pos += 1;
    }
    true
}

/// Where the description block starting at `i` ends, if one starts there.
fn candidate_end(t: &str, i: usize) -> (r: Option<usize>)
    ensures
        match r {
            Some(e) => spec_candidate_end(t@, i as int) == Some(e as int) && i <= e <= t@.len(),
            None => spec_candidate_end(t@, i as int) is None,
        },
{
    let desc = "<rdf:Description ";
    let ns = "xmlns:fx=\"urn:factur-x:pdfa:CrossIndustryDocument:invoice";
    let close = "</rdf:Description>";
    let n = t.unicode_len();
    if !matches_at(t, desc, i) {
        return None;
    }
    let p = i + desc.unicode_len();
    let m = match find_from(t, ns, p) {
        None => {
            return None;
        },
        Some(m) => m,
    };
    if contains_char_between(t, p, m, '>') {
        return None;
    }
    let q = m + ns.unicode_len();
    let r = match find_delim(t, q) {
        None => {
            return None;
        },
        Some(r) => r,
    };
    if r == q {
        return None;
    }
    if t.get_char(r) == '/' {
        if r + 1 < n && t.get_char(r + 1) == '>' {
            Some(r + 2)
        } else {
            None
        }
    } else {
        match find_from(t, close, r + 1) {
            None => None,
            Some(c) => Some(c + close.unicode_len()),
        }
    }
}

/// The bounds of the first description block of the metadata text that
/// advertises the Factur-X invoice namespace.
pub fn locate_description_block(t: &str) -> (r: Option<(usize, usize)>)
    ensures
        match r {
            Some(se) => spec_locate_block(t@, 0) == Some((se.0 as int, se.1 as int)) && se.0
                <= se.1 <= t@.len(),
            None => spec_locate_block(t@, 0) is None,
        },
{
    let n = t.unicode_len();
    let mut pos: usize = 0;
    while pos < n
        invariant
            0 <= pos <= n,
            n == t@.len(),
            spec_locate_block(t@, 0) == spec_locate_block(t@, pos as int),
        decreases n - pos,
    {
        match candidate_end(t, pos) {
            Some(e) => {
                return Some((pos, e));
            },
            None => {},
        }
        pos += 1;
    }
    None
}

/// The value of the first element-form file-name declaration in the block.
fn element_value<'a>(b: &'a str) -> (r: Option<&'a str>)
    ensures
        match r {
            Some(v) => spec_element_value(b@) == Some(v@),
            None => spec_element_value(b@) is None,
        },
{
    let eo = "fx:DocumentFileName>";
    let ec = "</fx:DocumentFileName>";
    let n = b.unicode_len();
    match find_from(b, eo, 0) {
        None => None,
        Some(e) => {
            let vs = e + eo.unicode_len();
            match find_from(b, ec, vs) {
                None => None,
                Some(c) => Some(b.substring_char(vs, c)),
            }
        },
    }
}

/// The value of the first attribute-form file-name declaration in the block.
fn attr_value<'a>(b: &'a str) -> (r: Option<&'a str>)
    ensures
        match r {
            Some(v) => spec_attr_value(b@) == Some(v@),
            None => spec_attr_value(b@) is None,
        },
{
    let ao = "fx:DocumentFileName=\"";
    let n = b.unicode_len();
    match find_from(b, ao, 0) {
        None => None,
        Some(a) => {
            let vs = a + ao.unicode_len();
            match find_char(b, vs, '"') {
                None => None,
                Some(c) => Some(b.substring_char(vs, c)),
            }
        },
    }
}

/// Derives the attachment file name declared in the given metadata text.
/// The element-text form is preferred over the attribute form, a blank value
/// is rejected, and the two failure shapes are classified, never defaulted
/// here: falling back to the default name pair is the orchestrator's call.
pub fn extract_document_file_name(text: &str) -> (r: Result<String, NameScanError>)
    ensures
        match r {
            Ok(s) => spec_extract_name(text@) == Ok::<_, NameScanError>(s@),
            Err(e) => spec_extract_name(text@) == Err::<Seq<char>, _>(e),
        },
{
    let se = match locate_description_block(text) {
        None => {
            return Err(NameScanError::DescriptionMissing);
        },
        Some(se) => se,
    };
    let block = text.substring_char(se.0, se.1);
    match element_value(block) {
        Some(v) => {
            if !is_blank_str(v) {
                return Ok(String::from_str(v));
            }
        },
        None => {},
    }
    match attr_value(block) {
        Some(v) => {
            if !is_blank_str(v) {
                return Ok(String::from_str(v));
            }
        },
        None => {},
    }
    Err(NameScanError::FileNameMissing)
}

} // verus!
