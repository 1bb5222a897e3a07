//! Crate specifiers: `name`, `name@version`, `name@~version`.
use vstd::prelude::*;

verus! {

/// Why a crate token was rejected.
#[derive(Debug, Clone, Copy, PartialEq, Eq, Structural)]
pub enum SpecifierError {
    /// Nothing stands before the `@` (or the token is empty).
    EmptyName,
    /// The name holds a character other than an ASCII letter, a digit, `-` or `_`.
    InvalidName,
    /// Nothing stands after the `@`.
    EmptyVersion,
}

/// A crate to fetch, with the version constraint given for it, if any.
#[derive(Debug, Clone, PartialEq, Eq)]
pub struct CrateSpecifier {
    pub name: String,
    pub version: Option<String>,
}

/// The mathematical value of a `CrateSpecifier`.
pub ghost struct SpecifierModel {
    pub name: Seq<char>,
    pub version: Option<Seq<char>>,
}

pub open spec fn option_view(o: Option<String>) -> Option<Seq<char>> {
    match o {
        Some(s) => Some(s@),
        None => None,
    }
}

impl View for CrateSpecifier {
    type V = SpecifierModel;

    open spec fn view(&self) -> SpecifierModel {
        SpecifierModel { name: self.name@, version: option_view(self.version) }
    }
}

/// A character allowed in a package name.
pub open spec fn is_name_char(c: char) -> bool {
    ('a' <= c && c <= 'z') || ('A' <= c && c <= 'Z') || ('0' <= c && c <= '9') || c == '-'
        || c == '_'
}

/// A package name: non-empty, made of name characters only.
pub open spec fn is_valid_name(s: Seq<char>) -> bool {
    s.len() > 0 && forall|i: int| 0 <= i < s.len() ==> is_name_char(#[trigger] s[i])
}

/// Index of the last `@` in `s`, or -1 where there is none.
pub open spec fn last_at(s: Seq<char>) -> int
    decreases s.len(),
{
    if s.len() == 0 {
        -1
    } else if s.last() == '@' {
        s.len() - 1
    } else {
        last_at(s.drop_last())
    }
}

/// What stands before the last `@` (the whole token where there is none).
pub open spec fn name_part(s: Seq<char>) -> Seq<char> {
    if last_at(s) < 0 {
        s
    } else {
        s.subrange(0, last_at(s))
    }
}

/// What stands after the last `@`, where there is one.
pub open spec fn version_part(s: Seq<char>) -> Option<Seq<char>> {
    if last_at(s) < 0 {
        None
    } else {
        Some(s.subrange(last_at(s) + 1, s.len() as int))
    }
}

/// The specifier that a token denotes, or why it is rejected.
pub open spec fn spec_parse(s: Seq<char>) -> Result<SpecifierModel, SpecifierError> {
    if name_part(s).len() == 0 {
        Err(SpecifierError::EmptyName)
    } else if !is_valid_name(name_part(s)) {
        Err(SpecifierError::InvalidName)
    } else if version_part(s) == Some(Seq::<char>::empty()) {
        Err(SpecifierError::EmptyVersion)
    } else {
        Ok(SpecifierModel { name: name_part(s), version: version_part(s) })
    }
}

/// The value of a parse result.
pub open spec fn parse_model(r: Result<CrateSpecifier, SpecifierError>) -> Result<
    SpecifierModel,
    SpecifierError,
> {
    match r {
        Ok(c) => Ok(c@),
        Err(e) => Err(e),
    }
}

fn is_name_char_exec(c: char) -> (r: bool)
    ensures
        r == is_name_char(c),
{
    ('a' <= c && c <= 'z') || ('A' <= c && c <= 'Z') || ('0' <= c && c <= '9') || c == '-'
        || c == '_'
}

/// Whether `s` is a valid package name.
pub fn is_valid_crate_name(s: &str) -> (r: bool)
    ensures
        r == is_valid_name(s@),
{
    let n = s.unicode_len();
    if n == 0 {
        return false;
    }
    let mut i: usize = 0;
    while i < n
        invariant
            i <= n,
            n == s@.len(),
            forall|j: int| 0 <= j < i ==> is_name_char(#[trigger] s@[j]),
        decreases n - i,
    {
        if !is_name_char_exec(s.get_char(i)) {
            return false;
        }
        i = i + 1;
    }
    true
}

fn find_last_at(s: &str) -> (r: Option<usize>)
    ensures
        match r {
            Some(k) => last_at(s@) == k as int && (k as int) < s@.len(),
            None => last_at(s@) == -1,
        },
{
    let n = s.unicode_len();
    let mut i: usize = n;
    let mut k: Option<usize> = None;
    assert(s@.subrange(0, n as int) =~= s@);
    while i > 0
        invariant
            i <= n,
            n == s@.len(),
            k is Some ==> i == 0,
            match k {
                Some(j) => last_at(s@) == j as int && (j as int) < s@.len(),
                None => last_at(s@) == last_at(s@.subrange(0, i as int)),
            },
        decreases i,
    {
        let ghost pre = s@.subrange(0, i as int);
        assert(pre.last() == s@[i - 1]);
        assert(pre.drop_last() =~= s@.subrange(0, i - 1));
        if s.get_char(i - 1) == '@' {
            assert(last_at(pre) == i - 1);
            k = Some(i - 1);
            i = 0;
        } else {
            assert(last_at(pre) == last_at(s@.subrange(0, i - 1)));
            i = i - 1;
        }
    }
    if k.is_none() {
        assert(s@.subrange(0, 0).len() == 0);
    }
    k
}

/// Parses a crate token. The token is split at its last `@`: the left side is
/// the name, which must be a valid package name; the right side, if there is
/// one, is kept verbatim as the version constraint and must not be empty.
pub fn parse_name_and_version(spec: &str) -> (r: Result<CrateSpecifier, SpecifierError>)
    ensures
        parse_model(r) == spec_parse(spec@),
{
    let n = spec.unicode_len();
    let at = find_last_at(spec);
    let (name, version) = match at {
        Some(k) => (spec.substring_char(0, k), Some(spec.substring_char(k + 1, n))),
        None => (spec, None),
    };
    assert(name@ == name_part(spec@));
    if name.unicode_len() == 0 {
        return Err(SpecifierError::EmptyName);
    }
    if !is_valid_crate_name(name) {
        return Err(SpecifierError::InvalidName);
    }
    match version {
        Some(v) => {
            if v.unicode_len() == 0 {
                assert(v@ =~= Seq::<char>::empty());
                return Err(SpecifierError::EmptyVersion);
            }
            let r = CrateSpecifier { name: String::from_str(name), version: Some(String::from_str(v)) };
            assert(version_part(spec@) != Some(Seq::<char>::empty()));
            Ok(r)
        },
        None => Ok(CrateSpecifier { name: String::from_str(name), version: None }),
    }
}

/// A character that opens a version requirement written with an operator.
pub open spec fn is_requirement_op(c: char) -> bool {
    c == '<' || c == '>' || c == '=' || c == '^' || c == '~'
}

/// The requirement handed on for a version constraint: one that opens with an
/// operator or holds a wildcard is kept verbatim; a bare version is matched
/// exactly, so it gets a leading `=`.
pub open spec fn provider_requirement(v: Seq<char>) -> Seq<char> {
    if (v.len() > 0 && is_requirement_op(v[0])) || v.contains('*') {
        v
    } else {
        seq!['='] + v
    }
}

fn contains_char(s: &str, c: char) -> (r: bool)
    ensures
        r == s@.contains(c),
{
    let n = s.unicode_len();
    let mut i: usize = 0;
    while i < n
        invariant
            i <= n,
            n == s@.len(),
            forall|j: int| 0 <= j < i ==> s@[j] != c,
        decreases n - i,
    {
        if s.get_char(i) == c {
            return true;
        }
        i = i + 1;
    }
    false
}

impl CrateSpecifier {
    /// The version requirement to resolve this crate with, if a version was given.
    pub fn requirement(&self) -> (r: Option<String>)
        ensures
            option_view(r) == match self@.version {
                Some(v) => Some(provider_requirement(v)),
                None => None,
            },
    {
        match &self.version {
            None => None,
            Some(v) => {
                let vs = v.as_str();
                let n = vs.unicode_len();
                let operator = n > 0 && {
                    let c = vs.get_char(0);
                    c == '<' || c == '>' || c == '=' || c == '^' || c == '~'
                };
                if operator || contains_char(vs, '*') {
                    Some(v.clone())
                } else {
                    let mut r = String::from_str("=");
                    proof {
                        reveal_strlit("=");
                    }
                    r.append(vs);
                    Some(r)
                }
            },
        }
    }
}

proof fn lemma_last_at_no_at(s: Seq<char>)
    requires
        !s.contains('@'),
    ensures
        last_at(s) == -1,
    decreases s.len(),
{
    if s.len() > 0 {
        assert(s.last() == s[s.len() - 1]);
        assert forall|i: int| 0 <= i < s.drop_last().len() implies s.drop_last()[i] != '@' by {
            assert(s.drop_last()[i] == s[i]);
        }
        lemma_last_at_no_at(s.drop_last());
    }
}

proof fn lemma_last_at_append(a: Seq<char>, b: Seq<char>)
    requires
        !b.contains('@'),
    ensures
        last_at(a + b) == last_at(a),
    decreases b.len(),
{
    if b.len() == 0 {
        assert(a + b =~= a);
    } else {
        assert((a + b).last() == b[b.len() - 1]);
        assert((a + b).drop_last() =~= a + b.drop_last());
        assert forall|i: int| 0 <= i < b.drop_last().len() implies b.drop_last()[i] != '@' by {
            assert(b.drop_last()[i] == b[i]);
        }
        lemma_last_at_append(a, b.drop_last());
    }
}

/// A valid name alone parses to that name with no version; a valid name, an
/// `@` and a non-empty version without `@` parse to that name and that version.
pub proof fn law_name_and_version(name: Seq<char>, version: Seq<char>)
    requires
        is_valid_name(name),
        version.len() > 0,
        !version.contains('@'),
    ensures
        spec_parse(name) == Ok::<SpecifierModel, SpecifierError>(
            SpecifierModel { name: name, version: None },
        ),
        spec_parse(name + seq!['@'] + version) == Ok::<SpecifierModel, SpecifierError>(
            SpecifierModel { name: name, version: Some(version) },
        ),
{
    assert forall|i: int| 0 <= i < name.len() implies name[i] != '@' by {
        assert(is_name_char(name[i]));
    }
    lemma_last_at_no_at(name);
    let t = name + seq!['@'] + version;
    let a = name + seq!['@'];
    lemma_last_at_append(a, version);
    assert(a.last() == '@');
    assert(last_at(t) == name.len());
    assert(t.subrange(0, name.len() as int) =~= name);
    assert(t.subrange(name.len() as int + 1, t.len() as int) =~= version);
}

/// A token whose name is empty is rejected: the empty token, and an `@`
/// followed by a version without `@`.
pub proof fn law_empty_name_rejected(version: Seq<char>)
    requires
        !version.contains('@'),
    ensures
        spec_parse(Seq::<char>::empty()) == Err::<SpecifierModel, SpecifierError>(
            SpecifierError::EmptyName,
        ),
        spec_parse(seq!['@'] + version) == Err::<SpecifierModel, SpecifierError>(
            SpecifierError::EmptyName,
        ),
{
    let t = seq!['@'] + version;
    lemma_last_at_append(seq!['@'], version);
    assert(seq!['@'].last() == '@');
    assert(t.subrange(0, 0) =~= Seq::<char>::empty());
}

/// Parsing keeps no state: two parses of equal tokens give equal results.
pub proof fn law_parse_repeatable(
    t1: &str,
    t2: &str,
    r1: Result<CrateSpecifier, SpecifierError>,
    r2: Result<CrateSpecifier, SpecifierError>,
)
    requires
        t1@ == t2@,
        parse_model(r1) == spec_parse(t1@),
        parse_model(r2) == spec_parse(t2@),
    ensures
        parse_model(r1) == parse_model(r2),
{
}

} // verus!
