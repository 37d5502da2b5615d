//! The header set: static `key=value` metadata attached to every export call,
//! written as comma-separated tokens.
use vstd::prelude::*;

use crate::error::{ConfigError, ErrorKind};
use crate::text::{fields, split_fields};

verus! {

/// One static metadata header.
#[derive(Clone, Debug, PartialEq, Eq)]
pub struct HeaderEntry {
    pub key: String,
    pub value: String,
}

impl View for HeaderEntry {
    type V = (Seq<char>, Seq<char>);

    open spec fn view(&self) -> (Seq<char>, Seq<char>) {
        (self.key@, self.value@)
    }
}

impl DeepView for HeaderEntry {
    type V = (Seq<char>, Seq<char>);

    open spec fn deep_view(&self) -> (Seq<char>, Seq<char>) {
        self@
    }
}

/// A character allowed in a header name (an HTTP token character).
pub open spec fn is_token_char(c: char) -> bool {
    ('a' <= c && c <= 'z') || ('A' <= c && c <= 'Z') || ('0' <= c && c <= '9') || c == '!'
        || c == '#' || c == '$' || c == '%' || c == '&' || c == '\'' || c == '*' || c == '+'
        || c == '-' || c == '.' || c == '^' || c == '_' || c == '`' || c == '|' || c == '~'
}

/// `c == lower` or `c` is the upper-case form of the ASCII letter `lower`.
pub open spec fn same_letter(c: char, lower: char) -> bool {
    c == lower || (c as u32) + 32 == (lower as u32)
}

/// The name ends in `-bin`, in any case: such keys carry binary metadata.
pub open spec fn has_binary_suffix(k: Seq<char>) -> bool {
    let n = k.len();
    n >= 4 && k[n - 4] == '-' && same_letter(k[n - 3], 'b') && same_letter(k[n - 2], 'i')
        && same_letter(k[n - 1], 'n')
}

/// A valid ASCII metadata key: non-empty, token characters only, no `-bin` suffix.
pub open spec fn is_valid_key(k: Seq<char>) -> bool {
    &&& k.len() > 0
    &&& forall|i: int| 0 <= i < k.len() ==> is_token_char(#[trigger] k[i])
    &&& !has_binary_suffix(k)
}

/// A valid ASCII metadata value: visible ASCII, space and tab only.
pub open spec fn is_valid_value(v: Seq<char>) -> bool {
    forall|i: int| 0 <= i < v.len() ==> (#[trigger] v[i] == '\t' || (' ' <= v[i] && v[i] <= '~'))
}

/// What is wrong with one header token, if anything.
pub open spec fn token_fault(t: Seq<char>) -> Option<ErrorKind> {
    let parts = fields(t, '=');
    if parts.len() != 2 {
        Some(ErrorKind::MalformedHeader)
    } else if !is_valid_key(parts[0]) {
        Some(ErrorKind::InvalidHeaderKey)
    } else if !is_valid_value(parts[1]) {
        Some(ErrorKind::InvalidHeaderValue)
    } else {
        None
    }
}

/// The entry that a well-formed token stands for.
pub open spec fn token_entry(t: Seq<char>) -> (Seq<char>, Seq<char>) {
    (fields(t, '=')[0], fields(t, '=')[1])
}

/// The entries of `ts` in order, or the fault of the first faulty token.
pub open spec fn parse_tokens(ts: Seq<Seq<char>>) -> Result<
    Seq<(Seq<char>, Seq<char>)>,
    (ErrorKind, Seq<char>),
>
    decreases ts.len(),
{
    if ts.len() == 0 {
        Ok(Seq::empty())
    } else {
        match parse_tokens(ts.drop_last()) {
            Err(e) => Err(e),
            Ok(prefix) => match token_fault(ts.last()) {
                Some(k) => Err((k, ts.last())),
                None => Ok(prefix.push(token_entry(ts.last()))),
            },
        }
    }
}

/// The header set that a raw header string stands for: empty for an empty
/// string, else one entry per comma-separated token.
pub open spec fn header_set(raw: Seq<char>) -> Result<
    Seq<(Seq<char>, Seq<char>)>,
    (ErrorKind, Seq<char>),
> {
    if raw.len() == 0 {
        Ok(Seq::empty())
    } else {
        parse_tokens(fields(raw, ','))
    }
}

/// The header set that an optional raw header string stands for.
pub open spec fn header_set_of(raw: Option<Seq<char>>) -> Result<
    Seq<(Seq<char>, Seq<char>)>,
    (ErrorKind, Seq<char>),
> {
    match raw {
        None => Ok(Seq::empty()),
        Some(s) => header_set(s),
    }
}

/// The abstract content of a parse result.
pub open spec fn headers_result_view(r: Result<Vec<HeaderEntry>, ConfigError>) -> Result<
    Seq<(Seq<char>, Seq<char>)>,
    (ErrorKind, Seq<char>),
> {
    match r {
        Ok(v) => Ok(v.deep_view()),
        Err(e) => Err(e@),
    }
}

/// Once a prefix of the tokens fails, the whole sequence fails the same way.
pub proof fn lemma_parse_tokens_err_prefix(ts: Seq<Seq<char>>, j: int)
    requires
        0 <= j <= ts.len(),
        parse_tokens(ts.subrange(0, j)) is Err,
    ensures
        parse_tokens(ts) == parse_tokens(ts.subrange(0, j)),
    decreases ts.len() - j,
{
    if j < ts.len() {
        assert(ts.subrange(0, j + 1).drop_last() =~= ts.subrange(0, j));
        lemma_parse_tokens_err_prefix(ts, j + 1);
    } else {
        assert(ts.subrange(0, j) =~= ts);
    }
}

/// Whether `k` is a valid ASCII metadata key.
pub fn is_valid_header_key(k: &str) -> (r: bool)
    ensures
        r == is_valid_key(k@),
{
    let n = k.unicode_len();
    if n == 0 {
        return false;
    }
    let mut i: usize = 0;
    while i < n
        invariant
            n == k@.len(),
            i <= n,
            forall|j: int| 0 <= j < i ==> is_token_char(#[trigger] k@[j]),
        decreases n - i,
    {
        let c = k.get_char(i);
        let token = ('a' <= c && c <= 'z') || ('A' <= c && c <= 'Z') || ('0' <= c && c <= '9')
            || c == '!' || c == '#' || c == '$' || c == '%' || c == '&' || c == '\'' || c == '*'
            || c == '+' || c == '-' || c == '.' || c == '^' || c == '_' || c == '`' || c == '|'
            || c == '~';
        if !token {
            return false;
        }
        i += 1;
    }
    if n >= 4 {
        let c1 = k.get_char(n - 4);
        let c2 = k.get_char(n - 3);
        let c3 = k.get_char(n - 2);
        let c4 = k.get_char(n - 1);
        if c1 == '-' && (c2 == 'b' || c2 == 'B') && (c3 == 'i' || c3 == 'I') && (c4 == 'n' || c4
            == 'N') {
            return false;
        }
    }
    true
}

/// Whether `v` is a valid ASCII metadata value.
pub fn is_valid_header_value(v: &str) -> (r: bool)
    ensures
        r == is_valid_value(v@),
{
    let n = v.unicode_len();
    let mut i: usize = 0;
    while i < n
        invariant
            n == v@.len(),
            i <= n,
            forall|j: int| 0 <= j < i ==> (#[trigger] v@[j] == '\t' || (' ' <= v@[j] && v@[j] <= '~')),
        decreases n - i,
    {
        let c = v.get_char(i);
        if !(c == '\t' || (' ' <= c && c <= '~')) {
            return false;
        }
        i += 1;
    }
    true
}

/// Parses one `key=value` token.
pub fn parse_header_token(t: &str) -> (r: Result<HeaderEntry, ConfigError>)
    ensures
        match token_fault(t@) {
            Some(k) => r is Err && r->Err_0@ == (k, t@),
            None => r is Ok && r->Ok_0@ == token_entry(t@),
        },
{
    let parts = split_fields(t, '=');
    proof {
        assert(parts.deep_view().len() == parts@.len());
    }
    if parts.len() != 2 {
        return Err(ConfigError::new(ErrorKind::MalformedHeader, t));
    }
    proof {
        assert(parts.deep_view()[0] == parts@[0]@);
        assert(parts.deep_view()[1] == parts@[1]@);
    }
    if !is_valid_header_key(parts[0].as_str()) {
        return Err(ConfigError::new(ErrorKind::InvalidHeaderKey, t));
    }
    if !is_valid_header_value(parts[1].as_str()) {
        return Err(ConfigError::new(ErrorKind::InvalidHeaderValue, t));
    }
    Ok(HeaderEntry { key: parts[0].clone(), value: parts[1].clone() })
}

/// Parses a raw header string into its ordered header set. An absent or empty
/// string gives an empty set; any malformed token fails the whole parse.
pub fn parse_headers(raw: Option<&str>) -> (r: Result<Vec<HeaderEntry>, ConfigError>)
    ensures
        headers_result_view(r) == header_set_of(
            match raw {
                Some(s) => Some(s@),
                None => None,
            },
        ),
{
    let s = match raw {
        None => {
            let empty: Vec<HeaderEntry> = Vec::new();
            proof {
                assert(empty.deep_view() =~= Seq::<(Seq<char>, Seq<char>)>::empty());
            }
            return Ok(empty);
        },
        Some(s) => s,
    };
    if s.unicode_len() == 0 {
        let empty: Vec<HeaderEntry> = Vec::new();
        proof {
            assert(empty.deep_view() =~= Seq::<(Seq<char>, Seq<char>)>::empty());
        }
        return Ok(empty);
    }
    let tokens = split_fields(s, ',');
    let ghost ts = tokens.deep_view();
    let mut out: Vec<HeaderEntry> = Vec::new();
    let mut i: usize = 0;
    proof {
        assert(ts.subrange(0, 0) =~= Seq::<Seq<char>>::empty());
        assert(out.deep_view() =~= Seq::<(Seq<char>, Seq<char>)>::empty());
    }
    while i < tokens.len()
        invariant
            ts == tokens.deep_view(),
            ts == fields(s@, ','),
            s@.len() > 0,
            raw == Some(s),
            i <= tokens.len(),
            parse_tokens(ts.subrange(0, i as int)) == Ok::<_, (ErrorKind, Seq<char>)>(
                out.deep_view(),
            ),
        decreases tokens.len() - i,
    {
        let ghost before = out.deep_view();
        proof {
            assert(ts[i as int] == tokens@[i as int]@);
            assert(ts.subrange(0, i + 1).drop_last() =~= ts.subrange(0, i as int));
            assert(ts.subrange(0, i + 1).last() == ts[i as int]);
        }
        match parse_header_token(tokens[i].as_str()) {
            Err(e) => {
                proof {
                    assert(parse_tokens(ts.subrange(0, i + 1)) == Err::<
                        Seq<(Seq<char>, Seq<char>)>,
                        _,
                    >(e@));
                    lemma_parse_tokens_err_prefix(ts, i + 1);
                }
                return Err(e);
            },
            Ok(h) => {
                out.push(h);
                proof {
                    assert(out.deep_view() =~= before.push(token_entry(ts[i as int])));
                }
            },
        }
        i += 1;
    }
    proof {
        assert(ts.subrange(0, tokens.len() as int) =~= ts);
    }
    Ok(out)
}

/// A faulty token makes the whole token sequence fail.
pub proof fn lemma_faulty_token_fails(ts: Seq<Seq<char>>, i: int)
    requires
        0 <= i < ts.len(),
        token_fault(ts[i]) is Some,
    ensures
        parse_tokens(ts) is Err,
    decreases ts.len(),
{
    if i < ts.len() - 1 {
        assert(ts.drop_last()[i] == ts[i]);
        lemma_faulty_token_fails(ts.drop_last(), i);
    }
}

/// A header string in which some `key=value` token has a character in its key
/// that no metadata key may hold is rejected.
pub proof fn lemma_invalid_key_char_rejected(raw: Seq<char>, i: int, j: int)
    requires
        0 <= i < fields(raw, ',').len(),
        fields(fields(raw, ',')[i], '=').len() == 2,
        0 <= j < fields(fields(raw, ',')[i], '=')[0].len(),
        !is_token_char(fields(fields(raw, ',')[i], '=')[0][j]),
    ensures
        header_set(raw) is Err,
{
    let t = fields(raw, ',')[i];
    if raw.len() == 0 {
        assert(t.len() == 0);
        assert(fields(t, '=').len() == 1);
    }
    assert(token_fault(t) == Some(ErrorKind::InvalidHeaderKey));
    lemma_faulty_token_fails(fields(raw, ','), i);
}

/// Well-formed tokens parse to their entries, one each, in order.
pub proof fn lemma_well_formed_tokens_in_order(ts: Seq<Seq<char>>)
    requires
        forall|i: int| 0 <= i < ts.len() ==> token_fault(#[trigger] ts[i]) is None,
    ensures
        parse_tokens(ts) == Ok::<_, (ErrorKind, Seq<char>)>(
            ts.map_values(|t: Seq<char>| token_entry(t)),
        ),
    decreases ts.len(),
{
    if ts.len() > 0 {
        let init = ts.drop_last();
        assert forall|i: int| 0 <= i < init.len() implies token_fault(#[trigger] init[i]) is None by {
            assert(init[i] == ts[i]);
        }
        lemma_well_formed_tokens_in_order(init);
        assert(token_fault(ts[ts.len() - 1]) is None);
        assert(init.map_values(|t: Seq<char>| token_entry(t)).push(token_entry(ts.last()))
            =~= ts.map_values(|t: Seq<char>| token_entry(t)));
    } else {
        assert(ts.map_values(|t: Seq<char>| token_entry(t)) =~= Seq::empty());
    }
}

/// A non-empty header string whose comma-separated tokens are all well-formed
/// parses to their entries in the order written.
pub proof fn lemma_header_set_keeps_order(raw: Seq<char>)
    requires
        raw.len() > 0,
        forall|i: int|
            0 <= i < fields(raw, ',').len() ==> token_fault(#[trigger] fields(raw, ',')[i]) is None,
    ensures
        header_set(raw) == Ok::<_, (ErrorKind, Seq<char>)>(
            fields(raw, ',').map_values(|t: Seq<char>| token_entry(t)),
        ),
{
    lemma_well_formed_tokens_in_order(fields(raw, ','));
}

} // verus!
