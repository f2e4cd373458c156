//! Outbound header pairs: cleaning, validation and the validated header set.

use crate::error::{ErrorModel, TransportError};
use crate::text::{trim, trimmed};
use reqwest::header::{HeaderName, HeaderValue};
use vstd::prelude::*;

verus! {

/// One HTTP header, as a name and a value.
#[derive(Debug, PartialEq, Eq)]
pub struct HeaderPair {
    pub name: String,
    pub value: String,
}

impl View for HeaderPair {
    type V = (Seq<char>, Seq<char>);

    open spec fn view(&self) -> (Seq<char>, Seq<char>) {
        (self.name@, self.value@)
    }
}

impl DeepView for HeaderPair {
    type V = (Seq<char>, Seq<char>);

    open spec fn deep_view(&self) -> (Seq<char>, Seq<char>) {
        self@
    }
}

impl Clone for HeaderPair {
    fn clone(&self) -> (r: Self)
        ensures
            r == *self,
    {
        HeaderPair { name: self.name.clone(), value: self.value.clone() }
    }
}

/// The characters of an HTTP token: letters, digits and ``!#$%&'*+-.^_`|~``.
pub open spec fn token_char(c: char) -> bool {
    ||| 'a' <= c <= 'z'
    ||| 'A' <= c <= 'Z'
    ||| '0' <= c <= '9'
    ||| c == '!'
    ||| c == '#'
    ||| c == '$'
    ||| c == '%'
    ||| c == '&'
    ||| c == '\''
    ||| c == '*'
    ||| c == '+'
    ||| c == '-'
    ||| c == '.'
    ||| c == '^'
    ||| c == '_'
    ||| c == '`'
    ||| c == '|'
    ||| c == '~'
}

/// The longest header name, in characters.
pub const MAX_HEADER_NAME_LEN: usize = 65535;

/// `s` can be a header name: a token of at most [`MAX_HEADER_NAME_LEN`] characters.
pub open spec fn is_header_name(s: Seq<char>) -> bool {
    &&& 1 <= s.len() <= MAX_HEADER_NAME_LEN
    &&& forall|i: int| 0 <= i < s.len() ==> token_char(#[trigger] s[i])
}

/// The characters of a header value: the tab, and everything from the space
/// upwards but the delete character.
pub open spec fn value_char(c: char) -> bool {
    c == '\t' || (' ' <= c && c != '\u{7f}')
}

/// `s` can be a header value.
pub open spec fn is_header_value(s: Seq<char>) -> bool {
    forall|i: int| 0 <= i < s.len() ==> value_char(#[trigger] s[i])
}

/// Calls `reqwest::header::HeaderName::from_bytes` on the bytes of `name` and
/// reports whether it returned a name. It returns one exactly for an input
/// of 1 to 65535 bytes, each of them a token character; a character outside
/// ASCII is written as bytes that are none.
#[verifier::external_body]
fn header_name_accepted(name: &str) -> (ok: bool)
    ensures
        ok == is_header_name(name@),
{
    HeaderName::from_bytes(name.as_bytes()).is_ok()
}

/// Calls `reqwest::header::HeaderValue::from_str` on `value` and reports
/// whether it returned a value. It returns one exactly when every byte is the
/// tab, or is 32 or more and not 127; the bytes of a character outside ASCII
/// are all 128 or more.
#[verifier::external_body]
fn header_value_accepted(value: &str) -> (ok: bool)
    ensures
        ok == is_header_value(value@),
{
    HeaderValue::from_str(value).is_ok()
}

/// A pair with both sides trimmed.
pub open spec fn clean_pair(p: (Seq<char>, Seq<char>)) -> (Seq<char>, Seq<char>) {
    (trimmed(p.0), trimmed(p.1))
}

/// A pair is kept when neither side is empty after trimming.
pub open spec fn kept(p: (Seq<char>, Seq<char>)) -> bool {
    trimmed(p.0).len() > 0 && trimmed(p.1).len() > 0
}

/// The pairs of `raw` that are kept, trimmed, in their order.
pub open spec fn cleaned(raw: Seq<(Seq<char>, Seq<char>)>) -> Seq<(Seq<char>, Seq<char>)>
    decreases raw.len(),
{
    if raw.len() == 0 {
        Seq::empty()
    } else if kept(raw.last()) {
        cleaned(raw.drop_last()).push(clean_pair(raw.last()))
    } else {
        cleaned(raw.drop_last())
    }
}

/// Both sides of the pair can be encoded.
pub open spec fn valid_pair(p: (Seq<char>, Seq<char>)) -> bool {
    is_header_name(p.0) && is_header_value(p.1)
}

/// The number of pairs at the front of `pairs` that are valid: the index of
/// the first pair that is not, or the length where all are.
pub open spec fn valid_prefix_len(pairs: Seq<(Seq<char>, Seq<char>)>) -> nat
    decreases pairs.len(),
{
    if pairs.len() == 0 || !valid_pair(pairs.first()) {
        0
    } else {
        1 + valid_prefix_len(pairs.drop_first())
    }
}

/// What building a header set from `raw` gives: the cleaned pairs where all
/// of them are valid, else the name of the first that is not.
pub open spec fn header_set_of(raw: Seq<(Seq<char>, Seq<char>)>) -> Result<
    Seq<(Seq<char>, Seq<char>)>,
    ErrorModel,
> {
    let pairs = cleaned(raw);
    let k = valid_prefix_len(pairs) as int;
    if k == pairs.len() {
        Ok(pairs)
    } else {
        Err(ErrorModel::InvalidHeader(pairs[k].0))
    }
}

/// Every pair is trimmed, has a name and a value, and can be encoded.
pub open spec fn well_formed(pairs: Seq<(Seq<char>, Seq<char>)>) -> bool {
    forall|i: int|
        0 <= i < pairs.len() ==> {
            let p = #[trigger] pairs[i];
            &&& p.0.len() > 0
            &&& p.1.len() > 0
            &&& clean_pair(p) == p
            &&& valid_pair(p)
        }
}

/// Trims both sides of each pair and drops the pairs of which a side is then empty.
pub fn clean_headers(raw: &Vec<HeaderPair>) -> (r: Vec<HeaderPair>)
    ensures
        r.deep_view() == cleaned(raw.deep_view()),
{
    let mut out: Vec<HeaderPair> = Vec::new();
    let mut i: usize = 0;
    assert(raw.deep_view().take(0) =~= Seq::empty());
    while i < raw.len()
        invariant
            i <= raw.len(),
            out.deep_view() == cleaned(raw.deep_view().take(i as int)),
        decreases raw.len() - i,
    {
        let name = trim(raw[i].name.as_str());
        let value = trim(raw[i].value.as_str());
        proof {
            let upto = raw.deep_view().take(i as int + 1);
            assert(upto.drop_last() =~= raw.deep_view().take(i as int));
            assert(upto.last() == raw@[i as int]@);
        }
        let ghost before = out.deep_view();
        if !name.as_str().is_empty() && !value.as_str().is_empty() {
            out.push(HeaderPair { name, value });
            assert(out.deep_view() =~= before.push((name@, value@)));
        }
        i = i + 1;
    }
    assert(raw.deep_view().take(raw.len() as int) =~= raw.deep_view());
    out
}

/// A validated collection of outbound headers, in the order they were given.
#[derive(Debug, PartialEq, Eq)]
pub struct HeaderSet {
    pairs: Vec<HeaderPair>,
}

impl View for HeaderSet {
    type V = Seq<(Seq<char>, Seq<char>)>;

    closed spec fn view(&self) -> Seq<(Seq<char>, Seq<char>)> {
        self.pairs.deep_view()
    }
}

impl HeaderSet {
    #[verifier::type_invariant]
    spec fn holds_valid_pairs(self) -> bool {
        well_formed(self@)
    }

    /// The set without headers.
    pub fn new() -> (r: HeaderSet)
        ensures
            r@ == Seq::<(Seq<char>, Seq<char>)>::empty(),
    {
        let pairs: Vec<HeaderPair> = Vec::new();
        assert(pairs.deep_view() =~= Seq::empty());
        HeaderSet { pairs }
    }

    /// Cleans `raw` and checks that every pair left can be encoded as an HTTP
    /// header. Fails on the first pair that cannot, naming it.
    pub fn from_pairs(raw: &Vec<HeaderPair>) -> (r: Result<HeaderSet, TransportError>)
        ensures
            match r {
                Ok(set) => header_set_of(raw.deep_view()) == Ok::<_, ErrorModel>(set@)
                    && well_formed(set@),
                Err(e) => header_set_of(raw.deep_view()) == Err::<
                    Seq<(Seq<char>, Seq<char>)>,
                    _,
                >(e@),
            },
    {
        let pairs = clean_headers(raw);
        let ghost model = pairs.deep_view();
        let mut i: usize = 0;
        proof {
            lemma_cleaned_is_clean(raw.deep_view());
            assert(model.skip(0) =~= model);
        }
        while i < pairs.len()
            invariant
                i <= pairs.len(),
                model == pairs.deep_view(),
                model == cleaned(raw.deep_view()),
                forall|j: int|
                    0 <= j < model.len() ==> {
                        let p = #[trigger] model[j];
                        p.0.len() > 0 && p.1.len() > 0 && clean_pair(p) == p
                    },
                valid_prefix_len(model) == i + valid_prefix_len(model.skip(i as int)),
                forall|j: int| 0 <= j < i ==> valid_pair(#[trigger] model[j]),
            decreases pairs.len() - i,
        {
            proof {
                let rest = model.skip(i as int);
                assert(rest.first() == pairs@[i as int]@);
                assert(rest.drop_first() =~= model.skip(i as int + 1));
            }
            if !header_name_accepted(pairs[i].name.as_str()) || !header_value_accepted(
                pairs[i].value.as_str(),
            ) {
                proof {
                    assert(model[i as int] == pairs@[i as int]@);
                    assert(!valid_pair(model.skip(i as int).first()));
                    assert(valid_prefix_len(model) == i);
                }
                return Err(TransportError::InvalidHeader(pairs[i].name.clone()));
            }
            i = i + 1;
        }
        assert(model.skip(model.len() as int) =~= Seq::empty());
        Ok(HeaderSet { pairs })
    }

    /// The headers, in order.
    pub fn pairs(&self) -> (r: &Vec<HeaderPair>)
        ensures
            r.deep_view() == self@,
            well_formed(self@),
    {
        proof {
            use_type_invariant(self);
        }
        &self.pairs
    }

    /// The number of headers.
    pub fn len(&self) -> (r: usize)
        ensures
            r == self@.len(),
    {
        self.pairs.len()
    }

    /// Tells whether the set holds no header.
    pub fn is_empty(&self) -> (r: bool)
        ensures
            r == (self@.len() == 0),
    {
        self.pairs.len() == 0
    }
}

/// Every cleaned pair is trimmed and has a name and a value.
pub proof fn lemma_cleaned_is_clean(raw: Seq<(Seq<char>, Seq<char>)>)
    ensures
        cleaned(raw).len() <= raw.len(),
        forall|i: int|
            0 <= i < cleaned(raw).len() ==> {
                let p = #[trigger] cleaned(raw)[i];
                p.0.len() > 0 && p.1.len() > 0 && clean_pair(p) == p
            },
    decreases raw.len(),
{
    if raw.len() > 0 {
        lemma_cleaned_is_clean(raw.drop_last());
        if kept(raw.last()) {
            crate::text::lemma_trimmed_fixpoint(raw.last().0);
            crate::text::lemma_trimmed_fixpoint(raw.last().1);
        }
    }
}

/// Cleaning a list is cleaning its parts.
pub proof fn lemma_cleaned_concat(a: Seq<(Seq<char>, Seq<char>)>, b: Seq<(Seq<char>, Seq<char>)>)
    ensures
        cleaned(a + b) == cleaned(a) + cleaned(b),
    decreases b.len(),
{
    if b.len() == 0 {
        assert(a + b =~= a);
        assert(cleaned(a) + cleaned(b) =~= cleaned(a));
    } else {
        assert((a + b).drop_last() =~= a + b.drop_last());
        assert((a + b).last() == b.last());
        lemma_cleaned_concat(a, b.drop_last());
        if kept(b.last()) {
            assert(cleaned(a + b) =~= cleaned(a) + cleaned(b));
        }
    }
}

/// A pair of which the name or the value is empty after trimming leaves no
/// trace, wherever in the list it stands.
pub proof fn law_blank_pair_is_dropped(
    before: Seq<(Seq<char>, Seq<char>)>,
    pair: (Seq<char>, Seq<char>),
    after: Seq<(Seq<char>, Seq<char>)>,
)
    requires
        trimmed(pair.0).len() == 0 || trimmed(pair.1).len() == 0,
    ensures
        cleaned(before.push(pair) + after) == cleaned(before + after),
        header_set_of(before.push(pair) + after) == header_set_of(before + after),
{
    lemma_cleaned_concat(before.push(pair), after);
    lemma_cleaned_concat(before, after);
    assert(before.push(pair).drop_last() =~= before);
}

/// A pair with a name and a value is kept in its place, changed by trimming alone.
pub proof fn law_kept_pair_is_trimmed_in_place(
    before: Seq<(Seq<char>, Seq<char>)>,
    pair: (Seq<char>, Seq<char>),
    after: Seq<(Seq<char>, Seq<char>)>,
)
    requires
        trimmed(pair.0).len() > 0,
        trimmed(pair.1).len() > 0,
    ensures
        cleaned(before.push(pair) + after) == cleaned(before).push(
            (trimmed(pair.0), trimmed(pair.1)),
        ) + cleaned(after),
{
    lemma_cleaned_concat(before.push(pair), after);
    assert(before.push(pair).drop_last() =~= before);
}

/// The valid prefix ends at the first pair that cannot be encoded.
pub proof fn lemma_valid_prefix_len(pairs: Seq<(Seq<char>, Seq<char>)>)
    ensures
        valid_prefix_len(pairs) <= pairs.len(),
        forall|j: int| 0 <= j < valid_prefix_len(pairs) ==> valid_pair(#[trigger] pairs[j]),
        valid_prefix_len(pairs) < pairs.len() ==> !valid_pair(
            pairs[valid_prefix_len(pairs) as int],
        ),
    decreases pairs.len(),
{
    if pairs.len() > 0 && valid_pair(pairs.first()) {
        let rest = pairs.drop_first();
        lemma_valid_prefix_len(rest);
        assert forall|j: int| 0 <= j < valid_prefix_len(pairs) implies valid_pair(
            #[trigger] pairs[j],
        ) by {
            if j > 0 {
                assert(pairs[j] == rest[j - 1]);
            }
        }
        if valid_prefix_len(pairs) < pairs.len() {
            assert(pairs[valid_prefix_len(pairs) as int] == rest[valid_prefix_len(rest) as int]);
        }
    }
}

/// Building succeeds exactly when every pair that is kept can be encoded, and
/// then the set holds the kept pairs unchanged but for the trimming.
pub proof fn law_header_set_keeps_valid_pairs(raw: Seq<(Seq<char>, Seq<char>)>)
    ensures
        header_set_of(raw) is Ok <==> forall|i: int|
            0 <= i < cleaned(raw).len() ==> valid_pair(#[trigger] cleaned(raw)[i]),
        header_set_of(raw) is Ok ==> header_set_of(raw) == Ok::<_, ErrorModel>(cleaned(raw)),
        (forall|i: int| 0 <= i < raw.len() ==> kept(#[trigger] raw[i])) ==> cleaned(raw)
            == raw.map_values(|p: (Seq<char>, Seq<char>)| clean_pair(p)),
{
    lemma_valid_prefix_len(cleaned(raw));
    if forall|i: int| 0 <= i < raw.len() ==> kept(#[trigger] raw[i]) {
        lemma_cleaned_of_kept(raw);
    }
}

/// Where every pair is kept, cleaning trims each pair and drops none.
pub proof fn lemma_cleaned_of_kept(raw: Seq<(Seq<char>, Seq<char>)>)
    requires
        forall|i: int| 0 <= i < raw.len() ==> kept(#[trigger] raw[i]),
    ensures
        cleaned(raw) == raw.map_values(|p: (Seq<char>, Seq<char>)| clean_pair(p)),
    decreases raw.len(),
{
    let f = |p: (Seq<char>, Seq<char>)| clean_pair(p);
    if raw.len() == 0 {
        assert(cleaned(raw) =~= raw.map_values(f));
    } else {
        let rest = raw.drop_last();
        assert forall|i: int| 0 <= i < rest.len() implies kept(#[trigger] rest[i]) by {
            assert(rest[i] == raw[i]);
        }
        lemma_cleaned_of_kept(rest);
        assert(kept(raw[raw.len() - 1]));
        assert(cleaned(raw) =~= raw.map_values(f));
    }
}

} // verus!
