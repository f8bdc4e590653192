//! Lists of named values as they travel in a query or in a form-encoded
//! body: how they are taken apart, put in order, and written out.

use vstd::prelude::*;
use vstd::relations::{sorted_by, total_ordering};
use vstd::seq_lib::lemma_sorted_unique;

verus! {

/// A list of named values in mathematical terms.
pub open spec fn pairs_view(pairs: Vec<(String, String)>) -> Seq<(Seq<char>, Seq<char>)> {
    pairs@.map_values(|p: (String, String)| (p.0@, p.1@))
}

/// A list of texts in mathematical terms.
pub open spec fn texts_view(texts: Vec<String>) -> Seq<Seq<char>> {
    texts@.map_values(|t: String| t@)
}

/// The order of texts: character by character, by the number of the
/// character, a text before every text that it begins.
pub open spec fn text_leq(a: Seq<char>, b: Seq<char>) -> bool
    decreases a.len(),
{
    if a.len() == 0 {
        true
    } else if b.len() == 0 {
        false
    } else if a[0] != b[0] {
        (a[0] as int) < (b[0] as int)
    } else {
        text_leq(a.drop_first(), b.drop_first())
    }
}

/// The order of named values: by name, and by value where the names are
/// the same.
pub open spec fn pair_leq(a: (Seq<char>, Seq<char>), b: (Seq<char>, Seq<char>)) -> bool {
    if a.0 != b.0 {
        text_leq(a.0, b.0)
    } else {
        text_leq(a.1, b.1)
    }
}

/// The order of named values as a relation.
pub open spec fn pair_order() -> spec_fn((Seq<char>, Seq<char>), (Seq<char>, Seq<char>)) -> bool {
    |a: (Seq<char>, Seq<char>), b: (Seq<char>, Seq<char>)| pair_leq(a, b)
}

/// A named value written out: the name alone where the value is empty,
/// else name and value with `=` between them.
pub open spec fn pair_text(pair: (Seq<char>, Seq<char>)) -> Seq<char> {
    if pair.1.len() == 0 {
        pair.0
    } else {
        pair.0 + seq!['='] + pair.1
    }
}

/// Named values written out one after the other, with `&` between them.
/// Nothing is escaped.
pub open spec fn pairs_text(pairs: Seq<(Seq<char>, Seq<char>)>) -> Seq<char>
    decreases pairs.len(),
{
    if pairs.len() == 0 {
        Seq::empty()
    } else if pairs.len() == 1 {
        pair_text(pairs[0])
    } else {
        pairs_text(pairs.drop_last()) + seq!['&'] + pair_text(pairs.last())
    }
}

/// The place of the first `mark` in `text`, or the length of the text
/// where it has none.
pub open spec fn first_index(text: Seq<char>, mark: char) -> int
    decreases text.len(),
{
    if text.len() == 0 {
        0
    } else if text[0] == mark {
        0
    } else {
        1 + first_index(text.drop_first(), mark)
    }
}

/// The pieces of a text between its separators. A text without separator
/// is one piece, even if it is empty.
pub open spec fn split_text(text: Seq<char>, separator: char) -> Seq<Seq<char>>
    decreases text.len(),
{
    let at = first_index(text, separator);
    if at < 0 || at >= text.len() {
        seq![text]
    } else {
        seq![text.subrange(0, at)] + split_text(text.subrange(at + 1, text.len() as int), separator)
    }
}

/// A piece read as a named value: name and value stand on either side of
/// its first `=`; a piece without one is a name with an empty value.
pub open spec fn split_pair(piece: Seq<char>) -> (Seq<char>, Seq<char>) {
    let at = first_index(piece, '=');
    if at < 0 || at >= piece.len() {
        (piece, Seq::empty())
    } else {
        (piece.subrange(0, at), piece.subrange(at + 1, piece.len() as int))
    }
}

/// The named values of a form-encoded text, read piece by piece. Nothing is
/// unescaped.
pub open spec fn form_pairs(text: Seq<char>) -> Seq<(Seq<char>, Seq<char>)> {
    split_text(text, '&').map_values(|piece: Seq<char>| split_pair(piece))
}

/// The value of the first one called `name`, if there is one.
pub open spec fn first_value(pairs: Seq<(Seq<char>, Seq<char>)>, name: Seq<char>) -> Option<Seq<char>>
    decreases pairs.len(),
{
    if pairs.len() == 0 {
        None
    } else if pairs[0].0 == name {
        Some(pairs[0].1)
    } else {
        first_value(pairs.drop_first(), name)
    }
}

/// The named values that a query holds, unescaped.
pub uninterp spec fn query_pairs(query: Seq<char>) -> Seq<(Seq<char>, Seq<char>)>;

/// The JSON document that a form-encoded text amounts to, if it can be
/// read as one.
pub uninterp spec fn form_document(text: Seq<char>) -> Option<serde_json::Value>;

/// `url::form_urlencoded::parse` takes a query apart into its named values
/// and unescapes them. What it makes of the query depends on the query
/// alone.
#[verifier::external_body]
fn parse_query(query: &str) -> (pairs: Vec<(String, String)>)
    ensures
        pairs_view(pairs) == query_pairs(query@),
{
    url::form_urlencoded::parse(query.as_bytes()).into_owned().collect()
}

/// `serde_urlencoded::from_str` reads a form-encoded text as a JSON
/// document. What it makes of the text depends on the text alone.
#[verifier::external_body]
fn parse_form(text: &str) -> (document: Option<serde_json::Value>)
    ensures
        document == form_document(text@),
{
    serde_urlencoded::from_str::<serde_json::Value>(text).ok()
}

/// `sort_unstable` puts a list in ascending order. Pairs of strings are
/// ordered by their first parts, then by their second parts, and strings
/// byte by byte, which orders them by the numbers of their characters.
#[verifier::external_body]
fn sort_pairs(pairs: &mut Vec<(String, String)>)
    ensures
        pairs_view(*final(pairs)).to_multiset() == pairs_view(*old(pairs)).to_multiset(),
        sorted_by(pairs_view(*final(pairs)), pair_order()),
{
    pairs.sort_unstable();
}

/// `str::split` cuts a text at each separator and gives the pieces in
/// order, the empty ones too.
#[verifier::external_body]
fn split_at_each(text: &str, separator: char) -> (pieces: Vec<String>)
    ensures
        texts_view(pieces) == split_text(text@, separator),
{
    text.split(separator).map(str::to_owned).collect()
}

/// `str::split_once` cuts a text at the first separator, if it has one.
#[verifier::external_body]
fn split_at_first(text: &str, separator: char) -> (halves: Option<(String, String)>)
    ensures
        halves.is_some() == (first_index(text@, separator) < text@.len()),
        halves.is_some() ==> halves.unwrap().0@ == text@.subrange(0, first_index(text@, separator)),
        halves.is_some() ==> halves.unwrap().1@ == text@.subrange(
            first_index(text@, separator) + 1,
            text@.len() as int,
        ),
{
    text.split_once(separator).map(|(a, b)| (a.to_owned(), b.to_owned()))
}

/// The named values that a query holds, unescaped.
pub fn query_pairs_of(query: &str) -> (pairs: Vec<(String, String)>)
    ensures
        pairs_view(pairs) == query_pairs(query@),
{
    parse_query(query)
}

/// The JSON document that a form-encoded text amounts to.
pub fn form_document_of(text: &str) -> (document: Option<serde_json::Value>)
    ensures
        document == form_document(text@),
{
    parse_form(text)
}

/// The named values of a form-encoded text, nothing unescaped.
pub fn form_pairs_of(text: &str) -> (pairs: Vec<(String, String)>)
    ensures
        pairs_view(pairs) == form_pairs(text@),
{
    let pieces = split_at_each(text, '&');
    let mut pairs: Vec<(String, String)> = Vec::new();
    let mut i: usize = 0;
    while i < pieces.len()
        invariant
            i <= pieces.len(),
            texts_view(pieces) == split_text(text@, '&'),
            pairs_view(pairs) == texts_view(pieces).subrange(0, i as int).map_values(
                |piece: Seq<char>| split_pair(piece),
            ),
        decreases pieces.len() - i,
    {
        let piece = &pieces[i];
        let pair = match split_at_first(piece.as_str(), '=') {
            Some(halves) => halves,
            None => (piece.clone(), String::new()),
        };
        proof {
            lemma_first_index_bounds(piece@, '=');
            assert((pair.0@, pair.1@) == split_pair(piece@));
        }
        let ghost before = pairs_view(pairs);
        pairs.push(pair);
        proof {
            let all = texts_view(pieces);
            assert(all[i as int] == piece@);
            assert(pairs_view(pairs) =~= before.push(split_pair(piece@)));
            assert(all.subrange(0, i + 1) =~= all.subrange(0, i as int).push(piece@));
            assert(all.subrange(0, i + 1).map_values(|piece: Seq<char>| split_pair(piece)) =~= before.push(
                split_pair(piece@),
            ));
        }
        i += 1;
    }
    proof {
        let all = texts_view(pieces);
        assert(all.subrange(0, i as int) =~= all);
    }
    pairs
}

/// The value of the first one called `name`, if there is one.
pub fn first_of(pairs: &Vec<(String, String)>, name: &str) -> (value: Option<String>)
    ensures
        crate::text::optional_text(value) == first_value(pairs_view(*pairs), name@),
{
    let mut i: usize = 0;
    proof {
        assert(pairs_view(*pairs).subrange(0, pairs.len() as int) =~= pairs_view(*pairs));
    }
    while i < pairs.len()
        invariant
            i <= pairs.len(),
            first_value(pairs_view(*pairs), name@) == first_value(
                pairs_view(*pairs).subrange(i as int, pairs.len() as int),
                name@,
            ),
        decreases pairs.len() - i,
    {
        let ghost rest = pairs_view(*pairs).subrange(i as int, pairs.len() as int);
        proof {
            assert(rest[0] == (pairs@[i as int].0@, pairs@[i as int].1@));
            assert(rest.drop_first() =~= pairs_view(*pairs).subrange(i + 1, pairs.len() as int));
        }
        if crate::text::same_text(pairs[i].0.as_str(), name) {
            return Some(pairs[i].1.clone());
        }
        i += 1;
    }
    proof {
        assert(pairs_view(*pairs).subrange(i as int, pairs.len() as int).len() == 0);
    }
    None
}

/// Named values in ascending order.
pub fn sorted(pairs: Vec<(String, String)>) -> (ordered: Vec<(String, String)>)
    ensures
        pairs_view(ordered) == pairs_view(pairs).sort_by(pair_order()),
{
    let ghost before = pairs_view(pairs);
    let mut pairs = pairs;
    sort_pairs(&mut pairs);
    proof {
        lemma_pair_order_total();
        before.lemma_sort_by_ensures(pair_order());
        lemma_sorted_unique(pairs_view(pairs), before.sort_by(pair_order()), pair_order());
    }
    pairs
}

/// Named values written out with `&` between them, nothing escaped.
pub fn written(pairs: &Vec<(String, String)>) -> (text: String)
    ensures
        text@ == pairs_text(pairs_view(*pairs)),
{
    let mut text = String::new();
    let mut i: usize = 0;
    proof {
        reveal_strlit("&");
        reveal_strlit("=");
        assert("&"@ =~= seq!['&']);
        assert("="@ =~= seq!['=']);
    }
    while i < pairs.len()
        invariant
            i <= pairs.len(),
            "&"@ == seq!['&'],
            "="@ == seq!['='],
            text@ == pairs_text(pairs_view(*pairs).subrange(0, i as int)),
        decreases pairs.len() - i,
    {
        let ghost before = text@;
        if i > 0 {
            text.append("&");
        }
        let pair = &pairs[i];
        text.append(pair.0.as_str());
        if pair.1.as_str().unicode_len() > 0 {
            text.append("=");
            text.append(pair.1.as_str());
        }
        proof {
            let all = pairs_view(*pairs);
            let next = all.subrange(0, i + 1);
            assert(next.drop_last() =~= all.subrange(0, i as int));
            assert(next.last() == (pair.0@, pair.1@));
            assert(text@ =~= pairs_text(next)) by {
                if i > 0 {
                    assert(text@ =~= before + seq!['&'] + pair_text(next.last()));
                } else {
                    assert(before =~= Seq::<char>::empty());
                    assert(next[0] == next.last());
                    assert(text@ =~= pair_text(next.last()));
                }
            }
        }
        i += 1;
    }
    proof {
        let all = pairs_view(*pairs);
        assert(all.subrange(0, i as int) =~= all);
    }
    text
}

/// The first place of a mark lies within the text or at its end.
pub proof fn lemma_first_index_bounds(text: Seq<char>, mark: char)
    ensures
        0 <= first_index(text, mark) <= text.len(),
        first_index(text, mark) < text.len() ==> text[first_index(text, mark)] == mark,
        forall|i: int| 0 <= i < first_index(text, mark) ==> text[i] != mark,
    decreases text.len(),
{
    if text.len() > 0 && text[0] != mark {
        lemma_first_index_bounds(text.drop_first(), mark);
        assert forall|i: int| 0 <= i < first_index(text, mark) implies text[i] != mark by {
            if i > 0 {
                assert(text[i] == text.drop_first()[i - 1]);
            }
        }
    }
}

/// Every text comes before or with itself.
pub proof fn lemma_text_leq_reflexive(a: Seq<char>)
    ensures
        text_leq(a, a),
    decreases a.len(),
{
    if a.len() > 0 {
        lemma_text_leq_reflexive(a.drop_first());
    }
}

/// Two texts of which each comes before or with the other are the same.
pub proof fn lemma_text_leq_antisymmetric(a: Seq<char>, b: Seq<char>)
    requires
        text_leq(a, b),
        text_leq(b, a),
    ensures
        a == b,
    decreases a.len(),
{
    if a.len() == 0 {
        assert(b.len() == 0);
        assert(a =~= b);
    } else {
        assert(b.len() > 0);
        assert(a[0] == b[0]);
        lemma_text_leq_antisymmetric(a.drop_first(), b.drop_first());
        assert(a =~= seq![a[0]] + a.drop_first());
        assert(b =~= seq![b[0]] + b.drop_first());
    }
}

/// What comes before or with a text comes before or with whatever that
/// text comes before or with.
pub proof fn lemma_text_leq_transitive(a: Seq<char>, b: Seq<char>, c: Seq<char>)
    requires
        text_leq(a, b),
        text_leq(b, c),
    ensures
        text_leq(a, c),
    decreases a.len(),
{
    if a.len() > 0 {
        assert(b.len() > 0);
        assert(c.len() > 0);
        if a[0] == b[0] && b[0] == c[0] {
            lemma_text_leq_transitive(a.drop_first(), b.drop_first(), c.drop_first());
        }
    }
}

/// Of two texts one comes before or with the other.
pub proof fn lemma_text_leq_total(a: Seq<char>, b: Seq<char>)
    ensures
        text_leq(a, b) || text_leq(b, a),
    decreases a.len(),
{
    if a.len() > 0 && b.len() > 0 {
        if a[0] == b[0] {
            lemma_text_leq_total(a.drop_first(), b.drop_first());
        } else {
            assert(a[0] as int != b[0] as int);
        }
    }
}

/// The order of named values is a total order.
pub proof fn lemma_pair_order_total()
    ensures
        total_ordering(pair_order()),
{
    let leq = pair_order();
    assert forall|x: (Seq<char>, Seq<char>)| #[trigger] leq(x, x) by {
        lemma_text_leq_reflexive(x.1);
    }
    assert forall|x: (Seq<char>, Seq<char>), y: (Seq<char>, Seq<char>)| #[trigger]
        leq(x, y) && #[trigger] leq(y, x) implies x == y by {
        if x.0 != y.0 {
            lemma_text_leq_antisymmetric(x.0, y.0);
        } else {
            lemma_text_leq_antisymmetric(x.1, y.1);
        }
    }
    assert forall|x: (Seq<char>, Seq<char>), y: (Seq<char>, Seq<char>), z: (Seq<char>, Seq<char>)| #[trigger]
        leq(x, y) && #[trigger] leq(y, z) implies leq(x, z) by {
        if x.0 != y.0 {
            if y.0 != z.0 {
                lemma_text_leq_transitive(x.0, y.0, z.0);
                if x.0 == z.0 {
                    lemma_text_leq_antisymmetric(x.0, y.0);
                }
            }
        } else if y.0 == z.0 {
            lemma_text_leq_transitive(x.1, y.1, z.1);
        }
    }
    assert forall|x: (Seq<char>, Seq<char>), y: (Seq<char>, Seq<char>)| #[trigger]
        leq(x, y) || #[trigger] leq(y, x) by {
        lemma_text_leq_total(x.0, y.0);
        lemma_text_leq_total(x.1, y.1);
    }
}

} // verus!
