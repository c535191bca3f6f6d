//! The instrument picker: which symbols it lists for what the user typed,
//! and when it warns that a typed symbol is unknown.

use vstd::prelude::*;

use crate::text::{str_equals, string_views, trim_str, trimmed};

verus! {

/// Most symbols the picker lists at once.
pub const PICKER_LIMIT: usize = 20;

/// Whether `sub` occurs in `s` as a contiguous part (the empty string occurs everywhere).
pub open spec fn spec_contains_str(s: Seq<char>, sub: Seq<char>) -> bool {
    exists|i: int| 0 <= i && i + sub.len() <= s.len() && #[trigger] s.subrange(i, i + sub.len()) == sub
}

/// Symbols offered while no instrument list has been fetched.
pub open spec fn spec_popular_symbols() -> Seq<Seq<char>> {
    seq![
        "BTCUSDT"@, "ETHUSDT"@, "SOLUSDT"@, "BNBUSDT"@,
        "XRPUSDT"@, "ADAUSDT"@, "DOGEUSDT"@, "AVAXUSDT"@,
        "LINKUSDT"@, "DOTUSDT"@, "UNIUSDT"@, "MATICUSDT"@,
    ]
}

/// The symbols the picker lists: those of the fetched list (or the popular
/// ones while none was fetched) that contain the typed text, at most
/// `PICKER_LIMIT`, in list order.
pub open spec fn spec_picker_symbols(available: Seq<Seq<char>>, filter: Seq<char>) -> Seq<Seq<char>> {
    let source = if available.len() == 0 { spec_popular_symbols() } else { available };
    let matching = if filter.len() == 0 {
        source
    } else {
        source.filter(|s: Seq<char>| spec_contains_str(s, filter))
    };
    if matching.len() <= PICKER_LIMIT { matching } else { matching.take(PICKER_LIMIT as int) }
}

/// The picker lists at most `PICKER_LIMIT` symbols, and each of them
/// contains the typed text.
pub proof fn lemma_picker_symbols_match(available: Seq<Seq<char>>, filter: Seq<char>)
    ensures
        spec_picker_symbols(available, filter).len() <= PICKER_LIMIT,
        forall|i: int|
            0 <= i < spec_picker_symbols(available, filter).len() ==> spec_contains_str(
                #[trigger] spec_picker_symbols(available, filter)[i],
                filter,
            ),
{
    let source = if available.len() == 0 { spec_popular_symbols() } else { available };
    let pred = |s: Seq<char>| spec_contains_str(s, filter);
    let matching = if filter.len() == 0 { source } else { source.filter(pred) };
    let r = spec_picker_symbols(available, filter);
    assert forall|i: int| 0 <= i < r.len() implies spec_contains_str(#[trigger] r[i], filter) by {
        assert(r[i] == matching[i]);
        if filter.len() == 0 {
            assert(r[i].subrange(0, 0 + filter.len() as int) =~= filter);
        } else {
            source.lemma_filter_pred(pred, i);
            assert(pred(matching[i]));
        }
    }
}

/// Where the picker takes its symbols from: the fetched list, or the popular
/// symbols while none was fetched.
pub open spec fn spec_picker_source(available: Seq<Seq<char>>) -> Seq<Seq<char>> {
    if available.len() == 0 { spec_popular_symbols() } else { available }
}

/// The empty text occurs in every symbol.
pub proof fn lemma_empty_text_contained(s: Seq<char>, filter: Seq<char>)
    requires
        filter.len() == 0,
    ensures
        spec_contains_str(s, filter),
{
    assert(s.subrange(0, 0 + filter.len() as int) =~= filter);
}

/// Keeping the symbols that satisfy a predicate every symbol satisfies keeps them all.
proof fn lemma_filter_keeps_all(src: Seq<Seq<char>>, pred: spec_fn(Seq<char>) -> bool)
    requires
        forall|i: int| 0 <= i < src.len() ==> #[trigger] pred(src[i]),
    ensures
        src.filter(pred) == src,
    decreases src.len(),
{
    reveal(Seq::filter);
    if src.len() > 0 {
        let front = src.drop_last();
        assert forall|i: int| 0 <= i < front.len() implies #[trigger] pred(front[i]) by {
            assert(front[i] == src[i]);
        }
        lemma_filter_keeps_all(front, pred);
        assert(pred(src[src.len() - 1]));
        assert(front.push(src.last()) =~= src);
    }
}

/// The picker lists exactly the first `PICKER_LIMIT` symbols of its source
/// that contain the typed text, in source order; with nothing typed every
/// symbol contains the text, so the first `PICKER_LIMIT` symbols are listed.
pub proof fn lemma_picker_symbols_first_matches(available: Seq<Seq<char>>, filter: Seq<char>)
    ensures
        spec_picker_symbols(available, filter) == ({
            let matching = spec_picker_source(available).filter(
                |s: Seq<char>| spec_contains_str(s, filter),
            );
            if matching.len() <= PICKER_LIMIT {
                matching
            } else {
                matching.take(PICKER_LIMIT as int)
            }
        }),
{
    let source = spec_picker_source(available);
    let holds_text = |s: Seq<char>| spec_contains_str(s, filter);
    if filter.len() == 0 {
        assert forall|i: int| 0 <= i < source.len() implies #[trigger] holds_text(source[i]) by {
            lemma_empty_text_contained(source[i], filter);
        }
        lemma_filter_keeps_all(source, holds_text);
    }
}

/// Every symbol of the source that contains the typed text is listed, at
/// the place given by the number of matching symbols before it, as long as
/// fewer than `PICKER_LIMIT` matching symbols come before it. In particular a
/// source symbol equal to the typed text is listed.
pub proof fn lemma_picker_symbols_complete(available: Seq<Seq<char>>, filter: Seq<char>, k: int)
    requires
        0 <= k < spec_picker_source(available).len(),
        spec_contains_str(spec_picker_source(available)[k], filter),
        spec_picker_source(available).take(k).filter(|s: Seq<char>| spec_contains_str(s, filter)).len()
            < PICKER_LIMIT,
    ensures
        ({
            let listed = spec_picker_symbols(available, filter);
            let before = spec_picker_source(available).take(k).filter(
                |s: Seq<char>| spec_contains_str(s, filter),
            ).len();
            &&& before < listed.len()
            &&& listed[before as int] == spec_picker_source(available)[k]
        }),
{
    let source = spec_picker_source(available);
    let holds_text = |s: Seq<char>| spec_contains_str(s, filter);
    lemma_picker_symbols_first_matches(available, filter);
    let head = source.take(k);
    let rest = source.subrange(k + 1, source.len() as int);
    assert(source.take(k + 1) =~= head.push(source[k]));
    head.lemma_filter_push(source[k], holds_text);
    assert(source =~= source.take(k + 1) + rest);
    Seq::filter_distributes_over_add(source.take(k + 1), rest, holds_text);
    let matching = source.filter(holds_text);
    let n = head.filter(holds_text).len();
    assert(matching == head.filter(holds_text).push(source[k]) + rest.filter(holds_text));
    assert(matching[n as int] == source[k]);
    assert(n < matching.len());
}

/// Whether `sub` occurs in `s`.
pub fn contains_str(s: &str, sub: &str) -> (b: bool)
    ensures
        b == spec_contains_str(s@, sub@),
{
    let n = s.unicode_len();
    let m = sub.unicode_len();
    if m > n {
        proof {
            assert forall|i: int| 0 <= i && i + sub@.len() <= s@.len() implies #[trigger] s@.subrange(i, i + sub@.len()) != sub@ by {}
        }
        return false;
    }
    let mut i: usize = 0;
    while i <= n - m
        invariant
            n == s@.len(),
            m == sub@.len(),
            m <= n,
            i <= n - m + 1,
            forall|k: int| 0 <= k < i ==> #[trigger] s@.subrange(k, k + m) != sub@,
        decreases n - m + 1 - i,
    {
        let mut j: usize = 0;
        let mut same = true;
        while j < m
            invariant
                n == s@.len(),
                m == sub@.len(),
                i + m <= n,
                j <= m,
                same ==> forall|l: int| 0 <= l < j ==> s@[i + l] == sub@[l],
                !same ==> exists|l: int| 0 <= l < m && s@[i + l] != sub@[l],
            decreases m - j,
        {
            if s.get_char(i + j) != sub.get_char(j) {
                same = false;
            }
            j = j + 1;
        }
        if same {
            proof {
                assert(s@.subrange(i as int, i + m) =~= sub@);
            }
            return true;
        }
        proof {
            let l = choose|l: int| 0 <= l < m && s@[i + l] != sub@[l];
            assert(s@.subrange(i as int, i + m)[l] != sub@[l]);
        }
        i = i + 1;
    }
    proof {
        assert forall|k: int| 0 <= k && k + sub@.len() <= s@.len() implies #[trigger] s@.subrange(k, k + sub@.len()) != sub@ by {
            assert(k < i);
        }
    }
    false
}

/// The popular symbols.
pub fn popular_symbols() -> (v: Vec<String>)
    ensures
        string_views(v@) == spec_popular_symbols(),
{
    let v = vec![
        String::from_str("BTCUSDT"), String::from_str("ETHUSDT"), String::from_str("SOLUSDT"),
        String::from_str("BNBUSDT"), String::from_str("XRPUSDT"), String::from_str("ADAUSDT"),
        String::from_str("DOGEUSDT"), String::from_str("AVAXUSDT"), String::from_str("LINKUSDT"),
        String::from_str("DOTUSDT"), String::from_str("UNIUSDT"), String::from_str("MATICUSDT"),
    ];
    assert(string_views(v@) =~= spec_popular_symbols());
    v
}

/// The symbols the picker lists for the typed `filter`.
pub fn picker_symbols(available: &Vec<String>, filter: &str) -> (r: Vec<String>)
    ensures
        string_views(r@) == spec_picker_symbols(string_views(available@), filter@),
{
    let popular = popular_symbols();
    let source: &Vec<String> = if available.len() == 0 { &popular } else { available };
    let ghost src = string_views(source@);
    let ghost pred = |s: Seq<char>| spec_contains_str(s, filter@);
    let ghost all = filter@.len() == 0;
    let ghost matching = if all { src } else { src.filter(pred) };
    let everything = filter.unicode_len() == 0;
    let mut r: Vec<String> = Vec::new();
    let mut i: usize = 0;
    while i < source.len() && r.len() < PICKER_LIMIT
        invariant
            src == string_views(source@),
            pred == (|s: Seq<char>| spec_contains_str(s, filter@)),
            all == everything,
            all == (filter@.len() == 0),
            i <= source@.len(),
            r@.len() <= PICKER_LIMIT,
            string_views(r@) == if all { src.take(i as int) } else { src.take(i as int).filter(pred) },
        decreases source.len() - i,
    {
        let keep = everything || contains_str(source[i].as_str(), filter);
        proof {
            assert(src.take(i + 1) =~= src.take(i as int).push(src[i as int]));
            src.take(i as int).lemma_filter_push(src[i as int], pred);
        }
        if keep {
            r.push(source[i].clone());
        }
        i = i + 1;
        proof {
            assert(string_views(r@) =~= if all { src.take(i as int) } else { src.take(i as int).filter(pred) });
        }
    }
    proof {
        if i == source@.len() {
            assert(src.take(i as int) =~= src);
            if !all {
                src.lemma_filter_len(pred);
            }
        } else {
            // the limit was reached: what was kept is the first PICKER_LIMIT matching symbols
            lemma_filter_prefix(src, pred, i as int, all);
        }
    }
    r
}

/// The matching symbols among the first `i` of a list, when there are
/// already `PICKER_LIMIT` of them, are the first `PICKER_LIMIT` matching
/// symbols of the whole list.
proof fn lemma_filter_prefix(src: Seq<Seq<char>>, pred: spec_fn(Seq<char>) -> bool, i: int, all: bool)
    requires
        0 <= i <= src.len(),
        (if all { src.take(i) } else { src.take(i).filter(pred) }).len() == PICKER_LIMIT,
    ensures
        ({
            let matching = if all { src } else { src.filter(pred) };
            (if all { src.take(i) } else { src.take(i).filter(pred) }) == if matching.len() <= PICKER_LIMIT {
                matching
            } else {
                matching.take(PICKER_LIMIT as int)
            }
        }),
{
    if all {
        assert(src.take(i) =~= src.take(PICKER_LIMIT as int));
    } else {
        let rest = src.subrange(i, src.len() as int);
        assert(src =~= src.take(i) + rest);
        Seq::filter_distributes_over_add(src.take(i), rest, pred);
        assert(src.filter(pred) == src.take(i).filter(pred) + rest.filter(pred));
        assert((src.take(i).filter(pred) + rest.filter(pred)).take(PICKER_LIMIT as int) =~= src.take(i).filter(pred));
    }
}

/// Whether a typed symbol may be confirmed: something is left after trimming
/// white space.
pub fn symbol_input_ready(input: &str) -> (b: bool)
    ensures
        b == (trimmed(input@).len() > 0),
{
    trim_str(input).unicode_len() > 0
}

/// Whether the picker warns that the typed symbol is not in the fetched
/// list: a list was fetched and is not loading, something was typed, and
/// the list does not hold it.
pub fn symbol_not_listed(available: &Vec<String>, input: &str, loading: bool) -> (b: bool)
    ensures
        b == (available@.len() > 0 && input@.len() > 0 && !string_views(available@).contains(input@) && !loading),
{
    if available.len() == 0 || input.unicode_len() == 0 || loading {
        return false;
    }
    let mut i: usize = 0;
    while i < available.len()
        invariant
            i <= available@.len(),
            forall|k: int| 0 <= k < i ==> available@[k]@ != input@,
        decreases available.len() - i,
    {
        if str_equals(available[i].as_str(), input) {
            proof {
                assert(string_views(available@)[i as int] == input@);
            }
            return false;
        }
        i = i + 1;
    }
    proof {
        assert forall|k: int| 0 <= k < string_views(available@).len() implies string_views(available@)[k] != input@ by {
            assert(available@[k]@ != input@);
        }
    }
    true
}

} // verus!
