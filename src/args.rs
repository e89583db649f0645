use crate::error::Error;
use crate::profile::pairs_view;
use vstd::prelude::*;

verus! {

/// The position of the first `c` in `s`.
pub open spec fn first_index(s: Seq<char>, c: char) -> Option<int>
    decreases s.len(),
{
    if s.len() == 0 {
        None
    } else if s[0] == c {
        Some(0)
    } else {
        match first_index(s.drop_first(), c) {
            Some(i) => Some(i + 1),
            None => None,
        }
    }
}

/// The first `c` of `s` stands at `k`, or, with `k == s.len()`, there is none.
proof fn lemma_first_index(s: Seq<char>, c: char, k: int)
    requires
        0 <= k <= s.len(),
        forall|j: int| 0 <= j < k ==> s[j] != c,
        k < s.len() ==> s[k] == c,
    ensures
        first_index(s, c) == if k < s.len() {
            Some(k)
        } else {
            None::<int>
        },
    decreases k,
{
    if k > 0 {
        lemma_first_index(s.drop_first(), c, k - 1);
    }
}

/// The pieces of `s` between occurrences of `c`, as `str::split` yields them:
/// an empty text gives one empty piece.
pub open spec fn split(s: Seq<char>, c: char) -> Seq<Seq<char>>
    decreases s.len(),
{
    if s.len() == 0 {
        seq![Seq::empty()]
    } else {
        let prev = split(s.drop_last(), c);
        if s.last() == c {
            prev.push(Seq::empty())
        } else {
            prev.update(prev.len() - 1, prev.last().push(s.last()))
        }
    }
}

/// A `key=value` pair split at its first `=`.
pub open spec fn key_value(s: Seq<char>) -> Option<(Seq<char>, Seq<char>)> {
    match first_index(s, '=') {
        Some(i) => Some((s.subrange(0, i), s.subrange(i + 1, s.len() as int))),
        None => None,
    }
}

/// The position of the first `c` in `s`.
fn find_char(s: &str, c: char) -> (r: Option<usize>)
    ensures
        r matches Some(i) ==> first_index(s@, c) == Some(i as int),
        r is None ==> first_index(s@, c) is None,
{
    let n = s.unicode_len();
    let mut k: usize = 0;
    while k < n
        invariant
            n == s@.len(),
            k <= n,
            forall|j: int| 0 <= j < k ==> s@[j] != c,
        decreases n - k,
    {
        if s.get_char(k) == c {
            proof {
                lemma_first_index(s@, c, k as int);
            }
            return Some(k);
        }
        k = k + 1;
    }
    proof {
        lemma_first_index(s@, c, k as int);
    }
    None
}

/// Parses one `key=value` argument, splitting at the first `=`.
pub fn parse_key_value_pair(arg: &str) -> (r: Result<(String, String), Error>)
    ensures
        key_value(arg@) matches Some(kv) ==> (r matches Ok(p) && (p.0@, p.1@) == kv),
        key_value(arg@) is None ==> (r matches Err(Error::InvalidArgument { argument })
            && argument@ == arg@),
{
    match find_char(arg, '=') {
        Some(i) => {
            proof {
                crate::args::lemma_first_index_bound(arg@, '=');
            }
            let n = arg.unicode_len();
            let key = arg.substring_char(0, i).to_owned();
            let value = arg.substring_char(i + 1, n).to_owned();
            Ok((key, value))
        },
        None => Err(Error::InvalidArgument { argument: arg.to_owned() }),
    }
}

proof fn lemma_first_index_bound(s: Seq<char>, c: char)
    ensures
        first_index(s, c) matches Some(i) ==> 0 <= i < s.len(),
    decreases s.len(),
{
    if s.len() > 0 {
        lemma_first_index_bound(s.drop_first(), c);
    }
}

pub open spec fn strings_view(v: Seq<String>) -> Seq<Seq<char>> {
    v.map_values(|x: String| x@)
}

/// Splits `s` at every `c`.
fn split_on(s: &str, c: char) -> (r: Vec<String>)
    ensures
        strings_view(r@) == split(s@, c),
{
    let n = s.unicode_len();
    let mut pieces: Vec<String> = Vec::new();
    let mut start: usize = 0;
    let mut j: usize = 0;
    assert(s@.subrange(0, 0) =~= Seq::<char>::empty());
    assert(strings_view(pieces@).push(s@.subrange(0, 0)) =~= split(s@.subrange(0, 0), c));
    while j < n
        invariant
            n == s@.len(),
            start <= j <= n,
            strings_view(pieces@).push(s@.subrange(start as int, j as int)) == split(
                s@.subrange(0, j as int),
                c,
            ),
        decreases n - j,
    {
        let ghost prefix = s@.subrange(0, j + 1);
        let ghost prev = split(s@.subrange(0, j as int), c);
        assert(prefix.drop_last() =~= s@.subrange(0, j as int));
        if s.get_char(j) == c {
            let ghost before = pieces@;
            pieces.push(s.substring_char(start, j).to_owned());
            assert(strings_view(pieces@) =~= strings_view(before).push(
                s@.subrange(start as int, j as int),
            ));
            start = j + 1;
            assert(s@.subrange(start as int, j + 1) =~= Seq::<char>::empty());
            assert(strings_view(pieces@).push(s@.subrange(start as int, j + 1)) =~= prev.push(
                Seq::empty(),
            ));
        } else {
            assert(s@.subrange(start as int, j + 1) =~= s@.subrange(start as int, j as int).push(
                s@[j as int],
            ));
            assert(strings_view(pieces@).push(s@.subrange(start as int, j + 1)) =~= prev.update(
                prev.len() - 1,
                prev.last().push(s@[j as int]),
            ));
        }
        j = j + 1;
    }
    let ghost before = pieces@;
    pieces.push(s.substring_char(start, n).to_owned());
    assert(strings_view(pieces@) =~= strings_view(before).push(s@.subrange(start as int, n as int)));
    assert(s@.subrange(0, n as int) =~= s@);
    pieces
}

/// Parses comma-separated `key=value` arguments; a later pair for the same
/// key takes precedence when looked up.
pub fn parse_key_value_pairs(arg: &str) -> (r: Result<Vec<(String, String)>, Error>)
    ensures
        (forall|k: int| 0 <= k < split(arg@, ',').len() ==> #[trigger] key_value(split(arg@, ',')[k]) is Some)
            ==> (r matches Ok(v) && pairs_view(v@) == split(arg@, ',').map_values(
            |seg: Seq<char>| key_value(seg)->Some_0,
        )),
        !(forall|k: int| 0 <= k < split(arg@, ',').len() ==> #[trigger] key_value(split(arg@, ',')[k]) is Some)
            ==> (r matches Err(Error::InvalidArgument { argument }) && exists|k: int|
            0 <= k < split(arg@, ',').len() && key_value(#[trigger] split(arg@, ',')[k]) is None
                && argument@ == split(arg@, ',')[k]),
{
    let pieces = split_on(arg, ',');
    let ghost segs = split(arg@, ',');
    let mut pairs: Vec<(String, String)> = Vec::new();
    let mut k: usize = 0;
    while k < pieces.len()
        invariant
            strings_view(pieces@) == segs,
            segs == split(arg@, ','),
            k <= pieces.len(),
            forall|l: int| 0 <= l < k ==> #[trigger] key_value(segs[l]) is Some,
            pairs_view(pairs@) =~= segs.subrange(0, k as int).map_values(
                |seg: Seq<char>| key_value(seg)->Some_0,
            ),
        decreases pieces.len() - k,
    {
        assert(pieces@[k as int]@ == segs[k as int]);
        match parse_key_value_pair(pieces[k].as_str()) {
            Ok(pair) => {
                let ghost before = pairs@;
                pairs.push(pair);
                assert(pairs_view(pairs@) =~= pairs_view(before).push(
                    key_value(segs[k as int])->Some_0,
                ));
                assert(segs.subrange(0, k + 1).map_values(|seg: Seq<char>| key_value(seg)->Some_0)
                    =~= segs.subrange(0, k as int).map_values(
                    |seg: Seq<char>| key_value(seg)->Some_0,
                ).push(key_value(segs[k as int])->Some_0));
            },
            Err(e) => {
                assert(key_value(segs[k as int]) is None);
                return Err(e);
            },
        }
        k = k + 1;
    }
    assert(segs.subrange(0, k as int) =~= segs);
    Ok(pairs)
}

} // verus!
