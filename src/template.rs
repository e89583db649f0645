use vstd::prelude::*;

verus! {

/// The longest run of digits accepted in a format specification: widths and
/// precisions stay below 10000.
pub const MAX_SPEC_DIGITS: usize = 4;

/// The state of a left-to-right scan of a command template:
/// `open`: the last brace seen is `{`;
/// `pending`: a `:` was seen after an open brace, and no `}` has closed it yet;
/// `run`: the number of digits just read while pending;
/// `overlong`: some run of digits while pending was longer than `MAX_SPEC_DIGITS`.
pub struct ScanState {
    pub open: bool,
    pub pending: bool,
    pub run: nat,
    pub overlong: bool,
}

pub open spec fn is_digit(c: char) -> bool {
    '0' <= c && c <= '9'
}

/// The scan state after reading `c`.
pub open spec fn scan_step(st: ScanState, c: char) -> ScanState {
    if c == '}' {
        ScanState { open: false, pending: false, run: 0, overlong: st.overlong }
    } else if c == '{' {
        ScanState { open: true, pending: st.pending, run: 0, overlong: st.overlong }
    } else if c == ':' && st.open {
        ScanState { open: true, pending: true, run: 0, overlong: st.overlong }
    } else if st.pending && is_digit(c) {
        ScanState {
            open: st.open,
            pending: true,
            run: st.run + 1,
            overlong: st.overlong || st.run + 1 > MAX_SPEC_DIGITS,
        }
    } else {
        ScanState { open: st.open, pending: st.pending, run: 0, overlong: st.overlong }
    }
}

/// The scan state after reading all of `s`.
pub open spec fn scan(s: Seq<char>) -> ScanState
    decreases s.len(),
{
    if s.len() == 0 {
        ScanState { open: false, pending: false, run: 0, overlong: false }
    } else {
        scan_step(scan(s.drop_last()), s.last())
    }
}

/// Every format specification of the template is complete: each `:` that
/// follows an open brace is followed by a closing `}`, and no run of digits
/// between them is longer than `MAX_SPEC_DIGITS`.
pub open spec fn specs_complete(s: Seq<char>) -> bool {
    let st = scan(s);
    !st.pending && !st.overlong
}

/// Decides `specs_complete` for a template.
pub fn has_complete_specs(template: &str) -> (r: bool)
    ensures
        r == specs_complete(template@),
{
    let n = template.unicode_len();
    let mut open = false;
    let mut pending = false;
    let mut run: usize = 0;
    let mut i: usize = 0;
    assert(template@.subrange(0, 0) =~= Seq::<char>::empty());
    while i < n
        invariant
            n == template@.len(),
            i <= n,
            run <= MAX_SPEC_DIGITS,
            scan(template@.subrange(0, i as int)) == (ScanState {
                open,
                pending,
                run: run as nat,
                overlong: false,
            }),
        decreases n - i,
    {
        assert(template@.subrange(0, i + 1).drop_last() =~= template@.subrange(0, i as int));
        let c = template.get_char(i);
        if c == '}' {
            open = false;
            pending = false;
            run = 0;
        } else if c == '{' {
            open = true;
            run = 0;
        } else if c == ':' && open {
            pending = true;
            run = 0;
        } else if pending && '0' <= c && c <= '9' {
            if run == MAX_SPEC_DIGITS {
                proof {
                    lemma_overlong_stays(template@, i as int + 1);
                }
                return false;
            }
            run = run + 1;
        } else {
            run = 0;
        }
        i = i + 1;
    }
    assert(template@.subrange(0, n as int) =~= template@);
    !pending
}

/// Once a scan has seen an overlong run of digits, it keeps that fact.
proof fn lemma_overlong_stays(s: Seq<char>, k: int)
    requires
        0 <= k <= s.len(),
        scan(s.subrange(0, k)).overlong,
    ensures
        scan(s).overlong,
    decreases s.len() - k,
{
    if k < s.len() {
        assert(s.subrange(0, k + 1).drop_last() =~= s.subrange(0, k));
        lemma_overlong_stays(s, k + 1);
    } else {
        assert(s.subrange(0, k) =~= s);
    }
}

} // verus!
