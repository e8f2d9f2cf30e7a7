//! Heuristic progress extraction from free-form worker output.

use vstd::prelude::*;
use vstd::string::*;
use crate::text::{
    chars_of, find_from, find_from_exec, split_words, trim, trim_range, views_of, words,
};

verus! {

/// A progress reading taken from one line: `current` of `total`, and a
/// short status text.
#[derive(Clone, Debug)]
pub struct Progress {
    pub current: u64,
    pub total: u64,
    pub status: String,
}

pub open spec fn is_digit(c: char) -> bool {
    '0' <= c && c <= '9'
}

pub open spec fn all_digits(w: Seq<char>) -> bool {
    forall|i: int| 0 <= i < w.len() ==> is_digit(#[trigger] w[i])
}

/// The decimal value of a string of digits.
pub open spec fn digits_val(w: Seq<char>) -> nat
    decreases w.len(),
{
    if w.len() == 0 {
        0
    } else {
        digits_val(w.drop_last()) * 10 + (w.last() as u32 - '0' as u32) as nat
    }
}

/// A word read as a non-negative integer that fits in 64 bits.
pub open spec fn parse_num(w: Seq<char>) -> Option<nat> {
    if w.len() > 0 && all_digits(w) && digits_val(w) <= u64::MAX {
        Some(digits_val(w))
    } else {
        None
    }
}

pub open spec fn of_word() -> Seq<char> {
    seq!['o', 'f']
}

/// The first adjacent triple `(A, "of", B)` at or after word `i` whose ends
/// both read as numbers.
pub open spec fn triple_from(ws: Seq<Seq<char>>, i: int) -> Option<(nat, nat)>
    decreases ws.len() - i,
{
    if i < 0 || i + 2 >= ws.len() {
        None
    } else if ws[i + 1] == of_word() && parse_num(ws[i]) is Some && parse_num(ws[i + 2]) is Some {
        Some((parse_num(ws[i]).unwrap(), parse_num(ws[i + 2]).unwrap()))
    } else {
        triple_from(ws, i + 1)
    }
}

/// Marker that opens the name of a bundle being processed.
pub open spec fn bundle_open() -> Seq<char> {
    seq!['=', '=', '=', ' ', 'P', 'r', 'o', 'c', 'e', 's', 's', 'i', 'n', 'g', ' ', 'b', 'u', 'n', 'd', 'l', 'e', ':', ' ']
}

/// Marker that closes the bundle name.
pub open spec fn bundle_close() -> Seq<char> {
    seq![' ', '=', '=', '=']
}

/// Marker that ends the status text of an "X of Y" line.
pub open spec fn status_delim() -> Seq<char> {
    seq!['=', '=', '=']
}

pub open spec fn processing_prefix() -> Seq<char> {
    seq!['P', 'r', 'o', 'c', 'e', 's', 's', 'i', 'n', 'g', ':', ' ']
}

/// The bundle name between the opening marker and the first closing marker
/// after it.
pub open spec fn bundle_name(s: Seq<char>) -> Option<Seq<char>> {
    match find_from(s, bundle_open(), 0) {
        Some(a) => match find_from(s, bundle_close(), a + bundle_open().len()) {
            Some(b) => Some(s.subrange(a + bundle_open().len(), b)),
            None => None,
        },
        None => None,
    }
}

/// The text before the first status delimiter (the whole line if there is
/// none), trimmed.
pub open spec fn status_of(s: Seq<char>) -> Seq<char> {
    match find_from(s, status_delim(), 0) {
        Some(k) => trim(s.take(k)),
        None => trim(s),
    }
}

/// What a line yields: the bundle heuristic first, then the first
/// "X of Y" triple.
pub open spec fn extract_spec(s: Seq<char>) -> Option<(nat, nat, Seq<char>)> {
    match bundle_name(s) {
        Some(name) => Some((0, 0, processing_prefix() + name)),
        None => match triple_from(words(s), 0) {
            Some(t) => Some((t.0, t.1, status_of(s))),
            None => None,
        },
    }
}

/// Reads a word as a number that fits in 64 bits.
pub fn parse_u64(w: &Vec<char>) -> (r: Option<u64>)
    ensures
        match r {
            Some(v) => parse_num(w@) == Some(v as nat),
            None => parse_num(w@) is None,
        },
{
    if w.len() == 0 {
        return None;
    }
    let mut acc: u64 = 0;
    let mut i: usize = 0;
    while i < w.len()
        invariant
            i <= w.len(),
            all_digits(w@.take(i as int)),
            acc as nat == digits_val(w@.take(i as int)),
        decreases w.len() - i,
    {
        let c = w[i];
        assert(w@.take(i + 1).drop_last() =~= w@.take(i as int));
        if !('0' <= c && c <= '9') {
            return None;
        }
        let d: u64 = (c as u32 - '0' as u32) as u64;
        if acc > (u64::MAX - d) / 10 {
            proof {
                if all_digits(w@) {
                    lemma_val_mono(w@, i as int + 1);
                }
            }
            return None;
        }
        acc = acc * 10 + d;
        i = i + 1;
    }
    assert(w@.take(w.len() as int) =~= w@);
    Some(acc)
}

/// A prefix of a string of digits is worth no more than the whole.
proof fn lemma_val_mono(w: Seq<char>, k: int)
    requires
        all_digits(w),
        0 <= k <= w.len(),
    ensures
        digits_val(w.take(k)) <= digits_val(w),
    decreases w.len(),
{
    if k < w.len() {
        let v = w.drop_last();
        assert(v.take(k) =~= w.take(k));
        assert(all_digits(v));
        lemma_val_mono(v, k);
    } else {
        assert(w.take(k) =~= w);
    }
}

/// Scans the words for the first `(A, "of", B)` triple of numbers.
pub fn find_triple(ws: &Vec<Vec<char>>) -> (r: Option<(u64, u64)>)
    ensures
        match r {
            Some(t) => triple_from(views_of(ws@), 0) == Some((t.0 as nat, t.1 as nat)),
            None => triple_from(views_of(ws@), 0) is None,
        },
{
    let ghost vs = views_of(ws@);
    let of_w = vec!['o', 'f'];
    assert(of_w@ == of_word());
    let mut i: usize = 0;
    while i < ws.len() && ws.len() - i > 2
        invariant
            vs == views_of(ws@),
            of_w@ == of_word(),
            vs.len() == ws.len(),
            triple_from(vs, 0) == triple_from(vs, i as int),
        decreases ws.len() - i,
    {
        assert(vs[i as int] == ws@[i as int]@);
        assert(vs[i + 1] == ws@[i + 1]@);
        assert(vs[i + 2] == ws@[i + 2]@);
        let is_of = eq_chars(&ws[i + 1], &of_w);
        if is_of {
            let a = parse_u64(&ws[i]);
            let b = parse_u64(&ws[i + 2]);
            if let (Some(x), Some(y)) = (a, b) {
                return Some((x, y));
            }
        }
        i = i + 1;
    }
    None
}

/// Equality of two character vectors.
pub fn eq_chars(a: &Vec<char>, b: &Vec<char>) -> (r: bool)
    ensures
        r == (a@ == b@),
{
    if a.len() != b.len() {
        return false;
    }
    let mut i: usize = 0;
    while i < a.len()
        invariant
            a.len() == b.len(),
            i <= a.len(),
            forall|k: int| 0 <= k < i ==> a@[k] == b@[k],
        decreases a.len() - i,
    {
        if a[i] != b[i] {
            return false;
        }
        i = i + 1;
    }
    assert(a@ =~= b@);
    true
}

/// Extracts a progress reading from a line, if one of the two heuristics
/// finds one. A bundle line gives total 0: it names the bundle being
/// processed and carries no progress count.
pub fn extract(line: &str) -> (r: Option<Progress>)
    ensures
        match r {
            Some(p) => extract_spec(line@) == Some((p.current as nat, p.total as nat, p.status@)),
            None => extract_spec(line@) is None,
        },
{
    let cs = chars_of(line);
    let open_w = vec!['=', '=', '=', ' ', 'P', 'r', 'o', 'c', 'e', 's', 's', 'i', 'n', 'g', ' ', 'b', 'u', 'n', 'd', 'l', 'e', ':', ' '];
    let close_w = vec![' ', '=', '=', '='];
    let delim_w = vec!['=', '=', '='];
    assert(open_w@ == bundle_open());
    assert(close_w@ == bundle_close());
    assert(delim_w@ == status_delim());
    if let Some(a) = find_from_exec(&cs, &open_w, 0) {
        let from = a + open_w.len();
        if let Some(b) = find_from_exec(&cs, &close_w, from) {
            let name = line.substring_char(from, b);
            let mut status = String::from_str("Processing: ");
            proof {
                reveal_strlit("Processing: ");
            }
            assert(status@ =~= processing_prefix());
            status.append(name);
            return Some(Progress { current: 0, total: 0, status });
        }
    }
    let ws = split_words(&cs);
    match find_triple(&ws) {
        Some((x, y)) => {
            let end = match find_from_exec(&cs, &delim_w, 0) {
                Some(k) => k,
                None => cs.len(),
            };
            let mut pre: Vec<char> = Vec::new();
            let mut i: usize = 0;
            while i < end
                invariant
                    end <= cs.len(),
                    i <= end,
                    pre@ == cs@.take(i as int),
                decreases end - i,
            {
                pre.push(cs[i]);
                assert(cs@.take(i + 1) =~= cs@.take(i as int).push(cs@[i as int]));
                i = i + 1;
            }
            assert(cs@.take(cs.len() as int) =~= cs@);
            let (lo, hi) = trim_range(&pre);
            assert(pre@.subrange(lo as int, hi as int) =~= cs@.subrange(lo as int, hi as int));
            let status = String::from_str(line.substring_char(lo, hi));
            Some(Progress { current: x, total: y, status })
        },
        None => None,
    }
}

} // verus!
