//! Text primitives shared by the crawler and the compactor: decimal
//! rendering and parsing, and byte-wise substring search.

use vstd::prelude::*;
use vstd::string::*;

verus! {

/// The character that writes the digit `d` (meaningful for `d < 10`).
pub open spec fn digit_char(d: nat) -> char {
    if d == 0 {
        '0'
    } else if d == 1 {
        '1'
    } else if d == 2 {
        '2'
    } else if d == 3 {
        '3'
    } else if d == 4 {
        '4'
    } else if d == 5 {
        '5'
    } else if d == 6 {
        '6'
    } else if d == 7 {
        '7'
    } else if d == 8 {
        '8'
    } else {
        '9'
    }
}

/// The decimal numeral of `n`: no sign, no leading zeros, `"0"` for zero.
pub open spec fn decimal(n: nat) -> Seq<char>
    decreases n,
{
    if n < 10 {
        seq![digit_char(n)]
    } else {
        decimal(n / 10).push(digit_char(n % 10))
    }
}

fn digit_str(d: u64) -> (s: &'static str)
    requires
        d < 10,
    ensures
        s@ == seq![digit_char(d as nat)],
{
    proof {
        reveal_strlit("0");
        reveal_strlit("1");
        reveal_strlit("2");
        reveal_strlit("3");
        reveal_strlit("4");
        reveal_strlit("5");
        reveal_strlit("6");
        reveal_strlit("7");
        reveal_strlit("8");
        reveal_strlit("9");
    }
    let s = if d == 0 {
        "0"
    } else if d == 1 {
        "1"
    } else if d == 2 {
        "2"
    } else if d == 3 {
        "3"
    } else if d == 4 {
        "4"
    } else if d == 5 {
        "5"
    } else if d == 6 {
        "6"
    } else if d == 7 {
        "7"
    } else if d == 8 {
        "8"
    } else {
        "9"
    };
    assert(s@ =~= seq![digit_char(d as nat)]);
    s
}

/// Appends the decimal numeral of `n` to `out`.
pub fn push_decimal(out: &mut String, n: u64)
    ensures
        final(out)@ == old(out)@ + decimal(n as nat),
    decreases n,
{
    if n >= 10 {
        push_decimal(out, n / 10);
    }
    out.append(digit_str(n % 10));
    assert(out@ =~= old(out)@ + decimal(n as nat));
}

/// The decimal numeral of `n` as an owned string.
pub fn to_decimal(n: u64) -> (s: String)
    ensures
        s@ == decimal(n as nat),
{
    let mut s = String::new();
    push_decimal(&mut s, n);
    assert(s@ =~= decimal(n as nat));
    s
}

/// The position of the first `feed` of `text`, or the length of `text` if it
/// holds none.
pub open spec fn first_feed<T>(text: Seq<T>, feed: T) -> int
    decreases text.len(),
{
    if text.len() == 0 || text.first() == feed {
        0
    } else {
        1 + first_feed(text.drop_first(), feed)
    }
}

/// The lines of `text`, where `feed` ends a line: what stands before each
/// `feed`, in order, and what follows the last one unless that is nothing.
pub open spec fn lines_of<T>(text: Seq<T>, feed: T) -> Seq<Seq<T>>
    decreases text.len(),
{
    if text.len() == 0 {
        Seq::empty()
    } else {
        let n = first_feed(text, feed);
        if 0 <= n < text.len() {
            seq![text.take(n)] + lines_of(text.skip(n + 1), feed)
        } else {
            seq![text]
        }
    }
}

/// The text of an optional string.
pub open spec fn text_view(s: Option<String>) -> Option<Seq<char>> {
    match s {
        Some(t) => Some(t@),
        None => None,
    }
}

/// The texts of a sequence of strings, in order.
pub open spec fn texts_view(v: Seq<String>) -> Seq<Seq<char>> {
    Seq::new(v.len(), |i: int| v[i]@)
}

/// The texts of a sequence of optional strings, in order.
pub open spec fn optional_texts_view(v: Seq<Option<String>>) -> Seq<Option<Seq<char>>> {
    Seq::new(v.len(), |i: int| text_view(v[i]))
}

/// The texts of a sequence of pairs of optional strings, in order.
pub open spec fn text_pairs_view(v: Seq<(Option<String>, Option<String>)>) -> Seq<
    (Option<Seq<char>>, Option<Seq<char>>),
> {
    Seq::new(v.len(), |i: int| (text_view(v[i].0), text_view(v[i].1)))
}

/// A copy of every string of `v`, in order.
pub fn clone_texts(v: &Vec<String>) -> (r: Vec<String>)
    ensures
        texts_view(r@) == texts_view(v@),
{
    let mut r: Vec<String> = Vec::new();
    let mut i: usize = 0;
    while i < v.len()
        invariant
            i <= v.len(),
            r.len() == i,
            forall|j: int| 0 <= j < i ==> r[j]@ == v[j]@,
        decreases v.len() - i,
    {
        r.push(v[i].clone());
        i += 1;
    }
    assert(texts_view(r@) =~= texts_view(v@));
    r
}


/// Whether `b` is one of the ASCII digits.
pub open spec fn is_digit(b: u8) -> bool {
    0x30 <= b <= 0x39
}

/// Whether every byte of `ds` is an ASCII digit.
pub open spec fn all_digits(ds: Seq<u8>) -> bool {
    forall|i: int| 0 <= i < ds.len() ==> is_digit(#[trigger] ds[i])
}

/// The number that the decimal digits `ds` write, most significant first.
pub open spec fn digits_value(ds: Seq<u8>) -> int
    decreases ds.len(),
{
    if ds.len() == 0 {
        0
    } else {
        digits_value(ds.drop_last()) * 10 + (ds.last() - 0x30)
    }
}

/// The page count that a pagination label writes, if it writes one.
///
/// A label counts if it is one optional sign, `+` or `-`, followed by at
/// least one ASCII digit and nothing else, and if the number fits in `i32`.
/// Blanks are not skipped.
pub open spec fn page_count(label: Seq<u8>) -> Option<int> {
    let signed = label.len() > 0 && (label[0] == 0x2b || label[0] == 0x2d);
    let digits = if signed {
        label.skip(1)
    } else {
        label
    };
    let value = if signed && label[0] == 0x2d {
        -digits_value(digits)
    } else {
        digits_value(digits)
    };
    if digits.len() > 0 && all_digits(digits) && i32::MIN <= value <= i32::MAX {
        Some(value)
    } else {
        None
    }
}

/// A numeral is worth at least as much as each of its prefixes.
proof fn lemma_value_grows(ds: Seq<u8>, k: int)
    requires
        all_digits(ds),
        0 <= k <= ds.len(),
    ensures
        0 <= digits_value(ds.take(k)) <= digits_value(ds),
    decreases ds.len(),
{
    if k == ds.len() {
        assert(ds.take(k) =~= ds);
        if ds.len() > 0 {
            lemma_value_grows(ds.drop_last(), k - 1);
            assert(ds.drop_last().take(k - 1) =~= ds.drop_last());
        }
    } else {
        lemma_value_grows(ds.drop_last(), k);
        assert(ds.drop_last().take(k) =~= ds.take(k));
        lemma_value_grows(ds.drop_last(), ds.len() - 1);
        assert(ds.drop_last().take(ds.len() - 1) =~= ds.drop_last());
    }
}

/// Reads a page count from the text of a pagination label.
pub fn parse_page_count(label: &str) -> (count: Option<i32>)
    ensures
        count matches Some(n) ==> page_count(label.spec_bytes()) == Some(n as int),
        count is None ==> page_count(label.spec_bytes()) is None,
{
    let bytes = label.as_bytes();
    let n = bytes.len();
    if n == 0 {
        return None;
    }
    let signed = bytes[0] == 0x2b || bytes[0] == 0x2d;
    let negative = bytes[0] == 0x2d;
    let first: usize = if signed {
        1
    } else {
        0
    };
    if first == n {
        return None;
    }
    let ghost digits = if signed {
        bytes@.skip(1)
    } else {
        bytes@
    };
    let mut acc: i64 = 0;
    let mut i: usize = first;
    assert(digits.take(0) =~= Seq::<u8>::empty());
    while i < n
        invariant
            bytes@ == label.spec_bytes(),
            n == bytes@.len(),
            n > 0,
            signed == (bytes@[0] == 0x2b || bytes@[0] == 0x2d),
            first <= i <= n,
            first == (if signed { 1int } else { 0int }),
            digits == (if signed { bytes@.skip(1) } else { bytes@ }),
            all_digits(digits.take(i - first)),
            acc == digits_value(digits.take(i - first)),
            0 <= acc <= 0x8000_0000,
        decreases n - i,
    {
        let b = bytes[i];
        let ghost upto = digits.take(i - first + 1);
        assert(upto.drop_last() =~= digits.take(i - first));
        assert(upto.last() == b);
        assert(digits[i - first] == b);
        if b < 0x30 || b > 0x39 {
            assert(!is_digit(digits[i - first]));
            assert(!all_digits(digits));
            return None;
        }
        let d: i64 = (b - 0x30) as i64;
        let next: i64 = acc * 10 + d;
        assert(all_digits(upto)) by {
            assert forall|j: int| 0 <= j < upto.len() implies is_digit(#[trigger] upto[j]) by {
                if j < upto.len() - 1 {
                    assert(upto[j] == digits.take(i - first)[j]);
                }
            }
        }
        assert(digits_value(upto) == next);
        if next > 0x8000_0000 {
            proof {
                if all_digits(digits) {
                    lemma_value_grows(digits, i - first + 1);
                }
            }
            return None;
        }
        acc = next;
        i += 1;
    }
    assert(digits.take(n - first) =~= digits);
    if negative {
        Some((0 - acc) as i32)
    } else if acc == 0x8000_0000 {
        None
    } else {
        Some(acc as i32)
    }
}

/// Whether `needle` stands in `hay` from position `at` on.
pub open spec fn occurs_at(hay: Seq<u8>, needle: Seq<u8>, at: int) -> bool {
    0 <= at && at + needle.len() <= hay.len() && hay.subrange(at, at + needle.len()) == needle
}

/// Whether `needle` stands somewhere in `hay`.
pub open spec fn contains_bytes(hay: Seq<u8>, needle: Seq<u8>) -> bool {
    exists|at: int| occurs_at(hay, needle, at)
}

/// Whether `needle` stands in `hay` from position `at` on.
fn matches_at(hay: &[u8], needle: &[u8], at: usize) -> (r: bool)
    requires
        at + needle@.len() <= hay@.len(),
    ensures
        r == occurs_at(hay@, needle@, at as int),
{
    let size: usize = hay.len();
    let mut j: usize = 0;
    while j < needle.len()
        invariant
            j <= needle@.len(),
            size == hay@.len(),
            at + needle@.len() <= hay@.len(),
            forall|k: int| 0 <= k < j ==> hay@[at + k] == needle@[k],
        decreases needle.len() - j,
    {
        if hay[at + j] != needle[j] {
            assert(hay@.subrange(at as int, at + needle@.len())[j as int] != needle@[j as int]);
            return false;
        }
        j += 1;
    }
    assert(hay@.subrange(at as int, at + needle@.len()) =~= needle@);
    true
}

/// Whether the text `needle` occurs in the text `hay`, compared byte by
/// byte in UTF-8.
pub fn contains_text(hay: &str, needle: &str) -> (found: bool)
    ensures
        found == contains_bytes(hay.spec_bytes(), needle.spec_bytes()),
{
    let h = hay.as_bytes();
    let n = needle.as_bytes();
    if n.len() > h.len() {
        assert(forall|at: int| !occurs_at(h@, n@, at));
        return false;
    }
    let last: usize = h.len() - n.len();
    let mut at: usize = 0;
    while at < last
        invariant
            h@ == hay.spec_bytes(),
            n@ == needle.spec_bytes(),
            last == h@.len() - n@.len(),
            at <= last,
            forall|k: int| 0 <= k < at ==> !occurs_at(h@, n@, k),
        decreases last - at,
    {
        if matches_at(h, n, at) {
            assert(occurs_at(h@, n@, at as int));
            return true;
        }
        at += 1;
    }
    let found = matches_at(h, n, last);
    assert(found == contains_bytes(h@, n@)) by {
        if found {
            assert(occurs_at(h@, n@, last as int));
        } else {
            assert(forall|k: int| !occurs_at(h@, n@, k));
        }
    }
    found
}

} // verus!
