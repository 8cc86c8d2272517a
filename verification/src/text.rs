//! Text helpers shared by the modules of the library.

use vstd::prelude::*;
use vstd::string::*;

verus! {

/// `needle` stands in `haystack` at the position `at`.
pub open spec fn occurs_at(needle: Seq<char>, haystack: Seq<char>, at: int) -> bool {
    0 <= at && at + needle.len() <= haystack.len() && haystack.subrange(at, at + needle.len())
        == needle
}

/// `needle` occurs in `haystack` as a contiguous run of characters.
pub open spec fn occurs_in(needle: Seq<char>, haystack: Seq<char>) -> bool {
    exists|at: int| occurs_at(needle, haystack, at)
}

/// The character of one decimal digit.
pub open spec fn digit_char(d: nat) -> char {
    if d == 0 {
        '0'
    } else if d == 1 {
        '1'
    } else if d == 2 {
        '2'
    } else if d == 3 {
        '3'
    } else if d == 4 {
        '4'
    } else if d == 5 {
        '5'
    } else if d == 6 {
        '6'
    } else if d == 7 {
        '7'
    } else if d == 8 {
        '8'
    } else {
        '9'
    }
}

/// The decimal notation of a number, without sign or leading zeros.
pub open spec fn decimal_digits(n: nat) -> Seq<char>
    decreases n,
{
    if n < 10 {
        seq![digit_char(n)]
    } else {
        decimal_digits(n / 10).push(digit_char(n % 10))
    }
}

/// The pieces of a list joined with single commas.
pub open spec fn comma_joined(pieces: Seq<Seq<char>>) -> Seq<char>
    decreases pieces.len(),
{
    if pieces.len() == 0 {
        Seq::<char>::empty()
    } else if pieces.len() == 1 {
        pieces[0]
    } else {
        comma_joined(pieces.drop_last()) + seq![','] + pieces.last()
    }
}

/// Number of characters before the first `sep`, or the length of the text
/// where it holds none.
pub open spec fn head_len(s: Seq<char>, sep: char) -> nat
    decreases s.len(),
{
    if s.len() == 0 || s[0] == sep {
        0
    } else {
        1 + head_len(s.drop_first(), sep)
    }
}

/// The text up to its first `sep`: all of it where it holds none.
pub open spec fn head_before(s: Seq<char>, sep: char) -> Seq<char> {
    s.take(head_len(s, sep) as int)
}

/// The pieces between the separators of a text, in order. A text without
/// separator is one piece; two separators in a row, or one at either end,
/// give an empty piece.
pub open spec fn pieces_of(s: Seq<char>, sep: char) -> Seq<Seq<char>>
    decreases s.len(),
    via pieces_of_decreases
{
    let h = head_len(s, sep);
    if h >= s.len() {
        seq![s]
    } else {
        seq![s.take(h as int)] + pieces_of(s.skip(h as int + 1), sep)
    }
}

#[via_fn]
proof fn pieces_of_decreases(s: Seq<char>, sep: char) {
    lemma_head_len_bound(s, sep);
}

/// The first separator, if any, stands within the text.
pub proof fn lemma_head_len_bound(s: Seq<char>, sep: char)
    ensures
        head_len(s, sep) <= s.len(),
    decreases s.len(),
{
    if s.len() == 0 || s[0] == sep {
    } else {
        lemma_head_len_bound(s.drop_first(), sep);
    }
}

/// Whether both texts hold the same characters.
pub fn same_text(a: &str, b: &str) -> (r: bool)
    ensures
        r == (a@ == b@),
{
    let x = a.to_owned();
    let y = b.to_owned();
    x == y
}

/// Whether `needle` occurs somewhere in `haystack`.
pub fn contains_text(haystack: &str, needle: &str) -> (r: bool)
    ensures
        r == occurs_in(needle@, haystack@),
{
    let n = needle.unicode_len();
    let h = haystack.unicode_len();
    if n > h {
        return false;
    }
    if n == 0 {
        assert(occurs_at(needle@, haystack@, 0)) by {
            assert(haystack@.subrange(0, 0) =~= needle@);
        }
        return true;
    }
    let mut i: usize = 0;
    while i <= h - n
        invariant
            n == needle@.len(),
            h == haystack@.len(),
            0 < n <= h,
            i <= h - n + 1,
            forall|k: int| 0 <= k < i ==> !occurs_at(needle@, haystack@, k),
        decreases h - n + 1 - i,
    {
        if same_text(haystack.substring_char(i, i + n), needle) {
            assert(occurs_at(needle@, haystack@, i as int));
            return true;
        }
        i += 1;
    }
    false
}

/// Whether `s` begins with `prefix`.
pub fn begins_with(s: &str, prefix: &str) -> (r: bool)
    ensures
        r == prefix@.is_prefix_of(s@),
{
    let n = prefix.unicode_len();
    if n > s.unicode_len() {
        return false;
    }
    same_text(s.substring_char(0, n), prefix)
}

/// The text of one decimal digit.
fn digit_text(d: u64) -> (s: &'static str)
    requires
        d < 10,
    ensures
        s@ == seq![digit_char(d as nat)],
{
    proof {
        reveal_strlit("0");
        reveal_strlit("1");
        reveal_strlit("2");
        reveal_strlit("3");
        reveal_strlit("4");
        reveal_strlit("5");
        reveal_strlit("6");
        reveal_strlit("7");
        reveal_strlit("8");
        reveal_strlit("9");
    }
    let s = if d == 0 {
        "0"
    } else if d == 1 {
        "1"
    } else if d == 2 {
        "2"
    } else if d == 3 {
        "3"
    } else if d == 4 {
        "4"
    } else if d == 5 {
        "5"
    } else if d == 6 {
        "6"
    } else if d == 7 {
        "7"
    } else if d == 8 {
        "8"
    } else {
        "9"
    };
    assert(s@ =~= seq![digit_char(d as nat)]);
    s
}

/// The decimal notation of a number.
pub fn decimal(n: u64) -> (s: String)
    ensures
        s@ == decimal_digits(n as nat),
    decreases n,
{
    if n < 10 {
        copy_text(digit_text(n))
    } else {
        let s = decimal(n / 10).concat(digit_text(n % 10));
        assert(s@ =~= decimal_digits((n / 10) as nat).push(digit_char((n % 10) as nat)));
        s
    }
}

/// Where a text holds no `sep` before `k`, and ends or holds `sep` at `k`,
/// its head ends at `k`.
proof fn lemma_head_len_is(s: Seq<char>, sep: char, k: int)
    requires
        0 <= k <= s.len(),
        forall|j: int| 0 <= j < k ==> s[j] != sep,
        k == s.len() || s[k] == sep,
    ensures
        head_len(s, sep) == k,
    decreases k,
{
    if k > 0 {
        let rest = s.drop_first();
        assert forall|j: int| 0 <= j < k - 1 implies rest[j] != sep by {
            assert(rest[j] == s[j + 1]);
        }
        if k < s.len() {
            assert(rest[k - 1] == s[k]);
        }
        lemma_head_len_is(rest, sep, k - 1);
    }
}

/// The pieces between the separators of a text, in order.
pub fn split_on(s: &str, sep: char) -> (pieces: Vec<String>)
    ensures
        pieces.deep_view() == pieces_of(s@, sep),
{
    let n = s.unicode_len();
    let mut pieces: Vec<String> = Vec::new();
    let mut start: usize = 0;
    let mut i: usize = 0;
    assert(s@.skip(0) =~= s@);
    assert(pieces.deep_view() + pieces_of(s@, sep) =~= pieces_of(s@, sep));
    while i < n
        invariant
            n == s@.len(),
            start <= i <= n,
            pieces.deep_view() + pieces_of(s@.skip(start as int), sep) == pieces_of(s@, sep),
            forall|k: int| start <= k < i ==> s@[k] != sep,
        decreases n - i,
    {
        if s.get_char(i) == sep {
            let piece = s.substring_char(start, i).to_owned();
            let ghost tail = s@.skip(start as int);
            let ghost before = pieces.deep_view();
            proof {
                assert forall|j: int| 0 <= j < i - start implies tail[j] != sep by {
                    assert(tail[j] == s@[start + j]);
                }
                assert(tail[i - start] == s@[i as int]);
                lemma_head_len_is(tail, sep, i - start);
                assert(tail.take(i - start) =~= s@.subrange(start as int, i as int));
                assert(tail.skip(i - start + 1) =~= s@.skip(i + 1));
            }
            pieces.push(piece);
            proof {
                assert(pieces.deep_view() =~= before.push(tail.take(i - start)));
                assert(before + (seq![tail.take(i - start)] + pieces_of(s@.skip(i + 1), sep))
                    =~= before.push(tail.take(i - start)) + pieces_of(s@.skip(i + 1), sep));
            }
            start = i + 1;
        }
        i += 1;
    }
    let piece = s.substring_char(start, n).to_owned();
    let ghost tail = s@.skip(start as int);
    let ghost before = pieces.deep_view();
    proof {
        assert forall|j: int| 0 <= j < n - start implies tail[j] != sep by {
            assert(tail[j] == s@[start + j]);
        }
        lemma_head_len_is(tail, sep, n - start);
        assert(tail =~= s@.subrange(start as int, n as int));
    }
    pieces.push(piece);
    proof {
        assert(pieces.deep_view() =~= before.push(tail));
        assert(before + seq![tail] =~= before.push(tail));
    }
    pieces
}

/// The text up to its first `sep`.
pub fn first_piece(s: &str, sep: char) -> (head: String)
    ensures
        head@ == head_before(s@, sep),
{
    let mut pieces = split_on(s, sep);
    proof {
        lemma_head_len_bound(s@, sep);
        assert(pieces_of(s@, sep).len() >= 1);
        assert(pieces_of(s@, sep)[0] == head_before(s@, sep));
        assert(pieces.deep_view().len() == pieces@.len());
        assert(pieces.deep_view()[0] == pieces@[0]@);
    }
    pieces.swap_remove(0)
}

/// Joins the texts with single commas, in order.
pub fn join_commas(pieces: &Vec<String>) -> (s: String)
    ensures
        s@ == comma_joined(pieces.deep_view()),
{
    let mut out = String::new();
    let mut i: usize = 0;
    while i < pieces.len()
        invariant
            i <= pieces.len(),
            out@ == comma_joined(pieces.deep_view().take(i as int)),
        decreases pieces.len() - i,
    {
        let ghost before = pieces.deep_view().take(i as int);
        let ghost after = pieces.deep_view().take(i + 1);
        proof {
            assert(after.drop_last() =~= before);
            assert(after.last() == pieces[i as int]@);
            reveal_strlit(",");
            assert(","@ =~= seq![',']);
        }
        if i > 0 {
            out.append(",");
        }
        out.append(pieces[i].as_str());
        proof {
            if i == 0 {
                assert(out@ =~= pieces[0]@);
            }
        }
        i += 1;
    }
    proof {
        assert(pieces.deep_view().take(pieces.len() as int) =~= pieces.deep_view());
    }
    out
}

/// A copy of the text.
pub fn copy_text(s: &str) -> (r: String)
    ensures
        r@ == s@,
{
    s.to_owned()
}

/// A copy of each text of the list, in order.
pub fn copy_texts(v: &Vec<String>) -> (r: Vec<String>)
    ensures
        r.deep_view() == v.deep_view(),
{
    let mut out: Vec<String> = Vec::new();
    let mut i: usize = 0;
    while i < v.len()
        invariant
            i <= v.len(),
            out.len() == i,
            forall|j: int| 0 <= j < i ==> out[j]@ == v[j]@,
        decreases v.len() - i,
    {
        out.push(v[i].clone());
        i += 1;
    }
    assert(out.deep_view() =~= v.deep_view());
    out
}

} // verus!
