//! Text primitives shared by the protocol and the renderers: decimal
//! numerals, prefix tests and whitespace-separated tokens.

use vstd::prelude::*;

verus! {

/// The character of a single decimal digit.
pub open spec fn digit_char(d: nat) -> char {
    if d == 0 {
        '0'
    } else if d == 1 {
        '1'
    } else if d == 2 {
        '2'
    } else if d == 3 {
        '3'
    } else if d == 4 {
        '4'
    } else if d == 5 {
        '5'
    } else if d == 6 {
        '6'
    } else if d == 7 {
        '7'
    } else if d == 8 {
        '8'
    } else {
        '9'
    }
}

/// The decimal numeral of `n`, without sign or leading zeros.
pub open spec fn decimal(n: nat) -> Seq<char>
    decreases n,
{
    if n < 10 {
        seq![digit_char(n)]
    } else {
        decimal(n / 10) + seq![digit_char(n % 10)]
    }
}

fn digit_str(d: usize) -> (r: &'static str)
    requires
        d < 10,
    ensures
        r@ == seq![digit_char(d as nat)],
{
    proof {
        reveal_strlit("0");
        reveal_strlit("1");
        reveal_strlit("2");
        reveal_strlit("3");
        reveal_strlit("4");
        reveal_strlit("5");
        reveal_strlit("6");
        reveal_strlit("7");
        reveal_strlit("8");
        reveal_strlit("9");
    }
    let r = if d == 0 {
        "0"
    } else if d == 1 {
        "1"
    } else if d == 2 {
        "2"
    } else if d == 3 {
        "3"
    } else if d == 4 {
        "4"
    } else if d == 5 {
        "5"
    } else if d == 6 {
        "6"
    } else if d == 7 {
        "7"
    } else if d == 8 {
        "8"
    } else {
        "9"
    };
    assert(r@ =~= seq![digit_char(d as nat)]);
    r
}

/// Renders `n` as a decimal numeral.
pub fn render_decimal(n: usize) -> (r: String)
    ensures
        r@ == decimal(n as nat),
    decreases n,
{
    if n < 10 {
        String::from_str(digit_str(n))
    } else {
        let mut s = render_decimal(n / 10);
        s.append(digit_str(n % 10));
        s
    }
}

/// Tells whether `line` begins with `prefix`.
pub fn has_prefix(line: &str, prefix: &str) -> (r: bool)
    ensures
        r == prefix@.is_prefix_of(line@),
{
    let n: usize = line.unicode_len();
    let m: usize = prefix.unicode_len();
    if m > n {
        return false;
    }
    let mut i: usize = 0;
    while i < m
        invariant
            i <= m <= n,
            n == line@.len(),
            m == prefix@.len(),
            forall|k: int| 0 <= k < i ==> line@[k] == prefix@[k],
        decreases m - i,
    {
        if line.get_char(i) != prefix.get_char(i) {
            proof {
                if prefix@.is_prefix_of(line@) {
                    assert(line@.subrange(0, m as int)[i as int] == prefix@[i as int]);
                }
            }
            return false;
        }
        i += 1;
    }
    assert(prefix@ =~= line@.subrange(0, m as int));
    true
}

/// Whether a character separates words: the space, the tab, the line feed,
/// the form feed and the carriage return do.
pub open spec fn is_blank(c: char) -> bool {
    c == ' ' || c == '\t' || c == '\n' || c == '\u{c}' || c == '\r'
}

/// Tells whether a character separates words.
pub fn separates(c: char) -> (r: bool)
    ensures
        r == is_blank(c),
{
    c == ' ' || c == '\t' || c == '\n' || c == '\u{c}' || c == '\r'
}

/// The first index at or after `from` that holds a separator, or the length
/// of `s` where there is none.
pub open spec fn next_blank(s: Seq<char>, from: int) -> int
    decreases s.len() - from,
{
    if from < 0 || from >= s.len() {
        s.len() as int
    } else if is_blank(s[from]) {
        from
    } else {
        next_blank(s, from + 1)
    }
}

/// The first index at or after `from` that holds no separator, or the
/// length of `s` where only separators follow.
pub open spec fn next_word(s: Seq<char>, from: int) -> int
    decreases s.len() - from,
{
    if from < 0 || from >= s.len() {
        s.len() as int
    } else if !is_blank(s[from]) {
        from
    } else {
        next_word(s, from + 1)
    }
}

/// The second of the words of `s`, where a word is a longest run of
/// characters that are no separators. `None` where `s` has fewer than two.
pub open spec fn second_token(s: Seq<char>) -> Option<Seq<char>> {
    let first_end = next_blank(s, next_word(s, 0));
    let start = next_word(s, first_end);
    if start >= s.len() {
        None
    } else {
        Some(s.subrange(start, next_blank(s, start)))
    }
}

/// `next_blank` is the least index from `from` on that holds a separator.
pub proof fn lemma_next_blank(s: Seq<char>, from: int)
    requires
        0 <= from <= s.len(),
    ensures
        from <= next_blank(s, from) <= s.len(),
        forall|k: int| from <= k < next_blank(s, from) ==> !is_blank(s[k]),
        next_blank(s, from) < s.len() ==> is_blank(s[next_blank(s, from)]),
    decreases s.len() - from,
{
    if from < s.len() && !is_blank(s[from]) {
        lemma_next_blank(s, from + 1);
    }
}

/// `next_word` is the least index from `from` on that holds no separator.
pub proof fn lemma_next_word(s: Seq<char>, from: int)
    requires
        0 <= from <= s.len(),
    ensures
        from <= next_word(s, from) <= s.len(),
        forall|k: int| from <= k < next_word(s, from) ==> is_blank(s[k]),
        next_word(s, from) < s.len() ==> !is_blank(s[next_word(s, from)]),
    decreases s.len() - from,
{
    if from < s.len() && is_blank(s[from]) {
        lemma_next_word(s, from + 1);
    }
}

fn find_blank(line: &str, n: usize, from: usize) -> (r: usize)
    requires
        n == line@.len(),
        from <= n,
    ensures
        r == next_blank(line@, from as int),
        from <= r <= n,
{
    let mut i: usize = from;
    while i < n
        invariant
            from <= i <= n,
            n == line@.len(),
            next_blank(line@, i as int) == next_blank(line@, from as int),
        decreases n - i,
    {
        if separates(line.get_char(i)) {
            return i;
        }
        i += 1;
    }
    i
}

fn find_word(line: &str, n: usize, from: usize) -> (r: usize)
    requires
        n == line@.len(),
        from <= n,
    ensures
        r == next_word(line@, from as int),
        from <= r <= n,
{
    let mut i: usize = from;
    while i < n
        invariant
            from <= i <= n,
            n == line@.len(),
            next_word(line@, i as int) == next_word(line@, from as int),
        decreases n - i,
    {
        if !separates(line.get_char(i)) {
            return i;
        }
        i += 1;
    }
    i
}

/// Extracts the second whitespace-separated word of `line`.
pub fn take_second_token(line: &str) -> (r: Option<String>)
    ensures
        r.is_some() == second_token(line@).is_some(),
        r.is_some() ==> r.unwrap()@ == second_token(line@).unwrap(),
{
    let n: usize = line.unicode_len();
    let first = find_word(line, n, 0);
    let first_end = find_blank(line, n, first);
    let start = find_word(line, n, first_end);
    if start >= n {
        None
    } else {
        let end = find_blank(line, n, start);
        Some(String::from_str(line.substring_char(start, end)))
    }
}

} // verus!
