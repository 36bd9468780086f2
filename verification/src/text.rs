//! Text operations on `str` and `String`, stated over sequences of characters.
use vstd::prelude::*;
use vstd::string::*;

verus! {

/// The characters of `s`, in order.
pub fn characters(s: &str) -> (r: Vec<char>)
    ensures
        r@ == s@,
{
    let mut out: Vec<char> = Vec::new();
    for c in it: s.chars()
        invariant
            it.seq() == s@,
            out@ == s@.take(it.index()),
    {
        out.push(c);
        assert(s@.take(it.index() + 1) == s@.take(it.index()).push(c));
    }
    assert(s@.take(s@.len() as int) == s@);
    out
}

/// Whether two texts hold the same characters.
pub fn same(a: &str, b: &str) -> (r: bool)
    ensures
        r == (a@ == b@),
{
    let x = characters(a);
    let y = characters(b);
    if x.len() != y.len() {
        return false;
    }
    let mut i: usize = 0;
    while i < x.len()
        invariant
            x@ == a@,
            y@ == b@,
            x.len() == y.len(),
            i <= x.len(),
            forall|j: int| 0 <= j < i ==> x@[j] == y@[j],
        decreases x.len() - i,
    {
        if x[i] != y[i] {
            return false;
        }
        i += 1;
    }
    assert(a@ =~= b@);
    true
}

/// Whether an optional text is present and equal to `expected`.
pub fn same_option(a: &Option<String>, expected: &str) -> (r: bool)
    ensures
        r == (*a matches Some(s) && s@ == expected@),
{
    match a {
        Some(s) => same(s.as_str(), expected),
        None => false,
    }
}

/// Whether `codes` holds a text with the characters of `code`.
pub open spec fn holds_text(codes: Seq<&'static str>, code: Seq<char>) -> bool {
    exists|i: int| 0 <= i < codes.len() && (#[trigger] codes[i])@ == code
}

/// Whether one of `codes` equals `code`.
pub fn one_of(code: &str, codes: &[&'static str]) -> (r: bool)
    ensures
        r == holds_text(codes@, code@),
{
    let mut i: usize = 0;
    while i < codes.len()
        invariant
            i <= codes.len(),
            forall|j: int| 0 <= j < i ==> (#[trigger] codes@[j])@ != code@,
        decreases codes.len() - i,
    {
        if same(codes[i], code) {
            return true;
        }
        i += 1;
    }
    false
}

/// Whether `s` begins with `prefix`.
pub fn starts_with(s: &str, prefix: &str) -> (r: bool)
    ensures
        r == prefix@.is_prefix_of(s@),
{
    let n = s.unicode_len();
    let m = prefix.unicode_len();
    if m > n {
        return false;
    }
    same(s.substring_char(0, m), prefix)
}

/// What is left of `s` once `suffix` is removed from its end, where it ends with it.
pub open spec fn without_suffix(s: Seq<char>, suffix: Seq<char>) -> Option<Seq<char>> {
    if suffix.is_suffix_of(s) {
        Some(s.take(s.len() - suffix.len()))
    } else {
        None
    }
}

/// Removes `suffix` from the end of `s`.
pub fn strip_suffix<'a>(s: &'a str, suffix: &str) -> (r: Option<&'a str>)
    ensures
        match r {
            Some(rest) => without_suffix(s@, suffix@) == Some(rest@),
            None => without_suffix(s@, suffix@) is None,
        },
{
    let n = s.unicode_len();
    let m = suffix.unicode_len();
    if m > n {
        return None;
    }
    if same(s.substring_char(n - m, n), suffix) {
        Some(s.substring_char(0, n - m))
    } else {
        None
    }
}

/// Whether `s` ends with `suffix`.
pub fn ends_with(s: &str, suffix: &str) -> (r: bool)
    ensures
        r == suffix@.is_suffix_of(s@),
{
    strip_suffix(s, suffix).is_some()
}

/// The concatenation of two texts.
pub fn join2(a: &str, b: &str) -> (r: String)
    ensures
        r@ == a@ + b@,
{
    let mut out = String::from_str(a);
    out.append(b);
    out
}

/// The concatenation of three texts.
pub fn join3(a: &str, b: &str, c: &str) -> (r: String)
    ensures
        r@ == a@ + b@ + c@,
{
    let mut out = join2(a, b);
    out.append(c);
    out
}

/// The concatenation of four texts.
pub fn join4(a: &str, b: &str, c: &str, d: &str) -> (r: String)
    ensures
        r@ == a@ + b@ + c@ + d@,
{
    let mut out = join3(a, b, c);
    out.append(d);
    out
}

/// The decimal digit of a number below ten.
pub open spec fn digit(d: nat) -> char {
    if d == 0 {
        '0'
    } else if d == 1 {
        '1'
    } else if d == 2 {
        '2'
    } else if d == 3 {
        '3'
    } else if d == 4 {
        '4'
    } else if d == 5 {
        '5'
    } else if d == 6 {
        '6'
    } else if d == 7 {
        '7'
    } else if d == 8 {
        '8'
    } else {
        '9'
    }
}

/// The decimal notation of `n`, without leading zeros.
pub open spec fn decimal_digits(n: nat) -> Seq<char>
    decreases n,
{
    if n < 10 {
        seq![digit(n)]
    } else {
        decimal_digits(n / 10).push(digit(n % 10))
    }
}

fn digit_text(d: u128) -> (r: &'static str)
    requires
        d < 10,
    ensures
        r@ == seq![digit(d as nat)],
{
    proof {
        reveal_strlit("0");
        reveal_strlit("1");
        reveal_strlit("2");
        reveal_strlit("3");
        reveal_strlit("4");
        reveal_strlit("5");
        reveal_strlit("6");
        reveal_strlit("7");
        reveal_strlit("8");
        reveal_strlit("9");
    }
    match d {
        0 => "0",
        1 => "1",
        2 => "2",
        3 => "3",
        4 => "4",
        5 => "5",
        6 => "6",
        7 => "7",
        8 => "8",
        _ => "9",
    }
}

/// Writes `n` in decimal.
pub fn decimal(n: u128) -> (r: String)
    ensures
        r@ == decimal_digits(n as nat),
    decreases n,
{
    if n < 10 {
        String::from_str(digit_text(n))
    } else {
        let mut out = decimal(n / 10);
        out.append(digit_text(n % 10));
        assert(decimal_digits((n / 10) as nat) + seq![digit((n % 10) as nat)]
            =~= decimal_digits((n / 10) as nat).push(digit((n % 10) as nat)));
        out
    }
}

/// `n` copies of the character `c`.
pub open spec fn repeated(c: char, n: nat) -> Seq<char> {
    Seq::new(n, |i: int| c)
}

/// The characters that bring a text of length `len` up to `width`.
pub open spec fn fill(c: char, len: nat, width: nat) -> Seq<char> {
    repeated(c, if len < width { (width - len) as nat } else { 0 })
}

/// Writes `n` in decimal, with leading zeros up to `width` characters.
pub fn zero_padded(n: u128, width: usize) -> (r: String)
    ensures
        r@ == padded_digits(n as nat, width as nat),
{
    let digits = decimal(n);
    let len = digits.as_str().unicode_len();
    let mut out = String::new();
    let mut i: usize = len;
    assert(out@ =~= repeated('0', 0));
    while i < width
        invariant
            len <= i,
            len <= width ==> i <= width,
            len > width ==> i == len,
            out@ == repeated('0', (i - len) as nat),
        decreases width - i,
    {
        proof {
            reveal_strlit("0");
        }
        out.append("0");
        assert(repeated('0', (i - len) as nat) + "0"@ =~= repeated('0', (i + 1 - len) as nat));
        i += 1;
    }
    out.append(digits.as_str());
    out
}

/// The number that a text of decimal digits stands for.
pub open spec fn decimal_value(s: Seq<char>) -> int
    decreases s.len(),
{
    if s.len() == 0 {
        0
    } else {
        decimal_value(s.drop_last()) * 10 + (s.last() as int - '0' as int)
    }
}

proof fn lemma_decimal_value(n: nat)
    ensures
        decimal_value(decimal_digits(n)) == n,
        forall|i: int|
            0 <= i < decimal_digits(n).len() ==> '0' <= #[trigger] decimal_digits(n)[i] <= '9',
    decreases n,
{
    if n < 10 {
        assert(decimal_digits(n).drop_last() =~= Seq::empty());
        reveal_with_fuel(decimal_value, 2);
    } else {
        lemma_decimal_value(n / 10);
        assert(decimal_digits(n).drop_last() =~= decimal_digits(n / 10));
        assert(digit(n % 10) as int - '0' as int == n % 10);
        assert forall|i: int| 0 <= i < decimal_digits(n).len() implies '0'
            <= #[trigger] decimal_digits(n)[i] <= '9' by {
            if i < decimal_digits(n / 10).len() {
                assert(decimal_digits(n)[i] == decimal_digits(n / 10)[i]);
            }
        }
    }
}

proof fn lemma_leading_zeros(k: nat, s: Seq<char>)
    ensures
        decimal_value(repeated('0', k) + s) == decimal_value(s),
    decreases s.len(), k,
{
    let whole = repeated('0', k) + s;
    if s.len() > 0 {
        lemma_leading_zeros(k, s.drop_last());
        assert(whole.drop_last() =~= repeated('0', k) + s.drop_last());
        assert(whole.last() == s.last());
    } else if k > 0 {
        lemma_leading_zeros((k - 1) as nat, s);
        assert(whole.drop_last() =~= repeated('0', (k - 1) as nat) + s);
    } else {
        assert(whole =~= s);
    }
}

/// The decimal notation of `n`, with leading zeros up to `width` characters.
pub open spec fn padded_digits(n: nat, width: nat) -> Seq<char> {
    fill('0', decimal_digits(n).len(), width) + decimal_digits(n)
}

/// The padded notation consists of digits, and stands for its number.
pub proof fn padded_digits_stand_for_the_number(n: nat, width: nat)
    ensures
        decimal_value(padded_digits(n, width)) == n,
        forall|i: int|
            0 <= i < padded_digits(n, width).len() ==> '0' <= #[trigger] padded_digits(n, width)[i]
                <= '9',
{
    let len = decimal_digits(n).len();
    let k: nat = if len < width {
        (width - len) as nat
    } else {
        0
    };
    lemma_decimal_value(n);
    lemma_leading_zeros(k, decimal_digits(n));
    assert forall|i: int| 0 <= i < padded_digits(n, width).len() implies '0'
        <= #[trigger] padded_digits(n, width)[i] <= '9' by {
        if i >= k {
            assert(padded_digits(n, width)[i] == decimal_digits(n)[i - k]);
        }
    }
}

/// `s` followed by spaces up to `width` characters.
pub fn left_aligned(s: &str, width: usize) -> (r: String)
    ensures
        r@ == s@ + fill(' ', s@.len(), width as nat),
{
    let len = s.unicode_len();
    let mut out = String::from_str(s);
    let mut i: usize = len;
    assert(out@ =~= s@ + repeated(' ', 0));
    while i < width
        invariant
            len <= i,
            len == s@.len(),
            len <= width ==> i <= width,
            len > width ==> i == len,
            out@ == s@ + repeated(' ', (i - len) as nat),
        decreases width - i,
    {
        proof {
            reveal_strlit(" ");
        }
        out.append(" ");
        assert(s@ + repeated(' ', (i - len) as nat) + " "@ =~= s@ + repeated(
            ' ',
            (i + 1 - len) as nat,
        ));
        i += 1;
    }
    out
}

/// The last position of `c` in `s`; minus one where there is none.
pub open spec fn last_position(s: Seq<char>, c: char) -> int
    decreases s.len(),
{
    if s.len() == 0 {
        -1
    } else if s.last() == c {
        s.len() - 1
    } else {
        last_position(s.drop_last(), c)
    }
}

/// The last position of a character is a position of it, and no later one is.
pub proof fn lemma_last_position(s: Seq<char>, c: char)
    ensures
        -1 <= last_position(s, c) < s.len(),
        last_position(s, c) >= 0 ==> s[last_position(s, c)] == c,
        forall|i: int| last_position(s, c) < i < s.len() ==> s[i] != c,
    decreases s.len(),
{
    if s.len() > 0 && s.last() != c {
        lemma_last_position(s.drop_last(), c);
        assert forall|i: int| last_position(s, c) < i < s.len() implies s[i] != c by {
            if i < s.len() - 1 {
                assert(s.drop_last()[i] == s[i]);
            }
        }
    }
}

/// What stands behind the last `c` in `s`; all of `s` where there is none.
pub open spec fn after_last(s: Seq<char>, c: char) -> Seq<char> {
    s.skip(last_position(s, c) + 1)
}

/// What stands before the last `c` in `s`, where there is one.
pub open spec fn before_last(s: Seq<char>, c: char) -> Option<Seq<char>> {
    if last_position(s, c) >= 0 {
        Some(s.take(last_position(s, c)))
    } else {
        None
    }
}

fn find_last(s: &str, c: char) -> (r: Option<usize>)
    ensures
        match r {
            Some(i) => i == last_position(s@, c) && i < s@.len(),
            None => last_position(s@, c) == -1,
        },
{
    let chars = characters(s);
    let mut i: usize = chars.len();
    assert(s@.take(i as int) =~= s@);
    while i > 0
        invariant
            chars@ == s@,
            i <= chars@.len(),
            last_position(s@, c) == last_position(s@.take(i as int), c),
        decreases i,
    {
        assert(s@.take(i as int).drop_last() =~= s@.take(i - 1));
        assert(s@.take(i as int).last() == s@[i - 1]);
        if chars[i - 1] == c {
            return Some(i - 1);
        }
        i -= 1;
    }
    None
}

/// What stands behind the last `c` in `s`; all of `s` where there is none.
pub fn tail_after<'a>(s: &'a str, c: char) -> (r: &'a str)
    ensures
        r@ == after_last(s@, c),
{
    let len = s.unicode_len();
    match find_last(s, c) {
        Some(i) => s.substring_char(i + 1, len),
        None => s,
    }
}

/// What stands before the last `c` in `s`, where there is one.
pub fn head_before<'a>(s: &'a str, c: char) -> (r: Option<&'a str>)
    ensures
        match r {
            Some(head) => before_last(s@, c) == Some(head@),
            None => before_last(s@, c) is None,
        },
{
    match find_last(s, c) {
        Some(i) => Some(s.substring_char(0, i)),
        None => None,
    }
}

/// The first position of `c` in `s` at or after `from`; the length of `s` where there is none.
pub open spec fn position(s: Seq<char>, c: char, from: int) -> int
    decreases s.len() - from,
{
    if from >= s.len() || from < 0 {
        s.len() as int
    } else if s[from] == c {
        from
    } else {
        position(s, c, from + 1)
    }
}

/// `position` finds the first occurrence.
pub proof fn lemma_position(s: Seq<char>, c: char, from: int)
    requires
        0 <= from <= s.len(),
    ensures
        from <= position(s, c, from) <= s.len(),
        position(s, c, from) < s.len() ==> s[position(s, c, from)] == c,
        forall|j: int| from <= j < position(s, c, from) ==> s[j] != c,
    decreases s.len() - from,
{
    if from < s.len() && s[from] != c {
        lemma_position(s, c, from + 1);
    }
}

/// A line without the carriage return that came before its line feed.
pub open spec fn without_carriage_return(line: Seq<char>) -> Seq<char> {
    if line.len() > 0 && line.last() == '\r' {
        line.drop_last()
    } else {
        line
    }
}

/// The lines of `s` from position `from` on: each ends at a line feed, a carriage
/// return before the line feed belongs to the line ending, and the line ending
/// of the last line may be left out.
pub open spec fn lines_from(s: Seq<char>, from: int) -> Seq<Seq<char>>
    decreases s.len() - from,
{
    if from >= s.len() || from < 0 {
        Seq::empty()
    } else if position(s, '\n', from) >= s.len() {
        seq![s.skip(from)]
    } else {
        proof {
            lemma_position(s, '\n', from);
        }
        seq![without_carriage_return(s.subrange(from, position(s, '\n', from)))] + lines_from(
            s,
            position(s, '\n', from) + 1,
        )
    }
}

/// The lines of `s`.
pub open spec fn lines(s: Seq<char>) -> Seq<Seq<char>> {
    lines_from(s, 0)
}

/// The texts of `v`.
pub open spec fn texts(v: Seq<String>) -> Seq<Seq<char>> {
    Seq::new(v.len(), |i: int| v[i]@)
}

fn find(chars: &Vec<char>, c: char, from: usize) -> (r: usize)
    requires
        from <= chars.len(),
    ensures
        r == position(chars@, c, from as int),
        from <= r <= chars.len(),
{
    let mut i: usize = from;
    while i < chars.len() && chars[i] != c
        invariant
            from <= i <= chars.len(),
            position(chars@, c, from as int) == position(chars@, c, i as int),
        decreases chars.len() - i,
    {
        i += 1;
    }
    i
}

/// The first `limit` lines of `s`.
pub fn first_lines(s: &str, limit: usize) -> (r: Vec<String>)
    ensures
        texts(r@) == if lines(s@).len() <= limit {
            lines(s@)
        } else {
            lines(s@).take(limit as int)
        },
{
    let chars = characters(s);
    let mut out: Vec<String> = Vec::new();
    let mut from: usize = 0;
    assert(texts(out@) + lines_from(s@, 0) =~= lines(s@));
    while from < chars.len() && out.len() < limit
        invariant
            chars@ == s@,
            from <= chars.len(),
            out.len() <= limit,
            texts(out@) + lines_from(s@, from as int) == lines(s@),
        decreases chars.len() - from,
    {
        let ghost before = texts(out@);
        let ghost rest = lines_from(s@, from as int);
        let end = find(&chars, '\n', from);
        if end == chars.len() {
            let line = String::from_str(s.substring_char(from, end));
            assert(line@ =~= s@.skip(from as int));
            out.push(line);
            assert(texts(out@) =~= before.push(line@));
            assert(before.push(line@) + Seq::<Seq<char>>::empty() =~= before + seq![line@]);
            from = end;
        } else {
            let stop = if end > from && chars[end - 1] == '\r' {
                end - 1
            } else {
                end
            };
            let line = String::from_str(s.substring_char(from, stop));
            assert(line@ =~= without_carriage_return(s@.subrange(from as int, end as int)));
            out.push(line);
            assert(texts(out@) =~= before.push(line@));
            assert(before.push(line@) + lines_from(s@, end + 1) =~= before + (seq![line@]
                + lines_from(s@, end + 1)));
            from = end + 1;
        }
    }
    if from >= chars.len() {
        assert(texts(out@) =~= lines(s@));
    } else {
        assert(texts(out@) =~= lines(s@).take(limit as int));
    }
    out
}

/// Whether `c` is white space: the characters with the Unicode property `White_Space`.
pub open spec fn is_space(c: char) -> bool {
    let n = c as u32;
    ||| 0x09 <= n <= 0x0d
    ||| n == 0x20
    ||| n == 0x85
    ||| n == 0xa0
    ||| n == 0x1680
    ||| 0x2000 <= n <= 0x200a
    ||| n == 0x2028
    ||| n == 0x2029
    ||| n == 0x202f
    ||| n == 0x205f
    ||| n == 0x3000
}

fn space(c: char) -> (r: bool)
    ensures
        r == is_space(c),
{
    let n: u32 = c as u32;
    (0x09 <= n && n <= 0x0d) || n == 0x20 || n == 0x85 || n == 0xa0 || n == 0x1680 || (0x2000 <= n
        && n <= 0x200a) || n == 0x2028 || n == 0x2029 || n == 0x202f || n == 0x205f || n == 0x3000
}

/// The first position at or after `from` that holds white space; the length of `s` where there is none.
pub open spec fn word_end(s: Seq<char>, from: int) -> int
    decreases s.len() - from,
{
    if from >= s.len() || from < 0 {
        s.len() as int
    } else if is_space(s[from]) {
        from
    } else {
        word_end(s, from + 1)
    }
}

/// A word ends within the text and not before the place where it is looked for.
pub proof fn lemma_word_end(s: Seq<char>, from: int)
    requires
        0 <= from <= s.len(),
    ensures
        from <= word_end(s, from) <= s.len(),
    decreases s.len() - from,
{
    if from < s.len() && !is_space(s[from]) {
        lemma_word_end(s, from + 1);
    }
}

/// The words of `s` from position `from` on, joined by single spaces and put
/// behind `before`, which holds the words already read.
pub open spec fn words_joined(s: Seq<char>, from: int, before: Seq<char>) -> Seq<char>
    decreases s.len() - from,
{
    if from >= s.len() || from < 0 {
        before
    } else if is_space(s[from]) {
        words_joined(s, from + 1, before)
    } else {
        proof {
            lemma_word_end(s, from + 1);
        }
        let word = s.subrange(from, word_end(s, from));
        words_joined(
            s,
            word_end(s, from),
            if before.len() == 0 {
                word
            } else {
                before.push(' ') + word
            },
        )
    }
}

/// `s` with every run of white space replaced by one space, and none at its ends.
pub open spec fn compacted(s: Seq<char>) -> Seq<char> {
    words_joined(s, 0, Seq::empty())
}

/// Replaces every run of white space in `s` by one space and drops it at both ends.
pub fn compact(s: &str) -> (r: String)
    ensures
        r@ == compacted(s@),
{
    let chars = characters(s);
    let mut out = String::new();
    let mut from: usize = 0;
    while from < chars.len()
        invariant
            chars@ == s@,
            from <= chars.len(),
            words_joined(s@, from as int, out@) == compacted(s@),
        decreases chars.len() - from,
    {
        if space(chars[from]) {
            from += 1;
        } else {
            let mut end: usize = from + 1;
            while end < chars.len() && !space(chars[end])
                invariant
                    chars@ == s@,
                    from < end <= chars.len(),
                    word_end(s@, from as int) == word_end(s@, end as int),
                decreases chars.len() - end,
            {
                end += 1;
            }
            assert(word_end(s@, from as int) == end);
            let ghost before = out@;
            if !out.as_str().is_empty() {
                proof {
                    reveal_strlit(" ");
                }
                out.append(" ");
                assert(before + " "@ =~= before.push(' '));
            }
            out.append(s.substring_char(from, end));
            assert(before.len() == 0 ==> out@ =~= s@.subrange(from as int, end as int));
            from = end;
        }
    }
    out
}

/// The lower-case form of an ASCII letter; any other character stays as it is.
pub open spec fn ascii_lower(c: char) -> char {
    if 'A' <= c && c <= 'Z' {
        ((c as u32) + 32) as char
    } else {
        c
    }
}

/// Whether two texts are equal once the case of ASCII letters is disregarded.
pub open spec fn equal_ignoring_ascii_case(a: Seq<char>, b: Seq<char>) -> bool {
    &&& a.len() == b.len()
    &&& forall|i: int| 0 <= i < a.len() ==> ascii_lower(#[trigger] a[i]) == ascii_lower(b[i])
}

fn ascii_lower_code(c: char) -> (r: u32)
    ensures
        r == ascii_lower(c) as u32,
{
    let code: u32 = c as u32;
    if 'A' <= c && c <= 'Z' {
        code + 32
    } else {
        code
    }
}

/// Compares two texts, disregarding the case of ASCII letters.
pub fn same_ignoring_ascii_case(a: &str, b: &str) -> (r: bool)
    ensures
        r == equal_ignoring_ascii_case(a@, b@),
{
    let x = characters(a);
    let y = characters(b);
    if x.len() != y.len() {
        return false;
    }
    let mut i: usize = 0;
    while i < x.len()
        invariant
            x@ == a@,
            y@ == b@,
            x.len() == y.len(),
            i <= x.len(),
            forall|j: int| 0 <= j < i ==> ascii_lower(#[trigger] a@[j]) == ascii_lower(b@[j]),
        decreases x.len() - i,
    {
        if ascii_lower_code(x[i]) != ascii_lower_code(y[i]) {
            assert(ascii_lower(a@[i as int]) != ascii_lower(b@[i as int]));
            return false;
        }
        i += 1;
    }
    true
}

/// The decimal notation of a number stands for it, consists of digits, and does not begin with a
/// zero unless it is that of zero.
pub proof fn decimal_digits_stand_for_the_number(n: nat)
    ensures
        decimal_value(decimal_digits(n)) == n,
        forall|i: int|
            0 <= i < decimal_digits(n).len() ==> '0' <= #[trigger] decimal_digits(n)[i] <= '9',
        decimal_digits(n).len() > 0,
        n > 0 ==> decimal_digits(n)[0] != '0',
        n == 0 ==> decimal_digits(n) == seq!['0'],
    decreases n,
{
    lemma_decimal_value(n);
    if n >= 10 {
        decimal_digits_stand_for_the_number(n / 10);
        assert(decimal_digits(n)[0] == decimal_digits(n / 10)[0]);
    }
}

/// The value of a text of digits is read from left to right: each further digit makes the number
/// ten times as large and adds itself.
pub proof fn decimal_value_is_read_from_the_left(s: Seq<char>, d: char)
    ensures
        decimal_value(s.push(d)) == decimal_value(s) * 10 + (d as int - '0' as int),
        decimal_value(Seq::empty()) == 0,
{
    assert(s.push(d).drop_last() =~= s);
}

/// The padded notation has the given width, unless the number needs more digits; then it is not
/// padded.
pub proof fn padding_reaches_the_width(n: nat, width: nat)
    ensures
        decimal_digits(n).len() <= width ==> padded_digits(n, width).len() == width,
        decimal_digits(n).len() >= width ==> padded_digits(n, width) == decimal_digits(n),
        decimal_digits(n).is_suffix_of(padded_digits(n, width)),
{
    let padded = padded_digits(n, width);
    let digits = decimal_digits(n);
    assert(digits =~= padded.subrange(padded.len() - digits.len(), padded.len() as int));
    if digits.len() >= width {
        assert(padded =~= digits);
    }
}

/// A text is split at the last occurrence of a character: what stands behind it is free of it.
pub proof fn text_is_split_at_the_last_occurrence(head: Seq<char>, c: char, tail: Seq<char>)
    requires
        !tail.contains(c),
    ensures
        after_last(head + seq![c] + tail, c) == tail,
        before_last(head + seq![c] + tail, c) == Some(head),
        after_last(tail, c) == tail,
        before_last(tail, c) is None,
{
    let whole = head + seq![c] + tail;
    lemma_last_position(whole, c);
    lemma_last_position(tail, c);
    let p = last_position(whole, c);
    assert(whole[head.len() as int] == c);
    if p > head.len() {
        assert(whole[p] == tail[p - head.len() - 1]);
    }
    assert(p == head.len());
    assert(whole.skip(p + 1) =~= tail);
    assert(whole.take(p) =~= head);
    if last_position(tail, c) >= 0 {
        assert(tail[last_position(tail, c)] == c);
    }
    assert(tail.skip(0) =~= tail);
}

proof fn lemma_position_shifts(a: Seq<char>, s: Seq<char>, c: char, from: int)
    requires
        0 <= from <= s.len(),
    ensures
        position(a + s, c, a.len() + from) == a.len() + position(s, c, from),
    decreases s.len() - from,
{
    if from < s.len() {
        assert((a + s)[a.len() + from] == s[from]);
        if s[from] != c {
            lemma_position_shifts(a, s, c, from + 1);
        }
    }
}

proof fn lemma_lines_shift(a: Seq<char>, s: Seq<char>, from: int)
    requires
        0 <= from <= s.len(),
    ensures
        lines_from(a + s, a.len() + from) == lines_from(s, from),
    decreases s.len() - from,
{
    if from < s.len() {
        lemma_position_shifts(a, s, '\n', from);
        lemma_position(s, '\n', from);
        let end = position(s, '\n', from);
        if end < s.len() {
            lemma_lines_shift(a, s, end + 1);
            assert((a + s).subrange(a.len() + from, a.len() + end) =~= s.subrange(from, end));
        } else {
            assert((a + s).skip(a.len() + from) =~= s.skip(from));
        }
    }
}

proof fn lemma_position_of_first(line: Seq<char>, rest: Seq<char>, from: int)
    requires
        !line.contains('\n'),
        0 <= from <= line.len(),
    ensures
        position(line + seq!['\n'] + rest, '\n', from) == line.len(),
        position(line, '\n', from) == line.len(),
    decreases line.len() - from,
{
    let whole = line + seq!['\n'] + rest;
    if from < line.len() {
        assert(whole[from] == line[from]);
        assert(line.contains(line[from]));
        lemma_position_of_first(line, rest, from + 1);
    } else {
        assert(whole[from] == '\n');
    }
}

/// Lines end at line feeds: the first one is what stands before the first line feed, without a
/// carriage return at its end, and the others are those of the text behind it. A text without a
/// line feed is one line as it stands, and the empty text has none.
pub proof fn lines_end_at_line_feeds(line: Seq<char>, rest: Seq<char>)
    requires
        !line.contains('\n'),
    ensures
        lines(line + seq!['\n'] + rest) == seq![
            if line.len() > 0 && line.last() == '\r' {
                line.drop_last()
            } else {
                line
            },
        ] + lines(rest),
        line.len() > 0 ==> lines(line) == seq![line],
        lines(Seq::empty()) == Seq::<Seq<char>>::empty(),
{
    let whole = line + seq!['\n'] + rest;
    let head = line + seq!['\n'];
    lemma_position_of_first(line, rest, 0);
    lemma_lines_shift(head, rest, 0);
    assert(whole.subrange(0, line.len() as int) =~= line);
    assert(line.skip(0) =~= line);
}

proof fn lemma_word_end_shifts(a: Seq<char>, s: Seq<char>, from: int)
    requires
        0 <= from <= s.len(),
    ensures
        word_end(a + s, a.len() + from) == a.len() + word_end(s, from),
    decreases s.len() - from,
{
    if from < s.len() {
        assert((a + s)[a.len() + from] == s[from]);
        if !is_space(s[from]) {
            lemma_word_end_shifts(a, s, from + 1);
        }
    }
}

proof fn lemma_words_shift(a: Seq<char>, s: Seq<char>, from: int, before: Seq<char>)
    requires
        0 <= from <= s.len(),
    ensures
        words_joined(a + s, a.len() + from, before) == words_joined(s, from, before),
    decreases s.len() - from,
{
    if from < s.len() {
        assert((a + s)[a.len() + from] == s[from]);
        if is_space(s[from]) {
            lemma_words_shift(a, s, from + 1, before);
        } else {
            lemma_word_end_shifts(a, s, from);
            lemma_word_end(s, from + 1);
            let end = word_end(s, from);
            assert(end == word_end(s, from + 1));
            let word = s.subrange(from, end);
            assert((a + s).subrange(a.len() + from, a.len() + end) =~= word);
            let next = if before.len() == 0 {
                word
            } else {
                before.push(' ') + word
            };
            lemma_words_shift(a, s, end, next);
        }
    }
}

proof fn lemma_words_behind(s: Seq<char>, from: int, before: Seq<char>, more: Seq<char>)
    requires
        0 <= from <= s.len(),
        before.len() > 0,
    ensures
        words_joined(s, from, before + more) == before + words_joined_behind(s, from, more),
    decreases s.len() - from,
{
    if from < s.len() {
        if is_space(s[from]) {
            lemma_words_behind(s, from + 1, before, more);
        } else {
            lemma_word_end(s, from + 1);
            let end = word_end(s, from);
            assert(end == word_end(s, from + 1));
            let word = s.subrange(from, end);
            assert((before + more).push(' ') + word =~= before + (more.push(' ') + word));
            lemma_words_behind(s, end, before, more.push(' ') + word);
        }
    }
}

spec fn words_joined_behind(s: Seq<char>, from: int, more: Seq<char>) -> Seq<char>
    decreases s.len() - from,
{
    if from >= s.len() || from < 0 {
        more
    } else if is_space(s[from]) {
        words_joined_behind(s, from + 1, more)
    } else {
        proof {
            lemma_word_end(s, from + 1);
        }
        words_joined_behind(
            s,
            word_end(s, from),
            more.push(' ') + s.subrange(from, word_end(s, from)),
        )
    }
}

proof fn lemma_words_from_the_first(s: Seq<char>, from: int)
    requires
        0 <= from <= s.len(),
    ensures
        ({
            let words = words_joined(s, from, Seq::empty());
            words_joined_behind(s, from, Seq::empty()) == if words.len() == 0 {
                Seq::empty()
            } else {
                seq![' '] + words
            }
        }),
    decreases s.len() - from,
{
    if from < s.len() {
        if is_space(s[from]) {
            lemma_words_from_the_first(s, from + 1);
        } else {
            lemma_word_end(s, from + 1);
            let end = word_end(s, from);
            assert(end == word_end(s, from + 1));
            let word = s.subrange(from, end);
            let none = Seq::<char>::empty();
            assert(none.push(' ') + word =~= seq![' '] + word);
            assert(word =~= word + none);
            lemma_words_behind(s, end, word, none);
            lemma_words_behind_prefix(s, end, seq![' '] + word, none);
            assert(seq![' '] + word + none =~= seq![' '] + word);
            assert(seq![' '] + (word + words_joined_behind(s, end, none)) =~= seq![' '] + word
                + words_joined_behind(s, end, none));
        }
    }
}

proof fn lemma_words_behind_prefix(s: Seq<char>, from: int, before: Seq<char>, more: Seq<char>)
    requires
        0 <= from <= s.len(),
    ensures
        words_joined_behind(s, from, before + more) == before + words_joined_behind(s, from, more),
    decreases s.len() - from,
{
    if from < s.len() {
        if is_space(s[from]) {
            lemma_words_behind_prefix(s, from + 1, before, more);
        } else {
            lemma_word_end(s, from + 1);
            let end = word_end(s, from);
            assert(end == word_end(s, from + 1));
            let word = s.subrange(from, end);
            assert((before + more).push(' ') + word =~= before + (more.push(' ') + word));
            lemma_words_behind_prefix(s, end, before, more.push(' ') + word);
        }
    }
}

proof fn lemma_word_ends_at_space(word: Seq<char>, rest: Seq<char>, from: int)
    requires
        0 <= from <= word.len(),
        forall|i: int| 0 <= i < word.len() ==> !is_space(#[trigger] word[i]),
        rest.len() > 0 ==> is_space(rest[0]),
    ensures
        word_end(word + rest, from) == word.len(),
    decreases word.len() - from,
{
    if from < word.len() {
        assert((word + rest)[from] == word[from]);
        lemma_word_ends_at_space(word, rest, from + 1);
    } else if rest.len() > 0 {
        assert((word + rest)[from] == rest[0]);
    }
}

/// White space at the beginning of a text is dropped, a word alone stays as it is, and behind a
/// word every run of white space becomes one space, or none where no further word follows.
pub proof fn compacted_text_has_single_spaces(c: char, word: Seq<char>, rest: Seq<char>)
    requires
        is_space(c),
        word.len() > 0,
        forall|i: int| 0 <= i < word.len() ==> !is_space(#[trigger] word[i]),
    ensures
        compacted(Seq::empty()) == Seq::<char>::empty(),
        compacted(seq![c] + rest) == compacted(rest),
        compacted(word) == word,
        compacted(word + seq![c] + rest) == if compacted(rest).len() == 0 {
            word
        } else {
            word + seq![' '] + compacted(rest)
        },
{
    let none = Seq::<char>::empty();
    lemma_words_shift(seq![c], rest, 0, none);
    assert((seq![c] + rest)[0] == c);
    lemma_word_ends_at_space(word, none, 0);
    assert(word + none =~= word);
    assert(word.subrange(0, word.len() as int) =~= word);
    assert(!is_space(word[0]));
    assert(words_joined(word, word.len() as int, word) == word);
    let whole = word + seq![c] + rest;
    assert(whole =~= word + (seq![c] + rest));
    lemma_word_ends_at_space(word, seq![c] + rest, 0);
    assert(whole[0] == word[0]);
    assert(whole.subrange(0, word.len() as int) =~= word);
    assert(compacted(whole) == words_joined(whole, word.len() as int, word));
    lemma_words_shift(word, seq![c] + rest, 0, word);
    lemma_words_shift(seq![c], rest, 0, word);
    assert(words_joined(seq![c] + rest, 0, word) == words_joined(rest, 0, word));
    lemma_words_behind(rest, 0, word, none);
    lemma_words_from_the_first(rest, 0);
    assert(word + (seq![' '] + compacted(rest)) =~= word + seq![' '] + compacted(rest));
}

/// The characters that count as white space: tabs, line ends and the spaces of all scripts.
pub proof fn white_space_is_that_of_all_scripts(c: char)
    ensures
        is_space(c) <==> seq![
            0x9int, 0xa, 0xb, 0xc, 0xd, 0x20, 0x85, 0xa0, 0x1680, 0x2000, 0x2001, 0x2002, 0x2003,
            0x2004, 0x2005, 0x2006, 0x2007, 0x2008, 0x2009, 0x200a, 0x2028, 0x2029, 0x202f, 0x205f,
            0x3000,
        ].contains(c as int),
{
    let codes = seq![
        0x9int, 0xa, 0xb, 0xc, 0xd, 0x20, 0x85, 0xa0, 0x1680, 0x2000, 0x2001, 0x2002, 0x2003,
        0x2004, 0x2005, 0x2006, 0x2007, 0x2008, 0x2009, 0x200a, 0x2028, 0x2029, 0x202f, 0x205f,
        0x3000,
    ];
    assert(codes[0] == 0x9 && codes[1] == 0xa && codes[2] == 0xb && codes[3] == 0xc);
    assert(codes[4] == 0xd && codes[5] == 0x20 && codes[6] == 0x85 && codes[7] == 0xa0);
    assert(codes[8] == 0x1680 && codes[9] == 0x2000 && codes[10] == 0x2001);
    assert(codes[11] == 0x2002 && codes[12] == 0x2003 && codes[13] == 0x2004);
    assert(codes[14] == 0x2005 && codes[15] == 0x2006 && codes[16] == 0x2007);
    assert(codes[17] == 0x2008 && codes[18] == 0x2009 && codes[19] == 0x200a);
    assert(codes[20] == 0x2028 && codes[21] == 0x2029 && codes[22] == 0x202f);
    assert(codes[23] == 0x205f && codes[24] == 0x3000);
}

/// Two texts are equal but for case exactly where they are of the same length and differ at most
/// in that the one has the upper-case and the other the lower-case form of an ASCII letter.
pub proof fn only_the_case_of_ascii_letters_is_disregarded(a: Seq<char>, b: Seq<char>)
    ensures
        equal_ignoring_ascii_case(a, b) <==> a.len() == b.len() && forall|i: int|
            0 <= i < a.len() ==> {
                ||| #[trigger] a[i] == b[i]
                ||| 'A' <= a[i] <= 'Z' && b[i] as int == a[i] as int + 32
                ||| 'A' <= b[i] <= 'Z' && a[i] as int == b[i] as int + 32
            },
{
    assert forall|i: int| 0 <= i < a.len() && i < b.len() implies (ascii_lower(#[trigger] a[i])
        == ascii_lower(b[i]) <==> {
        ||| a[i] == b[i]
        ||| 'A' <= a[i] <= 'Z' && b[i] as int == a[i] as int + 32
        ||| 'A' <= b[i] <= 'Z' && a[i] as int == b[i] as int + 32
    }) by {
        lemma_lower(a[i]);
        lemma_lower(b[i]);
    }
}

proof fn lemma_lower(c: char)
    ensures
        ascii_lower(c) as int == if 'A' <= c <= 'Z' {
            c as int + 32
        } else {
            c as int
        },
{
}

} // verus!
