//! Text as sequences of characters: decimal numbers, trimming, searching,
//! replacing, splitting and the named pattern checks.

use vstd::prelude::*;
use vstd::string::*;

verus! {

/// `String::push` appends one character.
pub assume_specification[ String::push ](s: &mut String, c: char)
    ensures
        final(s)@ == old(s)@.push(c),
;

/// The decimal digits of `n`, most significant first.
pub open spec fn digits(n: nat) -> Seq<char>
    decreases n,
{
    if n < 10 {
        seq![(n + '0' as nat) as char]
    } else {
        digits(n / 10).push((n % 10 + '0' as nat) as char)
    }
}

/// `n` in decimal, behind a minus sign where it is negative.
pub open spec fn decimal(n: int) -> Seq<char> {
    if n < 0 {
        seq!['-'] + digits((-n) as nat)
    } else {
        digits(n as nat)
    }
}

/// The characters with the Unicode property White_Space.
pub open spec fn is_white_space(c: char) -> bool {
    ||| '\u{9}' <= c <= '\u{d}'
    ||| c == ' '
    ||| c == '\u{85}'
    ||| c == '\u{a0}'
    ||| c == '\u{1680}'
    ||| '\u{2000}' <= c <= '\u{200a}'
    ||| c == '\u{2028}'
    ||| c == '\u{2029}'
    ||| c == '\u{202f}'
    ||| c == '\u{205f}'
    ||| c == '\u{3000}'
}

/// `s` without its leading white space.
pub open spec fn trimmed_start(s: Seq<char>) -> Seq<char>
    decreases s.len(),
{
    if s.len() > 0 && is_white_space(s.first()) {
        trimmed_start(s.drop_first())
    } else {
        s
    }
}

/// `s` without its trailing white space.
pub open spec fn trimmed_end(s: Seq<char>) -> Seq<char>
    decreases s.len(),
{
    if s.len() > 0 && is_white_space(s.last()) {
        trimmed_end(s.drop_last())
    } else {
        s
    }
}

/// `s` without white space at either end.
pub open spec fn trimmed(s: Seq<char>) -> Seq<char> {
    trimmed_end(trimmed_start(s))
}

/// Whether `pattern` stands in `s` at position `at`.
pub open spec fn occurs_at(s: Seq<char>, pattern: Seq<char>, at: int) -> bool {
    &&& 0 <= at
    &&& at + pattern.len() <= s.len()
    &&& s.subrange(at, at + pattern.len()) == pattern
}

/// The pieces of `s` from position `start` on, where the text up to `at` is
/// known to hold no further delimiter: every leftmost occurrence of the
/// non-empty `delimiter` at or after `at` ends a piece.
pub open spec fn pieces_from(s: Seq<char>, delimiter: Seq<char>, start: int, at: int) -> Seq<
    Seq<char>,
>
    decreases s.len() - at,
{
    if delimiter.len() == 0 || at < 0 || at + delimiter.len() > s.len() {
        seq![s.skip(start)]
    } else if occurs_at(s, delimiter, at) {
        seq![s.subrange(start, at)] + pieces_from(
            s,
            delimiter,
            at + delimiter.len(),
            at + delimiter.len(),
        )
    } else {
        pieces_from(s, delimiter, start, at + 1)
    }
}

/// The pieces of `s` between the occurrences of `delimiter`, found from left to
/// right without overlap. The empty delimiter occurs around every character.
pub open spec fn pieces(s: Seq<char>, delimiter: Seq<char>) -> Seq<Seq<char>> {
    if delimiter.len() == 0 {
        seq![Seq::<char>::empty()] + Seq::new(s.len(), |i: int| seq![s[i]]) + seq![
            Seq::<char>::empty(),
        ]
    } else {
        pieces_from(s, delimiter, 0, 0)
    }
}

/// The pieces strung together with `separator` between them.
pub open spec fn joined(parts: Seq<Seq<char>>, separator: Seq<char>) -> Seq<char>
    decreases parts.len(),
{
    if parts.len() == 0 {
        Seq::empty()
    } else if parts.len() == 1 {
        parts[0]
    } else {
        parts[0] + separator + joined(parts.drop_first(), separator)
    }
}

/// `s` with `replacement` in place of every occurrence of `search`.
pub open spec fn replaced(s: Seq<char>, search: Seq<char>, replacement: Seq<char>) -> Seq<char> {
    joined(pieces(s, search), replacement)
}

/// `count` copies of `s` in a row.
pub open spec fn repeated(s: Seq<char>, count: nat) -> Seq<char>
    decreases count,
{
    if count == 0 {
        Seq::empty()
    } else {
        repeated(s, (count - 1) as nat) + s
    }
}

/// How often `c` occurs in `s`.
pub open spec fn occurrences(s: Seq<char>, c: char) -> nat
    decreases s.len(),
{
    if s.len() == 0 {
        0
    } else {
        occurrences(s.drop_last(), c) + (if s.last() == c {
            1nat
        } else {
            0nat
        })
    }
}

/// Whether `s` begins with `prefix`.
pub open spec fn begins_with(s: Seq<char>, prefix: Seq<char>) -> bool {
    occurs_at(s, prefix, 0)
}

/// The checks behind the pattern names `email`, `url` and `uuid`: an `@` and a
/// dot; an HTTP scheme; thirty-six bytes with four dashes among them. No other
/// name matches anything.
pub open spec fn fits_pattern(s: Seq<char>, pattern: Seq<char>) -> bool {
    if pattern == "email"@ {
        s.contains('@') && s.contains('.')
    } else if pattern == "url"@ {
        begins_with(s, "http://"@) || begins_with(s, "https://"@)
    } else if pattern == "uuid"@ {
        vstd::utf8::encode_utf8(s).len() == 36 && occurrences(s, '-') == 4
    } else {
        false
    }
}

/// The word for a truth value given as a number: zero is `false`.
pub open spec fn truth_word(value: int) -> Seq<char> {
    if value != 0 {
        "true"@
    } else {
        "false"@
    }
}

/// The characters of `s`.
pub fn to_chars(s: &str) -> (r: Vec<char>)
    ensures
        r@ == s@,
{
    let mut r: Vec<char> = Vec::new();
    for c in it: s.chars()
        invariant
            it.seq() == s@,
            r@ == s@.take(it.index()),
    {
        r.push(c);
    }
    assert(s@.take(s@.len() as int) == s@);
    r
}

/// The string made of `chars[from..to]`.
pub fn from_chars(chars: &[char], from: usize, to: usize) -> (r: String)
    requires
        from <= to <= chars@.len(),
    ensures
        r@ == chars@.subrange(from as int, to as int),
{
    let mut r = String::new();
    let mut i: usize = from;
    while i < to
        invariant
            from <= i <= to <= chars@.len(),
            r@ == chars@.subrange(from as int, i as int),
        decreases to - i,
    {
        r.push(chars[i]);
        i = i + 1;
    }
    r
}

/// `n` in decimal digits.
pub fn digits_of(n: u64) -> (r: String)
    ensures
        r@ == digits(n as nat),
    decreases n,
{
    let low: u8 = (n % 10) as u8;
    let digit: char = (low + 48) as char;
    let mut r = if n < 10 {
        String::new()
    } else {
        digits_of(n / 10)
    };
    r.push(digit);
    r
}

/// `n` in decimal.
pub fn decimal_of(n: i64) -> (r: String)
    ensures
        r@ == decimal(n as int),
{
    if n < 0 {
        let mut r = String::new();
        r.push('-');
        let magnitude: u64 = (-(n + 1)) as u64 + 1;
        r.append(digits_of(magnitude).as_str());
        r
    } else {
        digits_of(n as u64)
    }
}

/// The word for a truth value given as a number.
pub fn truth_word_of(value: i32) -> (r: String)
    ensures
        r@ == truth_word(value as int),
{
    if value != 0 {
        "true".to_owned()
    } else {
        "false".to_owned()
    }
}

/// Whether `c` is white space.
pub fn white_space(c: char) -> (r: bool)
    ensures
        r == is_white_space(c),
{
    ('\u{9}' <= c && c <= '\u{d}') || c == ' ' || c == '\u{85}' || c == '\u{a0}' || c == '\u{1680}'
        || ('\u{2000}' <= c && c <= '\u{200a}') || c == '\u{2028}' || c == '\u{2029}' || c
        == '\u{202f}' || c == '\u{205f}' || c == '\u{3000}'
}

/// How many characters of white space `chars` begins with.
fn leading(chars: &[char]) -> (r: usize)
    ensures
        r <= chars@.len(),
        trimmed_start(chars@) == chars@.skip(r as int),
{
    let mut i: usize = 0;
    assert(chars@.skip(0) == chars@);
    while i < chars.len() && white_space(chars[i])
        invariant
            i <= chars@.len(),
            trimmed_start(chars@) == trimmed_start(chars@.skip(i as int)),
        decreases chars@.len() - i,
    {
        assert(chars@.skip(i as int).drop_first() == chars@.skip(i + 1));
        i = i + 1;
    }
    i
}

/// Where the trailing white space of `chars[from..]` begins.
fn trailing(chars: &[char], from: usize) -> (r: usize)
    requires
        from <= chars@.len(),
    ensures
        from <= r <= chars@.len(),
        trimmed_end(chars@.skip(from as int)) == chars@.subrange(from as int, r as int),
{
    let mut i: usize = chars.len();
    assert(chars@.skip(from as int) == chars@.subrange(from as int, i as int));
    while i > from && white_space(chars[i - 1])
        invariant
            from <= i <= chars@.len(),
            trimmed_end(chars@.skip(from as int)) == trimmed_end(
                chars@.subrange(from as int, i as int),
            ),
        decreases i,
    {
        assert(chars@.subrange(from as int, i as int).drop_last() == chars@.subrange(
            from as int,
            i - 1,
        ));
        i = i - 1;
    }
    i
}

/// `s` without white space at either end.
pub fn trim(s: &str) -> (r: String)
    ensures
        r@ == trimmed(s@),
{
    let chars = to_chars(s);
    let from: usize = leading(chars.as_slice());
    let to: usize = trailing(chars.as_slice(), from);
    from_chars(chars.as_slice(), from, to)
}

/// `s` without its leading white space.
pub fn trim_start(s: &str) -> (r: String)
    ensures
        r@ == trimmed_start(s@),
{
    let chars = to_chars(s);
    let from: usize = leading(chars.as_slice());
    from_chars(chars.as_slice(), from, chars.len())
}

/// `s` without its trailing white space.
pub fn trim_end(s: &str) -> (r: String)
    ensures
        r@ == trimmed_end(s@),
{
    let chars = to_chars(s);
    let to: usize = trailing(chars.as_slice(), 0);
    assert(chars@.skip(0) == chars@);
    from_chars(chars.as_slice(), 0, to)
}

/// Whether `pattern` stands in `chars` at `at`.
pub fn found_at(chars: &[char], pattern: &[char], at: usize) -> (r: bool)
    ensures
        r == occurs_at(chars@, pattern@, at as int),
{
    if at > chars.len() || chars.len() - at < pattern.len() {
        return false;
    }
    let ghost window = chars@.subrange(at as int, at + pattern@.len());
    let size: usize = chars.len();
    let mut i: usize = 0;
    while i < pattern.len()
        invariant
            i <= pattern@.len(),
            at + pattern@.len() <= chars@.len() == size,
            window == chars@.subrange(at as int, at + pattern@.len()),
            forall|j: int| 0 <= j < i ==> window[j] == pattern@[j],
        decreases pattern@.len() - i,
    {
        if chars[at + i] != pattern[i] {
            assert(window[i as int] != pattern@[i as int]);
            return false;
        }
        i = i + 1;
    }
    assert(window == pattern@);
    true
}

/// The characters of each string.
pub open spec fn views(strings: Seq<String>) -> Seq<Seq<char>> {
    strings.map_values(|s: String| s@)
}

/// The pieces of `s` between the occurrences of `delimiter`.
pub fn split(s: &str, delimiter: &str) -> (r: Vec<String>)
    ensures
        views(r@) == pieces(s@, delimiter@),
{
    let chars = to_chars(s);
    let pattern = to_chars(delimiter);
    let mut r: Vec<String> = Vec::new();
    if pattern.len() == 0 {
        r.push(String::new());
        let mut i: usize = 0;
        while i < chars.len()
            invariant
                i <= chars@.len(),
                views(r@) == seq![Seq::<char>::empty()] + Seq::new(
                    i as nat,
                    |j: int| seq![chars@[j]],
                ),
            decreases chars@.len() - i,
        {
            let one = from_chars(chars.as_slice(), i, i + 1);
            assert(one@ == seq![chars@[i as int]]);
            let ghost done = r@;
            r.push(one);
            assert(views(r@) == views(done).push(one@));
            i = i + 1;
        }
        r.push(String::new());
        return r;
    }
    let mut start: usize = 0;
    let mut at: usize = 0;
    assert(views(r@) + pieces_from(chars@, pattern@, 0, 0) == pieces_from(
        chars@,
        pattern@,
        0,
        0,
    ));
    while chars.len() - at >= pattern.len()
        invariant
            pattern@.len() > 0,
            start <= at <= chars@.len(),
            views(r@) + pieces_from(chars@, pattern@, start as int, at as int) == pieces_from(
                chars@,
                pattern@,
                0,
                0,
            ),
        decreases chars@.len() - at,
    {
        if found_at(chars.as_slice(), pattern.as_slice(), at) {
            let ghost done = r@;
            let piece = from_chars(chars.as_slice(), start, at);
            r.push(piece);
            assert(views(r@) == views(done).push(piece@));
            at = at + pattern.len();
            start = at;
            assert(views(r@) + pieces_from(chars@, pattern@, start as int, at as int) == views(
                done,
            ) + (seq![piece@] + pieces_from(chars@, pattern@, start as int, at as int)));
        } else {
            at = at + 1;
        }
    }
    r.push(from_chars(chars.as_slice(), start, chars.len()));
    r
}

/// The strings of `parts` with `separator` between them.
pub fn join(parts: &Vec<String>, separator: &str) -> (r: String)
    ensures
        r@ == joined(views(parts@), separator@),
{
    if parts.len() == 0 {
        return String::new();
    }
    let ghost all = views(parts@);
    let mut r = parts[0].clone();
    let mut i: usize = 1;
    assert(all.skip(1) == all.drop_first());
    while i < parts.len()
        invariant
            all == views(parts@),
            1 <= i <= parts@.len(),
            joined(all, separator@) == (if i == parts@.len() {
                r@
            } else {
                r@ + separator@ + joined(all.skip(i as int), separator@)
            }),
        decreases parts@.len() - i,
    {
        let ghost done = r@;
        r.append(separator);
        r.append(parts[i].as_str());
        proof {
            let rest = all.skip(i as int);
            assert(rest[0] == parts@[i as int]@);
            assert(rest.drop_first() == all.skip(i + 1));
            assert(done + separator@ + (rest[0] + separator@ + joined(
                all.skip(i + 1),
                separator@,
            )) == r@ + separator@ + joined(all.skip(i + 1), separator@));
        }
        i = i + 1;
    }
    r
}

/// `s` with `replacement` in place of every occurrence of `search`.
pub fn replace(s: &str, search: &str, replacement: &str) -> (r: String)
    ensures
        r@ == replaced(s@, search@, replacement@),
{
    let parts = split(s, search);
    join(&parts, replacement)
}

/// `count` copies of `s`.
pub fn repeat(s: &str, count: usize) -> (r: String)
    ensures
        r@ == repeated(s@, count as nat),
{
    let mut r = String::new();
    if s.is_empty() {
        proof {
            lemma_repeat_nothing(count as nat);
        }
        assert(s@ == Seq::<char>::empty());
        return r;
    }
    let mut i: usize = 0;
    while i < count
        invariant
            i <= count,
            r@ == repeated(s@, i as nat),
        decreases count - i,
    {
        r.append(s);
        i = i + 1;
    }
    r
}

/// Copies of the empty text are empty.
proof fn lemma_repeat_nothing(count: nat)
    ensures
        repeated(Seq::empty(), count) == Seq::<char>::empty(),
    decreases count,
{
    if count > 0 {
        lemma_repeat_nothing((count - 1) as nat);
    }
}

/// Whether `c` occurs in `chars`.
fn has_char(chars: &[char], c: char) -> (r: bool)
    ensures
        r == chars@.contains(c),
{
    let mut i: usize = 0;
    while i < chars.len()
        invariant
            i <= chars@.len(),
            forall|j: int| 0 <= j < i ==> chars@[j] != c,
        decreases chars@.len() - i,
    {
        if chars[i] == c {
            return true;
        }
        i = i + 1;
    }
    false
}

/// How often `c` occurs in `chars`.
fn count_char(chars: &[char], c: char) -> (r: usize)
    ensures
        r == occurrences(chars@, c),
{
    let mut i: usize = 0;
    let mut r: usize = 0;
    while i < chars.len()
        invariant
            i <= chars@.len(),
            r <= i,
            r == occurrences(chars@.take(i as int), c),
        decreases chars@.len() - i,
    {
        assert(chars@.take(i + 1).drop_last() == chars@.take(i as int));
        if chars[i] == c {
            r = r + 1;
        }
        i = i + 1;
    }
    assert(chars@.take(i as int) == chars@);
    r
}

/// Whether the two texts are the same.
pub fn same_text(a: &str, b: &str) -> (r: bool)
    ensures
        r == (a@ == b@),
{
    a.to_owned() == b.to_owned()
}

/// Whether `s` passes the check named by `pattern`.
pub fn matches_pattern(s: &str, pattern: &str) -> (r: bool)
    ensures
        r == fits_pattern(s@, pattern@),
{
    let chars = to_chars(s);
    if same_text(pattern, "email") {
        has_char(chars.as_slice(), '@') && has_char(chars.as_slice(), '.')
    } else if same_text(pattern, "url") {
        let plain = to_chars("http://");
        let secure = to_chars("https://");
        found_at(chars.as_slice(), plain.as_slice(), 0) || found_at(
            chars.as_slice(),
            secure.as_slice(),
            0,
        )
    } else if same_text(pattern, "uuid") {
        s.as_bytes().len() == 36 && count_char(chars.as_slice(), '-') == 4
    } else {
        false
    }
}

/// Stringing the pieces together again with the delimiter between them gives
/// back the text that was split.
pub proof fn law_split_join(s: Seq<char>, delimiter: Seq<char>)
    ensures
        joined(pieces(s, delimiter), delimiter) == s,
{
    if delimiter.len() == 0 {
        let singles = Seq::new(s.len(), |i: int| seq![s[i]]);
        let tail = singles + seq![Seq::<char>::empty()];
        assert(pieces(s, delimiter).drop_first() == tail);
        lemma_join_singles(s, 0);
        assert(tail.skip(0) == tail);
        assert(s.skip(0) == s);
    } else {
        lemma_join_pieces(s, delimiter, 0, 0);
        assert(s.skip(0) == s);
    }
}

/// Joining one-character pieces and a final empty piece spells the characters.
proof fn lemma_join_singles(s: Seq<char>, i: int)
    requires
        0 <= i <= s.len(),
    ensures
        joined(
            (Seq::new(s.len(), |j: int| seq![s[j]]) + seq![Seq::<char>::empty()]).skip(i),
            Seq::empty(),
        ) == s.skip(i),
    decreases s.len() - i,
{
    let tail = Seq::new(s.len(), |j: int| seq![s[j]]) + seq![Seq::<char>::empty()];
    if i < s.len() {
        lemma_join_singles(s, i + 1);
        assert(tail.skip(i).drop_first() == tail.skip(i + 1));
        assert(s.skip(i) == seq![s[i]] + Seq::<char>::empty() + s.skip(i + 1));
    }
}

/// Joining the pieces from `start` on spells the text from `start` on.
proof fn lemma_join_pieces(s: Seq<char>, delimiter: Seq<char>, start: int, at: int)
    requires
        delimiter.len() > 0,
        0 <= start <= at <= s.len(),
    ensures
        pieces_from(s, delimiter, start, at).len() > 0,
        joined(pieces_from(s, delimiter, start, at), delimiter) == s.skip(start),
    decreases s.len() - at,
{
    if at + delimiter.len() > s.len() {
    } else if occurs_at(s, delimiter, at) {
        let next = at + delimiter.len();
        let rest = pieces_from(s, delimiter, next, next);
        lemma_join_pieces(s, delimiter, next, next);
        let all = pieces_from(s, delimiter, start, at);
        assert(all.drop_first() == rest);
        assert(s.skip(start) == s.subrange(start, at) + s.subrange(at, next) + s.skip(next));
    } else {
        lemma_join_pieces(s, delimiter, start, at + 1);
    }
}

/// Trimming twice changes nothing more.
pub proof fn law_trim_settles(s: Seq<char>)
    ensures
        trimmed_start(trimmed_start(s)) == trimmed_start(s),
        trimmed_end(trimmed_end(s)) == trimmed_end(s),
        trimmed(trimmed(s)) == trimmed(s),
{
    lemma_start_settles(s);
    lemma_end_settles(s);
    let inner = trimmed_start(s);
    lemma_end_settles(inner);
    lemma_end_keeps_start(inner);
    lemma_end_settles(trimmed(s));
}

proof fn lemma_start_settles(s: Seq<char>)
    ensures
        trimmed_start(trimmed_start(s)) == trimmed_start(s),
        trimmed_start(s).len() > 0 ==> !is_white_space(trimmed_start(s).first()),
    decreases s.len(),
{
    if s.len() > 0 && is_white_space(s.first()) {
        lemma_start_settles(s.drop_first());
    }
}

proof fn lemma_end_settles(s: Seq<char>)
    ensures
        trimmed_end(trimmed_end(s)) == trimmed_end(s),
    decreases s.len(),
{
    if s.len() > 0 && is_white_space(s.last()) {
        lemma_end_settles(s.drop_last());
    }
}

/// Trimming the end leaves the first character in place.
proof fn lemma_end_keeps_start(s: Seq<char>)
    requires
        s.len() > 0 ==> !is_white_space(s.first()),
    ensures
        trimmed_start(trimmed_end(s)) == trimmed_end(s),
    decreases s.len(),
{
    if s.len() > 0 && is_white_space(s.last()) {
        lemma_end_keeps_start(s.drop_last());
    }
}

/// No piece holds the delimiter.
pub proof fn law_pieces_hold_no_delimiter(s: Seq<char>, delimiter: Seq<char>, index: int, at: int)
    requires
        delimiter.len() > 0,
        0 <= index < pieces(s, delimiter).len(),
    ensures
        !occurs_at(pieces(s, delimiter)[index], delimiter, at),
{
    lemma_piece_holds_no_delimiter(s, delimiter, 0, 0, index, at);
}

/// No piece from `start` on holds the delimiter, where none was found between
/// `start` and `from`.
proof fn lemma_piece_holds_no_delimiter(
    s: Seq<char>,
    delimiter: Seq<char>,
    start: int,
    from: int,
    index: int,
    at: int,
)
    requires
        delimiter.len() > 0,
        0 <= start <= from <= s.len(),
        forall|k: int| start <= k < from ==> !occurs_at(s, delimiter, k),
        0 <= index < pieces_from(s, delimiter, start, from).len(),
    ensures
        !occurs_at(pieces_from(s, delimiter, start, from)[index], delimiter, at),
    decreases s.len() - from,
{
    let d = delimiter.len();
    let piece = pieces_from(s, delimiter, start, from)[index];
    if from + d > s.len() {
        assert(piece == s.skip(start));
        if occurs_at(piece, delimiter, at) {
            assert(s.subrange(start + at, start + at + d) == piece.subrange(at, at + d));
            assert(occurs_at(s, delimiter, start + at));
        }
    } else if occurs_at(s, delimiter, from) {
        if index == 0 {
            assert(piece == s.subrange(start, from));
            if occurs_at(piece, delimiter, at) {
                assert(s.subrange(start + at, start + at + d) == piece.subrange(at, at + d));
                assert(occurs_at(s, delimiter, start + at));
            }
        } else {
            lemma_piece_holds_no_delimiter(s, delimiter, from + d, from + d, index - 1, at);
        }
    } else {
        lemma_piece_holds_no_delimiter(s, delimiter, start, from + 1, index, at);
    }
}

} // verus!
