//! What the operations on text amount to, said without their definitions.

use crate::text;
use vstd::prelude::*;

verus! {

/// `part` is what `s` holds from position `at` on.
pub open spec fn stands_at(s: Seq<char>, part: Seq<char>, at: int) -> bool {
    &&& 0 <= at
    &&& at + part.len() <= s.len()
    &&& forall|i: int| 0 <= i < part.len() ==> s[at + i] == #[trigger] part[i]
}

/// `part` stands nowhere in `s`.
pub open spec fn stands_nowhere(s: Seq<char>, part: Seq<char>) -> bool {
    forall|at: int| !#[trigger] stands_at(s, part, at)
}

/// `part` stands in `s` at `at` and nowhere before.
pub open spec fn stands_first_at(s: Seq<char>, part: Seq<char>, at: int) -> bool {
    &&& stands_at(s, part, at)
    &&& forall|earlier: int| earlier < at ==> !#[trigger] stands_at(s, part, earlier)
}

proof fn lemma_occurs(s: Seq<char>, part: Seq<char>, at: int)
    ensures
        text::occurs_at(s, part, at) <==> stands_at(s, part, at),
{
    if 0 <= at && at + part.len() <= s.len() {
        let window = s.subrange(at, at + part.len());
        if window == part {
            assert(forall|i: int| 0 <= i < part.len() ==> s[at + i] == window[i]);
        }
        if stands_at(s, part, at) {
            assert(window == part);
        }
    }
}

/// Cutting a text from `start` on is cutting the text that starts there.
proof fn lemma_pieces_of_the_rest(s: Seq<char>, delimiter: Seq<char>, start: int, at: int)
    requires
        delimiter.len() > 0,
        0 <= start <= at <= s.len(),
    ensures
        text::pieces_from(s, delimiter, start, at) == text::pieces_from(
            s.skip(start),
            delimiter,
            0,
            at - start,
        ),
    decreases s.len() - at,
{
    lemma_pieces_shifted(s, delimiter, start, start, at);
    assert(s.skip(start).skip(0) == s.skip(start));
}

/// The same with the cut before both.
proof fn lemma_pieces_shifted(s: Seq<char>, delimiter: Seq<char>, cut: int, start: int, at: int)
    requires
        delimiter.len() > 0,
        0 <= cut <= start <= at <= s.len(),
    ensures
        text::pieces_from(s, delimiter, start, at) == text::pieces_from(
            s.skip(cut),
            delimiter,
            start - cut,
            at - cut,
        ),
    decreases s.len() - at,
{
    let rest = s.skip(cut);
    let d = delimiter.len();
    assert(s.skip(start) == rest.skip(start - cut));
    if at + d <= s.len() {
        assert(s.subrange(at, at + d) == rest.subrange(at - cut, at - cut + d));
        if text::occurs_at(s, delimiter, at) {
            assert(s.subrange(start, at) == rest.subrange(start - cut, at - cut));
            lemma_pieces_shifted(s, delimiter, cut, at + d, at + d);
        } else {
            lemma_pieces_shifted(s, delimiter, cut, start, at + 1);
        }
    }
}

/// The search for a delimiter goes on until it is found.
proof fn lemma_search_goes_on(s: Seq<char>, delimiter: Seq<char>, from: int, to: int)
    requires
        delimiter.len() > 0,
        0 <= from <= to,
        to + delimiter.len() <= s.len() + 1,
        forall|k: int| from <= k < to ==> !#[trigger] stands_at(s, delimiter, k),
    ensures
        text::pieces_from(s, delimiter, 0, from) == text::pieces_from(s, delimiter, 0, to),
    decreases to - from,
{
    if from < to {
        assert(!stands_at(s, delimiter, from));
        lemma_occurs(s, delimiter, from);
        lemma_search_goes_on(s, delimiter, from + 1, to);
    }
}

/// A text that holds no delimiter is one piece.
pub proof fn law_one_piece(s: Seq<char>, delimiter: Seq<char>)
    requires
        delimiter.len() > 0,
        stands_nowhere(s, delimiter),
    ensures
        text::pieces(s, delimiter) == seq![s],
{
    assert(s.skip(0) == s);
    if delimiter.len() <= s.len() {
        lemma_search_goes_on(s, delimiter, 0, s.len() - delimiter.len() + 1);
    }
}

/// The first piece ends where the delimiter stands first, and the other pieces are
/// those of the text behind it.
pub proof fn law_first_piece(s: Seq<char>, delimiter: Seq<char>, at: int)
    requires
        delimiter.len() > 0,
        stands_first_at(s, delimiter, at),
    ensures
        text::pieces(s, delimiter) == seq![s.take(at)] + text::pieces(
            s.skip(at + delimiter.len()),
            delimiter,
        ),
{
    let next = at + delimiter.len();
    lemma_search_goes_on(s, delimiter, 0, at);
    lemma_occurs(s, delimiter, at);
    assert(s.subrange(0, at) == s.take(at));
    lemma_pieces_of_the_rest(s, delimiter, next, next);
}

/// Under the empty delimiter a text falls into its characters, with an empty piece
/// before and behind them.
pub proof fn law_single_characters(s: Seq<char>)
    ensures
        ({
            let parts = text::pieces(s, Seq::empty());
            &&& parts.len() == s.len() + 2
            &&& parts[0].len() == 0
            &&& parts[s.len() as int + 1].len() == 0
            &&& forall|i: int| 0 <= i < s.len() ==> #[trigger] parts[i + 1] == seq![s[i]]
        }),
{
    let parts = text::pieces(s, Seq::empty());
    assert forall|i: int| 0 <= i < s.len() implies #[trigger] parts[i + 1] == seq![s[i]] by {
    }
}

/// There is always a piece.
proof fn lemma_some_piece(s: Seq<char>, delimiter: Seq<char>, start: int, at: int)
    ensures
        text::pieces_from(s, delimiter, start, at).len() > 0,
    decreases s.len() - at,
{
    if delimiter.len() == 0 || at < 0 || at + delimiter.len() > s.len() {
    } else if text::occurs_at(s, delimiter, at) {
    } else {
        lemma_some_piece(s, delimiter, start, at + 1);
    }
}

/// A text that does not hold the search string stays as it is.
pub proof fn law_nothing_replaced(s: Seq<char>, search: Seq<char>, replacement: Seq<char>)
    requires
        search.len() > 0,
        stands_nowhere(s, search),
    ensures
        text::replaced(s, search, replacement) == s,
{
    law_one_piece(s, search);
}

/// The first occurrence of the search string gives way to the replacement, and
/// what stands behind it is treated in the same way.
pub proof fn law_first_replaced(
    s: Seq<char>,
    search: Seq<char>,
    replacement: Seq<char>,
    at: int,
)
    requires
        search.len() > 0,
        stands_first_at(s, search, at),
    ensures
        text::replaced(s, search, replacement) == s.take(at) + replacement + text::replaced(
            s.skip(at + search.len()),
            search,
            replacement,
        ),
{
    law_first_piece(s, search, at);
    let rest = text::pieces(s.skip(at + search.len()), search);
    lemma_some_piece(s.skip(at + search.len()), search, 0, 0);
    assert((seq![s.take(at)] + rest).drop_first() == rest);
}

/// The empty search string gives way before every character and at the end.
pub proof fn law_replaced_around_characters(s: Seq<char>, replacement: Seq<char>)
    ensures
        s.len() == 0 ==> text::replaced(s, Seq::empty(), replacement) == replacement,
        s.len() > 0 ==> text::replaced(s, Seq::empty(), replacement) == replacement + seq![s[0]]
            + text::replaced(s.drop_first(), Seq::empty(), replacement),
{
    let none = Seq::<char>::empty();
    let parts = text::pieces(s, none);
    law_single_characters(s);
    if s.len() == 0 {
        assert(parts.drop_first() == seq![none]);
        assert(none + replacement + none == replacement);
        assert(text::joined(parts.drop_first(), replacement) == none);
        assert(parts[0] == none);
    } else {
        let tail = text::pieces(s.drop_first(), none);
        law_single_characters(s.drop_first());
        let behind = parts.drop_first();
        assert(parts[0] == none);
        assert(behind[0] == seq![s[0]]);
        assert(behind.drop_first() == tail.drop_first()) by {
            let a = behind.drop_first();
            let b = tail.drop_first();
            assert(a.len() == b.len());
            assert forall|i: int| 0 <= i < a.len() implies a[i] == b[i] by {
                assert(a[i] == parts[i + 2]);
                assert(b[i] == tail[i + 1]);
                if i < s.len() - 1 {
                    assert(parts[(i + 1) + 1] == seq![s[i + 1]]);
                    assert(tail[i + 1] == seq![s.drop_first()[i]]);
                } else {
                    assert(a[i] == none);
                    assert(b[i] == none);
                }
            }
        }
        assert(tail[0] == none);
        let joined_tail = text::joined(tail.drop_first(), replacement);
        assert(text::joined(tail, replacement) == none + replacement + joined_tail);
        assert(text::joined(behind, replacement) == seq![s[0]] + replacement + joined_tail);
        assert(text::joined(parts, replacement) == none + replacement + text::joined(
            behind,
            replacement,
        ));
        assert(text::replaced(s, none, replacement) == replacement + seq![s[0]] + text::replaced(
            s.drop_first(),
            none,
            replacement,
        ));
    }
}

/// Whether `s` is white space throughout.
pub open spec fn blank(s: Seq<char>) -> bool {
    forall|i: int| 0 <= i < s.len() ==> text::is_white_space(#[trigger] s[i])
}

/// Trimming takes all the white space at an end away, and nothing else.
pub proof fn law_trimmed(s: Seq<char>)
    ensures
        ({
            let front = s.len() - text::trimmed_start(s).len();
            let back = text::trimmed_end(s).len() as int;
            &&& 0 <= front <= s.len()
            &&& text::trimmed_start(s) == s.skip(front)
            &&& blank(s.take(front))
            &&& front < s.len() ==> !text::is_white_space(s[front])
            &&& back <= s.len()
            &&& text::trimmed_end(s) == s.take(back)
            &&& blank(s.skip(back))
            &&& back > 0 ==> !text::is_white_space(s[back - 1])
        }),
        text::trimmed(s) == text::trimmed_end(text::trimmed_start(s)),
{
    lemma_trimmed_start(s);
    lemma_trimmed_end(s);
}

proof fn lemma_trimmed_start(s: Seq<char>)
    ensures
        ({
            let front = s.len() - text::trimmed_start(s).len();
            &&& 0 <= front <= s.len()
            &&& text::trimmed_start(s) == s.skip(front)
            &&& blank(s.take(front))
            &&& front < s.len() ==> !text::is_white_space(s[front])
        }),
    decreases s.len(),
{
    if s.len() > 0 && text::is_white_space(s.first()) {
        let rest = s.drop_first();
        lemma_trimmed_start(rest);
        let front = s.len() - text::trimmed_start(s).len();
        assert(s.skip(front) == rest.skip(front - 1));
        assert forall|i: int| 0 <= i < front implies text::is_white_space(
            #[trigger] s.take(front)[i],
        ) by {
            if i > 0 {
                assert(rest.take(front - 1)[i - 1] == s.take(front)[i]);
            }
        }
    } else {
        assert(s.skip(0) == s);
    }
}

proof fn lemma_trimmed_end(s: Seq<char>)
    ensures
        ({
            let back = text::trimmed_end(s).len() as int;
            &&& back <= s.len()
            &&& text::trimmed_end(s) == s.take(back)
            &&& blank(s.skip(back))
            &&& back > 0 ==> !text::is_white_space(s[back - 1])
        }),
    decreases s.len(),
{
    if s.len() > 0 && text::is_white_space(s.last()) {
        let rest = s.drop_last();
        lemma_trimmed_end(rest);
        let back = text::trimmed_end(s).len() as int;
        assert(s.take(back) == rest.take(back));
        assert forall|i: int| 0 <= i < s.skip(back).len() implies text::is_white_space(
            #[trigger] s.skip(back)[i],
        ) by {
            if i < s.skip(back).len() - 1 {
                assert(rest.skip(back)[i] == s.skip(back)[i]);
            }
        }
    } else {
        assert(s.take(s.len() as int) == s);
    }
}

/// A repeated text runs through the text again and again, as often as asked.
pub proof fn law_repeated(s: Seq<char>, count: nat)
    ensures
        text::repeated(s, count).len() == s.len() * count,
        forall|i: int|
            0 <= i < text::repeated(s, count).len() ==> #[trigger] text::repeated(s, count)[i]
                == s[i % (s.len() as int)],
    decreases count,
{
    if count > 0 {
        let fewer = (count - 1) as nat;
        law_repeated(s, fewer);
        let before = text::repeated(s, fewer);
        let after = text::repeated(s, count);
        let n = s.len() as int;
        assert(n * count == n * fewer + n) by (nonlinear_arith)
            requires
                count == fewer + 1,
        ;
        assert forall|i: int| 0 <= i < after.len() implies #[trigger] after[i] == s[i % n] by {
            if i < before.len() {
                assert(after[i] == before[i]);
            } else {
                let j = i - before.len();
                assert(after[i] == s[j]);
                vstd::arithmetic::div_mod::lemma_mod_multiples_vanish(fewer as int, j, n);
                vstd::arithmetic::div_mod::lemma_small_mod(j as nat, n as nat);
                assert(n * fewer + j == i);
            }
        }
    } else {
        assert(s.len() * count == 0) by (nonlinear_arith)
            requires
                count == 0,
        ;
    }
}

/// The number that a digit stands for.
pub open spec fn digit_value(c: char) -> int {
    c as int - 48
}

/// The number that a row of digits spells.
pub open spec fn number_of(s: Seq<char>) -> int
    decreases s.len(),
{
    if s.len() == 0 {
        0
    } else {
        10 * number_of(s.drop_last()) + digit_value(s.last())
    }
}

/// A row of digits without a needless zero in front.
pub open spec fn is_numeral(s: Seq<char>) -> bool {
    &&& s.len() > 0
    &&& forall|i: int| 0 <= i < s.len() ==> 0 <= #[trigger] digit_value(s[i]) <= 9
    &&& s.len() > 1 ==> s[0] != '0'
}

proof fn lemma_digits(n: nat)
    ensures
        is_numeral(text::digits(n)),
        number_of(text::digits(n)) == n,
        n > 0 ==> text::digits(n)[0] != '0',
    decreases n,
{
    let s = text::digits(n);
    if n < 10 {
        assert(s.drop_last() == Seq::<char>::empty());
        assert(s.last() as int == n + 48);
        assert(number_of(s.drop_last()) == 0);
    } else {
        let head = text::digits(n / 10);
        lemma_digits(n / 10);
        assert(s.drop_last() == head);
        assert(s.last() as int == n % 10 + 48);
        assert forall|i: int| 0 <= i < s.len() implies 0 <= #[trigger] digit_value(s[i]) <= 9 by {
            if i < head.len() {
                assert(s[i] == head[i]);
                assert(0 <= digit_value(head[i]) <= 9);
            }
        }
        assert(s[0] == head[0]);
    }
}

/// A number in decimal is a row of digits without needless zeros that spells its
/// magnitude, behind a minus sign where the number is negative.
pub proof fn law_decimal(n: int)
    ensures
        n >= 0 ==> is_numeral(text::decimal(n)) && number_of(text::decimal(n)) == n,
        n < 0 ==> {
            let s = text::decimal(n);
            &&& s.len() > 1
            &&& s[0] == '-'
            &&& is_numeral(s.drop_first())
            &&& number_of(s.drop_first()) == -n
        },
{
    if n < 0 {
        lemma_digits((-n) as nat);
        assert(text::decimal(n).drop_first() == text::digits((-n) as nat));
    } else {
        lemma_digits(n as nat);
    }
}

/// `s` holds exactly four dashes.
pub open spec fn four_dashes(s: Seq<char>) -> bool {
    exists|a: int, b: int, c: int, d: int|
        {
            &&& 0 <= a < b < c < d < s.len()
            &&& #[trigger] dashes_at(s, a, b, c, d)
        }
}

/// The dashes of `s` stand at these four places.
pub open spec fn dashes_at(s: Seq<char>, a: int, b: int, c: int, d: int) -> bool {
    forall|i: int|
        0 <= i < s.len() ==> (#[trigger] s[i] == '-' <==> i == a || i == b || i == c || i == d)
}

/// The places of a character, in order.
spec fn places(s: Seq<char>, c: char) -> Seq<int>
    decreases s.len(),
{
    if s.len() == 0 {
        Seq::empty()
    } else if s.last() == c {
        places(s.drop_last(), c).push(s.len() - 1)
    } else {
        places(s.drop_last(), c)
    }
}

proof fn lemma_places(s: Seq<char>, c: char)
    ensures
        places(s, c).len() == text::occurrences(s, c),
        forall|k: int|
            0 <= k < places(s, c).len() ==> 0 <= #[trigger] places(s, c)[k] < s.len()
                && s[places(s, c)[k]] == c,
        forall|k: int, l: int|
            0 <= k < l < places(s, c).len() ==> #[trigger] places(s, c)[k] < #[trigger] places(
                s,
                c,
            )[l],
        forall|i: int| 0 <= i < s.len() && s[i] == c ==> places(s, c).contains(i),
    decreases s.len(),
{
    if s.len() > 0 {
        let head = s.drop_last();
        lemma_places(head, c);
        let before = places(head, c);
        let after = places(s, c);
        assert forall|i: int| 0 <= i < s.len() && s[i] == c implies after.contains(i) by {
            if i < head.len() {
                assert(head[i] == c);
                let k = choose|k: int| 0 <= k < before.len() && before[k] == i;
                assert(after[k] == i);
            } else {
                assert(after[after.len() - 1] == i);
            }
        }
    }
}

/// Two rows of places of the same character are the same row.
proof fn lemma_dashes_counted(s: Seq<char>, a: int, b: int, c: int, d: int)
    requires
        0 <= a < b < c < d < s.len(),
        dashes_at(s, a, b, c, d),
    ensures
        text::occurrences(s, '-') == 4,
    decreases s.len(),
{
    let head = s.drop_last();
    if d < s.len() - 1 {
        assert(s.last() == s[s.len() - 1]);
        assert(dashes_at(head, a, b, c, d)) by {
            assert forall|i: int| 0 <= i < head.len() implies (#[trigger] head[i] == '-' <==> i == a
                || i == b || i == c || i == d) by {
                assert(head[i] == s[i]);
            }
        }
        lemma_dashes_counted(head, a, b, c, d);
    } else {
        lemma_places(s, '-');
        let row = places(s, '-');
        assert(s[a] == '-' && s[b] == '-' && s[c] == '-' && s[d] == '-');
        let ka = choose|k: int| 0 <= k < row.len() && row[k] == a;
        let kb = choose|k: int| 0 <= k < row.len() && row[k] == b;
        let kc = choose|k: int| 0 <= k < row.len() && row[k] == c;
        let kd = choose|k: int| 0 <= k < row.len() && row[k] == d;
        assert(row.contains(a) && row.contains(b) && row.contains(c) && row.contains(d));
        assert(row.len() <= 4) by {
            if row.len() > 4 {
                let five = row.take(5);
                assert(row[0] < row[1] < row[2] < row[3] < row[4]);
                assert(s[row[0]] == '-' && s[row[1]] == '-' && s[row[2]] == '-' && s[row[3]] == '-'
                    && s[row[4]] == '-');
            }
        }
        assert(ka < kb) by {
            if kb < ka {
                assert(row[kb] < row[ka]);
            }
        }
        assert(kb < kc) by {
            if kc < kb {
                assert(row[kc] < row[kb]);
            }
        }
        assert(kc < kd) by {
            if kd < kc {
                assert(row[kd] < row[kc]);
            }
        }
    }
}

/// What the named patterns ask for: an `@` and a dot somewhere; one of the two
/// schemes in front; thirty-six bytes of UTF-8 and exactly four dashes. Any other
/// name asks for the impossible.
pub proof fn law_patterns(s: Seq<char>, pattern: Seq<char>)
    ensures
        text::fits_pattern(s, "email"@) <==> (exists|i: int| 0 <= i < s.len() && s[i] == '@') && (
        exists|i: int| 0 <= i < s.len() && s[i] == '.'),
        text::fits_pattern(s, "url"@) <==> stands_at(s, "http://"@, 0) || stands_at(
            s,
            "https://"@,
            0,
        ),
        text::fits_pattern(s, "uuid"@) <==> vstd::utf8::encode_utf8(s).len() == 36 && four_dashes(s),
        pattern != "email"@ && pattern != "url"@ && pattern != "uuid"@ ==> !text::fits_pattern(
            s,
            pattern,
        ),
{
    reveal_strlit("email");
    reveal_strlit("url");
    reveal_strlit("uuid");
    assert("email"@.len() == 5 && "url"@.len() == 3 && "uuid"@.len() == 4);
    lemma_occurs(s, "http://"@, 0);
    lemma_occurs(s, "https://"@, 0);
    lemma_places(s, '-');
    let row = places(s, '-');
    if text::occurrences(s, '-') == 4 {
        assert(row.len() == 4);
        assert(row[0] < row[1] < row[2] < row[3]);
        assert(dashes_at(s, row[0], row[1], row[2], row[3])) by {
            assert forall|i: int| 0 <= i < s.len() implies (#[trigger] s[i] == '-' <==> i == row[0]
                || i == row[1] || i == row[2] || i == row[3]) by {
                if s[i] == '-' {
                    let k = choose|k: int| 0 <= k < row.len() && row[k] == i;
                    assert(k == 0 || k == 1 || k == 2 || k == 3);
                }
            }
        }
    }
    if four_dashes(s) {
        let (a, b, c, d) = choose|a: int, b: int, c: int, d: int|
            {
                &&& 0 <= a < b < c < d < s.len()
                &&& #[trigger] dashes_at(s, a, b, c, d)
            };
        lemma_dashes_counted(s, a, b, c, d);
    }
}

/// The strings of `parts`, each but the first behind a `separator`.
pub open spec fn strung(parts: Seq<Seq<char>>, separator: Seq<char>) -> Seq<char>
    decreases parts.len(),
{
    if parts.len() == 0 {
        Seq::empty()
    } else if parts.len() == 1 {
        parts[0]
    } else {
        strung(parts.drop_last(), separator) + separator + parts.last()
    }
}

proof fn lemma_strung(parts: Seq<Seq<char>>, separator: Seq<char>)
    ensures
        parts.len() > 1 ==> strung(parts, separator) == parts[0] + separator + strung(
            parts.drop_first(),
            separator,
        ),
    decreases parts.len(),
{
    if parts.len() > 2 {
        let most = parts.drop_last();
        lemma_strung(most, separator);
        assert(most.drop_first() == parts.drop_first().drop_last());
        assert(parts.drop_first().last() == parts.last());
        assert(strung(parts, separator) == parts[0] + separator + strung(
            parts.drop_first(),
            separator,
        ));
    } else if parts.len() == 2 {
        assert(parts.drop_last() == seq![parts[0]]);
        assert(parts.drop_first() == seq![parts[1]]);
        assert(strung(parts.drop_last(), separator) == parts[0]);
        assert(strung(parts.drop_first(), separator) == parts[1]);
        assert(parts.last() == parts[1]);
    }
}

proof fn lemma_joined_is_strung(parts: Seq<Seq<char>>, separator: Seq<char>)
    ensures
        text::joined(parts, separator) == strung(parts, separator),
    decreases parts.len(),
{
    if parts.len() > 1 {
        lemma_joined_is_strung(parts.drop_first(), separator);
        lemma_strung(parts, separator);
    }
}

/// The pieces of a text, strung together with the delimiter between them, spell the
/// text, and none of them holds a delimiter that is not empty.
pub proof fn law_pieces_strung(s: Seq<char>, delimiter: Seq<char>)
    ensures
        strung(text::pieces(s, delimiter), delimiter) == s,
        delimiter.len() > 0 ==> forall|i: int|
            0 <= i < text::pieces(s, delimiter).len() ==> stands_nowhere(
                #[trigger] text::pieces(s, delimiter)[i],
                delimiter,
            ),
{
    let parts = text::pieces(s, delimiter);
    text::law_split_join(s, delimiter);
    lemma_joined_is_strung(parts, delimiter);
    if delimiter.len() > 0 {
        assert forall|i: int| 0 <= i < parts.len() implies stands_nowhere(
            #[trigger] parts[i],
            delimiter,
        ) by {
            assert forall|at: int| !#[trigger] stands_at(parts[i], delimiter, at) by {
                text::law_pieces_hold_no_delimiter(s, delimiter, i, at);
                lemma_occurs(parts[i], delimiter, at);
            }
        }
    }
}

/// Where a part stands, if it stands anywhere, it stands first somewhere.
proof fn lemma_first_place(s: Seq<char>, part: Seq<char>, at: int) -> (first: int)
    requires
        stands_at(s, part, at),
    ensures
        stands_first_at(s, part, first),
        0 <= first <= at,
    decreases at,
{
    if exists|earlier: int| earlier < at && #[trigger] stands_at(s, part, earlier) {
        let earlier = choose|earlier: int| earlier < at && #[trigger] stands_at(s, part, earlier);
        lemma_first_place(s, part, earlier)
    } else {
        at
    }
}

/// Where the replacement is not empty and shares no character with the search
/// string, no search string is left over.
pub proof fn law_none_left(s: Seq<char>, search: Seq<char>, replacement: Seq<char>)
    requires
        search.len() > 0,
        replacement.len() > 0,
        forall|i: int, j: int|
            0 <= i < search.len() && 0 <= j < replacement.len() ==> #[trigger] search[i]
                != #[trigger] replacement[j],
    ensures
        stands_nowhere(text::replaced(s, search, replacement), search),
    decreases s.len(),
{
    if stands_nowhere(s, search) {
        law_nothing_replaced(s, search, replacement);
    } else {
        let some = choose|at: int| #[trigger] stands_at(s, search, at);
        let at = lemma_first_place(s, search, some);
        let behind = s.skip(at + search.len());
        law_first_replaced(s, search, replacement, at);
        law_none_left(behind, search, replacement);
        let rest = text::replaced(behind, search, replacement);
        let t = s.take(at) + replacement + rest;
        let n = search.len() as int;
        assert forall|k: int| !#[trigger] stands_at(t, search, k) by {
            if stands_at(t, search, k) {
                if k + n <= at {
                    assert forall|i: int| 0 <= i < n implies s[k + i] == #[trigger] search[i] by {
                        assert(t[k + i] == s[k + i]);
                    }
                    assert(stands_at(s, search, k));
                } else if k < at + replacement.len() {
                    let i = if k < at {
                        at - k
                    } else {
                        0
                    };
                    let j = k + i - at;
                    assert(t[k + i] == replacement[j]);
                    assert(search[i] != replacement[j]);
                } else {
                    let back = at + replacement.len();
                    assert forall|i: int| 0 <= i < n implies rest[k - back + i]
                        == #[trigger] search[i] by {
                        assert(t[k + i] == rest[k + i - back]);
                    }
                    assert(stands_at(rest, search, k - back));
                }
            }
        }
    }
}

/// Under the empty search string the replacement and a character alternate, and
/// the replacement comes last.
pub proof fn law_laid_around_characters(s: Seq<char>, replacement: Seq<char>)
    ensures
        ({
            let t = text::replaced(s, Seq::empty(), replacement);
            let step = replacement.len() + 1;
            &&& t.len() == s.len() + (s.len() + 1) * replacement.len()
            &&& forall|i: int|
                #![trigger s[i]]
                0 <= i < s.len() ==> stands_at(t, replacement + seq![s[i]], i * step)
            &&& stands_at(t, replacement, s.len() as int * step)
        }),
    decreases s.len(),
{
    law_replaced_around_characters(s, replacement);
    let t = text::replaced(s, Seq::empty(), replacement);
    let r = replacement.len() as int;
    let step = r + 1;
    let n = s.len() as int;
    if n == 0 {
        assert((n + 1) * r == r && n * step == 0) by (nonlinear_arith)
            requires
                n == 0,
        ;
    } else {
        let rest = s.drop_first();
        law_laid_around_characters(rest, replacement);
        let u = text::replaced(rest, Seq::empty(), replacement);
        let front = replacement + seq![s[0]];
        assert(t == front + u);
        assert((n + 1) * r == n * r + r && n * step == (n - 1) * step + step) by (nonlinear_arith)
            requires
                step == r + 1,
        ;
        assert forall|i: int| #![trigger s[i]] 0 <= i < n implies stands_at(
            t,
            replacement + seq![s[i]],
            i * step,
        ) by {
            let part = replacement + seq![s[i]];
            if i == 0 {
                assert(0 * step == 0);
                assert(u.len() >= 0);
            } else {
                assert(rest[i - 1] == s[i]);
                assert(stands_at(u, part, (i - 1) * step));
                assert(i * step == (i - 1) * step + step) by (nonlinear_arith);
                assert forall|k: int| 0 <= k < part.len() implies t[i * step + k]
                    == #[trigger] part[k] by {
                    assert(t[i * step + k] == u[(i - 1) * step + k]);
                }
            }
        }
        assert(stands_at(u, replacement, (n - 1) * step));
        assert forall|k: int| 0 <= k < r implies t[n * step + k] == #[trigger] replacement[k] by {
            assert(t[n * step + k] == u[(n - 1) * step + k]);
        }
    }
}

/// What is left of a text whose white space ends at `front` and begins again at
/// `back`.
pub proof fn law_trimmed_to(s: Seq<char>, front: int, back: int)
    requires
        0 <= front <= back <= s.len(),
        blank(s.take(front)),
        blank(s.skip(back)),
    ensures
        (front < back ==> !text::is_white_space(s[front]) && !text::is_white_space(s[back - 1]))
            ==> text::trimmed(s) == s.subrange(front, back),
        (front < s.len() ==> !text::is_white_space(s[front])) ==> text::trimmed_start(s) == s.skip(
            front,
        ),
        (back > 0 ==> !text::is_white_space(s[back - 1])) ==> text::trimmed_end(s) == s.take(back),
{
    let n = s.len() as int;
    law_trimmed(s);
    let inner = text::trimmed_start(s);
    let f = n - inner.len();
    let b = text::trimmed_end(s).len() as int;
    law_trimmed(inner);
    let c = text::trimmed_end(inner).len() as int;
    assert(forall|i: int| 0 <= i < front ==> text::is_white_space(s[i])) by {
        assert forall|i: int| 0 <= i < front implies text::is_white_space(s[i]) by {
            assert(s.take(front)[i] == s[i]);
        }
    }
    assert(forall|i: int| back <= i < n ==> text::is_white_space(s[i])) by {
        assert forall|i: int| back <= i < n implies text::is_white_space(s[i]) by {
            assert(s.skip(back)[i - back] == s[i]);
        }
    }
    assert forall|i: int| 0 <= i < f implies text::is_white_space(s[i]) by {
        assert(s.take(f)[i] == s[i]);
    }
    assert forall|i: int| b <= i < n implies text::is_white_space(s[i]) by {
        assert(s.skip(b)[i - b] == s[i]);
    }
    assert forall|i: int| c <= i < inner.len() implies text::is_white_space(inner[i]) by {
        assert(inner.skip(c)[i - c] == inner[i]);
    }
    if front < back && !text::is_white_space(s[front]) && !text::is_white_space(s[back - 1]) {
        assert(f == front);
        assert(inner[back - 1 - front] == s[back - 1]);
        assert(c == back - front) by {
            if c > back - front {
                assert(inner[c - 1] == s[front + c - 1]);
            }
        }
        assert(inner.take(c) == s.subrange(front, back));
    }
    if front == back {
        assert(f == n);
        assert(inner.take(c) == s.subrange(front, back));
    }
}

} // verus!
