//! Text as sequences of characters: decimal numbers, joining, searching.

use vstd::prelude::*;
use vstd::string::*;

verus! {

/// The character of one decimal digit.
pub open spec fn digit(d: nat) -> char {
    (48 + d) as char
}

/// The decimal rendering of `n`, without leading zeros.
pub open spec fn decimal(n: nat) -> Seq<char>
    decreases n,
{
    if n < 10 {
        seq![digit(n)]
    } else {
        decimal(n / 10) + seq![digit(n % 10)]
    }
}

/// The text of the digit `d`.
fn digit_text(d: u64) -> (t: &'static str)
    requires
        d < 10,
    ensures
        t@ == seq![digit(d as nat)],
{
    proof {
        reveal_strlit("0");
        reveal_strlit("1");
        reveal_strlit("2");
        reveal_strlit("3");
        reveal_strlit("4");
        reveal_strlit("5");
        reveal_strlit("6");
        reveal_strlit("7");
        reveal_strlit("8");
        reveal_strlit("9");
    }
    if d == 0 {
        "0"
    } else if d == 1 {
        "1"
    } else if d == 2 {
        "2"
    } else if d == 3 {
        "3"
    } else if d == 4 {
        "4"
    } else if d == 5 {
        "5"
    } else if d == 6 {
        "6"
    } else if d == 7 {
        "7"
    } else if d == 8 {
        "8"
    } else {
        "9"
    }
}

/// Appends the decimal rendering of `n`.
pub(crate) fn push_decimal(buffer: &mut String, n: u64)
    ensures
        final(buffer)@ == old(buffer)@ + decimal(n as nat),
    decreases n,
{
    if n >= 10 {
        push_decimal(buffer, n / 10);
    }
    buffer.append(digit_text(n % 10));
    proof {
        assert(buffer@ =~= old(buffer)@ + decimal(n as nat));
    }
}

/// `n` zero characters.
pub open spec fn zeros(n: nat) -> Seq<char> {
    Seq::new(n, |i: int| '0')
}

/// The decimal rendering of `n`, with zeros in front up to `width` characters.
pub open spec fn padded_decimal(n: nat, width: nat) -> Seq<char> {
    let digits = decimal(n);
    if digits.len() < width {
        zeros((width - digits.len()) as nat) + digits
    } else {
        digits
    }
}

/// Appends the decimal rendering of `n`, zero-padded to `width` characters.
pub(crate) fn push_padded_decimal(buffer: &mut String, n: u64, width: usize)
    ensures
        final(buffer)@ == old(buffer)@ + padded_decimal(n as nat, width as nat),
{
    let mut digits = String::new();
    push_decimal(&mut digits, n);
    assert(digits@ =~= decimal(n as nat));
    let length: usize = digits.as_str().unicode_len();
    let mut filled: usize = length;
    proof {
        reveal_strlit("0");
        assert("0"@ =~= zeros(1));
        assert(buffer@ =~= old(buffer)@ + zeros(0));
    }
    while filled < width
        invariant
            length == decimal(n as nat).len(),
            length <= filled,
            filled <= width || filled == length,
            "0"@ == zeros(1),
            buffer@ == old(buffer)@ + zeros((filled - length) as nat),
        decreases width - filled,
    {
        buffer.append("0");
        filled = filled + 1;
        proof {
            assert(buffer@ =~= old(buffer)@ + zeros((filled - length) as nat));
        }
    }
    buffer.append(digits.as_str());
    proof {
        assert(buffer@ =~= old(buffer)@ + padded_decimal(n as nat, width as nat));
    }
}

/// The parts in order, `separator` between neighbours.
pub open spec fn joined(parts: Seq<Seq<char>>, separator: Seq<char>) -> Seq<char>
    decreases parts.len(),
{
    if parts.len() == 0 {
        Seq::empty()
    } else if parts.len() == 1 {
        parts[0]
    } else {
        joined(parts.drop_last(), separator) + separator + parts.last()
    }
}

/// The views of a vector of strings.
pub open spec fn views(strings: Seq<String>) -> Seq<Seq<char>> {
    strings.map_values(|s: String| s@)
}

/// The parts in order, `separator` between neighbours.
pub(crate) fn join(parts: &Vec<String>, separator: &str) -> (text: String)
    ensures
        text@ == joined(views(parts@), separator@),
{
    let mut text = String::new();
    let mut i: usize = 0;
    while i < parts.len()
        invariant
            i <= parts.len(),
            text@ == joined(views(parts@).take(i as int), separator@),
        decreases parts.len() - i,
    {
        let ghost before = views(parts@).take(i as int);
        let ghost after = views(parts@).take(i + 1);
        if i > 0 {
            text.append(separator);
        }
        text.append(parts[i].as_str());
        proof {
            assert(after.drop_last() =~= before);
            assert(after.last() == parts@[i as int]@);
            if i == 0 {
                assert(text@ =~= after[0]);
            }
        }
        i = i + 1;
    }
    proof {
        assert(views(parts@).take(parts.len() as int) =~= views(parts@));
    }
    text
}

/// The first position of `c` in `s`, or the length of `s` where it does not occur.
pub open spec fn position(s: Seq<char>, c: char) -> int
    decreases s.len(),
{
    if s.len() == 0 || s[0] == c {
        0
    } else {
        1 + position(s.drop_first(), c)
    }
}

/// What `position` means.
pub proof fn lemma_position(s: Seq<char>, c: char)
    ensures
        0 <= position(s, c) <= s.len(),
        position(s, c) < s.len() ==> s[position(s, c)] == c,
        forall|i: int| 0 <= i < position(s, c) ==> s[i] != c,
    decreases s.len(),
{
    if s.len() > 0 && s[0] != c {
        let rest = s.drop_first();
        lemma_position(rest, c);
        assert forall|i: int| 0 <= i < position(s, c) implies s[i] != c by {
            if i > 0 {
                assert(rest[i - 1] == s[i]);
            }
        }
    }
}

/// A position before which `c` does not occur, and at which it does or `s` ends, is the first.
pub proof fn lemma_position_is(s: Seq<char>, c: char, at: int)
    requires
        0 <= at <= s.len(),
        at < s.len() ==> s[at] == c,
        forall|i: int| 0 <= i < at ==> s[i] != c,
    ensures
        position(s, c) == at,
{
    lemma_position(s, c);
    if position(s, c) < at {
        assert(s[position(s, c)] != c);
    }
}

/// Whether `part` stands somewhere in `whole`.
pub open spec fn contains(whole: Seq<char>, part: Seq<char>) -> bool {
    exists|at: int|
        0 <= at && at + part.len() <= whole.len() && #[trigger] whole.subrange(at, at + part.len())
            == part
}

/// Text stands in itself.
pub proof fn lemma_contains_itself(s: Seq<char>)
    ensures
        contains(s, s),
{
    assert(s.subrange(0int, 0int + s.len()) =~= s);
}

/// What stands in a part stands in the whole.
pub proof fn lemma_contains_within(before: Seq<char>, s: Seq<char>, after: Seq<char>, part: Seq<char>)
    requires
        contains(s, part),
    ensures
        contains(before + s + after, part),
        contains(before + s, part),
        contains(s + after, part),
{
    let at = choose|at: int|
        0 <= at && at + part.len() <= s.len() && #[trigger] s.subrange(at, at + part.len()) == part;
    let here = before.len() + at;
    assert((before + s + after).subrange(here, here + part.len()) =~= part);
    assert((before + s).subrange(here, here + part.len()) =~= part);
    assert((s + after).subrange(at, at + part.len()) =~= part);
}

/// The characters of a string.
pub(crate) fn characters(s: &str) -> (chars: Vec<char>)
    ensures
        chars@ == s@,
{
    let mut chars: Vec<char> = Vec::new();
    for c in it: s.chars()
        invariant
            it.seq() == s@,
            chars@ == s@.take(it.index() as int),
    {
        chars.push(c);
        proof {
            assert(s@.take(it.index() as int).push(c) =~= s@.take(it.index() + 1));
        }
    }
    proof {
        assert(s@.take(s@.len() as int) =~= s@);
    }
    chars
}

/// Whether `c` is an ASCII decimal digit.
pub open spec fn is_digit(c: char) -> bool {
    48 <= c as nat <= 57
}

/// The value of a sequence of digits, the most significant first.
pub open spec fn digits_value(s: Seq<char>) -> nat
    decreases s.len(),
{
    if s.len() == 0 {
        0
    } else {
        digits_value(s.drop_last()) * 10 + (s.last() as nat - 48) as nat
    }
}

/// Whether `s` is made of digits alone, at least one.
pub open spec fn all_digits(s: Seq<char>) -> bool {
    s.len() > 0 && forall|i: int| 0 <= i < s.len() ==> is_digit(#[trigger] s[i])
}

/// `s` without a plus sign in front.
pub open spec fn unsigned_part(s: Seq<char>) -> Seq<char> {
    if s.len() > 0 && s[0] == '+' {
        s.skip(1)
    } else {
        s
    }
}

/// The number that `s` spells: an optional plus sign, then one or more digits, within `usize`.
pub open spec fn parsed_usize(s: Seq<char>) -> Option<usize> {
    if all_digits(unsigned_part(s)) && digits_value(unsigned_part(s)) <= usize::MAX {
        Some(digits_value(unsigned_part(s)) as usize)
    } else {
        None
    }
}

/// More digits make no smaller number.
proof fn lemma_digits_value_grows(s: Seq<char>, n: int)
    requires
        0 <= n <= s.len(),
    ensures
        digits_value(s.take(n)) <= digits_value(s),
    decreases s.len(),
{
    if n == s.len() {
        assert(s.take(n) =~= s);
    } else {
        lemma_digits_value_grows(s.drop_last(), n);
        assert(s.drop_last().take(n) =~= s.take(n));
    }
}

/// The number that the characters from `from` up to `to` spell.
pub(crate) fn parse_usize(chars: &Vec<char>, from: usize, to: usize) -> (number: Option<usize>)
    requires
        from <= to <= chars.len(),
    ensures
        number == parsed_usize(chars@.subrange(from as int, to as int)),
{
    let ghost s = chars@.subrange(from as int, to as int);
    let mut start: usize = from;
    if from < to && chars[from] == '+' {
        start = from + 1;
    }
    let ghost digits = chars@.subrange(start as int, to as int);
    proof {
        if start == from {
            assert(digits =~= s);
        } else {
            assert(digits =~= s.skip(1));
        }
    }
    if start == to {
        return None;
    }
    let mut value: usize = 0;
    let mut i: usize = start;
    while i < to
        invariant
            from <= start <= i <= to <= chars.len(),
            start < to,
            s == chars@.subrange(from as int, to as int),
            digits == chars@.subrange(start as int, to as int),
            digits == unsigned_part(s),
            forall|j: int| 0 <= j < i - start ==> is_digit(#[trigger] digits[j]),
            value == digits_value(digits.take(i - start)),
        decreases to - i,
    {
        let c = chars[i];
        let ghost next = digits.take(i + 1 - start);
        proof {
            vstd::utf8::char_u32_cast(c, c as u32);
            assert(digits[i - start] == c);
            assert(next.drop_last() =~= digits.take(i - start));
            assert(next.last() == c);
            lemma_digits_value_grows(digits, i + 1 - start);
        }
        let code: u32 = c as u32;
        if code < 48 || code > 57 {
            assert(!is_digit(digits[i - start]));
            return None;
        }
        let d: usize = (code - 48) as usize;
        match value.checked_mul(10) {
            None => {
                return None;
            },
            Some(tens) => {
                match tens.checked_add(d) {
                    None => {
                        return None;
                    },
                    Some(sum) => {
                        value = sum;
                    },
                }
            },
        }
        i = i + 1;
    }
    proof {
        assert(digits.take(to - start) =~= digits);
    }
    Some(value)
}

/// Rendering a number in decimal gives one or more digits that spell it.
pub proof fn lemma_decimal_digits(n: nat)
    ensures
        decimal(n).len() >= 1,
        forall|i: int| 0 <= i < decimal(n).len() ==> is_digit(#[trigger] decimal(n)[i]),
        digits_value(decimal(n)) == n,
    decreases n,
{
    if n >= 10 {
        lemma_decimal_digits(n / 10);
        assert(decimal(n).drop_last() =~= decimal(n / 10));
    } else {
        assert(decimal(n).drop_last() =~= Seq::<char>::empty());
        assert(digits_value(Seq::<char>::empty()) == 0);
    }
}

/// Zeros in front keep the value.
proof fn lemma_zeros_value(n: nat, s: Seq<char>)
    ensures
        digits_value(zeros(n) + s) == digits_value(s),
    decreases n + s.len(),
{
    if s.len() > 0 {
        assert((zeros(n) + s).drop_last() =~= zeros(n) + s.drop_last());
        lemma_zeros_value(n, s.drop_last());
    } else if n > 0 {
        assert((zeros(n) + s).drop_last() =~= zeros((n - 1) as nat) + s);
        lemma_zeros_value((n - 1) as nat, s);
    } else {
        assert(zeros(n) + s =~= s);
    }
}

/// Parsing a rendered number, padded or not, gives the number back.
pub proof fn law_number_round_trip(n: usize, width: nat)
    ensures
        parsed_usize(decimal(n as nat)) == Some(n),
        parsed_usize(padded_decimal(n as nat, width)) == Some(n),
{
    lemma_decimal_digits(n as nat);
    let digits = decimal(n as nat);
    let padded = padded_decimal(n as nat, width);
    assert(is_digit(digits[0]));
    assert forall|i: int| 0 <= i < padded.len() implies is_digit(#[trigger] padded[i]) by {
        if digits.len() < width {
            let pad = width - digits.len();
            if i >= pad {
                assert(padded[i] == digits[i - pad]);
            }
        }
    }
    assert(is_digit(padded[0]));
    if digits.len() < width {
        lemma_zeros_value((width - digits.len()) as nat, digits);
    }
}

/// What [`String::from_utf8_lossy`] makes of bytes.
pub uninterp spec fn lossy_text(bytes: Seq<u8>) -> Seq<char>;

/// Decodes bytes with [`String::from_utf8_lossy`]: valid UTF-8 as it is. What is not valid is
/// replaced; how, is left to the name of the result.
#[verifier::external_body]
pub(crate) fn lossy(bytes: &[u8]) -> (decoded: String)
    ensures
        decoded@ == lossy_text(bytes@),
        vstd::utf8::valid_utf8(bytes@) ==> decoded@ == vstd::utf8::decode_utf8(bytes@),
{
    String::from_utf8_lossy(bytes).into_owned()
}

/// A number is written in decimal positions: the character at the `i`-th position from the right is
/// the digit of the `i`-th power of ten, there are as many as the number needs, and no more.
pub proof fn law_decimal_is_positional(n: nat, i: int)
    requires
        0 <= i < decimal(n).len(),
    ensures
        decimal(n)[decimal(n).len() - 1 - i] as nat == 48 + (n as int
            / vstd::arithmetic::power::pow(10, i as nat)) % 10,
        (n as int) < vstd::arithmetic::power::pow(10, decimal(n).len()),
        decimal(n).len() > 1 ==> vstd::arithmetic::power::pow(10, (decimal(n).len() - 1) as nat) <= n,
    decreases n,
{
    use_power_facts(i as nat);
    let length = decimal(n).len();
    if n < 10 {
        vstd::arithmetic::power::lemma_pow0(10);
        vstd::arithmetic::power::lemma_pow1(10);
        assert(decimal(n)[0] == digit(n));
        assert(n as int / 1 == n);
    } else {
        let front = decimal(n / 10);
        assert(front.len() >= 1) by {
            lemma_decimal_digits(n / 10);
        }
        law_decimal_is_positional(n / 10, 0);
        use_power_facts(front.len());
        assert(n as int / 10 < vstd::arithmetic::power::pow(10, front.len()));
        assert((n as int) < vstd::arithmetic::power::pow(10, length));
        if front.len() > 1 {
            use_power_facts((front.len() - 1) as nat);
        } else {
            vstd::arithmetic::power::lemma_pow1(10);
        }
        if i > 0 {
            law_decimal_is_positional(n / 10, i - 1);
            assert(decimal(n)[length - 1 - i] == front[front.len() - 1 - (i - 1)]);
            use_power_facts((i - 1) as nat);
            let power = vstd::arithmetic::power::pow(10, (i - 1) as nat);
            vstd::arithmetic::div_mod::lemma_div_denominator(n as int, 10, power);
            assert(vstd::arithmetic::power::pow(10, i as nat) == 10 * power);
            assert((n / 10) as int / power == n as int / (10 * power));
        } else {
            vstd::arithmetic::power::lemma_pow0(10);
            assert(decimal(n)[length - 1] == digit(n % 10));
            assert(n as int / 1 == n);
        }
    }
}

/// Powers of ten are positive, and each is ten times the one before.
proof fn use_power_facts(e: nat)
    ensures
        vstd::arithmetic::power::pow(10, e) > 0,
        vstd::arithmetic::power::pow(10, e + 1) == 10 * vstd::arithmetic::power::pow(10, e),
{
    vstd::arithmetic::power::lemma_pow_positive(10, e);
    vstd::arithmetic::power::lemma_pow_adds(10, 1, e);
    vstd::arithmetic::power::lemma_pow1(10);
}

/// Padding puts zeros in front of a number until it has the width, and leaves longer ones as they
/// are.
pub proof fn law_padding_adds_zeros_in_front(n: nat, width: nat, i: int)
    requires
        0 <= i < padded_decimal(n, width).len(),
    ensures
        padded_decimal(n, width).len() == if width > decimal(n).len() {
            width
        } else {
            decimal(n).len()
        },
        i < width - decimal(n).len() ==> padded_decimal(n, width)[i] == '0',
        padded_decimal(n, width).skip(padded_decimal(n, width).len() - decimal(n).len()) == decimal(
            n,
        ),
{
    assert(padded_decimal(n, width).skip(padded_decimal(n, width).len() - decimal(n).len())
        =~= decimal(n));
}

/// Joining puts the separator between neighbours and nowhere else: nothing is made of nothing, one
/// part is left as it is, and two lists joined together are the joined lists with one separator
/// between them.
pub proof fn law_joining_separates_neighbours(
    one: Seq<char>,
    front: Seq<Seq<char>>,
    back: Seq<Seq<char>>,
    separator: Seq<char>,
)
    requires
        front.len() > 0,
        back.len() > 0,
    ensures
        joined(Seq::empty(), separator) == Seq::<char>::empty(),
        joined(seq![one], separator) == one,
        joined(front + back, separator) == joined(front, separator) + separator + joined(
            back,
            separator,
        ),
    decreases back.len(),
{
    let whole = front + back;
    if back.len() == 1 {
        assert(whole.drop_last() =~= front);
        assert(back =~= seq![back[0]]);
    } else {
        law_joining_separates_neighbours(one, front, back.drop_last(), separator);
        assert(whole.drop_last() =~= front + back.drop_last());
        assert(joined(whole, separator) =~= joined(front, separator) + separator + joined(
            back,
            separator,
        ));
    }
}

/// The views of strings are those of each string, in order.
pub proof fn law_views_keep_the_order(strings: Seq<String>, i: int)
    requires
        0 <= i < strings.len(),
    ensures
        views(strings).len() == strings.len(),
        views(strings)[i] == strings[i]@,
{
}

/// Text stands in another exactly if it is found there from some position on.
pub proof fn law_standing_within_is_being_found(
    before: Seq<char>,
    part: Seq<char>,
    after: Seq<char>,
    whole: Seq<char>,
)
    ensures
        contains(before + part + after, part),
        contains(whole, part) ==> exists|at: int|
            0 <= at && at + part.len() <= whole.len() && #[trigger] whole.subrange(
                at,
                at + part.len(),
            ) == part,
{
    lemma_contains_itself(part);
    lemma_contains_within(before, part, after, part);
}

/// A digit behind a number multiplies it by ten and is added, if the sum can be held; a single
/// digit is its number.
pub proof fn law_parsing_goes_by_digits(s: Seq<char>, c: char, n: usize)
    requires
        48 <= c as nat <= 57,
    ensures
        parsed_usize(seq![c]) == Some((c as nat - 48) as usize),
        parsed_usize(s) == Some(n) ==> parsed_usize(s.push(c)) == if n * 10 + (c as nat
            - 48) <= usize::MAX {
            Some((n * 10 + (c as nat - 48)) as usize)
        } else {
            None::<usize>
        },
        s.len() > 0 && 48 <= s[0] as nat <= 57 ==> parsed_usize(seq!['+'] + s)
            == parsed_usize(s),
        parsed_usize(Seq::empty()) == None::<usize>,
        parsed_usize(seq!['+']) == None::<usize>,
{
    let one = seq![c];
    assert(unsigned_part(one) =~= one);
    assert(one.drop_last() =~= Seq::<char>::empty());
    assert(digits_value(one) == c as nat - 48) by {
        assert(digits_value(Seq::<char>::empty()) == 0);
    }
    assert(is_digit(one[0]));
    if parsed_usize(s) == Some(n) {
        let t = unsigned_part(s);
        let longer = unsigned_part(s.push(c));
        assert(longer =~= t.push(c));
        assert(longer.drop_last() =~= t);
        assert forall|i: int| 0 <= i < longer.len() implies is_digit(#[trigger] longer[i]) by {
            if i < t.len() {
                assert(is_digit(t[i]));
            }
        }
    }
    if s.len() > 0 && 48 <= s[0] as nat <= 57 {
        assert(unsigned_part(seq!['+'] + s) =~= s);
        assert(unsigned_part(s) =~= s);
    }
    assert(unsigned_part(seq!['+']) =~= Seq::<char>::empty());
    assert(unsigned_part(Seq::<char>::empty()) =~= Seq::<char>::empty());
}

/// What spells a number has digits alone, but for a plus sign in front.
pub proof fn law_parsing_takes_digits_only(s: Seq<char>, i: int)
    requires
        parsed_usize(s) is Some,
        0 <= i < s.len(),
    ensures
        48 <= s[i] as nat <= 57 || (i == 0 && s[0] == '+' && s.len() > 1),
{
    let t = unsigned_part(s);
    assert(all_digits(t));
    if s[0] == '+' {
        assert(t =~= s.skip(1));
        if i > 0 {
            assert(is_digit(t[i - 1]));
            assert(t[i - 1] == s[i]);
        } else {
            assert(t.len() == s.len() - 1);
        }
    } else {
        assert(t == s);
        assert(is_digit(t[i]));
        assert(is_digit(s[i]));
    }
}

/// What spells a number still spells one without its last digit, if another is left.
pub proof fn law_parsing_is_prefix_closed(s: Seq<char>, c: char)
    requires
        parsed_usize(s.push(c)) is Some,
        s.len() > 0,
        s != seq!['+'],
    ensures
        parsed_usize(s) is Some,
{
    let longer = unsigned_part(s.push(c));
    let t = unsigned_part(s);
    assert(longer =~= t.push(c));
    assert(t.len() > 0) by {
        if s[0] == '+' && s.len() == 1 {
            assert(s =~= seq!['+']);
        }
    }
    assert forall|i: int| 0 <= i < t.len() implies is_digit(#[trigger] t[i]) by {
        assert(is_digit(longer[i]));
    }
    assert(longer.drop_last() =~= t);
    assert(is_digit(longer.last()));
}

} // verus!
