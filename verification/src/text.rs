//! Text as sequences of characters: the searching, splitting and number forms that the
//! protocols and front ends use.
use vstd::prelude::*;
use vstd::string::*;

verus! {

/// `String::push` adds one character at the end.
pub assume_specification[ String::push ](s: &mut String, c: char)
    ensures
        final(s)@ == old(s)@.push(c),
;

/// What `str::to_lowercase` gives for a text.
pub uninterp spec fn lowercase(text: Seq<char>) -> Seq<char>;

/// Lower-case form of a text, by `str::to_lowercase`.
///
/// Which character becomes which is the Unicode standard's affair and is not stated.
#[verifier::external_body]
pub(crate) fn to_lowercase(text: &str) -> (r: String)
    ensures
        r@ == lowercase(text@),
{
    text.to_lowercase()
}

/// What `String::from_utf8_lossy` gives for bytes that need not be UTF-8.
pub uninterp spec fn lossy_text(bytes: Seq<u8>) -> Seq<char>;

/// Text of bytes, by `String::from_utf8_lossy`: bytes that are UTF-8 are decoded, and what
/// stands for the others is not stated.
#[verifier::external_body]
pub(crate) fn from_utf8_lossy(bytes: &[u8]) -> (r: String)
    ensures
        r@ == lossy_text(bytes@),
        vstd::utf8::valid_utf8(bytes@) ==> r@ == vstd::utf8::decode_utf8(bytes@),
{
    String::from_utf8_lossy(bytes).into_owned()
}

/// How `String::from_utf8` words its refusal of bytes.
pub uninterp spec fn utf8_refusal(bytes: Seq<u8>) -> Seq<char>;

/// Text of bytes, by `String::from_utf8`: refused exactly where the bytes are not UTF-8.
#[verifier::external_body]
pub(crate) fn from_utf8(bytes: Vec<u8>) -> (r: Result<String, String>)
    ensures
        r is Ok <==> vstd::utf8::valid_utf8(bytes@),
        r matches Ok(text) ==> text@ == vstd::utf8::decode_utf8(bytes@),
        r matches Err(reason) ==> reason@ == utf8_refusal(bytes@),
{
    String::from_utf8(bytes).map_err(|e| e.to_string())
}

/// The texts of a list.
pub open spec fn texts(list: Seq<String>) -> Seq<Seq<char>> {
    list.map_values(|s: String| s@)
}

/// The text of an optional string.
pub open spec fn text_of(s: Option<String>) -> Option<Seq<char>> {
    match s {
        Some(t) => Some(t@),
        None => None,
    }
}

/// Some stretch of `text` is `part`.
pub open spec fn occurs(text: Seq<char>, part: Seq<char>) -> bool {
    exists|i: int| occurs_at(text, part, i)
}

/// `part` stands in `text` from position `i` on.
pub open spec fn occurs_at(text: Seq<char>, part: Seq<char>, i: int) -> bool {
    0 <= i && i + part.len() <= text.len() && text.subrange(i, i + part.len()) == part
}

/// The characters of a text.
pub fn chars_of(text: &str) -> (r: Vec<char>)
    ensures
        r@ == text@,
{
    let mut out: Vec<char> = Vec::new();
    for c in it: text.chars()
        invariant
            out@ == text@.take(it.index()),
            it.seq() == text@,
    {
        out.push(c);
    }
    out
}

/// The characters from `from` up to `to`.
pub fn string_between(chars: &[char], from: usize, to: usize) -> (r: String)
    requires
        from <= to <= chars@.len(),
    ensures
        r@ == chars@.subrange(from as int, to as int),
{
    let mut out = String::new();
    let mut i: usize = from;
    while i < to
        invariant
            from <= i <= to <= chars@.len(),
            out@ == chars@.subrange(from as int, i as int),
        decreases to - i,
    {
        out.push(chars[i]);
        i = i + 1;
    }
    out
}

/// Whether two texts are the same.
pub fn same_text(a: &str, b: &str) -> (r: bool)
    ensures
        r == (a@ == b@),
{
    a.to_owned() == b.to_owned()
}

/// Whether `part` stands in `text` from position `i` on.
fn stands_at(text: &[char], part: &[char], i: usize) -> (r: bool)
    ensures
        r == occurs_at(text@, part@, i as int),
{
    if part.len() > text.len() || i > text.len() - part.len() {
        return false;
    }
    let mut j: usize = 0;
    while j < part.len()
        invariant
            j <= part.len(),
            i + part.len() <= text.len(),
            forall|k: int| 0 <= k < j ==> text@[i + k] == part@[k],
        decreases part.len() - j,
    {
        if text[i + j] != part[j] {
            proof {
                let w = text@.subrange(i as int, i + part@.len());
                assert(w[j as int] == text@[i + j]);
            }
            return false;
        }
        j = j + 1;
    }
    assert(text@.subrange(i as int, i + part@.len()) == part@);
    true
}

/// Position of the first place where `part` stands in `text`.
pub fn position_of(text: &[char], part: &[char]) -> (r: Option<usize>)
    ensures
        match r {
            Some(i) => occurs_at(text@, part@, i as int) && forall|j: int|
                0 <= j < i ==> !occurs_at(text@, part@, j),
            None => !occurs(text@, part@),
        },
{
    let mut i: usize = 0;
    while i < text.len()
        invariant
            i <= text.len(),
            forall|j: int| 0 <= j < i ==> !occurs_at(text@, part@, j),
        decreases text.len() - i,
    {
        if stands_at(text, part, i) {
            return Some(i);
        }
        i = i + 1;
    }
    if stands_at(text, part, i) {
        return Some(i);
    }
    None
}

/// Whether `part` occurs in `text`.
pub fn contains(text: &str, part: &str) -> (r: bool)
    ensures
        r == occurs(text@, part@),
{
    let t = chars_of(text);
    let p = chars_of(part);
    match position_of(t.as_slice(), p.as_slice()) {
        Some(i) => {
            assert(occurs_at(text@, part@, i as int));
            true
        },
        None => false,
    }
}

/// The digit for a value below sixteen.
pub open spec fn digit(d: nat) -> char {
    seq!['0', '1', '2', '3', '4', '5', '6', '7', '8', '9', 'A', 'B', 'C', 'D', 'E', 'F'][d as int]
}

/// The decimal form of a number.
pub open spec fn decimal(n: nat) -> Seq<char>
    decreases n,
{
    if n < 10 {
        seq![digit(n)]
    } else {
        decimal(n / 10).push(digit(n % 10))
    }
}

/// The last `width` digits of a number in the given base.
pub open spec fn fixed_width(n: nat, base: nat, width: nat) -> Seq<char>
    decreases width,
{
    if width == 0 {
        seq![]
    } else {
        fixed_width(n / base, base, (width - 1) as nat).push(digit(n % base))
    }
}

fn digit_char(d: u64) -> (c: char)
    requires
        d < 16,
    ensures
        c == digit(d as nat),
{
    let digits: [char; 16] = [
        '0', '1', '2', '3', '4', '5', '6', '7', '8', '9', 'A', 'B', 'C', 'D', 'E', 'F',
    ];
    digits[d as usize]
}

/// Writes a number in decimal.
pub fn decimal_text(n: u64) -> (r: String)
    ensures
        r@ == decimal(n as nat),
{
    wide_decimal_text(n as u128)
}

/// Writes a large number in decimal.
pub fn wide_decimal_text(n: u128) -> (r: String)
    ensures
        r@ == decimal(n as nat),
    decreases n,
{
    let mut out = if n < 10 {
        String::new()
    } else {
        wide_decimal_text(n / 10)
    };
    out.push(digit_char((n % 10) as u64));
    out
}

/// Writes the last `width` digits of a number in the given base.
pub fn fixed_width_text(n: u64, base: u64, width: u32) -> (r: String)
    requires
        2 <= base <= 16,
    ensures
        r@ == fixed_width(n as nat, base as nat, width as nat),
    decreases width,
{
    if width == 0 {
        return String::new();
    }
    let mut out = fixed_width_text(n / base, base, width - 1);
    out.push(digit_char(n % base));
    out
}

/// A decimal digit.
pub open spec fn is_digit(c: char) -> bool {
    '0' <= c && c <= '9'
}

/// The number that a run of decimal digits stands for.
pub open spec fn digits_value(s: Seq<char>) -> nat
    decreases s.len(),
{
    if s.len() == 0 {
        0
    } else {
        10 * digits_value(s.drop_last()) + (s.last() as nat - '0' as nat) as nat
    }
}

/// What follows an optional plus sign.
pub open spec fn after_plus(s: Seq<char>) -> Seq<char> {
    if s.len() > 0 && s[0] == '+' {
        s.skip(1)
    } else {
        s
    }
}

/// The unsigned number up to `max` that a text denotes: digits, after an optional plus sign.
pub open spec fn unsigned_value(s: Seq<char>, max: nat) -> Option<nat> {
    let body = after_plus(s);
    if body.len() > 0 && (forall|i: int| 0 <= i < body.len() ==> is_digit(#[trigger] body[i]))
        && digits_value(body) <= max {
        Some(digits_value(body))
    } else {
        None
    }
}

proof fn lemma_digits_grow(s: Seq<char>, i: int)
    requires
        0 <= i <= s.len(),
    ensures
        digits_value(s.take(i)) <= digits_value(s),
    decreases s.len(),
{
    if i < s.len() {
        assert(s.drop_last().take(i) == s.take(i));
        lemma_digits_grow(s.drop_last(), i);
    } else {
        assert(s.take(i) == s);
    }
}

/// Reads an unsigned number up to `max`.
pub fn parse_unsigned(text: &str, max: u64) -> (r: Option<u64>)
    ensures
        r is Some <==> unsigned_value(text@, max as nat) is Some,
        r matches Some(n) ==> unsigned_value(text@, max as nat) == Some(n as nat),
{
    let chars = chars_of(text);
    let start: usize = if chars.len() > 0 && chars[0] == '+' {
        1
    } else {
        0
    };
    let ghost body = text@.skip(start as int);
    assert(body == after_plus(text@));
    if chars.len() == start {
        return None;
    }
    let mut value: u64 = 0;
    let mut i: usize = start;
    while i < chars.len()
        invariant
            start <= i <= chars.len(),
            chars@ == text@,
            body == text@.skip(start as int),
            body.len() > 0,
            body == after_plus(text@),
            forall|k: int| 0 <= k < i - start ==> is_digit(#[trigger] body[k]),
            value == digits_value(body.take(i - start)),
            value <= max,
        decreases chars.len() - i,
    {
        let c = chars[i];
        assert(c == body[i - start]);
        if c < '0' || c > '9' {
            assert(!is_digit(body[i - start]));
            return None;
        }
        let d: u64 = c as u64 - '0' as u64;
        let wide: u128 = 10 * (value as u128) + d as u128;
        proof {
            let before = body.take(i - start);
            let after = body.take(i - start + 1);
            assert(after.drop_last() == before);
            assert(wide == digits_value(after));
            lemma_digits_grow(body, i - start + 1);
        }
        if wide > max as u128 {
            return None;
        }
        value = wide as u64;
        i = i + 1;
    }
    assert(body.take(body.len() as int) == body);
    Some(value)
}

/// Reading the decimal form of a number gives the number.
pub proof fn law_decimal_round_trip(n: nat, max: nat)
    requires
        n <= max,
    ensures
        unsigned_value(decimal(n), max) == Some(n),
{
    lemma_decimal_digits(n);
    assert(is_digit(decimal(n)[0]));
}

proof fn lemma_decimal_digits(n: nat)
    ensures
        decimal(n).len() > 0,
        digits_value(decimal(n)) == n,
        forall|i: int| 0 <= i < decimal(n).len() ==> is_digit(#[trigger] decimal(n)[i]),
    decreases n,
{
    reveal_with_fuel(digits_value, 2);
    if n < 10 {
        assert(decimal(n).drop_last() == Seq::<char>::empty());
    } else {
        lemma_decimal_digits(n / 10);
        let front = decimal(n / 10);
        assert(decimal(n).drop_last() == front);
        assert forall|i: int| 0 <= i < decimal(n).len() implies is_digit(
            #[trigger] decimal(n)[i],
        ) by {
            if i < front.len() {
                assert(decimal(n)[i] == front[i]);
            }
        }
    }
}

/// A character with the Unicode property White_Space.
pub open spec fn is_space(c: char) -> bool {
    let n = c as u32;
    ||| 9 <= n <= 13
    ||| n == 0x20
    ||| n == 0x85
    ||| n == 0xa0
    ||| n == 0x1680
    ||| 0x2000 <= n <= 0x200a
    ||| n == 0x2028
    ||| n == 0x2029
    ||| n == 0x202f
    ||| n == 0x205f
    ||| n == 0x3000
}

fn space(c: char) -> (r: bool)
    ensures
        r == is_space(c),
{
    let n = c as u32;
    (9 <= n && n <= 13) || n == 0x20 || n == 0x85 || n == 0xa0 || n == 0x1680 || (0x2000 <= n && n
        <= 0x200a) || n == 0x2028 || n == 0x2029 || n == 0x202f || n == 0x205f || n == 0x3000
}

/// The text without white space in front.
pub open spec fn trim_front(s: Seq<char>) -> Seq<char>
    decreases s.len(),
{
    if s.len() > 0 && is_space(s[0]) {
        trim_front(s.skip(1))
    } else {
        s
    }
}

/// The text without white space at its end.
pub open spec fn trim_back(s: Seq<char>) -> Seq<char>
    decreases s.len(),
{
    if s.len() > 0 && is_space(s.last()) {
        trim_back(s.drop_last())
    } else {
        s
    }
}

/// The text without white space around it.
pub open spec fn trimmed(s: Seq<char>) -> Seq<char> {
    trim_back(trim_front(s))
}

/// Removes white space around a text.
pub fn trim(text: &str) -> (r: String)
    ensures
        r@ == trimmed(text@),
{
    let chars = chars_of(text);
    let mut from: usize = 0;
    assert(text@.skip(0) == text@);
    while from < chars.len() && space(chars[from])
        invariant
            from <= chars.len(),
            chars@ == text@,
            trim_front(text@) == trim_front(text@.skip(from as int)),
        decreases chars.len() - from,
    {
        assert(text@.skip(from as int).skip(1) == text@.skip(from + 1));
        from = from + 1;
    }
    let ghost front = text@.skip(from as int);
    assert(trim_front(text@) == front);
    let mut to: usize = chars.len();
    assert(front == text@.subrange(from as int, to as int));
    while to > from && space(chars[to - 1])
        invariant
            from <= to <= chars.len(),
            chars@ == text@,
            trim_back(front) == trim_back(text@.subrange(from as int, to as int)),
        decreases to,
    {
        let ghost s = text@.subrange(from as int, to as int);
        assert(s.drop_last() == text@.subrange(from as int, to - 1));
        to = to - 1;
    }
    assert(trim_back(front) == text@.subrange(from as int, to as int));
    string_between(chars.as_slice(), from, to)
}

/// The pieces of a text between the separators.
pub open spec fn split_on(s: Seq<char>, sep: char) -> Seq<Seq<char>>
    decreases s.len(),
{
    if s.len() == 0 {
        seq![seq![]]
    } else {
        let before = split_on(s.drop_last(), sep);
        if s.last() == sep {
            before.push(seq![])
        } else {
            before.drop_last().push(before.last().push(s.last()))
        }
    }
}

/// Splits a text at every separator.
pub fn split(text: &str, sep: char) -> (r: Vec<String>)
    ensures
        texts(r@) == split_on(text@, sep),
        r@.len() > 0,
{
    let chars = chars_of(text);
    let mut done: Vec<String> = Vec::new();
    let mut piece = String::new();
    let mut i: usize = 0;
    assert(text@.take(0) == Seq::<char>::empty());
    assert(texts(done@).push(piece@) == split_on(text@.take(0), sep));
    while i < chars.len()
        invariant
            i <= chars.len(),
            chars@ == text@,
            texts(done@).push(piece@) == split_on(text@.take(i as int), sep),
        decreases chars.len() - i,
    {
        let c = chars[i];
        let ghost before = split_on(text@.take(i as int), sep);
        assert(text@.take(i + 1).drop_last() == text@.take(i as int));
        assert(before.drop_last() == texts(done@));
        if c == sep {
            done.push(piece);
            piece = String::new();
            assert(texts(done@) == before);
        } else {
            piece.push(c);
        }
        i = i + 1;
    }
    assert(text@.take(text@.len() as int) == text@);
    let ghost list = done@;
    let ghost last = piece@;
    done.push(piece);
    assert(texts(done@) == texts(list).push(last));
    done
}

/// What follows a prefix, where the text starts with it.
pub open spec fn after_prefix(s: Seq<char>, prefix: Seq<char>) -> Option<Seq<char>> {
    if prefix.len() <= s.len() && s.take(prefix.len() as int) == prefix {
        Some(s.skip(prefix.len() as int))
    } else {
        None
    }
}

/// The rest of a text behind a prefix.
pub fn strip_prefix(text: &str, prefix: &str) -> (r: Option<String>)
    ensures
        text_of(r) == after_prefix(text@, prefix@),
{
    let t = chars_of(text);
    let p = chars_of(prefix);
    if stands_at(t.as_slice(), p.as_slice(), 0) {
        assert(text@.subrange(0, prefix@.len() as int) == text@.take(prefix@.len() as int));
        assert(text@.subrange(prefix@.len() as int, text@.len() as int) == text@.skip(
            prefix@.len() as int,
        ));
        Some(string_between(t.as_slice(), p.len(), t.len()))
    } else {
        assert(prefix@.len() <= text@.len() ==> text@.subrange(0, prefix@.len() as int) == text@.take(
            prefix@.len() as int,
        ));
        None
    }
}

/// The text without the given character at its end, however often it stands there.
pub open spec fn without_trailing(s: Seq<char>, c: char) -> Seq<char>
    decreases s.len(),
{
    if s.len() > 0 && s.last() == c {
        without_trailing(s.drop_last(), c)
    } else {
        s
    }
}

/// Removes every occurrence of a character at the end of a text.
pub fn trim_end_matches(text: &str, c: char) -> (r: String)
    ensures
        r@ == without_trailing(text@, c),
{
    let chars = chars_of(text);
    let mut to: usize = chars.len();
    assert(text@.take(to as int) == text@);
    while to > 0 && chars[to - 1] == c
        invariant
            to <= chars@.len(),
            chars@ == text@,
            without_trailing(text@, c) == without_trailing(text@.take(to as int), c),
        decreases to,
    {
        assert(text@.take(to as int).drop_last() == text@.take(to - 1));
        to = to - 1;
    }
    assert(text@.take(to as int) == text@.subrange(0, to as int));
    string_between(chars.as_slice(), 0, to)
}

/// How `{:?}` writes a text.
pub uninterp spec fn quoted(text: Seq<char>) -> Seq<char>;

/// A text in quotes with its special characters escaped, by the `Debug` of `str`. Which
/// characters are escaped, and how, is not stated.
#[verifier::external_body]
pub(crate) fn quoted_text(text: &str) -> (r: String)
    ensures
        r@ == quoted(text@),
{
    format!("{text:?}")
}

/// Two texts, one behind the other.
pub fn joined(a: &str, b: &str) -> (r: String)
    ensures
        r@ == a@ + b@,
{
    let mut out = a.to_owned();
    out.append(b);
    out
}

/// Three texts, one behind the other.
pub fn joined3(a: &str, b: &str, c: &str) -> (r: String)
    ensures
        r@ == a@ + b@ + c@,
{
    let mut out = a.to_owned();
    out.append(b);
    out.append(c);
    out
}

/// Adds a line to a list.
pub fn add_line(lines: &mut Vec<String>, line: String)
    ensures
        texts(final(lines)@) == texts(old(lines)@).push(line@),
{
    let ghost before = lines@;
    lines.push(line);
    assert(texts(lines@) == texts(before).push(line@));
}

/// The texts with a separator between them.
pub open spec fn join_with(parts: Seq<Seq<char>>, sep: char) -> Seq<char>
    decreases parts.len(),
{
    if parts.len() == 0 {
        seq![]
    } else if parts.len() == 1 {
        parts[0]
    } else {
        join_with(parts.drop_last(), sep).push(sep) + parts.last()
    }
}

/// What follows the last separator is a piece of its own.
proof fn lemma_split_last(front: Seq<char>, sep: char, back: Seq<char>)
    requires
        !back.contains(sep),
    ensures
        split_on(front.push(sep) + back, sep) == split_on(front, sep).push(back),
    decreases back.len(),
{
    let all = front.push(sep) + back;
    if back.len() == 0 {
        assert(back == Seq::<char>::empty());
        assert(all == front.push(sep));
        assert(all.drop_last() == front);
    } else {
        let rest = back.drop_last();
        assert(all.drop_last() == front.push(sep) + rest);
        assert(all.last() == back.last());
        assert(back[back.len() - 1] != sep);
        assert forall|i: int| 0 <= i < rest.len() implies rest[i] != sep by {
            assert(rest[i] == back[i]);
        }
        lemma_split_last(front, sep, rest);
        assert(rest.push(back.last()) == back);
        assert(split_on(front, sep).push(rest).drop_last() == split_on(front, sep));
    }
}

/// A text without separators is one piece.
proof fn lemma_split_none(s: Seq<char>, sep: char)
    requires
        !s.contains(sep),
    ensures
        split_on(s, sep) == seq![s],
    decreases s.len(),
{
    if s.len() > 0 {
        let rest = s.drop_last();
        assert(s[s.len() - 1] != sep);
        assert forall|i: int| 0 <= i < rest.len() implies rest[i] != sep by {
            assert(rest[i] == s[i]);
        }
        lemma_split_none(rest, sep);
        assert(rest.push(s.last()) == s);
        assert(seq![rest].drop_last().push(s) == seq![s]);
    } else {
        assert(s == Seq::<char>::empty());
    }
}

/// Splitting undoes joining, where no piece holds the separator.
pub proof fn law_split_undoes_join(parts: Seq<Seq<char>>, sep: char)
    requires
        parts.len() > 0,
        forall|i: int| 0 <= i < parts.len() ==> !(#[trigger] parts[i]).contains(sep),
    ensures
        split_on(join_with(parts, sep), sep) == parts,
    decreases parts.len(),
{
    if parts.len() == 1 {
        lemma_split_none(parts[0], sep);
        assert(parts == seq![parts[0]]);
    } else {
        let front = parts.drop_last();
        assert forall|i: int| 0 <= i < front.len() implies !(#[trigger] front[i]).contains(
            sep,
        ) by {
            assert(front[i] == parts[i]);
        }
        law_split_undoes_join(front, sep);
        assert(!parts[parts.len() - 1].contains(sep));
        lemma_split_last(join_with(front, sep), sep, parts.last());
        assert(front.push(parts.last()) == parts);
    }
}

/// Nothing is trimmed off a text that starts and ends with something else than white space.
pub proof fn lemma_nothing_to_trim(s: Seq<char>)
    requires
        s.len() > 0,
        !is_space(s[0]),
        !is_space(s.last()),
    ensures
        trimmed(s) == s,
{
}

/// A decimal form is made of digits.
pub proof fn lemma_decimal_is_digits(n: nat)
    ensures
        decimal(n).len() > 0,
        forall|i: int| 0 <= i < decimal(n).len() ==> is_digit(#[trigger] decimal(n)[i]),
{
    lemma_decimal_digits(n);
}

/// Nothing but white space.
pub open spec fn all_space(s: Seq<char>) -> bool {
    forall|i: int| 0 <= i < s.len() ==> is_space(#[trigger] s[i])
}

proof fn lemma_trim_front(s: Seq<char>) -> (k: int)
    ensures
        0 <= k <= s.len(),
        all_space(s.take(k)),
        trim_front(s) == s.skip(k),
        k < s.len() ==> !is_space(s[k]),
    decreases s.len(),
{
    if s.len() > 0 && is_space(s[0]) {
        let rest = lemma_trim_front(s.skip(1));
        assert(s.skip(1).skip(rest) == s.skip(rest + 1));
        assert forall|i: int| 0 <= i < rest + 1 implies is_space(
            #[trigger] s.take(rest + 1)[i],
        ) by {
            if i > 0 {
                assert(s.skip(1).take(rest)[i - 1] == s[i]);
            }
        }
        rest + 1
    } else {
        assert(s.skip(0) == s);
        0
    }
}

proof fn lemma_trim_back(s: Seq<char>) -> (k: int)
    ensures
        0 <= k <= s.len(),
        all_space(s.skip(k)),
        trim_back(s) == s.take(k),
        k > 0 ==> !is_space(s[k - 1]),
    decreases s.len(),
{
    if s.len() > 0 && is_space(s.last()) {
        let front = s.drop_last();
        let k = lemma_trim_back(front);
        assert(front.take(k) == s.take(k));
        assert forall|i: int| 0 <= i < s.len() - k implies is_space(#[trigger] s.skip(k)[i]) by {
            if i < s.len() - k - 1 {
                assert(front.skip(k)[i] == s[k + i]);
            }
        }
        k
    } else {
        assert(s.take(s.len() as int) == s);
        s.len() as int
    }
}

/// White space is what the Unicode standard calls so: tab, line feed, vertical tab, form feed and
/// carriage return, the space, and nineteen rarer characters.
pub proof fn law_white_space(c: char)
    ensures
        is_space(c) <==> seq![
            '\t', '\n', '\u{b}', '\u{c}', '\r', ' ', '\u{85}', '\u{a0}', '\u{1680}',
            '\u{2000}', '\u{2001}', '\u{2002}', '\u{2003}', '\u{2004}', '\u{2005}', '\u{2006}',
            '\u{2007}', '\u{2008}', '\u{2009}', '\u{200a}', '\u{2028}', '\u{2029}', '\u{202f}',
            '\u{205f}', '\u{3000}',
        ].contains(c),
{
    let all = seq![
        '\t', '\n', '\u{b}', '\u{c}', '\r', ' ', '\u{85}', '\u{a0}', '\u{1680}', '\u{2000}',
        '\u{2001}', '\u{2002}', '\u{2003}', '\u{2004}', '\u{2005}', '\u{2006}', '\u{2007}',
        '\u{2008}', '\u{2009}', '\u{200a}', '\u{2028}', '\u{2029}', '\u{202f}', '\u{205f}',
        '\u{3000}',
    ];
    let n = c as u32;
    if 9 <= n <= 13 {
        assert(all[n - 9] == c);
    } else if n == 0x20 {
        assert(all[5] == c);
    } else if n == 0x85 {
        assert(all[6] == c);
    } else if n == 0xa0 {
        assert(all[7] == c);
    } else if n == 0x1680 {
        assert(all[8] == c);
    } else if 0x2000 <= n <= 0x200a {
        assert(all[n - 0x2000 + 9] == c);
    } else if n == 0x2028 {
        assert(all[20] == c);
    } else if n == 0x2029 {
        assert(all[21] == c);
    } else if n == 0x202f {
        assert(all[22] == c);
    } else if n == 0x205f {
        assert(all[23] == c);
    } else if n == 0x3000 {
        assert(all[24] == c);
    }
}

/// Trimming takes white space off both ends, and all of it: what was there is white space, the
/// result, and white space, and the result neither starts nor ends with white space. The common
/// kinds are the space and the control characters from tab to carriage return.
pub proof fn law_trim(text: &str, r: String)
    requires
        call_ensures(trim, (text,), r),
    ensures
        exists|before: Seq<char>, after: Seq<char>|
            #![trigger all_space(before), all_space(after)]
            all_space(before) && all_space(after) && text@ == before + r@ + after,
        r@.len() > 0 ==> !is_space(r@[0]) && !is_space(r@.last()),
        is_space(' ') && is_space('\t') && is_space('\n') && is_space('\r'),
        forall|c: char| '!' <= c <= '~' ==> !is_space(c),
{
    let k = lemma_trim_front(text@);
    let front = text@.skip(k);
    let m = lemma_trim_back(front);
    let before = text@.take(k);
    let after = front.skip(m);
    assert(all_space(before) && all_space(after));
    assert(text@ == before + front.take(m) + after);
    if m > 0 {
        assert(front.take(m)[0] == text@[k]);
    }
}

/// Taking a character off the end takes off all of it and nothing else.
pub proof fn law_trim_end(text: &str, c: char, r: String)
    requires
        call_ensures(trim_end_matches, (text, c), r),
    ensures
        r@.len() <= text@.len(),
        text@.take(r@.len() as int) == r@,
        forall|i: int| r@.len() <= i < text@.len() ==> text@[i] == c,
        r@.len() > 0 ==> r@.last() != c,
{
    lemma_without_trailing(text@, c);
}

proof fn lemma_without_trailing(s: Seq<char>, c: char)
    ensures
        ({
            let r = without_trailing(s, c);
            &&& r.len() <= s.len()
            &&& s.take(r.len() as int) == r
            &&& forall|i: int| r.len() <= i < s.len() ==> s[i] == c
            &&& r.len() > 0 ==> r.last() != c
        }),
    decreases s.len(),
{
    if s.len() > 0 && s.last() == c {
        let front = s.drop_last();
        lemma_without_trailing(front, c);
        let r = without_trailing(s, c);
        assert(front.take(r.len() as int) == s.take(r.len() as int));
        assert forall|i: int| r.len() <= i < s.len() implies s[i] == c by {
            if i < s.len() - 1 {
                assert(front[i] == c);
            }
        }
    } else {
        assert(s.take(s.len() as int) == s);
    }
}

/// A prefix is taken off exactly where the text starts with it, and prefix and rest make up the
/// text.
pub proof fn law_prefix(text: &str, prefix: &str, r: Option<String>, rest: Seq<char>)
    requires
        call_ensures(strip_prefix, (text, prefix), r),
    ensures
        r matches Some(s) ==> text@ == prefix@ + s@,
        text@ == prefix@ + rest ==> r is Some && r->0@ == rest,
{
    if r is Some {
        assert(text_of(r) == Some(r->0@));
        assert(text@ == text@.take(prefix@.len() as int) + text@.skip(prefix@.len() as int));
    }
    if text@ == prefix@ + rest {
        assert(text@.take(prefix@.len() as int) == prefix@);
        assert(text@.skip(prefix@.len() as int) == rest);
        assert(after_prefix(text@, prefix@) == Some(rest));
        assert(text_of(r) is Some);
    }
}

/// One text is found in another exactly where it stands between two pieces of it.
pub proof fn law_contains(text: &str, part: &str, r: bool, before: Seq<char>, after: Seq<char>)
    requires
        call_ensures(contains, (text, part), r),
    ensures
        text@ == before + part@ + after ==> r,
        r ==> exists|i: int|
            0 <= i <= text@.len() - part@.len() && text@ == #[trigger] text@.take(i) + part@
                + text@.skip(i + part@.len()),
{
    if text@ == before + part@ + after {
        assert(text@.subrange(before.len() as int, (before.len() + part@.len()) as int) == part@);
        assert(occurs_at(text@, part@, before.len() as int));
    }
    if r {
        let i = choose|i: int| occurs_at(text@, part@, i);
        let rest = text@.skip(i + part@.len());
        assert(text@ == text@.take(i) + text@.subrange(i, i + part@.len()) + rest);
    }
}

/// A number is read with or without a plus sign in front, up to the largest one. What is empty, or
/// a plus sign alone, or holds any other character is no number.
pub proof fn law_unsigned(text: &str, n: nat, max: u64, r: Option<u64>)
    requires
        call_ensures(parse_unsigned, (text, max), r),
    ensures
        text@ == decimal(n) || text@ == seq!['+'] + decimal(n) ==> (r is Some <==> n <= max) && (
        r is Some ==> r->0 == n),
        text@.len() == 0 || text@ == seq!['+'] ==> r is None,
        (exists|i: int|
            0 <= i < text@.len() && !('0' <= #[trigger] text@[i] <= '9') && !(i == 0 && text@[0]
                == '+')) ==> r is None,
{
    lemma_decimal_digits(n);
    let digits = decimal(n);
    assert(is_digit(digits[0]));
    if text@ == seq!['+'] + digits {
        assert(text@.skip(1) == digits);
    }
    if exists|i: int|
        0 <= i < text@.len() && !('0' <= #[trigger] text@[i] <= '9') && !(i == 0 && text@[0] == '+') {
        let i = choose|i: int|
            0 <= i < text@.len() && !('0' <= #[trigger] text@[i] <= '9') && !(i == 0 && text@[0]
                == '+');
        let body = after_plus(text@);
        if text@[0] == '+' {
            assert(body[i - 1] == text@[i]);
        } else {
            assert(body[i] == text@[i]);
        }
    }
}

} // verus!
