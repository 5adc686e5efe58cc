//! Text helpers shared by every module: ordering, trimming, decimal digits.

use vstd::prelude::*;

verus! {

/// Whether a character has the Unicode `White_Space` property: tab to carriage return, the space,
/// the next line, and the spaces and separators of the other blocks.
pub open spec fn whitespace(c: char) -> bool {
    let code = c as u32;
    ||| 0x9 <= code <= 0xD
    ||| code == 0x20
    ||| code == 0x85
    ||| code == 0xA0
    ||| code == 0x1680
    ||| 0x2000 <= code <= 0x200A
    ||| code == 0x2028
    ||| code == 0x2029
    ||| code == 0x202F
    ||| code == 0x205F
    ||| code == 0x3000
}

/// `char::is_whitespace`: whether the character has the Unicode `White_Space` property.
pub assume_specification[ char::is_whitespace ](c: char) -> (result: bool)
    ensures
        result == whitespace(c),
;

/// The characters that `char::to_lowercase` yields for one character.
pub uninterp spec fn lowercase(c: char) -> Seq<char>;

/// The lower case of an ASCII character.
pub open spec fn ascii_lower(c: char) -> char {
    if 'A' <= c <= 'Z' {
        (c as u32 + 32) as char
    } else {
        c
    }
}

/// Collects `char::to_lowercase`, a fixed Unicode mapping of the character, named by
/// [`lowercase`]. An ASCII character maps to the one character that is its ASCII lower case.
#[verifier::external_body]
pub(crate) fn lowercase_chars(c: char) -> (result: Vec<char>)
    ensures
        result@ == lowercase(c),
        (c as u32) < 128 ==> result@ == seq![ascii_lower(c)],
{
    c.to_lowercase().collect()
}

/// `String::push` appends the one character it is given.
pub assume_specification[ String::push ](s: &mut String, c: char)
    ensures
        final(s)@ == old(s)@.push(c),
;

/// `str` equality compares the two texts.
pub assume_specification[ <str as PartialEq>::eq ](a: &str, b: &str) -> (result: bool)
    ensures
        result == (a@ == b@),
;

/// Whether two texts are the same.
pub fn same_text(a: &str, b: &str) -> (result: bool)
    ensures
        result == (a@ == b@),
{
    a.eq(b)
}

/// The text an optional string holds.
pub open spec fn opt_view(value: Option<String>) -> Option<Seq<char>> {
    match value {
        Some(text) => Some(text@),
        None => None,
    }
}

/// The texts of a list of strings.
pub open spec fn texts(items: Seq<String>) -> Seq<Seq<char>> {
    Seq::new(items.len(), |i: int| items[i]@)
}

/// Lexicographic order on texts, by character.
pub open spec fn precedes(a: Seq<char>, b: Seq<char>) -> bool
    decreases a.len(),
{
    if b.len() == 0 {
        false
    } else if a.len() == 0 {
        true
    } else if a[0] != b[0] {
        a[0] < b[0]
    } else {
        precedes(a.drop_first(), b.drop_first())
    }
}

/// The order is irreflexive.
pub proof fn precedes_irreflexive(a: Seq<char>)
    ensures
        !precedes(a, a),
    decreases a.len(),
{
    if a.len() > 0 {
        precedes_irreflexive(a.drop_first());
    }
}

/// The order is transitive.
pub proof fn precedes_transitive(a: Seq<char>, b: Seq<char>, c: Seq<char>)
    requires
        precedes(a, b),
        precedes(b, c),
    ensures
        precedes(a, c),
    decreases a.len(),
{
    if a.len() > 0 && b.len() > 0 && c.len() > 0 && a[0] == b[0] && b[0] == c[0] {
        precedes_transitive(a.drop_first(), b.drop_first(), c.drop_first());
    }
}

/// Two different texts are ordered one way or the other.
pub proof fn precedes_total(a: Seq<char>, b: Seq<char>)
    ensures
        a == b || precedes(a, b) || precedes(b, a),
    decreases a.len(),
{
    if a.len() > 0 && b.len() > 0 && a[0] == b[0] {
        precedes_total(a.drop_first(), b.drop_first());
        if a.drop_first() == b.drop_first() {
            assert(a =~= seq![a[0]] + a.drop_first());
            assert(b =~= seq![b[0]] + b.drop_first());
        }
    } else if a.len() == 0 && b.len() == 0 {
        assert(a =~= b);
    }
}

/// The characters of a text.
pub fn chars_of(s: &str) -> (result: Vec<char>)
    ensures
        result@ == s@,
{
    let mut out: Vec<char> = Vec::new();
    for c in it: s.chars()
        invariant
            it.seq() == s@,
            out@ =~= s@.take(it.index() as int),
    {
        out.push(c);
    }
    out
}

/// The text that a run of characters spells.
pub fn text_from(chars: &[char]) -> (result: String)
    ensures
        result@ == chars@,
{
    let mut out: String = String::new();
    for i in 0..chars.len()
        invariant
            out@ =~= chars@.take(i as int),
    {
        out.push(chars[i]);
    }
    out
}

/// Whether the first text sorts strictly before the second.
pub fn text_precedes(a: &str, b: &str) -> (result: bool)
    ensures
        result == precedes(a@, b@),
{
    let left: Vec<char> = chars_of(a);
    let right: Vec<char> = chars_of(b);
    let mut i: usize = 0;
    proof {
        assert(a@ =~= a@.skip(0));
        assert(b@ =~= b@.skip(0));
    }
    while i < left.len() && i < right.len() && left[i] == right[i]
        invariant
            left@ == a@,
            right@ == b@,
            i <= left.len(),
            i <= right.len(),
            precedes(a@, b@) == precedes(a@.skip(i as int), b@.skip(i as int)),
        decreases left.len() - i,
    {
        proof {
            assert(a@.skip(i as int).drop_first() =~= a@.skip(i + 1));
            assert(b@.skip(i as int).drop_first() =~= b@.skip(i + 1));
        }
        i += 1;
    }
    if i >= right.len() {
        false
    } else if i >= left.len() {
        true
    } else {
        left[i] < right[i]
    }
}

/// Whether every character is white space.
pub open spec fn blank(s: Seq<char>) -> bool {
    forall|i: int| 0 <= i < s.len() ==> whitespace(#[trigger] s[i])
}

/// How many white-space characters the text starts with.
pub open spec fn leading(s: Seq<char>) -> nat
    decreases s.len(),
{
    if s.len() == 0 || !whitespace(s[0]) {
        0
    } else {
        1 + leading(s.drop_first())
    }
}

/// How many white-space characters the text ends with.
pub open spec fn trailing(s: Seq<char>) -> nat
    decreases s.len(),
{
    if s.len() == 0 || !whitespace(s.last()) {
        0
    } else {
        1 + trailing(s.drop_last())
    }
}

/// The text without its leading and trailing white space.
pub open spec fn trimmed(s: Seq<char>) -> Seq<char> {
    let rest = s.skip(leading(s) as int);
    rest.take(rest.len() - trailing(rest))
}

/// The text without its leading white space never has more characters than it began with.
proof fn leading_bound(s: Seq<char>)
    ensures
        leading(s) <= s.len(),
    decreases s.len(),
{
    if s.len() > 0 {
        leading_bound(s.drop_first());
    }
}

/// Removing trailing white space never removes more than there is.
proof fn trailing_bound(s: Seq<char>)
    ensures
        trailing(s) <= s.len(),
    decreases s.len(),
{
    if s.len() > 0 {
        trailing_bound(s.drop_last());
    }
}

/// A text trims to nothing exactly when it is blank.
pub proof fn trimmed_empty_iff_blank(s: Seq<char>)
    ensures
        trimmed(s).len() == 0 <==> blank(s),
    decreases s.len(),
{
    leading_bound(s);
    if s.len() == 0 {
    } else if whitespace(s[0]) {
        let t = s.drop_first();
        trimmed_empty_iff_blank(t);
        assert(s.skip(leading(s) as int) =~= t.skip(leading(t) as int));
        assert(forall|i: int| 0 <= i < t.len() ==> #[trigger] t[i] == s[i + 1]);
        if blank(t) {
            assert forall|i: int| 0 <= i < s.len() implies whitespace(#[trigger] s[i]) by {
                if i > 0 {
                    assert(t[i - 1] == s[i]);
                }
            }
        }
        if blank(s) {
            assert forall|i: int| 0 <= i < t.len() implies whitespace(#[trigger] t[i]) by {
                assert(t[i] == s[i + 1]);
            }
        }
    } else {
        assert(s.skip(0) =~= s);
        trailing_keeps_head(s);
        assert(!whitespace(s[0]));
    }
}

/// Text that starts with a visible character keeps it when the tail is trimmed.
proof fn trailing_keeps_head(s: Seq<char>)
    requires
        s.len() > 0,
        !whitespace(s[0]),
    ensures
        trailing(s) < s.len(),
    decreases s.len(),
{
    if s.len() > 1 {
        trailing_keeps_head(s.drop_last());
    }
}

/// Whether the text is empty or only white space.
pub fn is_blank(s: &str) -> (result: bool)
    ensures
        result == blank(s@),
{
    let chars: Vec<char> = chars_of(s);
    for i in 0..chars.len()
        invariant
            chars@ == s@,
            forall|j: int| 0 <= j < i ==> whitespace(#[trigger] s@[j]),
    {
        if !chars[i].is_whitespace() {
            assert(!whitespace(s@[i as int]));
            return false;
        }
    }
    true
}

/// The text without its leading and trailing white space.
pub fn trim(s: &str) -> (result: String)
    ensures
        result@ == trimmed(s@),
{
    let chars: Vec<char> = chars_of(s);
    let mut start: usize = 0;
    proof {
        assert(s@.skip(0) =~= s@);
        leading_bound(s@);
    }
    while start < chars.len() && chars[start].is_whitespace()
        invariant
            chars@ == s@,
            start <= chars.len(),
            leading(s@) == start + leading(s@.skip(start as int)),
        decreases chars.len() - start,
    {
        proof {
            assert(s@.skip(start as int).drop_first() =~= s@.skip(start + 1));
        }
        start += 1;
    }
    let ghost rest = s@.skip(start as int);
    let mut end: usize = chars.len();
    proof {
        assert(rest.take(rest.len() as int) =~= rest);
        trailing_bound(rest);
    }
    while end > start && chars[end - 1].is_whitespace()
        invariant
            chars@ == s@,
            rest == s@.skip(start as int),
            start <= end <= chars.len(),
            trailing(rest) == (chars.len() - end) + trailing(rest.take(end - start)),
        decreases end - start,
    {
        proof {
            let part = rest.take(end - start);
            assert(part.last() == s@[end - 1]);
            assert(part.drop_last() =~= rest.take(end - start - 1));
        }
        end -= 1;
    }
    let mut out: String = String::new();
    let mut i: usize = start;
    while i < end
        invariant
            chars@ == s@,
            start <= i <= end <= chars.len(),
            out@ =~= s@.subrange(start as int, i as int),
        decreases end - i,
    {
        out.push(chars[i]);
        i += 1;
    }
    proof {
        assert(out@ =~= rest.take(end - start));
    }
    out
}

/// The decimal digits of a number.
pub open spec fn decimal(n: nat) -> Seq<char>
    decreases n,
{
    if n < 10 {
        seq![digit(n)]
    } else {
        decimal(n / 10).push(digit(n % 10))
    }
}

/// The digit that stands for a value below ten.
pub open spec fn digit(n: nat) -> char {
    ('0' as u32 + n) as char
}

/// The digit character of a value below ten.
fn digit_char(n: u64) -> (result: char)
    requires
        n < 10,
    ensures
        result == digit(n as nat),
{
    let byte: u8 = 48u8 + (n as u8);
    byte as char
}

/// A number in decimal.
pub fn decimal_text(n: u64) -> (result: String)
    ensures
        result@ == decimal(n as nat),
    decreases n,
{
    if n < 10 {
        let mut out: String = String::new();
        out.push(digit_char(n));
        proof {
            assert(out@ =~= seq![digit(n as nat)]);
        }
        out
    } else {
        let mut out: String = decimal_text(n / 10);
        out.push(digit_char(n % 10));
        out
    }
}

/// The value that a run of decimal digits spells.
pub open spec fn decimal_value(s: Seq<char>) -> nat
    decreases s.len(),
{
    if s.len() == 0 {
        0
    } else {
        10 * decimal_value(s.drop_last()) + (s.last() as u32 - '0' as u32) as nat
    }
}

/// Decimal digits spell the number they were written from.
pub proof fn decimal_reads_back(n: nat)
    ensures
        decimal_value(decimal(n)) == n,
        decimal(n).len() > 0,
        forall|i: int| 0 <= i < decimal(n).len() ==> '0' <= #[trigger] decimal(n)[i] <= '9',
    decreases n,
{
    if n < 10 {
        let one = seq![digit(n)];
        assert(one.drop_last() =~= Seq::<char>::empty());
        assert(decimal_value(one.drop_last()) == 0);
        assert(one.last() == digit(n));
    } else {
        decimal_reads_back(n / 10);
        assert(decimal(n).drop_last() =~= decimal(n / 10));
        assert(decimal(n).last() == digit(n % 10));
    }
}

/// Two texts joined.
pub fn joined(a: &str, b: &str) -> (result: String)
    ensures
        result@ == a@ + b@,
{
    let mut out: String = a.to_owned();
    out.append(b);
    out
}

/// Three texts joined.
pub fn joined3(a: &str, b: &str, c: &str) -> (result: String)
    ensures
        result@ == a@ + b@ + c@,
{
    let mut out: String = joined(a, b);
    out.append(c);
    out
}

/// An optional string of the same text.
pub fn copy_opt(value: &Option<String>) -> (result: Option<String>)
    ensures
        result == *value,
{
    match value {
        Some(text) => Some(text.clone()),
        None => None,
    }
}

/// Whether a list of strings holds a text.
pub fn list_holds(items: &Vec<String>, wanted: &str) -> (result: bool)
    ensures
        result == texts(items@).contains(wanted@),
{
    for i in 0..items.len()
        invariant
            forall|j: int| 0 <= j < i ==> #[trigger] items@[j]@ != wanted@,
    {
        if same_text(items[i].as_str(), wanted) {
            assert(texts(items@)[i as int] == wanted@);
            return true;
        }
    }
    proof {
        assert forall|j: int| 0 <= j < texts(items@).len() implies texts(items@)[j] != wanted@ by {
            assert(items@[j]@ != wanted@);
        }
    }
    false
}

// What texts promise.

/// A text is what is left of it when trimmed, with white space alone on both sides; what is left
/// neither begins nor ends with white space.
pub proof fn trimming_takes_white_space_alone(s: Seq<char>)
    ensures
        exists|front: Seq<char>, back: Seq<char>|
            #![trigger front + trimmed(s) + back]
            s == front + trimmed(s) + back && blank(front) && blank(back),
        trimmed(s).len() > 0 ==> !whitespace(trimmed(s)[0]) && !whitespace(
            trimmed(s)[trimmed(s).len() - 1],
        ),
{
    leading_bound(s);
    leading_is_blank(s);
    let front = s.take(leading(s) as int);
    let rest = s.skip(leading(s) as int);
    trailing_bound(rest);
    trailing_is_blank(rest);
    let back = rest.skip(rest.len() - trailing(rest));
    assert(s =~= front + trimmed(s) + back);
    if trimmed(s).len() > 0 {
        assert(trimmed(s)[0] == rest[0]);
    }
}

/// What leads a text is white space, and what follows it does not begin with any.
proof fn leading_is_blank(s: Seq<char>)
    ensures
        leading(s) <= s.len(),
        blank(s.take(leading(s) as int)),
        leading(s) < s.len() ==> !whitespace(s[leading(s) as int]),
    decreases s.len(),
{
    if s.len() > 0 && whitespace(s[0]) {
        let rest = s.drop_first();
        leading_is_blank(rest);
        let front = s.take(leading(s) as int);
        assert forall|i: int| 0 <= i < front.len() implies whitespace(#[trigger] front[i]) by {
            if i > 0 {
                assert(rest.take(leading(rest) as int)[i - 1] == front[i]);
            }
        }
        if leading(s) < s.len() {
            assert(rest[leading(rest) as int] == s[leading(s) as int]);
        }
    }
}

/// What trails a text is white space, and what stands before it does not end with any.
proof fn trailing_is_blank(s: Seq<char>)
    ensures
        trailing(s) <= s.len(),
        blank(s.skip(s.len() - trailing(s))),
        trailing(s) < s.len() ==> !whitespace(s[s.len() - trailing(s) - 1]),
    decreases s.len(),
{
    if s.len() > 0 && whitespace(s.last()) {
        let rest = s.drop_last();
        trailing_is_blank(rest);
        let back = s.skip(s.len() - trailing(s));
        assert forall|i: int| 0 <= i < back.len() implies whitespace(#[trigger] back[i]) by {
            if i < back.len() - 1 {
                assert(rest.skip(rest.len() - trailing(rest))[i] == back[i]);
            }
        }
    }
}

/// A number is written digit by digit, the highest first and none of them superfluous.
pub proof fn numbers_are_written_in_digits(n: nat)
    ensures
        n < 10 ==> decimal(n) == seq!["0123456789"@[n as int]],
        n >= 10 ==> decimal(n) == decimal(n / 10) + decimal(n % 10),
{
    reveal_strlit("0123456789");
    assert("0123456789"@[0] == '0');
    assert("0123456789"@[1] == '1');
    assert("0123456789"@[2] == '2');
    assert("0123456789"@[3] == '3');
    assert("0123456789"@[4] == '4');
    assert("0123456789"@[5] == '5');
    assert("0123456789"@[6] == '6');
    assert("0123456789"@[7] == '7');
    assert("0123456789"@[8] == '8');
    assert("0123456789"@[9] == '9');
    if n >= 10 {
        assert(decimal(n % 10) == seq![digit(n % 10)]);
        assert(decimal(n) =~= decimal(n / 10) + decimal(n % 10));
    }
}

/// One text precedes another where they first differ by a lower character, or where it is the
/// beginning of the other and shorter.
pub proof fn texts_precede_at_their_first_difference(a: Seq<char>, b: Seq<char>)
    ensures
        precedes(a, b) <==> exists|k: int| #[trigger] differs_at(a, b, k),
    decreases a.len(),
{
    if a.len() > 0 && b.len() > 0 && a[0] == b[0] {
        let x = a.drop_first();
        let y = b.drop_first();
        texts_precede_at_their_first_difference(x, y);
        if precedes(x, y) {
            let k = choose|k: int| #[trigger] differs_at(x, y, k);
            assert forall|i: int| 0 <= i < k + 1 implies #[trigger] a[i] == b[i] by {
                if i > 0 {
                    assert(x[i - 1] == a[i]);
                    assert(y[i - 1] == b[i]);
                }
            }
            assert(differs_at(a, b, k + 1));
        }
        if exists|k: int| #[trigger] differs_at(a, b, k) {
            let k = choose|k: int| #[trigger] differs_at(a, b, k);
            assert(k > 0);
            assert forall|i: int| 0 <= i < k - 1 implies #[trigger] x[i] == y[i] by {
                assert(x[i] == a[i + 1]);
                assert(y[i] == b[i + 1]);
            }
            assert(differs_at(x, y, k - 1));
        }
    } else if precedes(a, b) {
        assert(differs_at(a, b, 0));
    }
}

/// Whether two texts agree up to a place where the first ends or has the lower character.
pub open spec fn differs_at(a: Seq<char>, b: Seq<char>, k: int) -> bool {
    &&& 0 <= k <= a.len()
    &&& k < b.len()
    &&& forall|i: int| 0 <= i < k ==> #[trigger] a[i] == b[i]
    &&& k < a.len() ==> a[k] < b[k]
}

/// Texts are compared, cut, joined and looked for as they are.
pub proof fn text_functions_do_what_they_say(
    a: &str,
    b: &str,
    same: bool,
    before: bool,
    empty: bool,
    cut: String,
    both: String,
    list: Vec<String>,
    held: bool,
)
    requires
        call_ensures(same_text, (a, b), same),
        call_ensures(text_precedes, (a, b), before),
        call_ensures(is_blank, (a,), empty),
        call_ensures(trim, (a,), cut),
        call_ensures(joined, (a, b), both),
        call_ensures(list_holds, (&list, a), held),
    ensures
        same <==> a@ == b@,
        before <==> precedes(a@, b@),
        empty <==> forall|i: int| 0 <= i < a@.len() ==> whitespace(#[trigger] a@[i]),
        cut@ == trimmed(a@),
        both@ == a@ + b@,
        held <==> exists|i: int| 0 <= i < list@.len() && (#[trigger] list@[i])@ == a@,
{
    let all = texts(list@);
    if held {
        let i = choose|i: int| 0 <= i < all.len() && all[i] == a@;
        assert(list@[i]@ == a@);
    }
    if exists|i: int| 0 <= i < list@.len() && (#[trigger] list@[i])@ == a@ {
        let i = choose|i: int| 0 <= i < list@.len() && (#[trigger] list@[i])@ == a@;
        assert(all[i] == a@);
    }
}

// What lowering does.

/// A capital letter of the alphabet is lowered to its small form, and any other character of the
/// plain range stays as it is.
pub proof fn letters_are_lowered_to_their_small_form(i: int, c: char)
    ensures
        0 <= i < 26 ==> ascii_lower("ABCDEFGHIJKLMNOPQRSTUVWXYZ"@[i]) == "abcdefghijklmnopqrstuvwxyz"@[i],
        !('A' <= c <= 'Z') ==> ascii_lower(c) == c,
{
    reveal_strlit("ABCDEFGHIJKLMNOPQRSTUVWXYZ");
    reveal_strlit("abcdefghijklmnopqrstuvwxyz");
    assert("ABCDEFGHIJKLMNOPQRSTUVWXYZ"@[0] == 'A' && "abcdefghijklmnopqrstuvwxyz"@[0] == 'a');
    assert("ABCDEFGHIJKLMNOPQRSTUVWXYZ"@[1] == 'B' && "abcdefghijklmnopqrstuvwxyz"@[1] == 'b');
    assert("ABCDEFGHIJKLMNOPQRSTUVWXYZ"@[2] == 'C' && "abcdefghijklmnopqrstuvwxyz"@[2] == 'c');
    assert("ABCDEFGHIJKLMNOPQRSTUVWXYZ"@[3] == 'D' && "abcdefghijklmnopqrstuvwxyz"@[3] == 'd');
    assert("ABCDEFGHIJKLMNOPQRSTUVWXYZ"@[4] == 'E' && "abcdefghijklmnopqrstuvwxyz"@[4] == 'e');
    assert("ABCDEFGHIJKLMNOPQRSTUVWXYZ"@[5] == 'F' && "abcdefghijklmnopqrstuvwxyz"@[5] == 'f');
    assert("ABCDEFGHIJKLMNOPQRSTUVWXYZ"@[6] == 'G' && "abcdefghijklmnopqrstuvwxyz"@[6] == 'g');
    assert("ABCDEFGHIJKLMNOPQRSTUVWXYZ"@[7] == 'H' && "abcdefghijklmnopqrstuvwxyz"@[7] == 'h');
    assert("ABCDEFGHIJKLMNOPQRSTUVWXYZ"@[8] == 'I' && "abcdefghijklmnopqrstuvwxyz"@[8] == 'i');
    assert("ABCDEFGHIJKLMNOPQRSTUVWXYZ"@[9] == 'J' && "abcdefghijklmnopqrstuvwxyz"@[9] == 'j');
    assert("ABCDEFGHIJKLMNOPQRSTUVWXYZ"@[10] == 'K' && "abcdefghijklmnopqrstuvwxyz"@[10] == 'k');
    assert("ABCDEFGHIJKLMNOPQRSTUVWXYZ"@[11] == 'L' && "abcdefghijklmnopqrstuvwxyz"@[11] == 'l');
    assert("ABCDEFGHIJKLMNOPQRSTUVWXYZ"@[12] == 'M' && "abcdefghijklmnopqrstuvwxyz"@[12] == 'm');
    assert("ABCDEFGHIJKLMNOPQRSTUVWXYZ"@[13] == 'N' && "abcdefghijklmnopqrstuvwxyz"@[13] == 'n');
    assert("ABCDEFGHIJKLMNOPQRSTUVWXYZ"@[14] == 'O' && "abcdefghijklmnopqrstuvwxyz"@[14] == 'o');
    assert("ABCDEFGHIJKLMNOPQRSTUVWXYZ"@[15] == 'P' && "abcdefghijklmnopqrstuvwxyz"@[15] == 'p');
    assert("ABCDEFGHIJKLMNOPQRSTUVWXYZ"@[16] == 'Q' && "abcdefghijklmnopqrstuvwxyz"@[16] == 'q');
    assert("ABCDEFGHIJKLMNOPQRSTUVWXYZ"@[17] == 'R' && "abcdefghijklmnopqrstuvwxyz"@[17] == 'r');
    assert("ABCDEFGHIJKLMNOPQRSTUVWXYZ"@[18] == 'S' && "abcdefghijklmnopqrstuvwxyz"@[18] == 's');
    assert("ABCDEFGHIJKLMNOPQRSTUVWXYZ"@[19] == 'T' && "abcdefghijklmnopqrstuvwxyz"@[19] == 't');
    assert("ABCDEFGHIJKLMNOPQRSTUVWXYZ"@[20] == 'U' && "abcdefghijklmnopqrstuvwxyz"@[20] == 'u');
    assert("ABCDEFGHIJKLMNOPQRSTUVWXYZ"@[21] == 'V' && "abcdefghijklmnopqrstuvwxyz"@[21] == 'v');
    assert("ABCDEFGHIJKLMNOPQRSTUVWXYZ"@[22] == 'W' && "abcdefghijklmnopqrstuvwxyz"@[22] == 'w');
    assert("ABCDEFGHIJKLMNOPQRSTUVWXYZ"@[23] == 'X' && "abcdefghijklmnopqrstuvwxyz"@[23] == 'x');
    assert("ABCDEFGHIJKLMNOPQRSTUVWXYZ"@[24] == 'Y' && "abcdefghijklmnopqrstuvwxyz"@[24] == 'y');
    assert("ABCDEFGHIJKLMNOPQRSTUVWXYZ"@[25] == 'Z' && "abcdefghijklmnopqrstuvwxyz"@[25] == 'z');
}

} // verus!
