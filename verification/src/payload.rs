//! The wire form of a reading.
//!
//! A reading travels as a short line of ASCII text: five `key=value` fields
//! separated by semicolons, in a fixed order. Quantities held in tenths are
//! written as a decimal number with exactly one digit after the point:
//!
//! ```text
//! freq=60.0;soc=95.0;import=0.0;export=0.5;variance=1
//! ```
//!
//! Receivers treat the payload as opaque bytes; this module only writes it.

use crate::node_ops::GridStats;
use vstd::prelude::*;
use vstd::string::*;
use vstd::utf8::is_ascii_chars;

verus! {

/// The character that writes the decimal digit `d`.
pub open spec fn digit_char(d: int) -> char {
    if d == 0 {
        '0'
    } else if d == 1 {
        '1'
    } else if d == 2 {
        '2'
    } else if d == 3 {
        '3'
    } else if d == 4 {
        '4'
    } else if d == 5 {
        '5'
    } else if d == 6 {
        '6'
    } else if d == 7 {
        '7'
    } else if d == 8 {
        '8'
    } else {
        '9'
    }
}

/// The decimal numeral of `n`, without leading zeros.
pub open spec fn digits(n: nat) -> Seq<char>
    decreases n,
{
    if n < 10 {
        seq![digit_char(n as int)]
    } else {
        digits(n / 10).push(digit_char((n % 10) as int))
    }
}

/// The minus sign in front of a negative number, and nothing otherwise.
pub open spec fn sign(v: int) -> Seq<char> {
    if v < 0 {
        seq!['-']
    } else {
        Seq::empty()
    }
}

/// The absolute value of `v`.
pub open spec fn magnitude(v: int) -> nat {
    if v < 0 {
        (-v) as nat
    } else {
        v as nat
    }
}

/// A whole number in decimal.
pub open spec fn whole(v: int) -> Seq<char> {
    sign(v) + digits(magnitude(v))
}

/// A quantity of `v` tenths in decimal, with one digit after the point.
pub open spec fn tenths(v: int) -> Seq<char> {
    sign(v) + digits(magnitude(v) / 10).push('.').push(digit_char((magnitude(v) % 10) as int))
}

/// The line of text that stands for a reading.
pub open spec fn text_of(stats: GridStats) -> Seq<char> {
    "freq="@ + tenths(stats.frequency as int) + ";soc="@ + tenths(stats.soc as int) + ";import="@
        + tenths(stats.import as int) + ";export="@ + tenths(stats.export as int) + ";variance="@
        + whole(stats.variance as int)
}

/// The bytes of a text of ASCII characters: one byte for each character.
pub open spec fn ascii_bytes(text: Seq<char>) -> Seq<u8> {
    Seq::new(text.len(), |i: int| text[i] as u8)
}

/// The payload that carries a reading.
pub open spec fn payload_of(stats: GridStats) -> Seq<u8> {
    ascii_bytes(text_of(stats))
}

/// The text of one decimal digit.
fn digit_text(d: u32) -> (text: &'static str)
    requires
        d < 10,
    ensures
        text@ == seq![digit_char(d as int)],
{
    proof {
        reveal_strlit("0");
        reveal_strlit("1");
        reveal_strlit("2");
        reveal_strlit("3");
        reveal_strlit("4");
        reveal_strlit("5");
        reveal_strlit("6");
        reveal_strlit("7");
        reveal_strlit("8");
        reveal_strlit("9");
    }
    let text = if d == 0 {
        "0"
    } else if d == 1 {
        "1"
    } else if d == 2 {
        "2"
    } else if d == 3 {
        "3"
    } else if d == 4 {
        "4"
    } else if d == 5 {
        "5"
    } else if d == 6 {
        "6"
    } else if d == 7 {
        "7"
    } else if d == 8 {
        "8"
    } else {
        "9"
    };
    assert(text@ =~= seq![digit_char(d as int)]);
    text
}

/// Appends the decimal numeral of `n`.
fn append_digits(out: &mut String, n: u32)
    ensures
        final(out)@ == old(out)@ + digits(n as nat),
    decreases n,
{
    if n >= 10 {
        append_digits(out, n / 10);
    }
    out.append(digit_text(n % 10));
    assert(out@ =~= old(out)@ + digits(n as nat));
}

/// The absolute value of `v`, which fits the unsigned type also where `v` is
/// the least value of its type.
fn magnitude_of(v: i32) -> (size: u32)
    ensures
        size == magnitude(v as int),
{
    if v < 0 {
        (-(v as i64)) as u32
    } else {
        v as u32
    }
}

/// Appends a minus sign if `v` is negative.
fn append_sign(out: &mut String, v: i32)
    ensures
        final(out)@ == old(out)@ + sign(v as int),
{
    if v < 0 {
        proof {
            reveal_strlit("-");
        }
        out.append("-");
    }
    assert(out@ =~= old(out)@ + sign(v as int));
}

/// Appends a whole number in decimal.
pub fn append_whole(out: &mut String, v: i32)
    ensures
        final(out)@ == old(out)@ + whole(v as int),
{
    append_sign(out, v);
    append_digits(out, magnitude_of(v));
    assert(out@ =~= old(out)@ + whole(v as int));
}

/// Appends a quantity of `v` tenths in decimal, with one digit after the point.
pub fn append_tenths(out: &mut String, v: i32)
    ensures
        final(out)@ == old(out)@ + tenths(v as int),
{
    let size: u32 = magnitude_of(v);
    append_sign(out, v);
    append_digits(out, size / 10);
    proof {
        reveal_strlit(".");
    }
    out.append(".");
    out.append(digit_text(size % 10));
    assert(out@ =~= old(out)@ + tenths(v as int));
}

/// Writes a reading as a line of text.
pub fn render(stats: &GridStats) -> (text: String)
    ensures
        text@ == text_of(*stats),
{
    let mut text = String::new();
    text.append("freq=");
    append_tenths(&mut text, stats.frequency);
    text.append(";soc=");
    append_tenths(&mut text, stats.soc);
    text.append(";import=");
    append_tenths(&mut text, stats.import);
    text.append(";export=");
    append_tenths(&mut text, stats.export);
    text.append(";variance=");
    append_whole(&mut text, stats.variance as i32);
    assert(text@ =~= text_of(*stats));
    text
}

/// The payload that carries a reading: the bytes of its text.
pub fn encode(stats: &GridStats) -> (payload: Vec<u8>)
    ensures
        payload@ == payload_of(*stats),
{
    let text = render(stats);
    let line = text.as_str();
    proof {
        lemma_text_is_ascii(*stats);
        is_ascii_spec_bytes(line);
    }
    let payload = line.as_bytes_vec();
    assert(payload@ =~= payload_of(*stats));
    payload
}

/// Joining two texts of ASCII characters gives a text of ASCII characters.
proof fn lemma_ascii_join(left: Seq<char>, right: Seq<char>)
    requires
        is_ascii_chars(left),
        is_ascii_chars(right),
    ensures
        is_ascii_chars(left + right),
{
    assert forall|i: int| 0 <= i < (left + right).len() implies '\0' <= #[trigger] (left
        + right)[i] <= '\u{7f}' by {
        if i < left.len() {
            assert((left + right)[i] == left[i]);
        } else {
            assert((left + right)[i] == right[i - left.len()]);
        }
    }
}

/// A numeral holds ASCII characters only.
proof fn lemma_digits_ascii(n: nat)
    ensures
        is_ascii_chars(digits(n)),
    decreases n,
{
    if n >= 10 {
        lemma_digits_ascii(n / 10);
        lemma_ascii_join(digits(n / 10), seq![digit_char((n % 10) as int)]);
        assert(digits(n) =~= digits(n / 10) + seq![digit_char((n % 10) as int)]);
    }
}

/// A whole number in decimal holds ASCII characters only.
proof fn lemma_whole_ascii(v: int)
    ensures
        is_ascii_chars(whole(v)),
{
    lemma_digits_ascii(magnitude(v));
    lemma_ascii_join(sign(v), digits(magnitude(v)));
}

/// A quantity written in tenths holds ASCII characters only.
proof fn lemma_tenths_ascii(v: int)
    ensures
        is_ascii_chars(tenths(v)),
{
    let size = magnitude(v);
    let tail = seq!['.', digit_char((size % 10) as int)];
    lemma_digits_ascii(size / 10);
    lemma_ascii_join(digits(size / 10), tail);
    lemma_ascii_join(sign(v), digits(size / 10) + tail);
    assert(tenths(v) =~= sign(v) + (digits(size / 10) + tail));
}

/// The text of a reading holds ASCII characters only, so that its payload has
/// one byte for each character.
pub proof fn lemma_text_is_ascii(stats: GridStats)
    ensures
        is_ascii_chars(text_of(stats)),
        payload_of(stats).len() == text_of(stats).len(),
{
    reveal_strlit("freq=");
    reveal_strlit(";soc=");
    reveal_strlit(";import=");
    reveal_strlit(";export=");
    reveal_strlit(";variance=");
    lemma_tenths_ascii(stats.frequency as int);
    lemma_tenths_ascii(stats.soc as int);
    lemma_tenths_ascii(stats.import as int);
    lemma_tenths_ascii(stats.export as int);
    lemma_whole_ascii(stats.variance as int);
    let t1 = "freq="@ + tenths(stats.frequency as int);
    lemma_ascii_join("freq="@, tenths(stats.frequency as int));
    let t2 = t1 + ";soc="@;
    lemma_ascii_join(t1, ";soc="@);
    let t3 = t2 + tenths(stats.soc as int);
    lemma_ascii_join(t2, tenths(stats.soc as int));
    let t4 = t3 + ";import="@;
    lemma_ascii_join(t3, ";import="@);
    let t5 = t4 + tenths(stats.import as int);
    lemma_ascii_join(t4, tenths(stats.import as int));
    let t6 = t5 + ";export="@;
    lemma_ascii_join(t5, ";export="@);
    let t7 = t6 + tenths(stats.export as int);
    lemma_ascii_join(t6, tenths(stats.export as int));
    let t8 = t7 + ";variance="@;
    lemma_ascii_join(t7, ";variance="@);
    lemma_ascii_join(t8, whole(stats.variance as int));
}

/// A text of ASCII characters can be read back from its bytes.
proof fn lemma_ascii_bytes_determine_text(left: Seq<char>, right: Seq<char>)
    requires
        is_ascii_chars(left),
        is_ascii_chars(right),
        ascii_bytes(left) == ascii_bytes(right),
    ensures
        left == right,
{
    assert(left.len() == ascii_bytes(left).len());
    assert(right.len() == ascii_bytes(right).len());
    assert forall|i: int| 0 <= i < left.len() implies left[i] == right[i] by {
        assert(ascii_bytes(left)[i] == left[i] as u8);
        assert(ascii_bytes(right)[i] == right[i] as u8);
    }
    assert(left =~= right);
}

/// Whether `c` is a decimal digit.
spec fn is_digit(c: char) -> bool {
    '0' <= c <= '9'
}

/// A numeral is made of digits, at least one, and at least two from ten on.
proof fn lemma_digits_shape(n: nat)
    ensures
        digits(n).len() >= 1,
        n >= 10 ==> digits(n).len() >= 2,
        forall|i: int| 0 <= i < digits(n).len() ==> is_digit(#[trigger] digits(n)[i]),
    decreases n,
{
    if n >= 10 {
        lemma_digits_shape(n / 10);
    }
}

/// A numeral determines its number.
proof fn lemma_digits_determine_number(a: nat, b: nat)
    requires
        digits(a) == digits(b),
    ensures
        a == b,
    decreases a,
{
    lemma_digits_shape(a);
    lemma_digits_shape(b);
    if a < 10 {
        assert(digits(a)[0] == digit_char(a as int));
        if b >= 10 {
            assert(false);
        }
        assert(digits(b)[0] == digit_char(b as int));
    } else {
        if b < 10 {
            assert(false);
        }
        let last_a = digit_char((a % 10) as int);
        let last_b = digit_char((b % 10) as int);
        assert(digits(a).last() == last_a);
        assert(digits(b).last() == last_b);
        assert(digits(a).drop_last() =~= digits(a / 10));
        assert(digits(b).drop_last() =~= digits(b / 10));
        lemma_digits_determine_number(a / 10, b / 10);
    }
}

/// The digits of a quantity in tenths: all of it but the sign.
spec fn unsigned_tenths(size: nat) -> Seq<char> {
    digits(size / 10).push('.').push(digit_char((size % 10) as int))
}

/// A quantity written in tenths holds no semicolon, and it begins with a minus
/// sign exactly if it is negative.
proof fn lemma_tenths_shape(v: int)
    ensures
        tenths(v).len() >= 3,
        forall|i: int| 0 <= i < tenths(v).len() ==> #[trigger] tenths(v)[i] != ';',
        tenths(v)[0] == '-' <==> v < 0,
        tenths(v) == sign(v) + unsigned_tenths(magnitude(v)),
{
    let size = magnitude(v);
    let body = unsigned_tenths(size);
    lemma_digits_shape(size / 10);
    assert forall|i: int| 0 <= i < body.len() implies #[trigger] body[i] != ';' && body[i]
        != '-' by {
        if i < digits(size / 10).len() {
            assert(body[i] == digits(size / 10)[i]);
            assert(is_digit(digits(size / 10)[i]));
        }
    }
    assert(body[0] != '-');
    assert forall|i: int| 0 <= i < tenths(v).len() implies #[trigger] tenths(v)[i] != ';' by {
        if i >= sign(v).len() {
            assert(tenths(v)[i] == body[i - sign(v).len()]);
        }
    }
    if v >= 0 {
        assert(tenths(v)[0] == body[0]);
    }
}

/// A quantity written in tenths determines the quantity.
proof fn lemma_tenths_determine_quantity(a: int, b: int)
    requires
        tenths(a) == tenths(b),
    ensures
        a == b,
{
    lemma_tenths_shape(a);
    lemma_tenths_shape(b);
    let size_a = magnitude(a);
    let size_b = magnitude(b);
    let body_a = unsigned_tenths(size_a);
    let body_b = unsigned_tenths(size_b);
    assert((a < 0) == (b < 0));
    assert(body_a =~= tenths(a).subrange(sign(a).len() as int, tenths(a).len() as int));
    assert(body_b =~= tenths(b).subrange(sign(b).len() as int, tenths(b).len() as int));
    assert(body_a == body_b);
    assert(body_a.last() == digit_char((size_a % 10) as int));
    assert(body_b.last() == digit_char((size_b % 10) as int));
    assert(body_a.drop_last().drop_last() =~= digits(size_a / 10));
    assert(body_b.drop_last().drop_last() =~= digits(size_b / 10));
    lemma_digits_determine_number(size_a / 10, size_b / 10);
}

/// A whole number written in decimal determines the number.
proof fn lemma_whole_determines_number(a: int, b: int)
    requires
        whole(a) == whole(b),
    ensures
        a == b,
{
    let size_a = magnitude(a);
    let size_b = magnitude(b);
    lemma_digits_shape(size_a);
    lemma_digits_shape(size_b);
    assert(whole(a)[0] == '-' <==> a < 0) by {
        if a >= 0 {
            assert(whole(a)[0] == digits(size_a)[0]);
            assert(is_digit(digits(size_a)[0]));
        }
    }
    assert(whole(b)[0] == '-' <==> b < 0) by {
        if b >= 0 {
            assert(whole(b)[0] == digits(size_b)[0]);
            assert(is_digit(digits(size_b)[0]));
        }
    }
    assert(digits(size_a) =~= whole(a).subrange(sign(a).len() as int, whole(a).len() as int));
    assert(digits(size_b) =~= whole(b).subrange(sign(b).len() as int, whole(b).len() as int));
    lemma_digits_determine_number(size_a, size_b);
}

/// Two texts that begin alike and are equal end alike.
proof fn lemma_same_head(head: Seq<char>, left: Seq<char>, right: Seq<char>)
    requires
        head + left == head + right,
    ensures
        left == right,
{
    assert(left =~= (head + left).subrange(head.len() as int, (head + left).len() as int));
    assert(right =~= (head + right).subrange(head.len() as int, (head + right).len() as int));
}

/// A text is cut at its first semicolon in one way only.
proof fn lemma_same_field(
    field_a: Seq<char>,
    rest_a: Seq<char>,
    field_b: Seq<char>,
    rest_b: Seq<char>,
)
    requires
        field_a + rest_a == field_b + rest_b,
        forall|i: int| 0 <= i < field_a.len() ==> #[trigger] field_a[i] != ';',
        forall|i: int| 0 <= i < field_b.len() ==> #[trigger] field_b[i] != ';',
        rest_a.len() > 0 && rest_a[0] == ';',
        rest_b.len() > 0 && rest_b[0] == ';',
    ensures
        field_a == field_b,
        rest_a == rest_b,
{
    let whole_a = field_a + rest_a;
    let whole_b = field_b + rest_b;
    if field_a.len() < field_b.len() {
        assert(whole_a[field_a.len() as int] == rest_a[0]);
        assert(whole_b[field_a.len() as int] == field_b[field_a.len() as int]);
        assert(false);
    }
    if field_b.len() < field_a.len() {
        assert(whole_b[field_b.len() as int] == rest_b[0]);
        assert(whole_a[field_b.len() as int] == field_a[field_b.len() as int]);
        assert(false);
    }
    assert(field_a =~= whole_a.subrange(0, field_a.len() as int));
    assert(field_b =~= whole_b.subrange(0, field_b.len() as int));
    assert(rest_a =~= whole_a.subrange(field_a.len() as int, whole_a.len() as int));
    assert(rest_b =~= whole_b.subrange(field_b.len() as int, whole_b.len() as int));
}

/// The text of a reading from its second field on.
spec fn text_from_soc(stats: GridStats) -> Seq<char> {
    ";soc="@ + (tenths(stats.soc as int) + text_from_import(stats))
}

/// The text of a reading from its third field on.
spec fn text_from_import(stats: GridStats) -> Seq<char> {
    ";import="@ + (tenths(stats.import as int) + text_from_export(stats))
}

/// The text of a reading from its fourth field on.
spec fn text_from_export(stats: GridStats) -> Seq<char> {
    ";export="@ + (tenths(stats.export as int) + text_from_variance(stats))
}

/// The last field of the text of a reading.
spec fn text_from_variance(stats: GridStats) -> Seq<char> {
    ";variance="@ + whole(stats.variance as int)
}

/// The text of a reading is its fields one after the other.
proof fn lemma_text_by_fields(stats: GridStats)
    ensures
        text_of(stats) == "freq="@ + (tenths(stats.frequency as int) + text_from_soc(stats)),
        text_from_soc(stats).len() > 0 && text_from_soc(stats)[0] == ';',
        text_from_import(stats).len() > 0 && text_from_import(stats)[0] == ';',
        text_from_export(stats).len() > 0 && text_from_export(stats)[0] == ';',
        text_from_variance(stats).len() > 0 && text_from_variance(stats)[0] == ';',
{
    reveal_strlit(";soc=");
    reveal_strlit(";import=");
    reveal_strlit(";export=");
    reveal_strlit(";variance=");
    assert(text_of(stats) =~= "freq="@ + (tenths(stats.frequency as int) + text_from_soc(stats)));
    assert(text_from_soc(stats)[0] == ";soc="@[0]);
    assert(text_from_import(stats)[0] == ";import="@[0]);
    assert(text_from_export(stats)[0] == ";export="@[0]);
    assert(text_from_variance(stats)[0] == ";variance="@[0]);
}

/// The payload determines the reading: two readings that travel as the same
/// bytes are the same reading.
pub proof fn lemma_payload_determines_reading(a: GridStats, b: GridStats)
    requires
        payload_of(a) == payload_of(b),
    ensures
        a == b,
{
    lemma_text_is_ascii(a);
    lemma_text_is_ascii(b);
    lemma_ascii_bytes_determine_text(text_of(a), text_of(b));
    lemma_text_by_fields(a);
    lemma_text_by_fields(b);
    lemma_tenths_shape(a.frequency as int);
    lemma_tenths_shape(b.frequency as int);
    lemma_tenths_shape(a.soc as int);
    lemma_tenths_shape(b.soc as int);
    lemma_tenths_shape(a.import as int);
    lemma_tenths_shape(b.import as int);
    lemma_tenths_shape(a.export as int);
    lemma_tenths_shape(b.export as int);

    lemma_same_head(
        "freq="@,
        tenths(a.frequency as int) + text_from_soc(a),
        tenths(b.frequency as int) + text_from_soc(b),
    );
    lemma_same_field(
        tenths(a.frequency as int),
        text_from_soc(a),
        tenths(b.frequency as int),
        text_from_soc(b),
    );
    lemma_tenths_determine_quantity(a.frequency as int, b.frequency as int);

    lemma_same_head(
        ";soc="@,
        tenths(a.soc as int) + text_from_import(a),
        tenths(b.soc as int) + text_from_import(b),
    );
    lemma_same_field(
        tenths(a.soc as int),
        text_from_import(a),
        tenths(b.soc as int),
        text_from_import(b),
    );
    lemma_tenths_determine_quantity(a.soc as int, b.soc as int);

    lemma_same_head(
        ";import="@,
        tenths(a.import as int) + text_from_export(a),
        tenths(b.import as int) + text_from_export(b),
    );
    lemma_same_field(
        tenths(a.import as int),
        text_from_export(a),
        tenths(b.import as int),
        text_from_export(b),
    );
    lemma_tenths_determine_quantity(a.import as int, b.import as int);

    lemma_same_head(
        ";export="@,
        tenths(a.export as int) + text_from_variance(a),
        tenths(b.export as int) + text_from_variance(b),
    );
    lemma_same_field(
        tenths(a.export as int),
        text_from_variance(a),
        tenths(b.export as int),
        text_from_variance(b),
    );
    lemma_tenths_determine_quantity(a.export as int, b.export as int);

    lemma_same_head(";variance="@, whole(a.variance as int), whole(b.variance as int));
    lemma_whole_determines_number(a.variance as int, b.variance as int);
}

} // verus!
