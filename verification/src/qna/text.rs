//! JSON text: decimal numbers, quoted strings and lists of them.

use vstd::prelude::*;
use vstd::string::StringExecFns;

verus! {

/// A machine integer, where there is one, as a mathematical integer.
pub open spec fn int_of(v: Option<i32>) -> Option<int> {
    match v {
        Some(i) => Some(i as int),
        None => None,
    }
}

/// A text, where there is one, as its characters.
pub open spec fn text_of(v: Option<String>) -> Option<Seq<char>> {
    match v {
        Some(s) => Some(s@),
        None => None,
    }
}

/// A list of texts as the list of their characters.
pub open spec fn texts_of(v: Vec<String>) -> Seq<Seq<char>> {
    Seq::new(v@.len(), |i: int| v@[i]@)
}

/// `String::push` of std: the text grows by the one character at its end.
#[verifier::external_body]
pub(crate) fn push_char(s: &mut String, c: char)
    ensures
        final(s)@ == old(s)@.push(c),
{
    s.push(c)
}

/// The character that writes a digit, in bases up to sixteen.
pub open spec fn digit(d: int) -> char {
    if d == 0 {
        '0'
    } else if d == 1 {
        '1'
    } else if d == 2 {
        '2'
    } else if d == 3 {
        '3'
    } else if d == 4 {
        '4'
    } else if d == 5 {
        '5'
    } else if d == 6 {
        '6'
    } else if d == 7 {
        '7'
    } else if d == 8 {
        '8'
    } else if d == 9 {
        '9'
    } else if d == 10 {
        'a'
    } else if d == 11 {
        'b'
    } else if d == 12 {
        'c'
    } else if d == 13 {
        'd'
    } else if d == 14 {
        'e'
    } else {
        'f'
    }
}

/// A natural number in decimal, without leading zeros.
pub open spec fn decimal_nat(n: nat) -> Seq<char>
    decreases n,
{
    if n < 10 {
        seq![digit(n as int)]
    } else {
        decimal_nat(n / 10).push(digit((n % 10) as int))
    }
}

/// An integer in decimal, with a minus sign where it is negative.
pub open spec fn decimal(i: int) -> Seq<char> {
    if i < 0 {
        seq!['-'] + decimal_nat((-i) as nat)
    } else {
        decimal_nat(i as nat)
    }
}

/// What stands for one character inside a quoted JSON string.
pub open spec fn escape_char(c: char) -> Seq<char> {
    if c == '"' {
        seq!['\\', '"']
    } else if c == '\\' {
        seq!['\\', '\\']
    } else if c == '\n' {
        seq!['\\', 'n']
    } else if c == '\r' {
        seq!['\\', 'r']
    } else if c == '\t' {
        seq!['\\', 't']
    } else if c == '\u{8}' {
        seq!['\\', 'b']
    } else if c == '\u{c}' {
        seq!['\\', 'f']
    } else if (c as u32) < 0x20 {
        seq!['\\', 'u', '0', '0', digit((c as u32) as int / 16), digit((c as u32) as int % 16)]
    } else {
        seq![c]
    }
}

/// A text with each character escaped.
pub open spec fn escape(s: Seq<char>) -> Seq<char>
    decreases s.len(),
{
    if s.len() == 0 {
        Seq::empty()
    } else {
        escape(s.drop_last()) + escape_char(s.last())
    }
}

/// A text as a JSON string.
pub open spec fn quoted(s: Seq<char>) -> Seq<char> {
    seq!['"'] + escape(s) + seq!['"']
}

/// Texts written one after the other, a comma between each two.
pub open spec fn joined(parts: Seq<Seq<char>>) -> Seq<char>
    decreases parts.len(),
{
    if parts.len() == 0 {
        Seq::empty()
    } else if parts.len() == 1 {
        parts[0]
    } else {
        joined(parts.drop_last()) + seq![','] + parts.last()
    }
}

/// The members of a JSON array of strings, without the brackets.
pub open spec fn quoted_all(items: Seq<Seq<char>>) -> Seq<Seq<char>> {
    Seq::new(items.len(), |i: int| quoted(items[i]))
}

/// A list of texts as a JSON array of strings.
pub open spec fn string_array(items: Seq<Seq<char>>) -> Seq<char> {
    seq!['['] + joined(quoted_all(items)) + seq![']']
}

/// Decimal digits tell the numbers below ten apart.
pub proof fn lemma_digit_injective(a: int, b: int)
    requires
        0 <= a < 10,
        0 <= b < 10,
        digit(a) == digit(b),
    ensures
        a == b,
{
}

/// A natural number in decimal is made of digits, and has more than one of
/// them exactly from ten on.
pub proof fn lemma_decimal_nat_shape(n: nat)
    ensures
        decimal_nat(n).len() >= 1,
        n >= 10 <==> decimal_nat(n).len() >= 2,
        forall|i: int| 0 <= i < decimal_nat(n).len() ==> decimal_nat(n)[i] != '-',
    decreases n,
{
    if n >= 10 {
        lemma_decimal_nat_shape(n / 10);
    }
}

/// Two natural numbers with one decimal form are one number.
pub proof fn lemma_decimal_nat_injective(a: nat, b: nat)
    requires
        decimal_nat(a) == decimal_nat(b),
    ensures
        a == b,
    decreases a,
{
    lemma_decimal_nat_shape(a);
    lemma_decimal_nat_shape(b);
    if a < 10 {
        assert(decimal_nat(a)[0] == digit(a as int));
        assert(decimal_nat(b)[0] == digit(b as int));
        lemma_digit_injective(a as int, b as int);
    } else {
        let front_a = decimal_nat(a / 10);
        let front_b = decimal_nat(b / 10);
        assert(decimal_nat(a).last() == digit((a % 10) as int));
        assert(decimal_nat(b).last() == digit((b % 10) as int));
        lemma_digit_injective((a % 10) as int, (b % 10) as int);
        assert(front_a == decimal_nat(a).drop_last());
        assert(front_b == decimal_nat(b).drop_last());
        lemma_decimal_nat_injective(a / 10, b / 10);
    }
}

/// Two integers with one decimal form are one integer.
pub proof fn lemma_decimal_injective(a: int, b: int)
    requires
        decimal(a) == decimal(b),
    ensures
        a == b,
{
    let na = (if a < 0 { -a } else { a }) as nat;
    let nb = (if b < 0 { -b } else { b }) as nat;
    lemma_decimal_nat_shape(na);
    lemma_decimal_nat_shape(nb);
    if a < 0 {
        assert(decimal(a)[0] == '-');
        if b >= 0 {
            assert(decimal(b)[0] == decimal_nat(nb)[0]);
        } else {
            assert(decimal_nat(na) == decimal(a).subrange(1, decimal(a).len() as int));
            assert(decimal_nat(nb) == decimal(b).subrange(1, decimal(b).len() as int));
            lemma_decimal_nat_injective(na, nb);
        }
    } else {
        if b < 0 {
            assert(decimal(b)[0] == '-');
            assert(decimal(a)[0] == decimal_nat(na)[0]);
        } else {
            lemma_decimal_nat_injective(na, nb);
        }
    }
}

/// A copy of a text, where there is one.
pub fn clone_optional_text(text: &Option<String>) -> (copy: Option<String>)
    ensures
        copy == *text,
{
    match text {
        Some(s) => Some(s.clone()),
        None => None,
    }
}

/// A copy of a list of texts.
pub fn clone_texts(texts: &Vec<String>) -> (copy: Vec<String>)
    ensures
        copy@ == texts@,
{
    let mut copy: Vec<String> = Vec::new();
    let mut i: usize = 0;
    while i < texts.len()
        invariant
            i <= texts@.len(),
            copy@ == texts@.take(i as int),
        decreases texts@.len() - i,
    {
        copy.push(texts[i].clone());
        assert(copy@ == texts@.take(i + 1));
        i = i + 1;
    }
    assert(texts@.take(texts@.len() as int) == texts@);
    copy
}

fn digit_char(d: u8) -> (c: char)
    requires
        d < 16,
    ensures
        c == digit(d as int),
{
    if d == 0 {
        '0'
    } else if d == 1 {
        '1'
    } else if d == 2 {
        '2'
    } else if d == 3 {
        '3'
    } else if d == 4 {
        '4'
    } else if d == 5 {
        '5'
    } else if d == 6 {
        '6'
    } else if d == 7 {
        '7'
    } else if d == 8 {
        '8'
    } else if d == 9 {
        '9'
    } else if d == 10 {
        'a'
    } else if d == 11 {
        'b'
    } else if d == 12 {
        'c'
    } else if d == 13 {
        'd'
    } else if d == 14 {
        'e'
    } else {
        'f'
    }
}

fn push_decimal_nat(out: &mut String, n: u64)
    ensures
        final(out)@ == old(out)@ + decimal_nat(n as nat),
    decreases n,
{
    if n < 10 {
        push_char(out, digit_char(n as u8));
    } else {
        push_decimal_nat(out, n / 10);
        push_char(out, digit_char((n % 10) as u8));
    }
}

/// Appends an integer in decimal.
pub fn push_decimal(out: &mut String, i: i32)
    ensures
        final(out)@ == old(out)@ + decimal(i as int),
{
    let wide: i64 = i as i64;
    if wide < 0 {
        push_char(out, '-');
        push_decimal_nat(out, (-wide) as u64);
    } else {
        push_decimal_nat(out, wide as u64);
    }
}

/// An integer in decimal.
pub fn decimal_string(i: i32) -> (s: String)
    ensures
        s@ == decimal(i as int),
{
    let mut s = String::new();
    push_decimal(&mut s, i);
    s
}

/// Appends what stands for one character inside a quoted JSON string.
pub fn push_escaped_char(out: &mut String, c: char)
    ensures
        final(out)@ == old(out)@ + escape_char(c),
{
    if c == '"' {
        push_char(out, '\\');
        push_char(out, '"');
    } else if c == '\\' {
        push_char(out, '\\');
        push_char(out, '\\');
    } else if c == '\n' {
        push_char(out, '\\');
        push_char(out, 'n');
    } else if c == '\r' {
        push_char(out, '\\');
        push_char(out, 'r');
    } else if c == '\t' {
        push_char(out, '\\');
        push_char(out, 't');
    } else if c == '\u{8}' {
        push_char(out, '\\');
        push_char(out, 'b');
    } else if c == '\u{c}' {
        push_char(out, '\\');
        push_char(out, 'f');
    } else if (c as u32) < 0x20 {
        let code: u32 = c as u32;
        push_char(out, '\\');
        push_char(out, 'u');
        push_char(out, '0');
        push_char(out, '0');
        push_char(out, digit_char((code / 16) as u8));
        push_char(out, digit_char((code % 16) as u8));
    } else {
        push_char(out, c);
    }
}

/// Appends a text as a JSON string.
pub fn push_quoted(out: &mut String, s: &str)
    ensures
        final(out)@ == old(out)@ + quoted(s@),
{
    push_char(out, '"');
    let ghost base = out@;
    for c in it: s.chars()
        invariant
            it.seq() == s@,
            out@ == base + escape(s@.take(it.index() as int)),
    {
        proof {
            let k = it.index() as int;
            assert(s@.take(k + 1).drop_last() == s@.take(k));
            assert(s@.take(k + 1).last() == c);
        }
        push_escaped_char(out, c);
    }
    proof {
        assert(s@.take(s@.len() as int) == s@);
    }
    push_char(out, '"');
}

/// Appends a list of texts as a JSON array of strings.
pub fn push_string_array(out: &mut String, items: &Vec<String>)
    ensures
        final(out)@ == old(out)@ + string_array(texts_of(*items)),
{
    let ghost texts = texts_of(*items);
    push_char(out, '[');
    let ghost base = out@;
    let mut i: usize = 0;
    while i < items.len()
        invariant
            i <= items@.len(),
            texts == texts_of(*items),
            out@ == base + joined(quoted_all(texts).take(i as int)),
        decreases items@.len() - i,
    {
        proof {
            let parts = quoted_all(texts);
            assert(parts.take(i + 1).drop_last() == parts.take(i as int));
            assert(parts.take(i + 1).last() == quoted(items@[i as int]@));
        }
        if i > 0 {
            push_char(out, ',');
        }
        push_quoted(out, items[i].as_str());
        i = i + 1;
    }
    proof {
        assert(quoted_all(texts).take(items@.len() as int) == quoted_all(texts));
    }
    push_char(out, ']');
}

} // verus!
