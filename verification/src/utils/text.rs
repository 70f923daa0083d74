use vstd::prelude::*;
use vstd::string::StringExecFns;

verus! {

/// The character of a decimal digit.
pub open spec fn digit_char(d: int) -> char {
    if d == 0 {
        '0'
    } else if d == 1 {
        '1'
    } else if d == 2 {
        '2'
    } else if d == 3 {
        '3'
    } else if d == 4 {
        '4'
    } else if d == 5 {
        '5'
    } else if d == 6 {
        '6'
    } else if d == 7 {
        '7'
    } else if d == 8 {
        '8'
    } else {
        '9'
    }
}

/// A number in decimal notation, without leading zeros.
pub open spec fn decimal(n: nat) -> Seq<char>
    decreases n,
{
    if n < 10 {
        seq![digit_char(n as int)]
    } else {
        decimal(n / 10).push(digit_char((n % 10) as int))
    }
}

fn digit_text(d: u8) -> (text: &'static str)
    requires
        d < 10,
    ensures
        text@ == seq![digit_char(d as int)],
{
    proof {
        reveal_strlit("0");
        reveal_strlit("1");
        reveal_strlit("2");
        reveal_strlit("3");
        reveal_strlit("4");
        reveal_strlit("5");
        reveal_strlit("6");
        reveal_strlit("7");
        reveal_strlit("8");
        reveal_strlit("9");
    }
    let text = if d == 0 {
        "0"
    } else if d == 1 {
        "1"
    } else if d == 2 {
        "2"
    } else if d == 3 {
        "3"
    } else if d == 4 {
        "4"
    } else if d == 5 {
        "5"
    } else if d == 6 {
        "6"
    } else if d == 7 {
        "7"
    } else if d == 8 {
        "8"
    } else {
        "9"
    };
    assert(text@ =~= seq![digit_char(d as int)]);
    text
}

/// Write a number in decimal notation.
pub fn to_decimal(n: u128) -> (text: String)
    ensures
        text@ == decimal(n as nat),
    decreases n,
{
    if n < 10 {
        digit_text(n as u8).to_owned()
    } else {
        let mut text = to_decimal(n / 10);
        text.append(digit_text((n % 10) as u8));
        assert(text@ =~= decimal((n / 10) as nat).push(digit_char((n % 10) as int)));
        text
    }
}

/// Two texts, one after the other.
pub fn chain(a: &str, b: &str) -> (text: String)
    ensures
        text@ == a@ + b@,
{
    let mut text = a.to_owned();
    text.append(b);
    text
}

/// Three texts, one after the other.
pub fn chain3(a: &str, b: &str, c: &str) -> (text: String)
    ensures
        text@ == a@ + b@ + c@,
{
    let mut text = a.to_owned();
    text.append(b);
    text.append(c);
    text
}

/// The text behind an optional string slice.
pub open spec fn text_of(s: Option<&str>) -> Option<Seq<char>> {
    match s {
        Some(t) => Some(t@),
        None => None,
    }
}

/// The text behind an optional owned string.
pub open spec fn owned_text_of(s: Option<String>) -> Option<Seq<char>> {
    match s {
        Some(t) => Some(t@),
        None => None,
    }
}

/// The texts of a list of string slices, in their order.
pub open spec fn slice_texts(parts: Seq<&str>) -> Seq<Seq<char>> {
    Seq::new(parts.len(), |i: int| parts[i]@)
}

/// The texts of a list of strings, in their order.
pub open spec fn string_texts(parts: Seq<String>) -> Seq<Seq<char>> {
    Seq::new(parts.len(), |i: int| parts[i]@)
}

/// The parts one after the other, with the separator between each two.
pub open spec fn joined(parts: Seq<Seq<char>>, separator: Seq<char>) -> Seq<char>
    decreases parts.len(),
{
    if parts.len() == 0 {
        Seq::empty()
    } else if parts.len() == 1 {
        parts[0]
    } else {
        joined(parts.drop_last(), separator) + separator + parts.last()
    }
}

/// Join the parts, with the separator between each two.
pub fn join(parts: &[&str], separator: &str) -> (text: String)
    ensures
        text@ == joined(slice_texts(parts@), separator@),
{
    let mut text = String::new();
    let mut i: usize = 0;
    while i < parts.len()
        invariant
            i <= parts.len(),
            text@ == joined(slice_texts(parts@).take(i as int), separator@),
        decreases parts.len() - i,
    {
        proof {
            let all = slice_texts(parts@);
            assert(all.take(i as int + 1).drop_last() =~= all.take(i as int));
            assert(all.take(i as int + 1).last() == parts@[i as int]@);
            if i == 0 {
                assert(all.take(1)[0] == parts@[0]@);
                assert(Seq::<char>::empty() + parts@[0]@ =~= parts@[0]@);
            }
        }
        if i > 0 {
            text.append(separator);
        }
        text.append(parts[i]);
        i += 1;
    }
    assert(slice_texts(parts@).take(i as int) =~= slice_texts(parts@));
    text
}

/// Owned copies of a list of string slices.
pub fn owned_all(parts: &[&str]) -> (copies: Vec<String>)
    ensures
        string_texts(copies@) == slice_texts(parts@),
{
    let mut copies: Vec<String> = Vec::new();
    let mut i: usize = 0;
    while i < parts.len()
        invariant
            i <= parts.len(),
            copies@.len() == i,
            forall|j: int| 0 <= j < i ==> (#[trigger] copies@[j])@ == parts@[j]@,
        decreases parts.len() - i,
    {
        copies.push(parts[i].to_owned());
        i += 1;
    }
    assert(string_texts(copies@) =~= slice_texts(parts@));
    copies
}

/// Copies of a list of strings.
pub fn copy_all(parts: &[String]) -> (copies: Vec<String>)
    ensures
        copies@ == parts@,
{
    let mut copies: Vec<String> = Vec::new();
    let mut i: usize = 0;
    while i < parts.len()
        invariant
            i <= parts.len(),
            copies@ == parts@.take(i as int),
        decreases parts.len() - i,
    {
        copies.push(parts[i].clone());
        assert(copies@ =~= parts@.take(i as int + 1));
        i += 1;
    }
    assert(parts@.take(i as int) =~= parts@);
    copies
}

/// `s` without the characters `c` at its end.
pub open spec fn without_trailing(s: Seq<char>, c: char) -> Seq<char>
    decreases s.len(),
{
    if s.len() > 0 && s.last() == c {
        without_trailing(s.drop_last(), c)
    } else {
        s
    }
}

/// `s` without the characters `c` at its start.
pub open spec fn without_leading(s: Seq<char>, c: char) -> Seq<char>
    decreases s.len(),
{
    if s.len() > 0 && s[0] == c {
        without_leading(s.drop_first(), c)
    } else {
        s
    }
}

/// `s` with every occurrence of `from` replaced by `to`, the occurrences
/// taken from the left and not overlapping. `from` is not empty.
pub open spec fn replaced(s: Seq<char>, from: Seq<char>, to: Seq<char>) -> Seq<char>
    decreases s.len(),
{
    if from.len() == 0 || s.len() < from.len() {
        s
    } else if s.take(from.len() as int) == from {
        to + replaced(s.skip(from.len() as int), from, to)
    } else {
        seq![s[0]] + replaced(s.skip(1), from, to)
    }
}

/// Calls `str::trim_end_matches` with a character as the pattern, which
/// removes every repetition of the character from the end of the text.
#[verifier::external_body]
pub(crate) fn trim_end_char(s: &str, c: char) -> (r: &str)
    ensures
        r@ == without_trailing(s@, c),
{
    s.trim_end_matches(c)
}

/// Calls `str::trim_start_matches` with a character as the pattern, which
/// removes every repetition of the character from the start of the text.
#[verifier::external_body]
pub(crate) fn trim_start_char(s: &str, c: char) -> (r: &str)
    ensures
        r@ == without_leading(s@, c),
{
    s.trim_start_matches(c)
}

/// Calls `str::replace`, which replaces all matches of a pattern, found from
/// the left and not overlapping, with another text.
#[verifier::external_body]
pub(crate) fn replace_all(s: &str, from: &str, to: &str) -> (r: String)
    requires
        from@.len() > 0,
    ensures
        r@ == replaced(s@, from@, to@),
{
    s.replace(from, to)
}

} // verus!
