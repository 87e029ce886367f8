//! The line that reports a count.

use vstd::prelude::*;

verus! {

/// The character for a digit below ten.
pub open spec fn digit(d: nat) -> char {
    if d == 0 {
        '0'
    } else if d == 1 {
        '1'
    } else if d == 2 {
        '2'
    } else if d == 3 {
        '3'
    } else if d == 4 {
        '4'
    } else if d == 5 {
        '5'
    } else if d == 6 {
        '6'
    } else if d == 7 {
        '7'
    } else if d == 8 {
        '8'
    } else {
        '9'
    }
}

/// A number in decimal digits, the highest first, with no leading zero.
pub open spec fn decimal(n: nat) -> Seq<char>
    decreases n,
{
    if n < 10 {
        seq![digit(n)]
    } else {
        decimal(n / 10).push(digit(n % 10))
    }
}

/// The line for a single count: the count, a space, the label.
pub open spec fn single_line(count: nat, label: Seq<char>) -> Seq<char> {
    decimal(count) + seq![' '] + label
}

/// The line for all counts: lines, words and bytes in this order with a tab
/// between them, then a space and the label.
pub open spec fn all_line(bytes: nat, lines: nat, words: nat, label: Seq<char>) -> Seq<char> {
    decimal(lines) + seq!['\t'] + decimal(words) + seq!['\t'] + decimal(bytes) + seq![' '] + label
}

/// The digit that a character stands for, zero for any other character.
pub open spec fn digit_value(c: char) -> nat {
    if c == '1' {
        1
    } else if c == '2' {
        2
    } else if c == '3' {
        3
    } else if c == '4' {
        4
    } else if c == '5' {
        5
    } else if c == '6' {
        6
    } else if c == '7' {
        7
    } else if c == '8' {
        8
    } else if c == '9' {
        9
    } else {
        0
    }
}

/// The number that decimal digits spell, the highest first.
pub open spec fn decimal_value(digits: Seq<char>) -> nat
    decreases digits.len(),
{
    if digits.len() == 0 {
        0
    } else {
        decimal_value(digits.drop_last()) * 10 + digit_value(digits.last())
    }
}

/// The decimal digits of a number spell that number, and begin with a zero
/// for zero alone.
pub proof fn lemma_decimal_reads_back(n: nat)
    ensures
        decimal_value(decimal(n)) == n,
        decimal(n).len() >= 1,
        (decimal(n)[0] == '0') == (n == 0),
    decreases n,
{
    if n < 10 {
        assert(decimal_value(decimal(n).drop_last()) == 0);
    } else {
        lemma_decimal_reads_back(n / 10);
        assert(decimal(n).drop_last() =~= decimal(n / 10));
    }
}

/// The text of one digit.
fn digit_text(d: usize) -> (text: &'static str)
    requires
        d < 10,
    ensures
        text@ == seq![digit(d as nat)],
{
    proof {
        reveal_strlit("0");
        reveal_strlit("1");
        reveal_strlit("2");
        reveal_strlit("3");
        reveal_strlit("4");
        reveal_strlit("5");
        reveal_strlit("6");
        reveal_strlit("7");
        reveal_strlit("8");
        reveal_strlit("9");
    }
    let text = if d == 0 {
        "0"
    } else if d == 1 {
        "1"
    } else if d == 2 {
        "2"
    } else if d == 3 {
        "3"
    } else if d == 4 {
        "4"
    } else if d == 5 {
        "5"
    } else if d == 6 {
        "6"
    } else if d == 7 {
        "7"
    } else if d == 8 {
        "8"
    } else {
        "9"
    };
    text
}

/// A number written in decimal.
pub fn decimal_string(n: usize) -> (text: String)
    ensures
        text@ == decimal(n as nat),
    decreases n,
{
    if n < 10 {
        String::from_str(digit_text(n))
    } else {
        let mut text = decimal_string(n / 10);
        text.append(digit_text(n % 10));
        text
    }
}

/// The report of a single count under a label.
pub fn render_single(count: usize, label: &str) -> (line: String)
    ensures
        line@ == single_line(count as nat, label@),
{
    proof {
        reveal_strlit(" ");
    }
    let mut line = decimal_string(count);
    line.append(" ");
    line.append(label);
    line
}

/// The report of all counts under a label. `counts` holds bytes, lines and
/// words in this order; the line gives lines, words and bytes.
pub fn render_all(counts: (usize, usize, usize), label: &str) -> (line: String)
    ensures
        line@ == all_line(counts.0 as nat, counts.1 as nat, counts.2 as nat, label@),
{
    proof {
        reveal_strlit(" ");
        reveal_strlit("\t");
    }
    let mut line = decimal_string(counts.1);
    line.append("\t");
    line.append(decimal_string(counts.2).as_str());
    line.append("\t");
    line.append(decimal_string(counts.0).as_str());
    line.append(" ");
    line.append(label);
    line
}

} // verus!
