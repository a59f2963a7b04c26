//! Textual rendering shared by the messages of the library: call counts and lists of lines.
use vstd::prelude::*;
use vstd::string::*;

verus! {

/// The decimal digit character for a value below ten.
pub open spec fn digit_char(d: nat) -> char {
    if d == 0 {
        '0'
    } else if d == 1 {
        '1'
    } else if d == 2 {
        '2'
    } else if d == 3 {
        '3'
    } else if d == 4 {
        '4'
    } else if d == 5 {
        '5'
    } else if d == 6 {
        '6'
    } else if d == 7 {
        '7'
    } else if d == 8 {
        '8'
    } else {
        '9'
    }
}

/// The decimal representation of a natural number, without leading zeros.
pub open spec fn decimal(n: nat) -> Seq<char>
    decreases n,
{
    if n < 10 {
        seq![digit_char(n)]
    } else {
        decimal(n / 10).push(digit_char(n % 10))
    }
}

/// How a number of calls is spelled out: `1 time`, otherwise `<n> times`.
pub open spec fn times_text(n: nat) -> Seq<char> {
    if n == 1 {
        seq!['1', ' ', 't', 'i', 'm', 'e']
    } else {
        decimal(n) + seq![' ', 't', 'i', 'm', 'e', 's']
    }
}

fn digit_str(d: u64) -> (s: &'static str)
    requires
        d < 10,
    ensures
        s@ == seq![digit_char(d as nat)],
{
    if d == 0 {
        proof { reveal_strlit("0"); }
        "0"
    } else if d == 1 {
        proof { reveal_strlit("1"); }
        "1"
    } else if d == 2 {
        proof { reveal_strlit("2"); }
        "2"
    } else if d == 3 {
        proof { reveal_strlit("3"); }
        "3"
    } else if d == 4 {
        proof { reveal_strlit("4"); }
        "4"
    } else if d == 5 {
        proof { reveal_strlit("5"); }
        "5"
    } else if d == 6 {
        proof { reveal_strlit("6"); }
        "6"
    } else if d == 7 {
        proof { reveal_strlit("7"); }
        "7"
    } else if d == 8 {
        proof { reveal_strlit("8"); }
        "8"
    } else {
        proof { reveal_strlit("9"); }
        "9"
    }
}

/// Renders `n` in decimal.
pub fn decimal_string(n: u64) -> (s: String)
    ensures
        s@ == decimal(n as nat),
    decreases n,
{
    if n < 10 {
        String::from_str(digit_str(n))
    } else {
        let mut s = decimal_string(n / 10);
        s.append(digit_str(n % 10));
        s
    }
}

/// Renders a number of calls as `1 time` or `<n> times`.
pub fn display_times(n: u64) -> (s: String)
    ensures
        s@ == times_text(n as nat),
{
    if n == 1 {
        proof { reveal_strlit("1 time"); }
        String::from_str("1 time")
    } else {
        let mut s = decimal_string(n);
        proof { reveal_strlit(" times"); }
        s.append(" times");
        s
    }
}

/// Lines of text, each followed by a line break.
pub open spec fn lines_text(lines: Seq<Seq<char>>) -> Seq<char>
    decreases lines.len(),
{
    if lines.len() == 0 {
        Seq::empty()
    } else {
        lines_text(lines.drop_last()) + lines.last() + seq!['\n']
    }
}

/// The texts of a sequence of strings.
pub open spec fn texts(strings: Seq<String>) -> Seq<Seq<char>> {
    strings.map_values(|s: String| s@)
}

/// Appends each of `lines` to `text`, each followed by a line break.
pub fn append_lines(text: &mut String, lines: &Vec<String>)
    ensures
        final(text)@ == old(text)@ + lines_text(texts(lines@)),
{
    let ghost start = text@;
    let mut i: usize = 0;
    proof {
        assert(texts(lines@.subrange(0, 0)) =~= Seq::<Seq<char>>::empty());
    }
    while i < lines.len()
        invariant
            i <= lines.len(),
            text@ == start + lines_text(texts(lines@.subrange(0, i as int))),
        decreases lines.len() - i,
    {
        let ghost before = text@;
        text.append(lines[i].as_str());
        proof { reveal_strlit("\n"); }
        text.append("\n");
        proof {
            let prev = texts(lines@.subrange(0, i as int));
            let next = texts(lines@.subrange(0, i + 1));
            assert(next.drop_last() =~= prev);
            assert(next.last() == lines@[i as int]@);
            assert(text@ =~= start + lines_text(next));
        }
        i = i + 1;
    }
    proof {
        assert(lines@.subrange(0, lines.len() as int) =~= lines@);
    }
}

} // verus!
