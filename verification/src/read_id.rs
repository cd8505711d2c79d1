//! Identifiers of reads: the tag `READ_` followed by the index of the pair in
//! decimal, padded with zeros to six characters.

use vstd::prelude::*;
use vstd::string::*;

verus! {

/// The number of characters that the index of an identifier fills at least.
pub const ID_WIDTH: usize = 6;

/// The character of a decimal digit.
pub open spec fn digit_char(digit: int) -> char {
    if digit == 0 {
        '0'
    } else if digit == 1 {
        '1'
    } else if digit == 2 {
        '2'
    } else if digit == 3 {
        '3'
    } else if digit == 4 {
        '4'
    } else if digit == 5 {
        '5'
    } else if digit == 6 {
        '6'
    } else if digit == 7 {
        '7'
    } else if digit == 8 {
        '8'
    } else {
        '9'
    }
}

/// The decimal digits of `n`, most significant first, without leading zeros.
pub open spec fn decimal(n: nat) -> Seq<char>
    decreases n,
{
    if n < 10 {
        seq![digit_char(n as int)]
    } else {
        decimal(n / 10).push(digit_char((n % 10) as int))
    }
}

/// `count` zeros.
pub open spec fn zeros(count: int) -> Seq<char> {
    Seq::new(
        if count < 0 {
            0
        } else {
            count as nat
        },
        |i: int| '0',
    )
}

/// The decimal digits of `n` behind as many zeros as it takes to fill `width`
/// characters. A number with more digits than that keeps them all.
pub open spec fn zero_padded(n: nat, width: int) -> Seq<char> {
    zeros(width - decimal(n).len()) + decimal(n)
}

/// An index in decimal, filled with zeros to `ID_WIDTH` characters. The sign
/// of a negative index stands before the zeros and counts as one of the
/// characters.
pub open spec fn padded_index(index: int) -> Seq<char> {
    if index < 0 {
        seq!['-'] + zero_padded((-index) as nat, ID_WIDTH - 1)
    } else {
        zero_padded(index as nat, ID_WIDTH as int)
    }
}

/// The identifier of the pair with the given index.
pub open spec fn read_id(index: int) -> Seq<char> {
    seq!['R', 'E', 'A', 'D', '_'] + padded_index(index)
}

/// Whether a character can stand in an identifier: a letter of the tag, the
/// underscore, the sign or a decimal digit.
pub open spec fn is_id_char(c: char) -> bool {
    c == 'R' || c == 'E' || c == 'A' || c == 'D' || c == '_' || c == '-' || ('0' <= c && c <= '9')
}

/// Every character of a number in decimal is a digit.
pub proof fn decimal_is_digits(n: nat)
    ensures
        decimal(n).len() >= 1,
        forall|i: int| 0 <= i < decimal(n).len() ==> '0' <= #[trigger] decimal(n)[i] <= '9',
    decreases n,
{
    if n >= 10 {
        decimal_is_digits(n / 10);
    }
}

/// An identifier holds the tag, at least `ID_WIDTH` characters behind it,
/// and no character but those of the tag, the sign and the digits.
pub proof fn read_id_is_plain(index: int)
    ensures
        read_id(index).len() >= 5 + ID_WIDTH,
        read_id(index).take(5) == seq!['R', 'E', 'A', 'D', '_'],
        forall|i: int| 0 <= i < read_id(index).len() ==> is_id_char(#[trigger] read_id(index)[i]),
{
    let magnitude: nat = if index < 0 {
        (-index) as nat
    } else {
        index as nat
    };
    decimal_is_digits(magnitude);
    assert(read_id(index).take(5) =~= seq!['R', 'E', 'A', 'D', '_']);
}

/// The characters of digits that are stored least significant first.
pub open spec fn digits_as_text(low_first: Seq<u8>) -> Seq<char> {
    Seq::new(low_first.len(), |i: int| digit_char(low_first[low_first.len() - 1 - i] as int))
}

/// Returns the text of one decimal digit.
fn digit_str(digit: u8) -> (text: &'static str)
    requires
        digit < 10,
    ensures
        text@ == seq![digit_char(digit as int)],
{
    proof {
        reveal_strlit("0");
        reveal_strlit("1");
        reveal_strlit("2");
        reveal_strlit("3");
        reveal_strlit("4");
        reveal_strlit("5");
        reveal_strlit("6");
        reveal_strlit("7");
        reveal_strlit("8");
        reveal_strlit("9");
    }
    let text = if digit == 0 {
        "0"
    } else if digit == 1 {
        "1"
    } else if digit == 2 {
        "2"
    } else if digit == 3 {
        "3"
    } else if digit == 4 {
        "4"
    } else if digit == 5 {
        "5"
    } else if digit == 6 {
        "6"
    } else if digit == 7 {
        "7"
    } else if digit == 8 {
        "8"
    } else {
        "9"
    };
    assert(text@ =~= seq![digit_char(digit as int)]);
    text
}

/// Returns the decimal digits of `n`, least significant first.
fn decimal_digits(n: u32) -> (low_first: Vec<u8>)
    ensures
        digits_as_text(low_first@) == decimal(n as nat),
        forall|i: int| 0 <= i < low_first@.len() ==> #[trigger] low_first@[i] < 10,
{
    let mut low_first: Vec<u8> = Vec::new();
    let mut rest: u32 = n;
    while rest >= 10
        invariant
            decimal(rest as nat) + digits_as_text(low_first@) == decimal(n as nat),
            forall|i: int| 0 <= i < low_first@.len() ==> #[trigger] low_first@[i] < 10,
        decreases rest,
    {
        let digit: u8 = (rest % 10) as u8;
        let ghost before = low_first@;
        low_first.push(digit);
        proof {
            let tens = (rest / 10) as nat;
            assert(digits_as_text(low_first@) =~= seq![digit_char(digit as int)] + digits_as_text(
                before,
            ));
            assert(decimal(tens) + digits_as_text(low_first@) =~= decimal(rest as nat)
                + digits_as_text(before));
        }
        rest = rest / 10;
    }
    let ghost before = low_first@;
    low_first.push(rest as u8);
    proof {
        assert(digits_as_text(low_first@) =~= decimal(rest as nat) + digits_as_text(before));
    }
    low_first
}

/// Returns the identifier of the pair with index `id_index`: `READ_000007`
/// for 7, `READ_1234567` for 1234567.
pub fn format_read_id(id_index: i32) -> (id: String)
    ensures
        id@ == read_id(id_index as int),
{
    let mut id: String = String::from_str("READ_");
    proof {
        reveal_strlit("READ_");
        reveal_strlit("-");
    }
    let magnitude: u32;
    let width: usize;
    if id_index < 0 {
        id.append("-");
        magnitude = (-(id_index as i64)) as u32;
        width = ID_WIDTH - 1;
    } else {
        magnitude = id_index as u32;
        width = ID_WIDTH;
    }
    let ghost head = id@;
    let digits: Vec<u8> = decimal_digits(magnitude);
    let count: usize = digits.len();
    let mut filled: usize = count;
    while filled < width
        invariant
            count <= filled,
            filled <= width || filled == count,
            id@ == head + zeros(filled - count),
        decreases width - filled,
    {
        id.append("0");
        filled += 1;
        proof {
            reveal_strlit("0");
            assert(id@ =~= head + zeros(filled - count));
        }
    }
    let ghost padded = id@;
    let mut left: usize = count;
    while left > 0
        invariant
            left <= count,
            count == digits@.len(),
            forall|i: int| 0 <= i < digits@.len() ==> #[trigger] digits@[i] < 10,
            id@ == padded + digits_as_text(digits@).take(count - left),
        decreases left,
    {
        left -= 1;
        id.append(digit_str(digits[left]));
        assert(id@ =~= padded + digits_as_text(digits@).take(count - left));
    }
    assert(id@ =~= read_id(id_index as int));
    id
}

} // verus!
