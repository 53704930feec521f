//! Decimal rendering of unsigned numbers.

use vstd::prelude::*;
use vstd::string::*;

verus! {

/// The character of a decimal digit.
pub open spec fn digit_char(d: nat) -> char {
    (48 + d) as char
}

/// `n` in decimal, without leading zeros.
pub open spec fn decimal_text(n: nat) -> Seq<char>
    decreases n,
{
    if n < 10 {
        seq![digit_char(n)]
    } else {
        decimal_text(n / 10).push(digit_char(n % 10))
    }
}

/// One digit as text.
fn digit(d: u64) -> (text: &'static str)
    requires
        d < 10,
    ensures
        text@ == seq![digit_char(d as nat)],
{
    proof {
        reveal_strlit("0");
        reveal_strlit("1");
        reveal_strlit("2");
        reveal_strlit("3");
        reveal_strlit("4");
        reveal_strlit("5");
        reveal_strlit("6");
        reveal_strlit("7");
        reveal_strlit("8");
        reveal_strlit("9");
    }
    let text: &'static str = if d == 0 {
        "0"
    } else if d == 1 {
        "1"
    } else if d == 2 {
        "2"
    } else if d == 3 {
        "3"
    } else if d == 4 {
        "4"
    } else if d == 5 {
        "5"
    } else if d == 6 {
        "6"
    } else if d == 7 {
        "7"
    } else if d == 8 {
        "8"
    } else {
        "9"
    };
    assert(text@ =~= seq![digit_char(d as nat)]);
    text
}

/// Renders `n` in decimal.
pub fn decimal(n: u64) -> (text: String)
    ensures
        text@ == decimal_text(n as nat),
    decreases n,
{
    if n < 10 {
        digit(n).to_owned()
    } else {
        let head: String = decimal(n / 10);
        let last: &'static str = digit(n % 10);
        proof {
            assert(decimal_text((n / 10) as nat) + seq![digit_char((n % 10) as nat)]
                =~= decimal_text((n / 10) as nat).push(digit_char((n % 10) as nat)));
        }
        head.concat(last)
    }
}

/// The number that a string of digits stands for.
pub open spec fn numeral_value(text: Seq<char>) -> int
    decreases text.len(),
{
    if text.len() == 0 {
        0
    } else {
        10 * numeral_value(text.drop_last()) + (text.last() as int - '0' as int)
    }
}

/// Whether `text` is `n` written in decimal: digits alone, no zero in front of
/// other digits, and of the value `n`.
pub open spec fn is_numeral(text: Seq<char>, n: nat) -> bool {
    &&& text.len() > 0
    &&& forall|i: int| 0 <= i < text.len() ==> '0' <= #[trigger] text[i] <= '9'
    &&& text.len() > 1 ==> text[0] != '0'
    &&& numeral_value(text) == n
}

/// What is rendered is the number in decimal.
pub proof fn law_rendered_number_reads_back(n: nat)
    ensures
        is_numeral(decimal_text(n), n),
    decreases n,
{
    reveal_with_fuel(numeral_value, 2);
    let text = decimal_text(n);
    if n >= 10 {
        let head = decimal_text(n / 10);
        law_rendered_number_reads_back(n / 10);
        assert(text.drop_last() =~= head);
        assert(text[0] == head[0]);
        if head.len() == 1 {
            assert(head.drop_last() =~= Seq::empty());
            assert(numeral_value(head) == head[0] as int - '0' as int);
        }
        assert forall|i: int| 0 <= i < text.len() implies '0' <= #[trigger] text[i] <= '9' by {
            if i < head.len() {
                assert(text[i] == head[i]);
            }
        }
    } else {
        assert(text.drop_last() =~= Seq::empty());
    }
}

/// Digits that do not begin with a zero are worth something.
proof fn lemma_numeral_positive(text: Seq<char>)
    requires
        text.len() > 0,
        forall|i: int| 0 <= i < text.len() ==> '0' <= #[trigger] text[i] <= '9',
        text[0] != '0',
    ensures
        numeral_value(text) > 0,
    decreases text.len(),
{
    reveal_with_fuel(numeral_value, 2);
    if text.len() > 1 {
        let head = text.drop_last();
        assert forall|i: int| 0 <= i < head.len() implies '0' <= #[trigger] head[i] <= '9' by {
            assert(head[i] == text[i]);
        }
        assert(head[0] == text[0]);
        lemma_numeral_positive(head);
    } else {
        assert(text.drop_last() =~= Seq::empty());
        assert(text.last() == text[0]);
    }
    assert(text.last() == text[text.len() - 1]);
}

/// A number has one numeral: whatever reads as `n` is what is rendered for `n`.
pub proof fn law_numeral_is_unique(text: Seq<char>, n: nat)
    requires
        is_numeral(text, n),
    ensures
        text == decimal_text(n),
    decreases text.len(),
{
    reveal_with_fuel(numeral_value, 2);
    let head = text.drop_last();
    let d = text.last() as int - '0' as int;
    assert(text.last() == text[text.len() - 1]);
    if text.len() == 1 {
        assert(head =~= Seq::empty());
        assert(text =~= seq![digit_char(n)]);
    } else {
        assert forall|i: int| 0 <= i < head.len() implies '0' <= #[trigger] head[i] <= '9' by {
            assert(head[i] == text[i]);
        }
        assert(head[0] == text[0]);
        lemma_numeral_positive(head);
        assert(numeral_value(head) == n as int / 10 && d == n as int % 10);
        law_numeral_is_unique(head, n / 10);
        assert(text =~= head.push(digit_char(n % 10)));
    }
}

} // verus!
