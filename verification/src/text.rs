//! Small operations on text that the request builder needs.

use vstd::prelude::*;

verus! {

/// The character that writes the digit `d`.
pub open spec fn digit_char(d: nat) -> char
    recommends
        d < 10,
{
    if d == 0 {
        '0'
    } else if d == 1 {
        '1'
    } else if d == 2 {
        '2'
    } else if d == 3 {
        '3'
    } else if d == 4 {
        '4'
    } else if d == 5 {
        '5'
    } else if d == 6 {
        '6'
    } else if d == 7 {
        '7'
    } else if d == 8 {
        '8'
    } else {
        '9'
    }
}

/// The decimal numeral of `n`, without leading zeros.
pub open spec fn decimal(n: nat) -> Seq<char>
    decreases n,
{
    if n < 10 {
        seq![digit_char(n)]
    } else {
        decimal(n / 10).push(digit_char(n % 10))
    }
}

/// The number that a character writes as a digit.
pub open spec fn digit_value(c: char) -> int {
    c as int - '0' as int
}

/// The number that a text of digits writes, read as a decimal numeral.
pub open spec fn numeral_value(text: Seq<char>) -> int
    decreases text.len(),
{
    if text.len() == 0 {
        0
    } else {
        numeral_value(text.drop_last()) * 10 + digit_value(text.last())
    }
}

/// A decimal numeral reads back as its number. It has at least one digit,
/// nothing but digits, and no zero in front unless it is the numeral of zero.
pub proof fn lemma_decimal_reads_back(n: nat)
    ensures
        numeral_value(decimal(n)) == n,
        decimal(n).len() >= 1,
        forall|i: int| 0 <= i < decimal(n).len() ==> '0' <= #[trigger] decimal(n)[i] <= '9',
        n > 0 ==> decimal(n)[0] != '0',
    decreases n,
{
    if n < 10 {
        assert(seq![digit_char(n)].drop_last() =~= Seq::<char>::empty());
        assert(numeral_value(Seq::<char>::empty()) == 0);
    } else {
        lemma_decimal_reads_back(n / 10);
        let front = decimal(n / 10);
        assert(front.push(digit_char(n % 10)).drop_last() =~= front);
        assert(decimal(n)[0] == front[0]);
    }
}

/// The one-character text of a digit.
fn digit_text(d: u64) -> (text: &'static str)
    requires
        d < 10,
    ensures
        text@ == seq![digit_char(d as nat)],
{
    proof {
        reveal_strlit("0");
        reveal_strlit("1");
        reveal_strlit("2");
        reveal_strlit("3");
        reveal_strlit("4");
        reveal_strlit("5");
        reveal_strlit("6");
        reveal_strlit("7");
        reveal_strlit("8");
        reveal_strlit("9");
    }
    let text = if d == 0 {
        "0"
    } else if d == 1 {
        "1"
    } else if d == 2 {
        "2"
    } else if d == 3 {
        "3"
    } else if d == 4 {
        "4"
    } else if d == 5 {
        "5"
    } else if d == 6 {
        "6"
    } else if d == 7 {
        "7"
    } else if d == 8 {
        "8"
    } else {
        "9"
    };
    assert(text@ =~= seq![digit_char(d as nat)]);
    text
}

/// Writes the decimal numeral of `n` at the end of `buffer`.
pub fn append_decimal(buffer: &mut String, n: u64)
    ensures
        final(buffer)@ == old(buffer)@ + decimal(n as nat),
    decreases n,
{
    if n >= 10 {
        append_decimal(buffer, n / 10);
    }
    buffer.append(digit_text(n % 10));
    assert(buffer@ =~= old(buffer)@ + decimal(n as nat));
}

/// The code of `c` with the ASCII capitals folded onto the small letters.
pub open spec fn folded(c: char) -> int {
    if 'A' <= c && c <= 'Z' {
        c as int + 32
    } else {
        c as int
    }
}

/// Whether two texts are the same when ASCII letters are compared without
/// regard to case.
pub open spec fn same_ignoring_case(a: Seq<char>, b: Seq<char>) -> bool {
    &&& a.len() == b.len()
    &&& forall|i: int| 0 <= i < a.len() ==> folded(#[trigger] a[i]) == folded(b[i])
}

fn fold_char(c: char) -> (code: u32)
    ensures
        code == folded(c),
{
    let code: u32 = c as u32;
    if 65 <= code && code <= 90 {
        code + 32
    } else {
        code
    }
}

/// Compares two texts without regard to the case of ASCII letters.
pub fn eq_ignore_case(a: &str, b: &str) -> (same: bool)
    ensures
        same == same_ignoring_case(a@, b@),
{
    let n = a.unicode_len();
    if b.unicode_len() != n {
        return false;
    }
    let mut i: usize = 0;
    while i < n
        invariant
            n == a@.len(),
            n == b@.len(),
            i <= n,
            forall|j: int| 0 <= j < i ==> folded(#[trigger] a@[j]) == folded(b@[j]),
        decreases n - i,
    {
        if fold_char(a.get_char(i)) != fold_char(b.get_char(i)) {
            return false;
        }
        i += 1;
    }
    true
}

/// Whether two texts are the same, character by character.
pub fn text_eq(a: &str, b: &str) -> (same: bool)
    ensures
        same == (a@ == b@),
{
    let n = a.unicode_len();
    if b.unicode_len() != n {
        return false;
    }
    let mut i: usize = 0;
    while i < n
        invariant
            n == a@.len(),
            n == b@.len(),
            i <= n,
            forall|j: int| 0 <= j < i ==> a@[j] == b@[j],
        decreases n - i,
    {
        if a.get_char(i) != b.get_char(i) {
            return false;
        }
        i += 1;
    }
    assert(a@ =~= b@);
    true
}

/// The deep view of a byte vector is its view.
pub proof fn lemma_bytes_deep_view(bytes: Vec<u8>)
    ensures
        bytes.deep_view() == bytes@,
{
    assert(bytes.deep_view() =~= bytes@);
}

} // verus!
