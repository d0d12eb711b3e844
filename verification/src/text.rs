//! Text: names as they are sent, and numbers as they are printed.
use vstd::prelude::*;
use vstd::string::StringExecFns;

verus! {

/// The text that a run of bytes stands for when it is read as UTF-8 and each
/// sequence that is no UTF-8 gives way to the replacement character.
pub uninterp spec fn utf8_lossy(bytes: Seq<u8>) -> Seq<char>;

/// Whether every byte is an ASCII character.
pub open spec fn is_ascii(bytes: Seq<u8>) -> bool {
    forall|i: int| 0 <= i < bytes.len() ==> bytes[i] < 128
}

/// The characters that a run of ASCII bytes stands for, one for each byte.
pub open spec fn ascii_text(bytes: Seq<u8>) -> Seq<char> {
    Seq::new(bytes.len(), |i: int| bytes[i] as char)
}

/// `String::from_utf8_lossy` of the standard library, with its result owned.
/// The contract names what it returns. It claims one thing more, which is
/// not proved here: that bytes which are all ASCII, and so are UTF-8 as they
/// stand, give the characters they are.
#[verifier::external_body]
pub(crate) fn lossy_text(bytes: &[u8]) -> (text: String)
    ensures
        text@ == utf8_lossy(bytes@),
        is_ascii(bytes@) ==> text@ == ascii_text(bytes@),
{
    String::from_utf8_lossy(bytes).into_owned()
}

/// How many bytes come before the first zero byte: all of them where there
/// is none.
pub open spec fn text_len(bytes: Seq<u8>) -> nat
    decreases bytes.len(),
{
    if bytes.len() == 0 || bytes[0] == 0 {
        0
    } else {
        1 + text_len(bytes.drop_first())
    }
}

/// The bytes before the first zero byte.
pub open spec fn until_nul(bytes: Seq<u8>) -> Seq<u8> {
    bytes.subrange(0, text_len(bytes) as int)
}

/// `text_len` counts the bytes from the front up to the first zero.
pub proof fn lemma_text_len(bytes: Seq<u8>)
    ensures
        text_len(bytes) <= bytes.len(),
        forall|i: int| 0 <= i < text_len(bytes) ==> bytes[i] != 0,
        text_len(bytes) < bytes.len() ==> bytes[text_len(bytes) as int] == 0,
    decreases bytes.len(),
{
    if bytes.len() != 0 && bytes[0] != 0 {
        let rest = bytes.drop_first();
        lemma_text_len(rest);
        assert forall|i: int| 0 <= i < text_len(bytes) implies bytes[i] != 0 by {
            if i > 0 {
                assert(bytes[i] == rest[i - 1]);
            }
        }
        if text_len(bytes) < bytes.len() {
            assert(bytes[text_len(bytes) as int] == rest[text_len(rest) as int]);
        }
    }
}

/// Where the first `n` bytes are not zero and the next one, if there is one,
/// is, `n` is what `text_len` counts.
pub proof fn lemma_text_len_is(bytes: Seq<u8>, n: int)
    requires
        0 <= n <= bytes.len(),
        forall|i: int| 0 <= i < n ==> bytes[i] != 0,
        n < bytes.len() ==> bytes[n] == 0,
    ensures
        text_len(bytes) == n,
{
    lemma_text_len(bytes);
    let counted = text_len(bytes) as int;
    if counted < n {
        assert(bytes[counted] == 0);
    } else if n < counted {
        assert(bytes[n] != 0);
    }
}

/// The text before the first zero byte of `bytes`.
pub fn text_until_nul(bytes: &[u8]) -> (text: String)
    ensures
        text@ == utf8_lossy(until_nul(bytes@)),
        is_ascii(until_nul(bytes@)) ==> text@ == ascii_text(until_nul(bytes@)),
{
    let mut end: usize = 0;
    while end < bytes.len() && bytes[end] != 0
        invariant
            end <= bytes.len(),
            forall|i: int| 0 <= i < end ==> bytes@[i] != 0,
        decreases bytes.len() - end,
    {
        end += 1;
    }
    proof {
        lemma_text_len_is(bytes@, end as int);
    }
    let front: &[u8] = vstd::slice::slice_subrange(bytes, 0, end);
    lossy_text(front)
}

/// One decimal digit.
pub open spec fn digit_text(digit: int) -> Seq<char> {
    if digit == 0 {
        "0"@
    } else if digit == 1 {
        "1"@
    } else if digit == 2 {
        "2"@
    } else if digit == 3 {
        "3"@
    } else if digit == 4 {
        "4"@
    } else if digit == 5 {
        "5"@
    } else if digit == 6 {
        "6"@
    } else if digit == 7 {
        "7"@
    } else if digit == 8 {
        "8"@
    } else {
        "9"@
    }
}

/// A number in decimal, without leading zeros.
pub open spec fn decimal_text(n: nat) -> Seq<char>
    decreases n,
{
    if n < 10 {
        digit_text(n as int)
    } else {
        decimal_text(n / 10) + digit_text((n % 10) as int)
    }
}

fn digit(value: u8) -> (text: &'static str)
    requires
        value < 10,
    ensures
        text@ == digit_text(value as int),
{
    match value {
        0 => "0",
        1 => "1",
        2 => "2",
        3 => "3",
        4 => "4",
        5 => "5",
        6 => "6",
        7 => "7",
        8 => "8",
        _ => "9",
    }
}

/// A byte in decimal.
pub fn decimal(n: u8) -> (text: String)
    ensures
        text@ == decimal_text(n as nat),
{
    reveal_with_fuel(decimal_text, 3);
    let mut text: String = String::new();
    if n >= 100 {
        text.append(digit(n / 100));
    }
    if n >= 10 {
        text.append(digit(n / 10 % 10));
    }
    text.append(digit(n % 10));
    proof {
        if n >= 100 {
            assert(n as nat / 10 / 10 == n / 100);
        }
        assert(text@ =~= decimal_text(n as nat));
    }
    text
}

} // verus!
