//! Text building: decimal numbers and trimming.

use vstd::prelude::*;

verus! {

/// The text of an optional string.
pub open spec fn optional_text(text: Option<String>) -> Option<Seq<char>> {
    match text {
        Some(text) => Some(text@),
        None => None,
    }
}

/// The digit character of `d`, for `d` below ten.
pub open spec fn digit(d: nat) -> char {
    (48 + d) as char
}

/// The decimal digits of `n`, most significant first, without leading zeros.
pub open spec fn decimal(n: nat) -> Seq<char>
    decreases n,
{
    if n < 10 {
        seq![digit(n)]
    } else {
        decimal(n / 10).push(digit(n % 10))
    }
}

/// The decimal text of a signed number: a minus sign before the digits of a
/// negative one.
pub open spec fn signed_decimal(n: int) -> Seq<char> {
    if n < 0 {
        seq!['-'] + decimal((-n) as nat)
    } else {
        decimal(n as nat)
    }
}

/// The text of a number is that of its tenth with its last digit behind, and
/// nothing but digits, the first of which is `0` for zero alone.
pub proof fn law_decimal(n: nat)
    ensures
        n < 10 ==> decimal(n).len() == 1,
        n >= 10 ==> decimal(n).len() == decimal(n / 10).len() + 1 && decimal(n).drop_last()
            == decimal(n / 10),
        decimal(n).len() > 0,
        decimal(n).last() as u32 == 0x30 + n % 10,
        forall|i: int|
            0 <= i < decimal(n).len() ==> 0x30 <= #[trigger] decimal(n)[i] as u32 <= 0x39,
        decimal(n).first() as u32 == 0x30 <==> n == 0,
        signed_decimal(n as int) == decimal(n),
        n > 0 ==> signed_decimal(-n) == seq!['-'] + decimal(n),
    decreases n,
{
    if n >= 10 {
        law_decimal(n / 10);
        let front = decimal(n / 10);
        assert(decimal(n).drop_last() =~= front);
        assert(decimal(n).first() == front.first());
        assert forall|i: int| 0 <= i < decimal(n).len() implies 0x30 <= #[trigger] decimal(
            n,
        )[i] as u32 <= 0x39 by {
            if i < front.len() {
                assert(decimal(n)[i] == front[i]);
            }
        }
    }
}

fn digit_text(d: u64) -> (text: &'static str)
    requires
        d < 10,
    ensures
        text@ == seq![digit(d as nat)],
{
    proof {
        reveal_strlit("0");
        reveal_strlit("1");
        reveal_strlit("2");
        reveal_strlit("3");
        reveal_strlit("4");
        reveal_strlit("5");
        reveal_strlit("6");
        reveal_strlit("7");
        reveal_strlit("8");
        reveal_strlit("9");
    }
    match d {
        0 => "0",
        1 => "1",
        2 => "2",
        3 => "3",
        4 => "4",
        5 => "5",
        6 => "6",
        7 => "7",
        8 => "8",
        _ => "9",
    }
}

/// Writes `n` in decimal.
pub fn decimal_text(n: u64) -> (text: String)
    ensures
        text@ == decimal(n as nat),
    decreases n,
{
    let mut text = if n < 10 {
        String::new()
    } else {
        decimal_text(n / 10)
    };
    text.append(digit_text(n % 10));
    text
}

/// Writes a signed `n` in decimal.
pub fn signed_decimal_text(n: i32) -> (text: String)
    ensures
        text@ == signed_decimal(n as int),
{
    if n < 0 {
        proof {
            reveal_strlit("-");
        }
        let magnitude: u64 = (-(n as i64)) as u64;
        let digits = decimal_text(magnitude);
        let text = String::from_str("-").concat(digits.as_str());
        assert(text@ == signed_decimal(n as int));
        text
    } else {
        decimal_text(n as u64)
    }
}

/// The characters with the Unicode property `White_Space`.
pub open spec fn is_white_space(c: char) -> bool {
    ||| 0x09 <= c as u32 <= 0x0d
    ||| c as u32 == 0x20
    ||| c as u32 == 0x85
    ||| c as u32 == 0xa0
    ||| c as u32 == 0x1680
    ||| 0x2000 <= c as u32 <= 0x200a
    ||| 0x2028 <= c as u32 <= 0x2029
    ||| c as u32 == 0x202f
    ||| c as u32 == 0x205f
    ||| c as u32 == 0x3000
}

/// `text` without the white space at its front.
pub open spec fn trimmed_front(text: Seq<char>) -> Seq<char>
    decreases text.len(),
{
    if text.len() > 0 && is_white_space(text.first()) {
        trimmed_front(text.drop_first())
    } else {
        text
    }
}

/// `text` without the white space at its back.
pub open spec fn trimmed_back(text: Seq<char>) -> Seq<char>
    decreases text.len(),
{
    if text.len() > 0 && is_white_space(text.last()) {
        trimmed_back(text.drop_last())
    } else {
        text
    }
}

/// `text` without the white space at its two ends.
pub open spec fn trimmed(text: Seq<char>) -> Seq<char> {
    trimmed_back(trimmed_front(text))
}

/// Calls [`str::trim`], which removes the white space, in the sense of the
/// Unicode property `White_Space`, at the two ends of a text.
#[verifier::external_body]
pub(crate) fn trim(text: &str) -> (inner: String)
    ensures
        inner@ == trimmed(text@),
{
    text.trim().to_string()
}

/// A text that neither begins nor ends in white space.
pub open spec fn is_tight(text: Seq<char>) -> bool {
    text.len() > 0 ==> !is_white_space(text.first()) && !is_white_space(text.last())
}

/// Trimming a line gives back the text that the line was made of, if that
/// text neither begins nor ends in white space.
pub proof fn law_trim_undoes_line_end(text: Seq<char>)
    requires
        is_tight(text),
    ensures
        trimmed(text + "\n"@) == text,
{
    reveal_strlit("\n");
    let line = text + "\n"@;
    assert("\n"@ =~= seq!['\n']);
    assert(line.last() == '\n');
    assert(line.drop_last() =~= text);
    if text.len() == 0 {
        assert(line.drop_first() =~= Seq::<char>::empty());
        assert(trimmed_front(line) == trimmed_front(line.drop_first()));
    } else {
        assert(line.first() == text.first());
        assert(trimmed_front(line) == line);
        assert(trimmed_back(line) == trimmed_back(text));
    }
}

/// Blanks, tabs and line ends are white space; visible ASCII characters are
/// not.
pub proof fn law_white_space(c: char)
    ensures
        c == ' ' || c == '\t' || c == '\n' || c == '\r' ==> is_white_space(c),
        0x21 <= c as u32 <= 0x7e ==> !is_white_space(c),
        c as u32 == 0x85 || c as u32 == 0xa0 || c as u32 == 0x3000 || 0x2000 <= c as u32 <= 0x200a
            ==> is_white_space(c),
        c as u32 == 0x200b || c as u32 == 0xfeff ==> !is_white_space(c),
{
}

proof fn lemma_trimmed_front_of(front: Seq<char>, text: Seq<char>)
    requires
        forall|i: int| 0 <= i < front.len() ==> is_white_space(#[trigger] front[i]),
        text.len() > 0,
        !is_white_space(text.first()),
    ensures
        trimmed_front(front + text) == text,
    decreases front.len(),
{
    let whole = front + text;
    if front.len() == 0 {
        assert(whole =~= text);
    } else {
        assert(whole.first() == front[0]);
        let rest = front.drop_first();
        assert(whole.drop_first() =~= rest + text);
        assert forall|i: int| 0 <= i < rest.len() implies is_white_space(#[trigger] rest[i]) by {
            assert(rest[i] == front[i + 1]);
        }
        lemma_trimmed_front_of(rest, text);
    }
}

proof fn lemma_trimmed_back_of(text: Seq<char>, back: Seq<char>)
    requires
        forall|i: int| 0 <= i < back.len() ==> is_white_space(#[trigger] back[i]),
        text.len() > 0,
        !is_white_space(text.last()),
    ensures
        trimmed_back(text + back) == text,
    decreases back.len(),
{
    let whole = text + back;
    if back.len() == 0 {
        assert(whole =~= text);
    } else {
        assert(whole.last() == back[back.len() - 1]);
        let rest = back.drop_last();
        assert(whole.drop_last() =~= text + rest);
        assert forall|i: int| 0 <= i < rest.len() implies is_white_space(#[trigger] rest[i]) by {
            assert(rest[i] == back[i]);
        }
        lemma_trimmed_back_of(text, rest);
    }
}

/// Trimming takes off the white space around a text, and leaves the text with
/// all that is inside it.
pub proof fn law_trim_takes_off_white_space(front: Seq<char>, text: Seq<char>, back: Seq<char>)
    requires
        forall|i: int| 0 <= i < front.len() ==> is_white_space(#[trigger] front[i]),
        forall|i: int| 0 <= i < back.len() ==> is_white_space(#[trigger] back[i]),
        text.len() > 0,
        !is_white_space(text.first()),
        !is_white_space(text.last()),
    ensures
        trimmed(front + text + back) == text,
{
    let tail = text + back;
    assert(front + text + back =~= front + tail);
    assert(tail.first() == text.first());
    lemma_trimmed_front_of(front, tail);
    lemma_trimmed_back_of(text, back);
}

/// Trimming twice is trimming once: what trimming leaves is tight, and a tight
/// text is left as it is.
pub proof fn law_trim_is_idempotent(text: Seq<char>)
    ensures
        is_tight(trimmed(text)),
        trimmed(trimmed(text)) == trimmed(text),
{
    lemma_trimmed_front(text);
    lemma_trimmed_back(trimmed_front(text));
}

proof fn lemma_trimmed_front(text: Seq<char>)
    ensures
        trimmed_front(text).len() > 0 ==> !is_white_space(trimmed_front(text).first()),
    decreases text.len(),
{
    if text.len() > 0 && is_white_space(text.first()) {
        lemma_trimmed_front(text.drop_first());
    }
}

proof fn lemma_trimmed_back(text: Seq<char>)
    requires
        text.len() > 0 ==> !is_white_space(text.first()),
    ensures
        is_tight(trimmed_back(text)),
        trimmed_back(text).len() > 0 ==> trimmed_back(text).first() == text.first(),
    decreases text.len(),
{
    if text.len() > 0 && is_white_space(text.last()) {
        if text.len() > 1 {
            assert(text.drop_last().first() == text.first());
        }
        lemma_trimmed_back(text.drop_last());
    }
}

} // verus!
