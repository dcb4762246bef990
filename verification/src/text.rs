//! Text that the supervisor produces or decodes: decimal numbers, subprocess
//! output bytes, and quoted strings.

use vstd::prelude::*;
use vstd::string::*;
use vstd::utf8::*;

verus! {

/// The character of one decimal digit.
pub open spec fn digit_char(d: nat) -> char {
    if d == 0 {
        '0'
    } else if d == 1 {
        '1'
    } else if d == 2 {
        '2'
    } else if d == 3 {
        '3'
    } else if d == 4 {
        '4'
    } else if d == 5 {
        '5'
    } else if d == 6 {
        '6'
    } else if d == 7 {
        '7'
    } else if d == 8 {
        '8'
    } else {
        '9'
    }
}

/// The decimal numeral of `n`, most significant digit first, with no leading
/// zero except for zero itself.
pub open spec fn decimal(n: nat) -> Seq<char>
    decreases n,
{
    if n < 10 {
        seq![digit_char(n)]
    } else {
        decimal(n / 10).push(digit_char(n % 10))
    }
}

/// The decimal numeral of an integer: a minus sign before the numeral of the
/// magnitude when it is negative.
pub open spec fn signed_decimal(i: int) -> Seq<char> {
    if i < 0 {
        seq!['-'] + decimal((-i) as nat)
    } else {
        decimal(i as nat)
    }
}

fn digit_str(d: u32) -> (s: &'static str)
    requires
        d < 10,
    ensures
        s@ == seq![digit_char(d as nat)],
{
    proof {
        reveal_strlit("0");
        reveal_strlit("1");
        reveal_strlit("2");
        reveal_strlit("3");
        reveal_strlit("4");
        reveal_strlit("5");
        reveal_strlit("6");
        reveal_strlit("7");
        reveal_strlit("8");
        reveal_strlit("9");
    }
    let s = if d == 0 {
        "0"
    } else if d == 1 {
        "1"
    } else if d == 2 {
        "2"
    } else if d == 3 {
        "3"
    } else if d == 4 {
        "4"
    } else if d == 5 {
        "5"
    } else if d == 6 {
        "6"
    } else if d == 7 {
        "7"
    } else if d == 8 {
        "8"
    } else {
        "9"
    };
    assert(s@ =~= seq![digit_char(d as nat)]);
    s
}

/// Appends the decimal numeral of `n` to `out`.
pub fn push_decimal(out: &mut String, n: u32)
    ensures
        final(out)@ == old(out)@ + decimal(n as nat),
    decreases n,
{
    if n >= 10 {
        push_decimal(out, n / 10);
    }
    out.append(digit_str(n % 10));
    proof {
        if n >= 10 {
            assert(old(out)@ + decimal(n as nat) =~= (old(out)@ + decimal((n / 10) as nat))
                + seq![digit_char((n % 10) as nat)]);
        }
    }
}

/// The decimal numeral of a process id, as a command line carries it.
pub fn pid_text(pid: u32) -> (text: String)
    ensures
        text@ == decimal(pid as nat),
{
    let mut text = String::new();
    push_decimal(&mut text, pid);
    assert(Seq::<char>::empty() + decimal(pid as nat) =~= decimal(pid as nat));
    text
}

/// Appends the decimal numeral of an exit code to `out`.
pub fn push_exit_code(out: &mut String, code: i32)
    ensures
        final(out)@ == old(out)@ + signed_decimal(code as int),
{
    if code < 0 {
        let wide: i64 = code as i64;
        let magnitude: u32 = (-wide) as u32;
        proof {
            reveal_strlit("-");
        }
        out.append("-");
        push_decimal(out, magnitude);
        assert("-"@ =~= seq!['-']);
        assert(old(out)@ + signed_decimal(code as int) =~= (old(out)@ + "-"@) + decimal(
            magnitude as nat,
        ));
    } else {
        push_decimal(out, code as u32);
    }
}

/// What lossy decoding makes of a byte sequence.
pub uninterp spec fn lossy_text(bytes: Seq<u8>) -> Seq<char>;

/// Calls `String::from_utf8_lossy`. The result is a function of the bytes
/// alone. For valid UTF-8 it is the text that the bytes encode; otherwise
/// each invalid sequence is replaced by U+FFFD, which is not spelled out
/// here but named.
#[verifier::external_body]
pub(crate) fn decode_lossy(bytes: &Vec<u8>) -> (text: String)
    ensures
        text@ == lossy_text(bytes@),
        valid_utf8(bytes@) ==> text@ == decode_utf8(bytes@),
{
    String::from_utf8_lossy(bytes).into_owned()
}

/// The text of a chunk of subprocess output: what the bytes encode where
/// they are valid UTF-8, and else what lossy decoding makes of them.
pub open spec fn output_text(bytes: Seq<u8>) -> Seq<char> {
    if valid_utf8(bytes) {
        decode_utf8(bytes)
    } else {
        lossy_text(bytes)
    }
}

/// Decodes subprocess output lossily.
pub fn decode_output(bytes: &Vec<u8>) -> (text: String)
    ensures
        text@ == output_text(bytes@),
{
    decode_lossy(bytes)
}

/// Output written in UTF-8 is decoded verbatim: the bytes that encode a text
/// give that text back.
pub proof fn lemma_utf8_output_is_verbatim(text: Seq<char>)
    ensures
        output_text(encode_utf8(text)) == text,
{
    encode_utf8_valid_utf8(text);
    encode_utf8_decode_utf8(text);
}

/// The greeting for `name`.
pub open spec fn greeting(name: Seq<char>) -> Seq<char> {
    "Hello, "@ + name + "! You've been greeted from Rust!"@
}

/// Greets `name`.
pub fn greet(name: &str) -> (text: String)
    ensures
        text@ == greeting(name@),
{
    let mut text = String::from_str("Hello, ");
    text.append(name);
    text.append("! You've been greeted from Rust!");
    text
}

} // verus!
