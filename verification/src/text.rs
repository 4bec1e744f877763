//! Text helpers: repeated strings, decimal numbers and the validation of
//! what the user typed.

use vstd::prelude::*;
use vstd::string::StringExecFns;

verus! {

/// `s` written `n` times in a row; nothing when `n <= 0`.
pub open spec fn repeat(s: Seq<char>, n: int) -> Seq<char>
    decreases n,
{
    if n <= 0 {
        Seq::empty()
    } else {
        repeat(s, n - 1) + s
    }
}

/// `n` line breaks (none when `n <= 0`).
pub open spec fn newlines(n: int) -> Seq<char> {
    repeat("\n"@, n)
}

/// `n` tabulators (none when `n <= 0`).
pub open spec fn tabs(n: int) -> Seq<char> {
    repeat("\t"@, n)
}

/// Few copies of a string, spelled out.
pub proof fn lemma_repeat_small(s: Seq<char>)
    ensures
        repeat(s, 0) == Seq::<char>::empty(),
        repeat(s, 1) == s,
        repeat(s, 2) == s + s,
{
    assert(repeat(s, 0) == Seq::<char>::empty());
    assert(repeat(s, 1) == repeat(s, 0) + s);
    assert(repeat(s, 1) =~= s);
    assert(repeat(s, 2) == repeat(s, 1) + s);
    assert(repeat(s, 2) =~= s + s);
}

/// The string `character` repeated `amount` times; empty for `amount <= 0`.
pub fn quick_maker(amount: i32, character: &str) -> (s: String)
    ensures
        s@ == repeat(character@, amount as int),
{
    let mut s = String::new();
    let mut i: i32 = 0;
    while i < amount
        invariant
            0 <= i,
            amount >= 0 ==> i <= amount,
            amount < 0 ==> i == 0,
            s@ == repeat(character@, i as int),
        decreases amount - i,
    {
        s.append(character);
        i = i + 1;
    }
    s
}

/// `amount` line breaks.
pub fn newliner(amount: i32) -> (s: String)
    ensures
        s@ == newlines(amount as int),
{
    quick_maker(amount, "\n")
}

/// `amount` tabulators.
pub fn tabber(amount: i32) -> (s: String)
    ensures
        s@ == tabs(amount as int),
{
    quick_maker(amount, "\t")
}


/// The character of a decimal digit.
pub open spec fn digit_char(d: nat) -> char {
    if d == 0 {
        '0'
    } else if d == 1 {
        '1'
    } else if d == 2 {
        '2'
    } else if d == 3 {
        '3'
    } else if d == 4 {
        '4'
    } else if d == 5 {
        '5'
    } else if d == 6 {
        '6'
    } else if d == 7 {
        '7'
    } else if d == 8 {
        '8'
    } else {
        '9'
    }
}

/// The decimal representation of `n`, without leading zeros.
pub open spec fn decimal(n: nat) -> Seq<char>
    decreases n,
{
    if n < 10 {
        seq![digit_char(n)]
    } else {
        decimal(n / 10).push(digit_char(n % 10))
    }
}

fn digit_str(d: usize) -> (r: &'static str)
    requires
        d < 10,
    ensures
        r@ == seq![digit_char(d as nat)],
{
    if d == 0 {
        proof { reveal_strlit("0"); }
        "0"
    } else if d == 1 {
        proof { reveal_strlit("1"); }
        "1"
    } else if d == 2 {
        proof { reveal_strlit("2"); }
        "2"
    } else if d == 3 {
        proof { reveal_strlit("3"); }
        "3"
    } else if d == 4 {
        proof { reveal_strlit("4"); }
        "4"
    } else if d == 5 {
        proof { reveal_strlit("5"); }
        "5"
    } else if d == 6 {
        proof { reveal_strlit("6"); }
        "6"
    } else if d == 7 {
        proof { reveal_strlit("7"); }
        "7"
    } else if d == 8 {
        proof { reveal_strlit("8"); }
        "8"
    } else {
        proof { reveal_strlit("9"); }
        "9"
    }
}

/// `n` written in decimal.
pub fn decimal_string(n: usize) -> (s: String)
    ensures
        s@ == decimal(n as nat),
    decreases n,
{
    if n < 10 {
        digit_str(n).to_owned()
    } else {
        let mut s = decimal_string(n / 10);
        s.append(digit_str(n % 10));
        s
    }
}

/// Whether `c` is one of the ASCII digits `0` to `9`.
pub open spec fn is_ascii_digit(c: char) -> bool {
    '0' <= c && c <= '9'
}

/// The value of a string of decimal digits, most significant first.
pub open spec fn digits_value(s: Seq<char>) -> int
    decreases s.len(),
{
    if s.len() == 0 {
        0
    } else {
        digits_value(s.drop_last()) * 10 + (s.last() as int - '0' as int)
    }
}

/// The part of `s` that holds the digits of an unsigned number: `s` without
/// one leading `+`.
pub open spec fn unsigned_digits(s: Seq<char>) -> Seq<char> {
    if s.len() > 0 && s[0] == '+' {
        s.drop_first()
    } else {
        s
    }
}

/// Whether `s` is the decimal text of a `usize`: an optional `+`, then one or
/// more ASCII digits whose value fits in a `usize`.
pub open spec fn parses_as_usize(s: Seq<char>) -> bool {
    let d = unsigned_digits(s);
    &&& d.len() > 0
    &&& forall|i: int| 0 <= i < d.len() ==> is_ascii_digit(#[trigger] d[i])
    &&& digits_value(d) <= usize::MAX
}

/// The number that `s` writes, where `parses_as_usize(s)`.
pub open spec fn usize_value(s: Seq<char>) -> int {
    digits_value(unsigned_digits(s))
}

/// The text of the error that std's integer parser reports for `s`.
pub uninterp spec fn parse_int_error_text(s: Seq<char>) -> Seq<char>;

/// Calls std's `str::parse::<usize>`. Claimed of it: it succeeds exactly on
/// an optional `+` followed by ASCII digits whose value fits in a `usize`, and
/// then returns that value; otherwise the error's text, which depends on the
/// input alone, is returned under a name.
#[verifier::external_body]
fn parse_usize(s: &str) -> (r: Result<usize, String>)
    ensures
        r is Ok <==> parses_as_usize(s@),
        r matches Ok(n) ==> n as int == usize_value(s@),
        r matches Err(e) ==> e@ == parse_int_error_text(s@),
{
    match s.parse::<usize>() {
        Ok(n) => Ok(n),
        Err(e) => Err(e.to_string()),
    }
}

/// What `validate_input` gives for the text `input` and a list of `len`
/// items: the index it names, or the message shown to the user.
pub open spec fn validation(input: Seq<char>, len: nat) -> Result<int, Seq<char>> {
    if !parses_as_usize(input) {
        Err("Err: "@ + parse_int_error_text(input))
    } else if usize_value(input) < len {
        Ok(usize_value(input))
    } else {
        Err("Err: Input is not valid"@)
    }
}

/// What `accept_index` gives for the outcome of reading a number and a
/// list of `len` items.
pub open spec fn index_acceptance(parsed: Result<int, Seq<char>>, len: nat) -> Result<int, Seq<char>> {
    match parsed {
        Err(e) => Err("Err: "@ + e),
        Ok(n) => if n < len {
            Ok(n)
        } else {
            Err("Err: Input is not valid"@)
        },
    }
}

/// The texts of the outcome of reading a number.
pub open spec fn parsed_view(parsed: Result<usize, String>) -> Result<int, Seq<char>> {
    match parsed {
        Ok(n) => Ok(n as int),
        Err(e) => Err(e@),
    }
}

/// Takes the outcome of reading a number: the number if it indexes a list of
/// `len` items, otherwise the message shown to the user.
pub fn accept_index(parsed: Result<usize, String>, len: usize) -> (r: Result<usize, String>)
    ensures
        r matches Ok(n) ==> index_acceptance(parsed_view(parsed), len as nat) == Ok::<
            int,
            Seq<char>,
        >(n as int),
        r matches Err(e) ==> index_acceptance(parsed_view(parsed), len as nat) == Err::<
            int,
            Seq<char>,
        >(e@),
{
    match parsed {
        Ok(n) => if n < len {
            Ok(n)
        } else {
            Err("Err: Input is not valid".to_owned())
        },
        Err(err) => {
            let mut msg = "Err: ".to_owned();
            msg.append(err.as_str());
            Err(msg)
        },
    }
}

/// Reads `input` as an index into `acceptable_input`.
pub fn validate_input<T>(input: &str, acceptable_input: &Vec<T>) -> (r: Result<usize, String>)
    ensures
        r matches Ok(n) ==> validation(input@, acceptable_input.len() as nat) == Ok::<int, Seq<char>>(n as int),
        r matches Err(e) ==> validation(input@, acceptable_input.len() as nat) == Err::<int, Seq<char>>(e@),
        r matches Ok(n) ==> n < acceptable_input.len(),
{
    accept_index(parse_usize(input), acceptable_input.len())
}

/// The text of a line read from the user, or of the error met reading it.
pub open spec fn input_view(input: Result<String, String>) -> Result<Seq<char>, Seq<char>> {
    match input {
        Ok(s) => Ok(s@),
        Err(e) => Err(e@),
    }
}

/// What `completely_validate_input` gives: a read error is passed on, a lone
/// tabulator (the request to go back) comes back as an error carrying
/// itself, anything else is validated as an index.
pub open spec fn full_validation(input: Result<Seq<char>, Seq<char>>, len: nat) -> Result<
    int,
    Seq<char>,
> {
    match input {
        Err(e) => Err(e),
        Ok(s) => if s == "\t"@ {
            Err(s)
        } else {
            validation(s, len)
        },
    }
}

/// Validates a line read from the user as an index into `list`.
pub fn completely_validate_input<T>(list: &Vec<T>, input: Result<String, String>) -> (r: Result<
    usize,
    String,
>)
    ensures
        r matches Ok(n) ==> full_validation(input_view(input), list.len() as nat) == Ok::<int, Seq<char>>(n as int),
        r matches Err(e) ==> full_validation(input_view(input), list.len() as nat) == Err::<int, Seq<char>>(e@),
        r matches Ok(n) ==> n < list.len(),
{
    let input = match input {
        Ok(s) => s,
        Err(e) => return Err(e),
    };
    let tab = "\t".to_owned();
    if input == tab {
        return Err(input);
    }
    validate_input(input.as_str(), list)
}

} // verus!
