//! The code table: one symbol string of dots and dashes for each of the
//! letters `A`-`Z` (in either case) and the digits `0`-`9`.
use vstd::prelude::*;

verus! {

/// Number of characters the table covers: 26 letters and 10 digits.
pub const TABLE_SIZE: usize = 36;

/// Longest symbol string in the table.
pub const MAX_SYMBOL_LEN: usize = 5;

/// The symbol string at position `i` of the table: letters `A`-`Z` first,
/// then digits `0`-`9`.
pub open spec fn code_at(i: int) -> Seq<char> {
    if i == 0 {
        ".-"@
    } else if i == 1 {
        "-..."@
    } else if i == 2 {
        "-.-."@
    } else if i == 3 {
        "-.."@
    } else if i == 4 {
        "."@
    } else if i == 5 {
        "..-."@
    } else if i == 6 {
        "--."@
    } else if i == 7 {
        "...."@
    } else if i == 8 {
        ".."@
    } else if i == 9 {
        ".---"@
    } else if i == 10 {
        "-.-"@
    } else if i == 11 {
        ".-.."@
    } else if i == 12 {
        "--"@
    } else if i == 13 {
        "-."@
    } else if i == 14 {
        "---"@
    } else if i == 15 {
        ".--."@
    } else if i == 16 {
        "--.-"@
    } else if i == 17 {
        ".-."@
    } else if i == 18 {
        "..."@
    } else if i == 19 {
        "-"@
    } else if i == 20 {
        "..-"@
    } else if i == 21 {
        "...-"@
    } else if i == 22 {
        ".--"@
    } else if i == 23 {
        "-..-"@
    } else if i == 24 {
        "-.--"@
    } else if i == 25 {
        "--.."@
    } else if i == 26 {
        "-----"@
    } else if i == 27 {
        ".----"@
    } else if i == 28 {
        "..---"@
    } else if i == 29 {
        "...--"@
    } else if i == 30 {
        "....-"@
    } else if i == 31 {
        "....."@
    } else if i == 32 {
        "-...."@
    } else if i == 33 {
        "--..."@
    } else if i == 34 {
        "---.."@
    } else if i == 35 {
        "----."@
    } else {
        Seq::empty()
    }
}

/// The table position of a supported character, letters folded to upper case.
pub open spec fn table_index(c: char) -> int {
    if 'A' <= c <= 'Z' {
        c as int - 'A' as int
    } else if 'a' <= c <= 'z' {
        c as int - 'a' as int
    } else {
        c as int - '0' as int + 26
    }
}

/// Whether the table has a symbol for `c`.
pub open spec fn is_supported(c: char) -> bool {
    ('A' <= c <= 'Z') || ('a' <= c <= 'z') || ('0' <= c <= '9')
}

/// What `lookup` returns, as a sequence of characters.
pub open spec fn spec_lookup(c: char) -> Option<Seq<char>> {
    if is_supported(c) {
        Some(code_at(table_index(c)))
    } else {
        None
    }
}

/// A symbol string: nonempty, made of `.` and `-` only.
pub open spec fn is_symbol(s: Seq<char>) -> bool {
    s.len() > 0 && forall|k: int| 0 <= k < s.len() ==> (s[k] == '.' || s[k] == '-')
}

/// The symbol string at table position `i`.
pub fn code_at_index(i: usize) -> (r: &'static str)
    requires
        i < TABLE_SIZE,
    ensures
        r@ == code_at(i as int),
{
    match i {
        0 => ".-",
        1 => "-...",
        2 => "-.-.",
        3 => "-..",
        4 => ".",
        5 => "..-.",
        6 => "--.",
        7 => "....",
        8 => "..",
        9 => ".---",
        10 => "-.-",
        11 => ".-..",
        12 => "--",
        13 => "-.",
        14 => "---",
        15 => ".--.",
        16 => "--.-",
        17 => ".-.",
        18 => "...",
        19 => "-",
        20 => "..-",
        21 => "...-",
        22 => ".--",
        23 => "-..-",
        24 => "-.--",
        25 => "--..",
        26 => "-----",
        27 => ".----",
        28 => "..---",
        29 => "...--",
        30 => "....-",
        31 => ".....",
        32 => "-....",
        33 => "--...",
        34 => "---..",
        35 => "----.",
        _ => "",
    }
}

/// The Morse symbol of `c`, or `None` where the table has no entry for it.
/// Letters are looked up without regard to case.
pub fn lookup(c: char) -> (r: Option<&'static str>)
    ensures
        match r {
            Some(s) => spec_lookup(c) == Some(s@),
            None => spec_lookup(c) is None,
        },
{
    let u = c as u32;
    if 'A' as u32 <= u && u <= 'Z' as u32 {
        Some(code_at_index((u - 'A' as u32) as usize))
    } else if 'a' as u32 <= u && u <= 'z' as u32 {
        Some(code_at_index((u - 'a' as u32) as usize))
    } else if '0' as u32 <= u && u <= '9' as u32 {
        Some(code_at_index((u - '0' as u32 + 26) as usize))
    } else {
        None
    }
}

/// Every table entry is a symbol string of dots and dashes.
pub proof fn lemma_code_at_is_symbol(i: int)
    requires
        0 <= i < TABLE_SIZE,
    ensures
        is_symbol(code_at(i)),
        code_at(i).len() <= MAX_SYMBOL_LEN,
{
    reveal_strlit("-");
    reveal_strlit("--");
    reveal_strlit("---");
    reveal_strlit("-----");
    reveal_strlit("----.");
    reveal_strlit("---..");
    reveal_strlit("--.");
    reveal_strlit("--.-");
    reveal_strlit("--..");
    reveal_strlit("--...");
    reveal_strlit("-.");
    reveal_strlit("-.-");
    reveal_strlit("-.--");
    reveal_strlit("-.-.");
    reveal_strlit("-..");
    reveal_strlit("-..-");
    reveal_strlit("-...");
    reveal_strlit("-....");
    reveal_strlit(".");
    reveal_strlit(".-");
    reveal_strlit(".--");
    reveal_strlit(".---");
    reveal_strlit(".----");
    reveal_strlit(".--.");
    reveal_strlit(".-.");
    reveal_strlit(".-..");
    reveal_strlit("..");
    reveal_strlit("..-");
    reveal_strlit("..---");
    reveal_strlit("..-.");
    reveal_strlit("...");
    reveal_strlit("...-");
    reveal_strlit("...--");
    reveal_strlit("....");
    reveal_strlit("....-");
    reveal_strlit(".....");
}

/// Every letter and digit has a symbol string of dots and dashes.
pub proof fn lemma_lookup_total(c: char)
    requires
        is_supported(c),
    ensures
        spec_lookup(c) is Some,
        is_symbol(spec_lookup(c)->Some_0),
{
    lemma_code_at_is_symbol(table_index(c));
}

/// A lower case letter has the same symbol as its upper case counterpart.
pub proof fn lemma_lookup_ignores_case(lower: char, upper: char)
    requires
        'a' <= lower <= 'z',
        upper as int == lower as int - ('a' as int - 'A' as int),
    ensures
        spec_lookup(lower) == spec_lookup(upper),
{
}

} // verus!
