//! Naming of the battery-backed save files.
use vstd::prelude::*;
use vstd::string::StrSliceExecFns;

verus! {

/// Characters that cannot stand in a save file name; each becomes "__".
pub open spec fn disallowed(c: char) -> bool {
    ||| c == ' ' || c == '\n' || c == '\r' || c == '\\' || c == '/'
    ||| c == '#' || c == '%' || c == '&' || c == '{' || c == '}'
    ||| c == '<' || c == '>' || c == '*' || c == '?' || c == '$'
    ||| c == '!' || c == '\'' || c == '"' || c == ':' || c == '@'
    ||| c == '+' || c == '`' || c == '|' || c == '[' || c == ']'
    ||| c == ',' || c == '.'
}

/// ASCII lower-case letters in upper case; other characters unchanged.
pub open spec fn ascii_upper(c: char) -> char {
    if 'a' <= c && c <= 'z' {
        ((c as u32) - 32) as char
    } else {
        c
    }
}

/// The name with each disallowed character replaced by "__" and ASCII
/// letters in upper case.
pub open spec fn sanitized(s: Seq<char>) -> Seq<char>
    decreases s.len(),
{
    if s.len() == 0 {
        Seq::empty()
    } else {
        sanitized(s.drop_last()) + if disallowed(s.last()) {
            seq!['_', '_']
        } else {
            seq![ascii_upper(s.last())]
        }
    }
}

/// The decimal digit character of `d` (0-9).
pub open spec fn digit_char(d: u8) -> char {
    (48 + d) as char
}

/// The decimal representation of a byte, without leading zeros.
pub open spec fn decimal(n: u8) -> Seq<char> {
    if n >= 100 {
        seq![digit_char(n / 100), digit_char((n / 10) % 10), digit_char(n % 10)]
    } else if n >= 10 {
        seq![digit_char(n / 10), digit_char(n % 10)]
    } else {
        seq![digit_char(n)]
    }
}

/// `SAVE<slot>_<name>.sav`, the name sanitized.
pub open spec fn save_file_name(name: Seq<char>, slot: u8) -> Seq<char> {
    seq!['S', 'A', 'V', 'E'] + decimal(slot) + seq!['_'] + sanitized(name) + seq!['.', 's', 'a', 'v']
}

/// Calls `String::push`, which appends `c`.
#[verifier::external_body]
pub(crate) fn string_push(s: &mut String, c: char)
    ensures
        final(s)@ == old(s)@.push(c),
{
    s.push(c)
}

/// Maps 'a'-'z' to 'A'-'Z' and leaves every other character as it is.
fn char_to_ascii_uppercase(c: char) -> (r: char)
    ensures
        r == ascii_upper(c),
{
    if 'a' <= c && c <= 'z' {
        let b = c as u8;
        ((b - 32) as char)
    } else {
        c
    }
}

fn is_disallowed(c: char) -> (r: bool)
    ensures
        r == disallowed(c),
{
    c == ' ' || c == '\n' || c == '\r' || c == '\\' || c == '/' || c == '#' || c == '%' || c == '&'
        || c == '{' || c == '}' || c == '<' || c == '>' || c == '*' || c == '?' || c == '$' || c
        == '!' || c == '\'' || c == '"' || c == ':' || c == '@' || c == '+' || c == '`' || c == '|'
        || c == '[' || c == ']' || c == ',' || c == '.'
}

fn push_digit(s: &mut String, d: u8)
    requires
        d < 10,
    ensures
        final(s)@ == old(s)@.push(digit_char(d)),
{
    let c = (48u8 + d) as char;
    string_push(s, c);
}

/// Appends the decimal representation of `n`.
pub(crate) fn push_decimal(s: &mut String, n: u8)
    ensures
        final(s)@ == old(s)@ + decimal(n),
{
    let ghost before = s@;
    if n >= 100 {
        push_digit(s, n / 100);
    }
    if n >= 10 {
        push_digit(s, (n / 10) % 10);
    }
    push_digit(s, n % 10);
    assert(s@ =~= before + decimal(n));
}

pub struct SaveManager;

impl SaveManager {
    /// The save file name for a game title and save slot.
    pub fn file_name(name: &str, slot: u8) -> (r: String)
        ensures
            r@ == save_file_name(name@, slot),
    {
        let mut s = String::new();
        string_push(&mut s, 'S');
        string_push(&mut s, 'A');
        string_push(&mut s, 'V');
        string_push(&mut s, 'E');
        push_decimal(&mut s, slot);
        string_push(&mut s, '_');
        let ghost prefix = s@;
        assert(prefix =~= seq!['S', 'A', 'V', 'E'] + decimal(slot) + seq!['_']);
        let n = name.unicode_len();
        let mut i: usize = 0;
        while i < n
            invariant
                i <= n,
                n == name@.len(),
                s@ == prefix + sanitized(name@.subrange(0, i as int)),
            decreases n - i,
        {
            let c = name.get_char(i);
            if is_disallowed(c) {
                string_push(&mut s, '_');
                string_push(&mut s, '_');
            } else {
                string_push(&mut s, char_to_ascii_uppercase(c));
            }
            assert(name@.subrange(0, i + 1).drop_last() =~= name@.subrange(0, i as int));
            i += 1;
        }
        assert(name@.subrange(0, n as int) =~= name@);
        string_push(&mut s, '.');
        string_push(&mut s, 's');
        string_push(&mut s, 'a');
        string_push(&mut s, 'v');
        s
    }
}

} // verus!
