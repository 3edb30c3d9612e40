//! Command interpretation: raw text maps, after whitespace trimming and
//! case folding, to a closed set of intents — the four movement directions,
//! quit, or invalid. Invalid is a legitimate interpreter output for
//! unrecognized input, not an error.

use vstd::prelude::*;
use vstd::string::StrSliceExecFns;

verus! {

/// The closed set of intents a raw command can mean. `Quit` and `Invalid`
/// are interpreter outputs, never wired into the world graph.
#[derive(Debug, PartialEq, Eq, Structural, Clone, Copy)]
pub enum Direction {
    North,
    South,
    East,
    West,
    Quit,
    Invalid,
}

/// The whitespace characters trimming removes from either end of a command:
/// the Unicode white-space set, by code point.
pub open spec fn is_space(c: char) -> bool {
    let u = c as u32;
    ||| u == 0x20
    ||| 0x9 <= u && u <= 0xD
    ||| u == 0x85
    ||| u == 0xA0
    ||| u == 0x1680
    ||| 0x2000 <= u && u <= 0x200A
    ||| u == 0x2028
    ||| u == 0x2029
    ||| u == 0x202F
    ||| u == 0x205F
    ||| u == 0x3000
}

/// `s` without its leading whitespace.
pub open spec fn trim_front(s: Seq<char>) -> Seq<char>
    decreases s.len(),
{
    if s.len() > 0 && is_space(s[0]) {
        trim_front(s.drop_first())
    } else {
        s
    }
}

/// `s` without its trailing whitespace.
pub open spec fn trim_back(s: Seq<char>) -> Seq<char>
    decreases s.len(),
{
    if s.len() > 0 && is_space(s[s.len() - 1]) {
        trim_back(s.drop_last())
    } else {
        s
    }
}

/// `s` without leading or trailing whitespace.
pub open spec fn trimmed(s: Seq<char>) -> Seq<char> {
    trim_back(trim_front(s))
}

/// The case-folded code of a character: uppercase ASCII letters map to the
/// code of their lowercase form, every other character to its own code.
pub open spec fn low_code(c: char) -> u32 {
    if 'A' as u32 <= c as u32 && c as u32 <= 'Z' as u32 {
        (c as u32 + 32) as u32
    } else {
        c as u32
    }
}

/// The case-folded codes of a whole sequence of characters.
pub open spec fn low_codes(s: Seq<char>) -> Seq<u32> {
    s.map_values(|c: char| low_code(c))
}

/// The fixed token table, matched against already-trimmed input after case
/// folding: a single letter and a full word are synonyms for each direction,
/// two tokens mean quit, and anything else is invalid.
pub open spec fn interpret(t: Seq<char>) -> Direction {
    let l = low_codes(t);
    if l == seq!['n' as u32] || l == seq!['n' as u32, 'o' as u32, 'r' as u32, 't' as u32, 'h' as u32] {
        Direction::North
    } else if l == seq!['s' as u32] || l == seq![
        's' as u32,
        'o' as u32,
        'u' as u32,
        't' as u32,
        'h' as u32,
    ] {
        Direction::South
    } else if l == seq!['e' as u32] || l == seq!['e' as u32, 'a' as u32, 's' as u32, 't' as u32] {
        Direction::East
    } else if l == seq!['w' as u32] || l == seq!['w' as u32, 'e' as u32, 's' as u32, 't' as u32] {
        Direction::West
    } else if l == seq!['q' as u32] || l == seq!['q' as u32, 'u' as u32, 'i' as u32, 't' as u32] {
        Direction::Quit
    } else {
        Direction::Invalid
    }
}

/// What a raw command line means: its trimmed, case-folded text looked up in
/// the token table.
pub open spec fn parse_spec(s: Seq<char>) -> Direction {
    interpret(trimmed(s))
}

fn is_space_exec(c: char) -> (r: bool)
    ensures
        r == is_space(c),
{
    let u = c as u32;
    u == 0x20 || (0x9 <= u && u <= 0xD) || u == 0x85 || u == 0xA0 || u == 0x1680 || (0x2000 <= u
        && u <= 0x200A) || u == 0x2028 || u == 0x2029 || u == 0x202F || u == 0x205F || u == 0x3000
}

fn low_code_exec(c: char) -> (r: u32)
    ensures
        r == low_code(c),
{
    let u = c as u32;
    if 65 <= u && u <= 90 {
        u + 32
    } else {
        u
    }
}

/// Whether the characters of `s` between `start` and `end` equal `token`
/// after case folding.
fn token_eq(s: &str, start: usize, end: usize, token: &str) -> (r: bool)
    requires
        start <= end <= s@.len(),
    ensures
        r == (low_codes(s@.subrange(start as int, end as int)) == low_codes(token@)),
{
    let tn = token.unicode_len();
    if end - start != tn {
        proof {
            assert(low_codes(s@.subrange(start as int, end as int)).len() == end - start);
            assert(low_codes(token@).len() == tn);
        }
        return false;
    }
    let ghost sub = s@.subrange(start as int, end as int);
    let mut i: usize = 0;
    while i < tn
        invariant
            start <= end <= s@.len(),
            tn == token@.len(),
            end - start == tn,
            i <= tn,
            sub == s@.subrange(start as int, end as int),
            forall|j: int| 0 <= j < i ==> low_code(sub[j]) == low_code(token@[j]),
        decreases tn - i,
    {
        let sc = low_code_exec(s.get_char(start + i));
        let tc = low_code_exec(token.get_char(i));
        if sc != tc {
            proof {
                assert(low_codes(sub)[i as int] != low_codes(token@)[i as int]);
            }
            return false;
        }
        i += 1;
    }
    proof {
        assert(low_codes(sub) =~= low_codes(token@));
    }
    true
}

/// Maps one raw line of input to its intent: case-insensitive,
/// whitespace-trimmed matching against the fixed token table, with anything
/// unrecognized yielding `Invalid`.
pub fn parse_command(input: &str) -> (d: Direction)
    ensures
        d == parse_spec(input@),
{
    let n = input.unicode_len();
    proof {
        assert(input@.subrange(0, n as int) =~= input@);
    }
    let mut start: usize = 0;
    while start < n && is_space_exec(input.get_char(start))
        invariant
            n == input@.len(),
            start <= n,
            trim_front(input@) == trim_front(input@.subrange(start as int, n as int)),
        decreases n - start,
    {
        proof {
            let pre = input@.subrange(start as int, n as int);
            assert(pre.drop_first() =~= input@.subrange(start + 1, n as int));
        }
        start += 1;
    }
    proof {
        assert(trim_front(input@) == input@.subrange(start as int, n as int));
    }
    let mut end: usize = n;
    while end > start && is_space_exec(input.get_char(end - 1))
        invariant
            n == input@.len(),
            start <= end <= n,
            trim_front(input@) == input@.subrange(start as int, n as int),
            trim_back(input@.subrange(start as int, n as int)) == trim_back(
                input@.subrange(start as int, end as int),
            ),
        decreases end,
    {
        proof {
            let pre = input@.subrange(start as int, end as int);
            assert(pre.drop_last() =~= input@.subrange(start as int, end - 1));
        }
        end -= 1;
    }
    proof {
        assert(trimmed(input@) == input@.subrange(start as int, end as int));
        reveal_strlit("n");
        reveal_strlit("north");
        reveal_strlit("s");
        reveal_strlit("south");
        reveal_strlit("e");
        reveal_strlit("east");
        reveal_strlit("w");
        reveal_strlit("west");
        reveal_strlit("q");
        reveal_strlit("quit");
        assert(low_codes("n"@) =~= seq!['n' as u32]);
        assert(low_codes("north"@) =~= seq![
            'n' as u32,
            'o' as u32,
            'r' as u32,
            't' as u32,
            'h' as u32,
        ]);
        assert(low_codes("s"@) =~= seq!['s' as u32]);
        assert(low_codes("south"@) =~= seq![
            's' as u32,
            'o' as u32,
            'u' as u32,
            't' as u32,
            'h' as u32,
        ]);
        assert(low_codes("e"@) =~= seq!['e' as u32]);
        assert(low_codes("east"@) =~= seq!['e' as u32, 'a' as u32, 's' as u32, 't' as u32]);
        assert(low_codes("w"@) =~= seq!['w' as u32]);
        assert(low_codes("west"@) =~= seq!['w' as u32, 'e' as u32, 's' as u32, 't' as u32]);
        assert(low_codes("q"@) =~= seq!['q' as u32]);
        assert(low_codes("quit"@) =~= seq!['q' as u32, 'u' as u32, 'i' as u32, 't' as u32]);
    }
    if token_eq(input, start, end, "n") || token_eq(input, start, end, "north") {
        Direction::North
    } else if token_eq(input, start, end, "s") || token_eq(input, start, end, "south") {
        Direction::South
    } else if token_eq(input, start, end, "e") || token_eq(input, start, end, "east") {
        Direction::East
    } else if token_eq(input, start, end, "w") || token_eq(input, start, end, "west") {
        Direction::West
    } else if token_eq(input, start, end, "q") || token_eq(input, start, end, "quit") {
        Direction::Quit
    } else {
        Direction::Invalid
    }
}

/// True exactly of the four movement intents.
pub open spec fn is_move(d: Direction) -> bool {
    d == Direction::North || d == Direction::South || d == Direction::East || d
        == Direction::West
}

} // verus!
