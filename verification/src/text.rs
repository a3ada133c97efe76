//! Small verified string helpers used across the crate: character-wise
//! equality of string slices, decimal rendering of port numbers, and path
//! joining with `/`.

use vstd::prelude::*;
use vstd::string::StrSliceExecFns;
use vstd::string::StringExecFns;

verus! {

/// True iff the two string slices hold the same sequence of characters.
pub fn str_eq(a: &str, b: &str) -> (r: bool)
    ensures
        r == (a@ == b@),
{
    let na = a.unicode_len();
    let nb = b.unicode_len();
    if na != nb {
        proof {
            if a@ == b@ {
                assert(a@.len() == b@.len());
            }
        }
        return false;
    }
    let mut i: usize = 0;
    while i < na
        invariant
            na == a@.len(),
            na == b@.len(),
            i <= na,
            forall|k: int| 0 <= k < i ==> a@[k] == b@[k],
        decreases na - i,
    {
        if a.get_char(i) != b.get_char(i) {
            proof {
                if a@ == b@ {
                    assert(a@[i as int] == b@[i as int]);
                }
            }
            return false;
        }
        i += 1;
    }
    proof {
        assert(a@ =~= b@);
    }
    true
}

/// The character for one decimal digit.
pub open spec fn digit_char(d: int) -> char {
    if d == 0 {
        '0'
    } else if d == 1 {
        '1'
    } else if d == 2 {
        '2'
    } else if d == 3 {
        '3'
    } else if d == 4 {
        '4'
    } else if d == 5 {
        '5'
    } else if d == 6 {
        '6'
    } else if d == 7 {
        '7'
    } else if d == 8 {
        '8'
    } else {
        '9'
    }
}

/// Decimal rendering of a non-negative integer, most significant digit first.
pub open spec fn dec_digits(n: int) -> Seq<char>
    decreases n,
{
    if n < 10 {
        seq![digit_char(n)]
    } else {
        dec_digits(n / 10).push(digit_char(n % 10))
    }
}

fn digit_str(d: u16) -> (s: String)
    requires
        d < 10,
    ensures
        s@ == seq![digit_char(d as int)],
{
    let s = match d {
        0 => String::from_str("0"),
        1 => String::from_str("1"),
        2 => String::from_str("2"),
        3 => String::from_str("3"),
        4 => String::from_str("4"),
        5 => String::from_str("5"),
        6 => String::from_str("6"),
        7 => String::from_str("7"),
        8 => String::from_str("8"),
        _ => String::from_str("9"),
    };
    proof {
        reveal_strlit("0");
        reveal_strlit("1");
        reveal_strlit("2");
        reveal_strlit("3");
        reveal_strlit("4");
        reveal_strlit("5");
        reveal_strlit("6");
        reveal_strlit("7");
        reveal_strlit("8");
        reveal_strlit("9");
        assert(s@ =~= seq![digit_char(d as int)]);
    }
    s
}

/// Renders a port number as a decimal string.
pub fn u16_to_string(n: u16) -> (s: String)
    ensures
        s@ == dec_digits(n as int),
    decreases n,
{
    if n < 10 {
        digit_str(n)
    } else {
        let mut s = u16_to_string(n / 10);
        let d = digit_str(n % 10);
        s.append(d.as_str());
        proof {
            assert(s@ =~= dec_digits((n / 10) as int).push(digit_char((n % 10) as int)));
        }
        s
    }
}

/// Two path components joined with `/`.
pub open spec fn spec_path2(a: Seq<char>, b: Seq<char>) -> Seq<char> {
    a + "/"@ + b
}

/// Three path components joined with `/`.
pub open spec fn spec_path3(a: Seq<char>, b: Seq<char>, c: Seq<char>) -> Seq<char> {
    a + "/"@ + b + "/"@ + c
}

/// Joins two path components with `/`.
pub fn path_join2(a: &str, b: &str) -> (r: String)
    ensures
        r@ == spec_path2(a@, b@),
{
    let mut s = String::from_str(a);
    s.append("/");
    s.append(b);
    s
}

/// Joins three path components with `/`.
pub fn path_join3(a: &str, b: &str, c: &str) -> (r: String)
    ensures
        r@ == spec_path3(a@, b@, c@),
{
    let mut s = String::from_str(a);
    s.append("/");
    s.append(b);
    s.append("/");
    s.append(c);
    s
}

/// Index of the first `.` in `f` at or after position `i`, or `f.len()` if
/// there is none.
pub open spec fn first_dot_from(f: Seq<char>, i: int) -> int
    decreases f.len() - i,
{
    if !(0 <= i < f.len()) {
        f.len() as int
    } else if f[i] == '.' {
        i
    } else {
        first_dot_from(f, i + 1)
    }
}

pub proof fn lemma_first_dot_bounds(f: Seq<char>, i: int)
    requires
        0 <= i <= f.len(),
    ensures
        i <= first_dot_from(f, i) <= f.len(),
    decreases f.len() - i,
{
    if i < f.len() && f[i] != '.' {
        lemma_first_dot_bounds(f, i + 1);
    }
}

/// The document name carried by a filename: everything before the first `.`,
/// or the whole filename if it has none.
pub open spec fn spec_doc_name(f: Seq<char>) -> Seq<char> {
    f.subrange(0, first_dot_from(f, 0))
}

/// Strips the extension from a filename at its first `.`.
pub fn doc_name_of(f: &str) -> (r: String)
    ensures
        r@ == spec_doc_name(f@),
{
    let n = f.unicode_len();
    let mut i: usize = 0;
    while i < n && f.get_char(i) != '.'
        invariant
            n == f@.len(),
            i <= n,
            first_dot_from(f@, 0) == first_dot_from(f@, i as int),
        decreases n - i,
    {
        i += 1;
    }
    proof {
        assert(first_dot_from(f@, i as int) == i);
    }
    let prefix = f.substring_char(0, i);
    String::from_str(prefix)
}

} // verus!
