//! Text helpers: decimal rendering, joining, and the few `str` operations the pipeline uses.
use vstd::prelude::*;

verus! {

/// The decimal digit for `d`, which is below 10.
pub open spec fn digit_char(d: int) -> char {
    if d == 0 {
        '0'
    } else if d == 1 {
        '1'
    } else if d == 2 {
        '2'
    } else if d == 3 {
        '3'
    } else if d == 4 {
        '4'
    } else if d == 5 {
        '5'
    } else if d == 6 {
        '6'
    } else if d == 7 {
        '7'
    } else if d == 8 {
        '8'
    } else {
        '9'
    }
}

/// The decimal text of `n`, with no leading zeros (what `{}` prints for an unsigned integer).
pub open spec fn decimal(n: nat) -> Seq<char>
    decreases n,
{
    if n < 10 {
        seq![digit_char(n as int)]
    } else {
        decimal(n / 10) + seq![digit_char((n % 10) as int)]
    }
}

/// The decimal text of `i`, with a leading minus sign when negative.
pub open spec fn signed_decimal(i: int) -> Seq<char> {
    if i < 0 {
        seq!['-'] + decimal((-i) as nat)
    } else {
        decimal(i as nat)
    }
}

/// `parts` joined with `sep` between neighbours.
pub open spec fn join(parts: Seq<Seq<char>>, sep: Seq<char>) -> Seq<char>
    decreases parts.len(),
{
    if parts.len() == 0 {
        Seq::empty()
    } else if parts.len() == 1 {
        parts[0]
    } else {
        join(parts.drop_last(), sep) + sep + parts.last()
    }
}

/// The texts of a sequence of strings.
pub open spec fn texts(items: Seq<String>) -> Seq<Seq<char>> {
    items.map_values(|s: String| s@)
}

/// Whether `needle` occurs in `hay` as a contiguous run (the empty needle occurs everywhere).
pub open spec fn has_substring(hay: Seq<char>, needle: Seq<char>) -> bool {
    exists|i: int|
        0 <= i && i + needle.len() <= hay.len() && #[trigger] hay.subrange(i, i + needle.len())
            == needle
}

/// What `str::to_lowercase` returns for a text: Unicode lower-case mapping, which depends on
/// the text alone.
pub uninterp spec fn lowercase(s: Seq<char>) -> Seq<char>;

/// What `format!("{:?}", v)` returns for a `Vec<String>` holding these texts.
pub uninterp spec fn debug_rendering(items: Seq<Seq<char>>) -> Seq<char>;

/// Calls `str::to_lowercase`; the result is named `lowercase` of the argument's text.
#[verifier::external_body]
pub(crate) fn to_lowercase(s: &str) -> (res: String)
    ensures
        res@ == lowercase(s@),
{
    s.to_lowercase()
}

/// Calls `str::contains` with a string pattern, which std documents as true exactly when the
/// pattern matches a sub-slice of the string.
#[verifier::external_body]
pub(crate) fn contains_text(hay: &str, needle: &str) -> (res: bool)
    ensures
        res == has_substring(hay@, needle@),
{
    hay.contains(needle)
}

/// Calls `<str as PartialEq>::eq`: equal exactly when the two texts are the same.
#[verifier::external_body]
pub(crate) fn same_text(a: &str, b: &str) -> (res: bool)
    ensures
        res == (a@ == b@),
{
    a == b
}

/// Renders a list of strings with `{:?}` (std's `Debug` for `Vec<String>`); the result is named
/// `debug_rendering` of the items' texts.
#[verifier::external_body]
pub(crate) fn render_debug_list(items: &Vec<String>) -> (res: String)
    ensures
        res@ == debug_rendering(texts(items@)),
{
    format!("{:?}", items)
}

/// A new string holding the text of `s`.
pub fn owned(s: &str) -> (res: String)
    ensures
        res@ == s@,
{
    String::from_str(s)
}

fn digit_text(d: u64) -> (s: &'static str)
    requires
        d < 10,
    ensures
        s@ == seq![digit_char(d as int)],
{
    if d == 0 {
        proof {
            reveal_strlit("0");
        }
        "0"
    } else if d == 1 {
        proof {
            reveal_strlit("1");
        }
        "1"
    } else if d == 2 {
        proof {
            reveal_strlit("2");
        }
        "2"
    } else if d == 3 {
        proof {
            reveal_strlit("3");
        }
        "3"
    } else if d == 4 {
        proof {
            reveal_strlit("4");
        }
        "4"
    } else if d == 5 {
        proof {
            reveal_strlit("5");
        }
        "5"
    } else if d == 6 {
        proof {
            reveal_strlit("6");
        }
        "6"
    } else if d == 7 {
        proof {
            reveal_strlit("7");
        }
        "7"
    } else if d == 8 {
        proof {
            reveal_strlit("8");
        }
        "8"
    } else {
        proof {
            reveal_strlit("9");
        }
        "9"
    }
}

/// The decimal text of `n`.
pub fn u64_text(n: u64) -> (s: String)
    ensures
        s@ == decimal(n as nat),
    decreases n,
{
    if n < 10 {
        owned(digit_text(n))
    } else {
        let mut s = u64_text(n / 10);
        s.append(digit_text(n % 10));
        s
    }
}

/// The decimal text of `i`, with a minus sign when negative.
pub fn i64_text(i: i64) -> (s: String)
    ensures
        s@ == signed_decimal(i as int),
{
    if i < 0 {
        let magnitude: u64 = if i == i64::MIN {
            9223372036854775808u64
        } else {
            (-i) as u64
        };
        let mut s = String::new();
        proof {
            reveal_strlit("-");
        }
        s.append("-");
        let digits = u64_text(magnitude);
        s.append(digits.as_str());
        s
    } else {
        u64_text(i as u64)
    }
}

/// `parts` joined with `sep`.
pub fn join_texts(parts: &Vec<String>, sep: &str) -> (res: String)
    ensures
        res@ == join(texts(parts@), sep@),
{
    let mut res = String::new();
    let mut i: usize = 0;
    while i < parts.len()
        invariant
            i <= parts.len(),
            res@ == join(texts(parts@.subrange(0, i as int)), sep@),
        decreases parts.len() - i,
    {
        let ghost before = parts@.subrange(0, i as int);
        let ghost after = parts@.subrange(0, i + 1);
        assert(texts(after).drop_last() =~= texts(before));
        if i > 0 {
            res.append(sep);
        }
        res.append(parts[i].as_str());
        i = i + 1;
        proof {
            assert(texts(after).len() == i);
            if i == 1 {
                assert(texts(before) =~= Seq::<Seq<char>>::empty());
                assert(res@ =~= join(texts(after), sep@));
            } else {
                assert(texts(after).last() == parts@[i - 1]@);
            }
        }
    }
    assert(parts@.subrange(0, parts@.len() as int) =~= parts@);
    res
}

} // verus!
