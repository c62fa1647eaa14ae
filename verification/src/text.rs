//! Plain-text building blocks: decimal rendering of timestamps and
//! character-wise substitution, both stated over sequences of characters.

use vstd::prelude::*;
use vstd::string::*;

verus! {

/// The character for one decimal digit.
pub open spec fn digit_char(d: nat) -> char {
    if d == 0 {
        '0'
    } else if d == 1 {
        '1'
    } else if d == 2 {
        '2'
    } else if d == 3 {
        '3'
    } else if d == 4 {
        '4'
    } else if d == 5 {
        '5'
    } else if d == 6 {
        '6'
    } else if d == 7 {
        '7'
    } else if d == 8 {
        '8'
    } else {
        '9'
    }
}

/// The decimal representation of `n`, most significant digit first,
/// with no leading zeros (a single `'0'` for zero itself).
pub open spec fn dec_of(n: nat) -> Seq<char>
    decreases n,
{
    if n < 10 {
        seq![digit_char(n)]
    } else {
        dec_of(n / 10).push(digit_char(n % 10))
    }
}

/// Appending one character to a `String`.
/// Relies on `String::push`: it adds exactly the given character at the end.
pub assume_specification[ String::push ](s: &mut String, c: char)
    ensures
        final(s)@ == old(s)@.push(c),
;

fn digit_to_char(d: u64) -> (c: char)
    requires
        d < 10,
    ensures
        c == digit_char(d as nat),
{
    if d == 0 {
        '0'
    } else if d == 1 {
        '1'
    } else if d == 2 {
        '2'
    } else if d == 3 {
        '3'
    } else if d == 4 {
        '4'
    } else if d == 5 {
        '5'
    } else if d == 6 {
        '6'
    } else if d == 7 {
        '7'
    } else if d == 8 {
        '8'
    } else {
        '9'
    }
}

/// Renders `n` in decimal.
pub fn u64_to_dec_string(n: u64) -> (r: String)
    ensures
        r@ == dec_of(n as nat),
    decreases n,
{
    if n < 10 {
        let mut s = String::new();
        s.push(digit_to_char(n));
        proof {
            assert(s@ =~= dec_of(n as nat));
        }
        s
    } else {
        let mut s = u64_to_dec_string(n / 10);
        s.push(digit_to_char(n % 10));
        s
    }
}

/// `'-'` where `c` is a space, otherwise `c` itself.
pub open spec fn hyphenate_char(c: char) -> char {
    if c == ' ' {
        '-'
    } else {
        c
    }
}

/// `s` with every space replaced by a hyphen.
pub open spec fn hyphenate(s: Seq<char>) -> Seq<char> {
    s.map_values(|c: char| hyphenate_char(c))
}

/// What Unicode lowercasing makes of `s`.
pub uninterp spec fn lower_of(s: Seq<char>) -> Seq<char>;

/// Relies on `str::to_lowercase`: its result depends on the characters alone.
#[verifier::external_body]
fn to_lowercase(s: &str) -> (r: String)
    ensures
        r@ == lower_of(s@),
{
    s.to_lowercase()
}

/// The URL slug of a title: the title lower-cased, with spaces turned
/// into hyphens.
pub open spec fn slug_of(title: Seq<char>) -> Seq<char> {
    hyphenate(lower_of(title))
}

fn replace_spaces(s: &str) -> (r: String)
    ensures
        r@ == hyphenate(s@),
{
    let len = s.unicode_len();
    let mut r = String::new();
    let mut i: usize = 0;
    while i < len
        invariant
            i <= len,
            len == s@.len(),
            r@ == hyphenate(s@.take(i as int)),
        decreases len - i,
    {
        let c = s.get_char(i);
        if c == ' ' {
            r.push('-');
        } else {
            r.push(c);
        }
        proof {
            assert(hyphenate(s@.take(i + 1 as int)) =~= hyphenate(s@.take(i as int)).push(
                hyphenate_char(s@[i as int]),
            ));
        }
        i = i + 1;
    }
    proof {
        assert(s@.take(len as int) =~= s@);
    }
    r
}

/// Computes the URL slug of a title.
pub fn slugify(title: &str) -> (r: String)
    ensures
        r@ == slug_of(title@),
{
    let lower = to_lowercase(title);
    replace_spaces(lower.as_str())
}

/// The body of a Note: the post title, a separator line, and the post
/// content, concatenated in that literal order.
pub open spec fn note_content_of(title: Seq<char>, body: Seq<char>) -> Seq<char> {
    title + "\n---\n\n"@ + body
}

/// Builds the Note body for a post.
pub fn note_content(title: &str, body: &str) -> (r: String)
    ensures
        r@ == note_content_of(title@, body@),
{
    let mut s = String::from_str(title);
    s.append("\n---\n\n");
    s.append(body);
    s
}

} // verus!
