//! A provider that fills a square with one color, either configured as a
//! six-digit hex string or drawn at random per fetch.

use vstd::prelude::*;
use vstd::string::StrSliceExecFns;
use crate::avatar_image::{fits_in_memory, random_color, solid_avatar, Avatar, Rgba};
use crate::avatar_provider::{AvatarProvider, FetchError};

verus! {

/// A hexadecimal digit, either case.
pub open spec fn is_hex_digit(c: char) -> bool {
    ||| 48 <= c as int <= 57
    ||| 65 <= c as int <= 70
    ||| 97 <= c as int <= 102
}

/// The value a hexadecimal digit denotes.
pub open spec fn hex_digit_value(c: char) -> int {
    if 48 <= c as int <= 57 {
        c as int - 48
    } else if 65 <= c as int <= 70 {
        c as int - 55
    } else {
        c as int - 87
    }
}

/// The position of the first character that is not a leading `#`.
pub open spec fn hash_prefix_end(s: Seq<char>, i: int) -> int
    decreases s.len() - i,
{
    if 0 <= i < s.len() && s[i] == '#' {
        hash_prefix_end(s, i + 1)
    } else {
        i
    }
}

/// The color text with every leading `#` stripped.
pub open spec fn stripped_color_text(s: Seq<char>) -> Seq<char> {
    s.subrange(hash_prefix_end(s, 0), s.len() as int)
}

/// Exactly six hexadecimal digits once the leading hashes are gone.
pub open spec fn valid_hex_color(s: Seq<char>) -> bool {
    &&& stripped_color_text(s).len() == 6
    &&& forall|i: int| 0 <= i < 6 ==> is_hex_digit(#[trigger] stripped_color_text(s)[i])
}

/// The value of a pair of hexadecimal digits.
pub open spec fn hex_pair_value(hi: char, lo: char) -> int {
    hex_digit_value(hi) * 16 + hex_digit_value(lo)
}

proof fn lemma_hash_prefix_end(s: Seq<char>, i: int)
    requires
        0 <= i <= s.len(),
    ensures
        i <= hash_prefix_end(s, i) <= s.len(),
    decreases s.len() - i,
{
    if i < s.len() && s[i] == '#' {
        lemma_hash_prefix_end(s, i + 1);
    }
}

/// The value of one hexadecimal digit character, or `None` where the
/// character is no such digit.
fn hex_digit(c: char) -> (r: Option<u8>)
    ensures
        r is Some <==> is_hex_digit(c),
        r matches Some(v) ==> v as int == hex_digit_value(c) && v <= 15,
{
    let u = c as u32;
    if 48 <= u && u <= 57 {
        Some((u - 48) as u8)
    } else if 65 <= u && u <= 70 {
        Some((u - 55) as u8)
    } else if 97 <= u && u <= 102 {
        Some((u - 87) as u8)
    } else {
        None
    }
}

fn hash_at(text: &str, j: usize) -> (b: bool)
    requires
        j < text@.len(),
    ensures
        b == (text@[j as int] == '#'),
{
    text.get_char(j) == '#'
}

/// Parses a color written as six hexadecimal digits, with any number of
/// leading `#` characters allowed. The alpha channel is fully opaque.
pub fn parse_hex_color(hex: &str) -> (r: Result<Rgba, String>)
    ensures
        r is Ok <==> valid_hex_color(hex@),
        r matches Ok(c) ==> ({
            let t = stripped_color_text(hex@);
            &&& c.r as int == hex_pair_value(t[0], t[1])
            &&& c.g as int == hex_pair_value(t[2], t[3])
            &&& c.b as int == hex_pair_value(t[4], t[5])
            &&& c.a == 255
        }),
{
    let ghost s = hex@;
    let n = hex.unicode_len();
    let mut p: usize = 0;
    proof {
        lemma_hash_prefix_end(s, 0);
    }
    while p < n && hash_at(hex, p)
        invariant
            s == hex@,
            n == s.len(),
            0 <= p <= n,
            hash_prefix_end(s, 0) == hash_prefix_end(s, p as int),
        decreases n - p,
    {
        p += 1;
    }
    proof {
        assert(hash_prefix_end(s, p as int) == p as int);
    }
    let ghost t = stripped_color_text(s);
    if n - p != 6 {
        return Err("invalid hex color length".to_owned());
    }
    assert(t.len() == 6);
    let d0 = hex_digit(hex.get_char(p));
    let d1 = hex_digit(hex.get_char(p + 1));
    let d2 = hex_digit(hex.get_char(p + 2));
    let d3 = hex_digit(hex.get_char(p + 3));
    let d4 = hex_digit(hex.get_char(p + 4));
    let d5 = hex_digit(hex.get_char(p + 5));
    proof {
        assert(t[0] == s[p as int]);
        assert(t[1] == s[p as int + 1]);
        assert(t[2] == s[p as int + 2]);
        assert(t[3] == s[p as int + 3]);
        assert(t[4] == s[p as int + 4]);
        assert(t[5] == s[p as int + 5]);
    }
    match (d0, d1, d2, d3, d4, d5) {
        (Some(v0), Some(v1), Some(v2), Some(v3), Some(v4), Some(v5)) => {
            let c = Rgba { r: v0 * 16 + v1, g: v2 * 16 + v3, b: v4 * 16 + v5, a: 255 };
            Ok(c)
        },
        _ => Err("invalid hex color".to_owned()),
    }
}

/// A provider that returns a solid square each time. With no configured
/// color, a fresh random one is drawn per fetch. It has no failure mode
/// and never exhausts.
#[derive(Clone, Copy, Debug)]
pub struct SolidColorProvider {
    pub size: u32,
    pub color: Option<Rgba>,
}

impl SolidColorProvider {
    pub fn new(size: u32, color: Option<Rgba>) -> (r: Self)
        requires
            fits_in_memory(size, size),
        ensures
            r.size == size,
            r.color == color,
    {
        SolidColorProvider { size, color }
    }
}

impl Default for SolidColorProvider {
    /// A 512-pixel square with a random color per fetch.
    fn default() -> (r: Self)
        ensures
            r.size == 512,
            r.color is None,
    {
        SolidColorProvider { size: 512, color: None }
    }
}

impl AvatarProvider for SolidColorProvider {
    open spec fn wf(&self) -> bool {
        fits_in_memory(self.size, self.size)
    }

    open spec fn is_exhausted(&self) -> bool {
        false
    }

    open spec fn left(&self) -> Option<nat> {
        None
    }

    open spec fn fetch_post(pre: Self, post: Self, r: Result<Avatar, FetchError>) -> bool {
        &&& post == pre
        &&& r matches Ok(av) && av.width() == pre.size && av.height() == pre.size
    }

    fn fetch_avatar(&mut self) -> (r: Result<Avatar, FetchError>) {
        let color = match &self.color {
            Some(c) => *c,
            None => random_color(),
        };
        Ok(solid_avatar(self.size, &color))
    }

    fn how_much_is_left(&self) -> (r: Option<usize>) {
        None
    }
}

} // verus!
