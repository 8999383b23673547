use vstd::prelude::*;
use vstd::string::*;

use crate::error::Error;

verus! {

/// A byte that may stand in a tag: an ASCII letter or digit, `_` or `-`.
pub open spec fn is_tag_byte(b: u8) -> bool {
    ||| 0x41 <= b <= 0x5a
    ||| 0x61 <= b <= 0x7a
    ||| 0x30 <= b <= 0x39
    ||| b == 0x5f
    ||| b == 0x2d
}

/// A character that may stand in a tag: `[A-Za-z0-9_-]`.
pub open spec fn is_tag_char(c: char) -> bool {
    (c as u32) < 0x80 && is_tag_byte(c as u32 as u8)
}

/// A valid tag: at least one character, each of them in `[A-Za-z0-9_-]`.
pub open spec fn is_valid_tag(s: Seq<char>) -> bool {
    &&& s.len() >= 1
    &&& forall|i: int| 0 <= i < s.len() ==> is_tag_char(#[trigger] s[i])
}

/// The name of the cache file of a tag.
pub open spec fn tag_file_name(tag: Seq<char>) -> Seq<char> {
    tag + ".json"@
}

/// Whether `bch` may stand in a tag.
pub fn valid_tag_bch(bch: u8) -> (r: bool)
    ensures
        r == is_tag_byte(bch),
{
    (0x41 <= bch && bch <= 0x5a)  // A-Z
     || (0x61 <= bch && bch <= 0x7a)  // a-z
     || (0x30 <= bch && bch <= 0x39)  // 0-9
     || bch == 0x5f  // _
     || bch == 0x2d  // -
}

fn valid_tag_char(c: char) -> (r: bool)
    ensures
        r == is_tag_char(c),
{
    let code = c as u32;
    code < 0x80 && valid_tag_bch(code as u8)
}

/// Whether `tag` is non-empty and made of `[A-Za-z0-9_-]` only.
pub fn tag_is_valid(tag: &str) -> (r: bool)
    ensures
        r == is_valid_tag(tag@),
{
    let n = tag.unicode_len();
    if n == 0 {
        return false;
    }
    let mut i: usize = 0;
    while i < n
        invariant
            n == tag@.len(),
            i <= n,
            forall|j: int| 0 <= j < i ==> is_tag_char(#[trigger] tag@[j]),
        decreases n - i,
    {
        let c = tag.get_char(i);
        if !valid_tag_char(c) {
            return false;
        }
        i = i + 1;
    }
    true
}

/// Accepts a valid tag; rejects any other with [`Error::InvalidTag`].
pub fn check_tag(tag: &str) -> (r: Result<(), Error>)
    ensures
        r is Ok <==> is_valid_tag(tag@),
        r matches Err(e) ==> (e matches Error::InvalidTag(t) && t@ == tag@),
{
    if tag_is_valid(tag) {
        Ok(())
    } else {
        Err(Error::InvalidTag(tag.to_owned()))
    }
}

/// The cache file name of a tag, `<tag>.json`, once the tag is checked.
pub fn create_file_name(tag: &str) -> (r: Result<String, Error>)
    ensures
        r is Ok <==> is_valid_tag(tag@),
        r matches Ok(f) ==> f@ == tag_file_name(tag@),
        r matches Err(e) ==> (e matches Error::InvalidTag(t) && t@ == tag@),
{
    check_tag(tag)?;
    let mut name = tag.to_owned();
    name.append(".json");
    Ok(name)
}

} // verus!
