//! The object store of the command line: where an object lies, and what the
//! header of an object says.

use vstd::prelude::*;
use crate::text::chars_of;
use crate::text::decimal;
use crate::text::joined;
use crate::text::number_text;
use crate::text::same_text;
use crate::text::text_of_range;

verus! {

/// Where the object of a hash lies: below a directory named by the first two
/// characters of the hash, in a file named by the rest.
pub open spec fn object_path_spec(hash: Seq<char>) -> Seq<char> {
    ".gitehr/objects/"@ + hash.subrange(0, 2) + "/"@ + hash.subrange(2, hash.len() as int)
}

/// Where the object of a hash lies.
pub fn object_path(object_hash: &str) -> (r: String)
    requires
        object_hash@.len() >= 2,
    ensures
        r@ == object_path_spec(object_hash@),
{
    let x = chars_of(object_hash);
    let head = text_of_range(&x, 0, 2);
    let tail = text_of_range(&x, 2, x.len());
    let a = joined(".gitehr/objects/", head.as_str());
    let b = joined(a.as_str(), "/");
    joined(b.as_str(), tail.as_str())
}

/// Where the object of a hash lies; `None` for a hash of less than two
/// characters.
pub fn object_path_of(object_hash: &str) -> (r: Option<String>)
    ensures
        object_hash@.len() < 2 ==> r is None,
        object_hash@.len() >= 2 ==> r is Some && r->0@ == object_path_spec(object_hash@),
{
    if chars_of(object_hash).len() < 2 {
        None
    } else {
        Some(object_path(object_hash))
    }
}

/// The value of a decimal digit, if the character is one.
pub open spec fn digit_value(c: char) -> Option<int> {
    let n = c as u32;
    if 0x30 <= n <= 0x39 {
        Some(n - 0x30)
    } else {
        None
    }
}

/// The number that the first `n` characters of `s` from `start` on spell in
/// decimal digits; `None` where one of them is no digit.
pub open spec fn digits_value(s: Seq<char>, start: int, n: int) -> Option<int>
    decreases n,
{
    if n <= 0 {
        Some(0)
    } else {
        match (digits_value(s, start, n - 1), digit_value(s[start + n - 1])) {
            (Some(v), Some(d)) => Some(v * 10 + d),
            _ => None,
        }
    }
}

/// The size that a text spells: decimal digits, after a plus sign or not,
/// at least one, and no more than a `usize` holds.
pub open spec fn parse_size(s: Seq<char>) -> Option<usize> {
    let start = if s.len() > 0 && s[0] == '+' {
        1int
    } else {
        0int
    };
    if s.len() <= start {
        None
    } else {
        match digits_value(s, start, s.len() - start) {
            Some(v) => if v <= usize::MAX {
                Some(v as usize)
            } else {
                None
            },
            None => None,
        }
    }
}

proof fn lemma_digits_grow(s: Seq<char>, start: int, k: int, n: int)
    requires
        0 <= k <= n,
    ensures
        digits_value(s, start, k) is None ==> digits_value(s, start, n) is None,
        digits_value(s, start, n) is Some ==> digits_value(s, start, k) is Some && digits_value(
            s,
            start,
            k,
        )->0 <= digits_value(s, start, n)->0 && digits_value(s, start, k)->0 >= 0,
    decreases n - k,
{
    if k < n {
        lemma_digits_grow(s, start, k, n - 1);
    } else {
        lemma_digits_nonneg(s, start, k);
    }
}

proof fn lemma_digits_nonneg(s: Seq<char>, start: int, n: int)
    ensures
        digits_value(s, start, n) is Some ==> digits_value(s, start, n)->0 >= 0,
    decreases n,
{
    if n > 0 {
        lemma_digits_nonneg(s, start, n - 1);
    }
}

/// The size that a text spells.
pub fn size_of_text(text: &str) -> (r: Option<usize>)
    ensures
        r == parse_size(text@),
{
    let x = chars_of(text);
    let start: usize = if x.len() > 0 && x[0] == '+' {
        1
    } else {
        0
    };
    if x.len() <= start {
        return None;
    }
    let count = x.len() - start;
    let mut value: usize = 0;
    let mut i: usize = 0;
    while i < count
        invariant
            i <= count,
            count == x.len() - start,
            start == if x@.len() > 0 && x@[0] == '+' {
                1int
            } else {
                0int
            },
            x@ == text@,
            digits_value(x@, start as int, i as int) == Some(value as int),
        decreases count - i,
    {
        let c: u32 = x[start + i] as u32;
        if c < 0x30 || c > 0x39 {
            proof {
                lemma_digits_grow(x@, start as int, i + 1, count as int);
            }
            return None;
        }
        let d: usize = (c - 0x30) as usize;
        if value > (usize::MAX - d) / 10 {
            proof {
                assert(value * 10 + d > usize::MAX) by (nonlinear_arith)
                    requires
                        value > (usize::MAX - d) / 10,
                        d <= usize::MAX,
                ;
                lemma_digits_grow(x@, start as int, i + 1, count as int);
            }
            return None;
        }
        assert(value * 10 + d <= usize::MAX) by (nonlinear_arith)
            requires
                value <= (usize::MAX - d) / 10,
                d <= usize::MAX,
        ;
        value = value * 10 + d;
        i += 1;
    }
    Some(value)
}

/// The index of the first space, or the length where there is none.
pub open spec fn first_space(s: Seq<char>, i: int) -> int
    decreases s.len() - i,
{
    if i < 0 || i >= s.len() {
        s.len() as int
    } else if s[i] == ' ' {
        i
    } else {
        first_space(s, i + 1)
    }
}

/// Why the header of an object cannot be used.
#[derive(Debug, Clone)]
pub enum HeaderError {
    /// The header holds no space between a kind and a size.
    NoKind,
    /// The kind is not `blob`.
    UnknownKind,
    /// The size is no size.
    BadSize,
}

impl HeaderError {
    /// The error in words, for a header.
    pub fn message(&self, header: &str) -> (r: String)
        ensures
            match *self {
                HeaderError::NoKind => r@ == ".gitehr/object did not start with a known type: '"@
                    + header@ + "'"@,
                HeaderError::UnknownKind => r@
                    == ".gitehr/object did not start with an implemented type: '"@ + header@
                    + "'"@,
                HeaderError::BadSize => r@ == "invalid blob size"@,
            },
    {
        match self {
            HeaderError::NoKind => {
                let a = joined(".gitehr/object did not start with a known type: '", header);
                joined(a.as_str(), "'")
            },
            HeaderError::UnknownKind => {
                let a = joined(".gitehr/object did not start with an implemented type: '", header);
                joined(a.as_str(), "'")
            },
            HeaderError::BadSize => "invalid blob size".to_owned(),
        }
    }
}

/// What the header of an object says: the size of a blob. The header is a
/// kind, a space, and a size; the only kind is `blob`.
pub open spec fn header_size(header: Seq<char>) -> Result<usize, HeaderError> {
    let at = first_space(header, 0);
    if at >= header.len() {
        Err(HeaderError::NoKind)
    } else if header.subrange(0, at) != "blob"@ {
        Err(HeaderError::UnknownKind)
    } else {
        match parse_size(header.subrange(at + 1, header.len() as int)) {
            Some(n) => Ok(n),
            None => Err(HeaderError::BadSize),
        }
    }
}

/// What the header of an object says.
pub fn parse_object_header(header: &str) -> (r: Result<usize, HeaderError>)
    ensures
        r == header_size(header@),
{
    let x = chars_of(header);
    let mut at: usize = 0;
    while at < x.len() && x[at] != ' '
        invariant
            at <= x.len(),
            first_space(x@, 0) == first_space(x@, at as int),
        decreases x.len() - at,
    {
        at += 1;
    }
    if at >= x.len() {
        return Err(HeaderError::NoKind);
    }
    let kind = text_of_range(&x, 0, at);
    if !same_text(kind.as_str(), "blob") {
        return Err(HeaderError::UnknownKind);
    }
    let size = text_of_range(&x, at + 1, x.len());
    match size_of_text(size.as_str()) {
        Some(n) => Ok(n),
        None => Err(HeaderError::BadSize),
    }
}

/// The header of a blob of a size, before the byte that ends it.
pub fn blob_header(size: usize) -> (r: String)
    ensures
        r@ == "blob "@ + decimal(size as nat),
{
    let n = number_text(size);
    joined("blob ", n.as_str())
}

} // verus!
