//! Reading a package's version out of a lock file.
//!
//! An entry is `name = "<name>"`, a line break, any run of white space, then
//! `version = "<version>"`; neither value is empty or holds a quote. Entries are found
//! from left to right without overlap, and the first one naming the package counts.
use vstd::prelude::*;
use vstd::string::*;

use crate::version::{optional_model, parsed_version, Version};

verus! {

pub open spec fn name_key() -> Seq<char> {
    seq!['n', 'a', 'm', 'e', ' ', '=', ' ', '"']
}

pub open spec fn version_key() -> Seq<char> {
    seq!['v', 'e', 'r', 's', 'i', 'o', 'n', ' ', '=', ' ', '"']
}

/// The characters of the Unicode `White_Space` property.
pub open spec fn is_space(c: char) -> bool {
    let n = c as u32;
    (0x9 <= n <= 0xd) || n == 0x20 || n == 0x85 || n == 0xa0 || n == 0x1680 || (0x2000 <= n
        <= 0x200a) || n == 0x2028 || n == 0x2029 || n == 0x202f || n == 0x205f || n == 0x3000
}

pub open spec fn has_at(s: Seq<char>, p: int, w: Seq<char>) -> bool {
    0 <= p && p + w.len() <= s.len() && s.subrange(p, p + w.len()) == w
}

/// The first position at or after `q` that holds a quote, or the end.
pub open spec fn quote_from(s: Seq<char>, q: int) -> int
    decreases s.len() - q,
{
    if q >= s.len() || q < 0 {
        s.len() as int
    } else if s[q] == '"' {
        q
    } else {
        quote_from(s, q + 1)
    }
}

/// The first position at or after `q` that holds no white space, or the end.
pub open spec fn space_end(s: Seq<char>, q: int) -> int
    decreases s.len() - q,
{
    if q >= s.len() || q < 0 {
        s.len() as int
    } else if !is_space(s[q]) {
        q
    } else {
        space_end(s, q + 1)
    }
}

/// Where an entry starting at `p` lies: the name, the version, and the entry's end.
pub struct LockEntry {
    pub name_start: int,
    pub name_end: int,
    pub version_start: int,
    pub version_end: int,
}

/// The entry that starts at `p`, if one does.
pub open spec fn entry_at(s: Seq<char>, p: int) -> Option<LockEntry> {
    let a = p + 8;
    let e1 = quote_from(s, a);
    let w = space_end(s, e1 + 2);
    let b = w + 11;
    let e2 = quote_from(s, b);
    if has_at(s, p, name_key()) && a < e1 && e1 + 1 < s.len() && s[e1 + 1] == '\n' && e1 + 2 <= w
        && has_at(s, w, version_key()) && b < e2 < s.len() {
        Some(LockEntry { name_start: a, name_end: e1, version_start: b, version_end: e2 })
    } else {
        None
    }
}

/// The version text of the first entry at or after `pos` that names `package`.
pub open spec fn version_text_from(s: Seq<char>, package: Seq<char>, pos: int) -> Option<
    Seq<char>,
>
    decreases s.len() - pos,
{
    if pos >= s.len() || pos < 0 {
        None
    } else {
        match entry_at(s, pos) {
            Some(m) => if s.subrange(m.name_start, m.name_end) == package {
                Some(s.subrange(m.version_start, m.version_end))
            } else {
                version_text_from(s, package, m.version_end + 1)
            },
            None => version_text_from(s, package, pos + 1),
        }
    }
}

/// The version a lock file records for a package: that of its first entry, parsed.
pub open spec fn locked_version(lock: Seq<char>, package: Seq<char>) -> Option<
    crate::version::VersionModel,
> {
    match version_text_from(lock, package, 0) {
        Some(text) => parsed_version(text),
        None => None,
    }
}

fn chars_of(text: &str) -> (r: Vec<char>)
    ensures
        r@ == text@,
{
    broadcast use vstd::string::group_string_axioms;

    let mut r: Vec<char> = Vec::new();
    for c in it: text.chars()
        invariant
            r@ == it.history(),
    {
        r.push(c);
    }
    r
}

fn is_space_char(c: char) -> (r: bool)
    ensures
        r == is_space(c),
{
    let n = c as u32;
    (0x9 <= n && n <= 0xd) || n == 0x20 || n == 0x85 || n == 0xa0 || n == 0x1680 || (0x2000 <= n
        && n <= 0x200a) || n == 0x2028 || n == 0x2029 || n == 0x202f || n == 0x205f || n == 0x3000
}

fn has_at_exec(s: &Vec<char>, p: usize, w: &Vec<char>) -> (r: bool)
    ensures
        r == has_at(s@, p as int, w@),
{
    if w.len() > s.len() || p > s.len() - w.len() {
        return false;
    }
    let mut i: usize = 0;
    while i < w.len()
        invariant
            0 <= i <= w.len(),
            p + w.len() <= s.len(),
            forall|j: int| 0 <= j < i ==> s@[p + j] == w@[j],
        decreases w.len() - i,
    {
        if s[p + i] != w[i] {
            assert(s@.subrange(p as int, p + w.len())[i as int] != w@[i as int]);
            return false;
        }
        i += 1;
    }
    assert(s@.subrange(p as int, p + w.len()) =~= w@);
    true
}

fn quote_from_exec(s: &Vec<char>, q: usize) -> (r: usize)
    ensures
        r == quote_from(s@, q as int),
        r <= s.len(),
        q <= s.len() ==> q <= r,
{
    let mut i = q;
    while i < s.len()
        invariant
            q <= i,
            i <= s.len() || i == q,
            quote_from(s@, i as int) == quote_from(s@, q as int),
        decreases s.len() - i,
    {
        if s[i] == '"' {
            return i;
        }
        i += 1;
    }
    s.len()
}

fn space_end_exec(s: &Vec<char>, q: usize) -> (r: usize)
    ensures
        r == space_end(s@, q as int),
        r <= s.len(),
        q <= s.len() ==> q <= r,
{
    let mut i = q;
    while i < s.len()
        invariant
            q <= i,
            i <= s.len() || i == q,
            space_end(s@, i as int) == space_end(s@, q as int),
        decreases s.len() - i,
    {
        if !is_space_char(s[i]) {
            return i;
        }
        i += 1;
    }
    s.len()
}

fn range_equals(s: &Vec<char>, start: usize, end: usize, w: &Vec<char>) -> (r: bool)
    requires
        start <= end <= s.len(),
    ensures
        r == (s@.subrange(start as int, end as int) == w@),
{
    if end - start != w.len() {
        return false;
    }
    has_at_exec(s, start, w)
}

/// Positions `(name_start, name_end, version_start, version_end)` of the entry at `p`.
fn entry_at_exec(s: &Vec<char>, p: usize, name_marker: &Vec<char>, version_marker: &Vec<char>) -> (r: Option<
    (usize, usize, usize, usize),
>)
    requires
        p < s.len(),
        name_marker@ == name_key(),
        version_marker@ == version_key(),
    ensures
        match entry_at(s@, p as int) {
            Some(m) => r == Some(
                (
                    m.name_start as usize,
                    m.name_end as usize,
                    m.version_start as usize,
                    m.version_end as usize,
                ),
            ),
            None => r is None,
        },
{
    if !has_at_exec(s, p, name_marker) {
        return None;
    }
    let a = p + 8;
    let e1 = quote_from_exec(s, a);
    if !(a < e1 && e1 < s.len() - 1) {
        return None;
    }
    if s[e1 + 1] != '\n' {
        return None;
    }
    let w = space_end_exec(s, e1 + 2);
    if !(e1 + 2 <= w) || !has_at_exec(s, w, version_marker) {
        return None;
    }
    let b = w + 11;
    let e2 = quote_from_exec(s, b);
    if !(b < e2 && e2 < s.len()) {
        return None;
    }
    Some((a, e1, b, e2))
}

/// The version that `cargo_lock` records for `package_name`: the first entry naming the
/// package decides; `None` where no entry names it or its version does not parse.
pub fn find_version(package_name: &str, cargo_lock: &str) -> (r: Option<Version>)
    ensures
        optional_model(r) == locked_version(cargo_lock@, package_name@),
{
    let s = chars_of(cargo_lock);
    let package = chars_of(package_name);
    let name_marker = vec!['n', 'a', 'm', 'e', ' ', '=', ' ', '"'];
    let version_marker = vec!['v', 'e', 'r', 's', 'i', 'o', 'n', ' ', '=', ' ', '"'];
    assert(name_marker@ =~= name_key());
    assert(version_marker@ =~= version_key());
    let mut pos: usize = 0;
    while pos < s.len()
        invariant
            s@ == cargo_lock@,
            package@ == package_name@,
            name_marker@ == name_key(),
            version_marker@ == version_key(),
            pos <= s.len(),
            version_text_from(s@, package@, pos as int) == version_text_from(s@, package@, 0),
        decreases s.len() - pos,
    {
        match entry_at_exec(&s, pos, &name_marker, &version_marker) {
            Some((a, e1, b, e2)) => {
                if range_equals(&s, a, e1, &package) {
                    let text = cargo_lock.substring_char(b, e2);
                    return match Version::parse(text) {
                        Ok(v) => Some(v),
                        Err(_) => None,
                    };
                }
                pos = e2 + 1;
            },
            None => {
                pos += 1;
            },
        }
    }
    None
}

} // verus!
