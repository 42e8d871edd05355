use vstd::prelude::*;
use vstd::slice::slice_subrange;

verus! {

pub const DOT: u8 = 46;
pub const LOWER_E: u8 = 101;
pub const LOWER_G: u8 = 103;
pub const LOWER_J: u8 = 106;
pub const LOWER_N: u8 = 110;
pub const LOWER_P: u8 = 112;

/// ASCII lower-casing of one byte; other bytes are left alone.
pub open spec fn ascii_lower(b: u8) -> u8 {
    if 65 <= b <= 90 {
        (b + 32) as u8
    } else {
        b
    }
}

/// ASCII lower-casing of a byte string.
pub open spec fn lowered(s: Seq<u8>) -> Seq<u8> {
    s.map_values(|b: u8| ascii_lower(b))
}

/// `jpg`, `jpeg` or `png`, ignoring ASCII case.
pub open spec fn is_image_extension(ext: Seq<u8>) -> bool {
    let l = lowered(ext);
    l == seq![LOWER_J, LOWER_P, LOWER_G] || l == seq![LOWER_J, LOWER_P, LOWER_E, LOWER_G]
        || l == seq![LOWER_P, LOWER_N, LOWER_G]
}

/// Position of the last `.` in `s`, if there is one.
pub open spec fn last_dot(s: Seq<u8>) -> Option<int>
    decreases s.len(),
{
    if s.len() == 0 {
        None
    } else if s.last() == DOT {
        Some(s.len() - 1)
    } else {
        last_dot(s.drop_last())
    }
}

/// The extension of a file name: what follows its last `.`, provided that dot
/// is not the first byte; `..` has none.
pub open spec fn extension_of(name: Seq<u8>) -> Option<Seq<u8>> {
    if name == seq![DOT, DOT] {
        None
    } else {
        match last_dot(name) {
            Some(i) => if i > 0 {
                Some(name.subrange(i + 1, name.len() as int))
            } else {
                None
            },
            None => None,
        }
    }
}

/// A directory entry name is an image name when it has an image extension.
pub open spec fn image_name(name: Seq<u8>) -> bool {
    match extension_of(name) {
        Some(ext) => is_image_extension(ext),
        None => false,
    }
}

proof fn lemma_last_dot_lowered(s: Seq<u8>)
    ensures
        last_dot(lowered(s)) == last_dot(s),
    decreases s.len(),
{
    if s.len() > 0 {
        assert(lowered(s).drop_last() =~= lowered(s.drop_last()));
        lemma_last_dot_lowered(s.drop_last());
    }
}

proof fn lemma_last_dot_in_range(s: Seq<u8>)
    ensures
        last_dot(s) matches Some(i) ==> 0 <= i < s.len(),
    decreases s.len(),
{
    if s.len() > 0 {
        lemma_last_dot_in_range(s.drop_last());
    }
}

proof fn lemma_image_name_lowered(s: Seq<u8>)
    ensures
        image_name(lowered(s)) == image_name(s),
{
    let l = lowered(s);
    lemma_last_dot_lowered(s);
    lemma_last_dot_in_range(s);
    if s == seq![DOT, DOT] {
        assert(l =~= seq![DOT, DOT]);
    } else if l == seq![DOT, DOT] {
        assert(s =~= seq![DOT, DOT]) by {
            assert(s.len() == 2);
            assert(ascii_lower(s[0]) == DOT && ascii_lower(s[1]) == DOT);
        }
    } else if let Some(i) = last_dot(s) {
        if i > 0 {
            let e = s.subrange(i + 1, s.len() as int);
            assert(l.subrange(i + 1, l.len() as int) =~= lowered(e));
            assert(lowered(lowered(e)) =~= lowered(e));
        }
    }
}

/// Extension matching ignores ASCII case: two entry names that differ only in
/// the case of their ASCII letters are both image names or neither is.
pub proof fn lemma_image_name_ignores_case(a: Seq<u8>, b: Seq<u8>)
    requires
        lowered(a) == lowered(b),
    ensures
        image_name(a) == image_name(b),
{
    lemma_image_name_lowered(a);
    lemma_image_name_lowered(b);
}

fn lower_byte(b: u8) -> (r: u8)
    ensures
        r == ascii_lower(b),
{
    if 65 <= b && b <= 90 {
        b + 32
    } else {
        b
    }
}

/// Whether `ext` is `jpg`, `jpeg` or `png` in any mix of ASCII case.
pub fn is_image_ext(ext: &[u8]) -> (r: bool)
    ensures
        r == is_image_extension(ext@),
{
    let n = ext.len();
    if n == 3 {
        let a = lower_byte(ext[0]);
        let b = lower_byte(ext[1]);
        let c = lower_byte(ext[2]);
        assert(lowered(ext@) =~= seq![a, b, c]);
        (a == LOWER_J && b == LOWER_P && c == LOWER_G) || (a == LOWER_P && b == LOWER_N && c == LOWER_G)
    } else if n == 4 {
        let a = lower_byte(ext[0]);
        let b = lower_byte(ext[1]);
        let c = lower_byte(ext[2]);
        let d = lower_byte(ext[3]);
        assert(lowered(ext@) =~= seq![a, b, c, d]);
        a == LOWER_J && b == LOWER_P && c == LOWER_E && d == LOWER_G
    } else {
        proof {
            assert(lowered(ext@).len() == n);
        }
        false
    }
}

/// The extension of an entry name, as `std::path::Path::extension` reads it.
pub fn file_extension(name: &[u8]) -> (r: Option<&[u8]>)
    ensures
        match extension_of(name@) {
            Some(ext) => r is Some && r->0@ == ext,
            None => r is None,
        },
{
    let n = name.len();
    if n == 2 && name[0] == DOT && name[1] == DOT {
        assert(name@ =~= seq![DOT, DOT]);
        return None;
    }
    assert(name@ != seq![DOT, DOT]) by {
        if name@ == seq![DOT, DOT] {
            assert(name@[0] == DOT && name@[1] == DOT);
        }
    }
    let mut i: usize = n;
    assert(name@.subrange(0, n as int) =~= name@);
    while i > 0
        invariant
            i <= n == name@.len(),
            name@ != seq![DOT, DOT],
            last_dot(name@) == last_dot(name@.subrange(0, i as int)),
        decreases i,
    {
        assert(name@.subrange(0, i as int).drop_last() =~= name@.subrange(0, i - 1));
        if name[i - 1] == DOT {
            assert(last_dot(name@) == Some(i - 1));
            if i - 1 == 0 {
                return None;
            }
            let ext = slice_subrange(name, i, n);
            assert(extension_of(name@) == Some(ext@));
            return Some(ext);
        }
        i = i - 1;
    }
    None
}

/// Whether a directory entry name carries a `jpg`, `jpeg` or `png` extension,
/// in any mix of ASCII case.
pub fn is_image_name(name: &[u8]) -> (r: bool)
    ensures
        r == image_name(name@),
{
    match file_extension(name) {
        Some(ext) => is_image_ext(ext),
        None => false,
    }
}

} // verus!
