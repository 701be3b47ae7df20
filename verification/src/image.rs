//! Image references: `repository[:tag]`, with the tag defaulting to
//! `"latest"` when the reference carries none.

use vstd::prelude::*;

verus! {

/// A parsed image reference. Immutable once parsed.
pub struct ImageRef {
    pub repository: String,
    pub tag: String,
}

/// No character of `s` is a colon.
pub open spec fn colon_free(s: Seq<char>) -> bool {
    forall|i: int| 0 <= i < s.len() ==> s[i] != ':'
}

/// Some character of `s` is a colon.
pub open spec fn has_colon(s: Seq<char>) -> bool {
    exists|i: int| 0 <= i < s.len() && s[i] == ':'
}

/// `r` is the split of `image` at its first colon, the tag defaulting
/// to `"latest"` when `image` has no colon. The two clauses pin `r`
/// down: the repository is colon-free, so it can only be the prefix up
/// to the first colon.
pub open spec fn is_parse_of(image: Seq<char>, r: ImageRef) -> bool {
    &&& colon_free(r.repository@)
    &&& if has_colon(image) {
        r.repository@ + seq![':'] + r.tag@ == image
    } else {
        r.repository@ == image && r.tag@ == "latest"@
    }
}

/// Index of the first colon of `s`, which must have one.
fn find_colon(s: &str) -> (r: Option<usize>)
    ensures
        match r {
            Some(i) => {
                &&& i < s@.len()
                &&& s@[i as int] == ':'
                &&& colon_free(s@.subrange(0, i as int))
            },
            None => colon_free(s@),
        },
{
    let n = s.unicode_len();
    let mut i: usize = 0;
    while i < n
        invariant
            i <= n,
            n == s@.len(),
            colon_free(s@.subrange(0, i as int)),
        decreases n - i,
    {
        if s.get_char(i) == ':' {
            return Some(i);
        }
        proof {
            assert(s@.subrange(0, i + 1 as int) =~= s@.subrange(0, i as int).push(s@[i as int]));
        }
        i = i + 1;
    }
    proof {
        assert(s@.subrange(0, n as int) =~= s@);
    }
    None
}

/// Split `repository[:tag]` at the first colon; with no colon the tag
/// is `"latest"`.
pub fn parse_image_ref(image: &str) -> (r: ImageRef)
    ensures
        is_parse_of(image@, r),
{
    let n = image.unicode_len();
    match find_colon(image) {
        Some(i) => {
            let repository = String::from_str(image.substring_char(0, i));
            let tag = String::from_str(image.substring_char(i + 1, n));
            proof {
                assert(repository@ + seq![':'] + tag@ =~= image@);
            }
            ImageRef { repository, tag }
        },
        None => {
            let r = ImageRef { repository: image.to_owned(), tag: String::from_str("latest") };
            r
        },
    }
}

} // verus!
