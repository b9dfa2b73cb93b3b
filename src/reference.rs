use vstd::prelude::*;

verus! {

/// An image named in the registry's library namespace, with its tag.
#[derive(Debug)]
pub struct ImageReference {
    pub name: String,
    pub tag: String,
}

/// The tag that an image reference without one stands for.
pub open spec fn default_tag() -> Seq<char> {
    "latest"@
}

/// Index `i` holds the first `:` of `s`.
pub open spec fn is_first_colon(s: Seq<char>, i: int) -> bool {
    &&& 0 <= i < s.len()
    &&& s[i] == ':'
    &&& forall|j: int| 0 <= j < i ==> s[j] != ':'
}

pub open spec fn has_colon(s: Seq<char>) -> bool {
    exists|i: int| 0 <= i < s.len() && s[i] == ':'
}

/// Splits `image` at its first `:` into name and tag; without a `:` the whole
/// text is the name and the tag is `latest`.
pub fn parse_image_reference(image: &str) -> (r: ImageReference)
    ensures
        !has_colon(image@) ==> r.name@ == image@ && r.tag@ == default_tag(),
        forall|i: int|
            is_first_colon(image@, i) ==> r.name@ == image@.subrange(0, i) && r.tag@
                == image@.subrange(i + 1, image@.len() as int),
{
    let n = image.unicode_len();
    let mut i: usize = 0;
    while i < n
        invariant
            n == image@.len(),
            i <= n,
            forall|j: int| 0 <= j < i ==> image@[j] != ':',
        decreases n - i,
    {
        if image.get_char(i) == ':' {
            let name = String::from_str(image.substring_char(0, i));
            let tag = String::from_str(image.substring_char(i + 1, n));
            return ImageReference { name, tag };
        }
        i = i + 1;
    }
    ImageReference { name: String::from_str(image), tag: String::from_str("latest") }
}

} // verus!
