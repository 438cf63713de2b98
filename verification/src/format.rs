//! The closed sets of source and target formats, and the lookup of a target by its name.

use crate::error::ConversionError;
use vstd::prelude::*;
use vstd::string::StrSliceExecFns;

verus! {

/// The container format that the leading bytes of a buffer identify.
#[derive(Clone, Copy, Debug, PartialEq, Eq, Structural)]
pub enum DetectedFormat {
    Png,
    Jpeg,
    Gif,
    WebP,
    Bmp,
    Ico,
    Tiff,
    Tga,
    Farbfeld,
}

/// The container format that a conversion writes.
#[derive(Clone, Copy, Debug, PartialEq, Eq, Structural)]
pub enum TargetFormat {
    Png,
    Jpeg,
    Gif,
    WebP,
    Bmp,
    Ico,
    Tiff,
    Tga,
    Farbfeld,
}

/// The lower-case form of an ASCII capital; every other character stands for itself.
pub open spec fn lower(c: char) -> char {
    if 'A' <= c && c <= 'Z' {
        ((c as u8) + 32) as char
    } else {
        c
    }
}

/// A name with its ASCII capitals in lower case.
pub open spec fn folded(name: Seq<char>) -> Seq<char> {
    Seq::new(name.len(), |i: int| lower(name[i]))
}

/// The table of names: the target that a name in lower case stands for.
pub open spec fn named(lowered: Seq<char>) -> Option<TargetFormat> {
    if lowered == "png"@ {
        Some(TargetFormat::Png)
    } else if lowered == "jpeg"@ || lowered == "jpg"@ {
        Some(TargetFormat::Jpeg)
    } else if lowered == "gif"@ {
        Some(TargetFormat::Gif)
    } else if lowered == "webp"@ {
        Some(TargetFormat::WebP)
    } else if lowered == "bmp"@ {
        Some(TargetFormat::Bmp)
    } else if lowered == "ico"@ {
        Some(TargetFormat::Ico)
    } else if lowered == "tiff"@ {
        Some(TargetFormat::Tiff)
    } else if lowered == "tga"@ {
        Some(TargetFormat::Tga)
    } else if lowered == "ff"@ || lowered == "farbfeld"@ {
        Some(TargetFormat::Farbfeld)
    } else {
        None
    }
}

/// The target that a requested name stands for, whatever the case of its letters.
pub open spec fn resolved(name: Seq<char>) -> Option<TargetFormat> {
    named(folded(name))
}

/// Whether every character of a text is an ASCII character.
pub open spec fn ascii(text: Seq<char>) -> bool {
    forall|i: int| 0 <= i < text.len() ==> (#[trigger] text[i] as u32) < 128
}

/// What `str::to_lowercase` makes of a text.
pub uninterp spec fn lowercased(text: Seq<char>) -> Seq<char>;

/// Calls `str::to_lowercase`, which returns the lower-case equivalent of a text as a new
/// `String`, lower case being that of Unicode. Unicode gives each ASCII capital its ASCII small
/// letter and leaves every other ASCII character as it is, so a text of ASCII characters comes
/// back folded.
#[verifier::external_body]
fn lowercase(text: &str) -> (r: String)
    ensures
        r@ == lowercased(text@),
        ascii(text@) ==> r@ == folded(text@),
{
    text.to_lowercase()
}

/// No name in the table is longer than this.
pub const LONGEST_NAME: usize = 8;

/// The names of the table, character by character.
pub proof fn names_spelled_out()
    ensures
        "png"@ == seq!['p', 'n', 'g'],
        "jpeg"@ == seq!['j', 'p', 'e', 'g'],
        "jpg"@ == seq!['j', 'p', 'g'],
        "gif"@ == seq!['g', 'i', 'f'],
        "webp"@ == seq!['w', 'e', 'b', 'p'],
        "bmp"@ == seq!['b', 'm', 'p'],
        "ico"@ == seq!['i', 'c', 'o'],
        "tiff"@ == seq!['t', 'i', 'f', 'f'],
        "tga"@ == seq!['t', 'g', 'a'],
        "ff"@ == seq!['f', 'f'],
        "farbfeld"@ == seq!['f', 'a', 'r', 'b', 'f', 'e', 'l', 'd'],
{
    reveal_strlit("png");
    reveal_strlit("jpeg");
    reveal_strlit("jpg");
    reveal_strlit("gif");
    reveal_strlit("webp");
    reveal_strlit("bmp");
    reveal_strlit("ico");
    reveal_strlit("tiff");
    reveal_strlit("tga");
    reveal_strlit("ff");
    reveal_strlit("farbfeld");
    assert("png"@ =~= seq!['p', 'n', 'g']);
    assert("jpeg"@ =~= seq!['j', 'p', 'e', 'g']);
    assert("jpg"@ =~= seq!['j', 'p', 'g']);
    assert("gif"@ =~= seq!['g', 'i', 'f']);
    assert("webp"@ =~= seq!['w', 'e', 'b', 'p']);
    assert("bmp"@ =~= seq!['b', 'm', 'p']);
    assert("ico"@ =~= seq!['i', 'c', 'o']);
    assert("tiff"@ =~= seq!['t', 'i', 'f', 'f']);
    assert("tga"@ =~= seq!['t', 'g', 'a']);
    assert("ff"@ =~= seq!['f', 'f']);
    assert("farbfeld"@ =~= seq!['f', 'a', 'r', 'b', 'f', 'e', 'l', 'd']);
}

/// A name that the table holds has at most `LONGEST_NAME` characters.
pub proof fn names_are_short(lowered: Seq<char>)
    requires
        named(lowered) is Some,
    ensures
        lowered.len() <= LONGEST_NAME,
{
    names_spelled_out();
}

fn to_lower(c: char) -> (r: char)
    ensures
        r == lower(c),
{
    if 'A' <= c && c <= 'Z' {
        ((c as u8) + 32) as char
    } else {
        c
    }
}

fn fold(name: &str) -> (r: Vec<char>)
    ensures
        r@ == folded(name@),
{
    let n = name.unicode_len();
    let mut out: Vec<char> = Vec::new();
    let mut i: usize = 0;
    while i < n
        invariant
            n == name@.len(),
            i <= n,
            out@ == folded(name@.take(i as int)),
        decreases n - i,
    {
        out.push(to_lower(name.get_char(i)));
        i += 1;
        assert(out@ =~= folded(name@.take(i as int)));
    }
    assert(name@.take(n as int) =~= name@);
    out
}

fn spells(lowered: &Vec<char>, word: &str) -> (r: bool)
    ensures
        r == (lowered@ == word@),
{
    let n = word.unicode_len();
    if lowered.len() != n {
        return false;
    }
    let mut i: usize = 0;
    while i < n
        invariant
            n == word@.len(),
            lowered@.len() == n,
            i <= n,
            forall|j: int| 0 <= j < i ==> lowered@[j] == word@[j],
        decreases n - i,
    {
        if lowered[i] != word.get_char(i) {
            return false;
        }
        i += 1;
    }
    assert(lowered@ =~= word@);
    true
}

/// Looks a name in lower case up in the table.
pub fn lookup(lowered: &Vec<char>) -> (r: Option<TargetFormat>)
    ensures
        r == named(lowered@),
{
    if spells(lowered, "png") {
        Some(TargetFormat::Png)
    } else if spells(lowered, "jpeg") || spells(lowered, "jpg") {
        Some(TargetFormat::Jpeg)
    } else if spells(lowered, "gif") {
        Some(TargetFormat::Gif)
    } else if spells(lowered, "webp") {
        Some(TargetFormat::WebP)
    } else if spells(lowered, "bmp") {
        Some(TargetFormat::Bmp)
    } else if spells(lowered, "ico") {
        Some(TargetFormat::Ico)
    } else if spells(lowered, "tiff") {
        Some(TargetFormat::Tiff)
    } else if spells(lowered, "tga") {
        Some(TargetFormat::Tga)
    } else if spells(lowered, "ff") || spells(lowered, "farbfeld") {
        Some(TargetFormat::Farbfeld)
    } else {
        None
    }
}

/// The target format that a caller asks for by name. The case of the letters does not count;
/// a name outside the table is refused, and the error names it in lower case.
pub fn resolve(name: &str) -> (r: Result<TargetFormat, ConversionError>)
    ensures
        match resolved(name@) {
            Some(target) => r == Ok::<TargetFormat, ConversionError>(target),
            None => r matches Err(ConversionError::UnsupportedFormat { name: rejected }) && rejected@
                == lowercased(name@) && (ascii(name@) ==> rejected@ == folded(name@)),
        },
{
    let found = if name.unicode_len() <= LONGEST_NAME {
        let lowered = fold(name);
        lookup(&lowered)
    } else {
        proof {
            if resolved(name@) is Some {
                names_are_short(folded(name@));
            }
        }
        None
    };
    match found {
        Some(target) => Ok(target),
        None => Err(ConversionError::UnsupportedFormat { name: lowercase(name) }),
    }
}

impl TargetFormat {
    /// The source format of the container that the target writes.
    pub open spec fn as_source(self) -> DetectedFormat {
        match self {
            TargetFormat::Png => DetectedFormat::Png,
            TargetFormat::Jpeg => DetectedFormat::Jpeg,
            TargetFormat::Gif => DetectedFormat::Gif,
            TargetFormat::WebP => DetectedFormat::WebP,
            TargetFormat::Bmp => DetectedFormat::Bmp,
            TargetFormat::Ico => DetectedFormat::Ico,
            TargetFormat::Tiff => DetectedFormat::Tiff,
            TargetFormat::Tga => DetectedFormat::Tga,
            TargetFormat::Farbfeld => DetectedFormat::Farbfeld,
        }
    }

    /// The source format of the container that the target writes.
    pub fn source_format(self) -> (r: DetectedFormat)
        ensures
            r == self.as_source(),
    {
        match self {
            TargetFormat::Png => DetectedFormat::Png,
            TargetFormat::Jpeg => DetectedFormat::Jpeg,
            TargetFormat::Gif => DetectedFormat::Gif,
            TargetFormat::WebP => DetectedFormat::WebP,
            TargetFormat::Bmp => DetectedFormat::Bmp,
            TargetFormat::Ico => DetectedFormat::Ico,
            TargetFormat::Tiff => DetectedFormat::Tiff,
            TargetFormat::Tga => DetectedFormat::Tga,
            TargetFormat::Farbfeld => DetectedFormat::Farbfeld,
        }
    }

    /// The first name of a target in the table.
    pub open spec fn canonical_name(self) -> Seq<char> {
        match self {
            TargetFormat::Png => "png"@,
            TargetFormat::Jpeg => "jpeg"@,
            TargetFormat::Gif => "gif"@,
            TargetFormat::WebP => "webp"@,
            TargetFormat::Bmp => "bmp"@,
            TargetFormat::Ico => "ico"@,
            TargetFormat::Tiff => "tiff"@,
            TargetFormat::Tga => "tga"@,
            TargetFormat::Farbfeld => "ff"@,
        }
    }

    /// A name of the target, which `resolve` takes back to it.
    pub fn name(self) -> (r: &'static str)
        ensures
            r@ == self.canonical_name(),
            resolved(r@) == Some(self),
    {
        proof {
            every_target_has_a_name(self);
        }
        match self {
            TargetFormat::Png => "png",
            TargetFormat::Jpeg => "jpeg",
            TargetFormat::Gif => "gif",
            TargetFormat::WebP => "webp",
            TargetFormat::Bmp => "bmp",
            TargetFormat::Ico => "ico",
            TargetFormat::Tiff => "tiff",
            TargetFormat::Tga => "tga",
            TargetFormat::Farbfeld => "ff",
        }
    }
}

/// Two names that differ only in the case of their ASCII letters resolve alike.
pub proof fn resolve_ignores_case(a: Seq<char>, b: Seq<char>)
    requires
        a.len() == b.len(),
        forall|i: int| 0 <= i < a.len() ==> lower(a[i]) == lower(b[i]),
    ensures
        resolved(a) == resolved(b),
{
    assert(folded(a) =~= folded(b));
}

/// A name resolves as its lower-case form does, so the table decides alone.
pub proof fn resolve_folds(name: Seq<char>)
    ensures
        folded(folded(name)) == folded(name),
        resolved(folded(name)) == resolved(name),
{
    assert forall|i: int| 0 <= i < name.len() implies lower(lower(name[i])) == lower(name[i]) by {
        let c = name[i];
        if 'A' <= c && c <= 'Z' {
            assert(lower(c) as u8 == (c as u8) + 32);
        }
    }
    assert(folded(folded(name)) =~= folded(name));
}

/// Every target can be asked for: its first name resolves to it.
pub proof fn every_target_has_a_name(target: TargetFormat)
    ensures
        resolved(target.canonical_name()) == Some(target),
{
    names_spelled_out();
    let name = target.canonical_name();
    assert(folded(name) =~= name);
}

/// The two names of JPEG stand for the same target, and so do the two of Farbfeld.
pub proof fn aliases_agree()
    ensures
        resolved("jpg"@) == Some(TargetFormat::Jpeg),
        resolved("jpeg"@) == Some(TargetFormat::Jpeg),
        resolved("ff"@) == Some(TargetFormat::Farbfeld),
        resolved("farbfeld"@) == Some(TargetFormat::Farbfeld),
{
    names_spelled_out();
    assert(folded("jpg"@) =~= "jpg"@);
    assert(folded("jpeg"@) =~= "jpeg"@);
    assert(folded("ff"@) =~= "ff"@);
    assert(folded("farbfeld"@) =~= "farbfeld"@);
}

} // verus!
