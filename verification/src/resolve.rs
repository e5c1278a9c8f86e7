//! Format names: which layout a name stands for.

use vstd::prelude::*;
use crate::layout::Format;

verus! {

/// A letter of `A` to `Z` as its small letter; any other character as it is.
pub open spec fn lower(c: char) -> char {
    if 'A' <= c <= 'Z' {
        ((c as u32) + 32) as char
    } else {
        c
    }
}

/// A name with every letter of `A` to `Z` made small. Two names that differ
/// only in the case of such letters are the same name.
pub open spec fn folded(name: Seq<char>) -> Seq<char> {
    name.map_values(|c: char| lower(c))
}

/// Whether `name` is one of the names of the layout `format`, whatever the
/// case of its letters.
pub open spec fn is_name_of(name: Seq<char>, format: Format) -> bool {
    let n = folded(name);
    match format {
        Format::Rgb8 => n == "rgb8"@,
        Format::Rgba8 => n == "rgba8"@,
        Format::Rgb16 => n == "rgb16"@,
        Format::Rgba16 => n == "rgba16"@,
        Format::Rgb32f => n == "rgb32f"@,
        Format::Rgba32f => n == "rgba32f"@,
        Format::L8 => n == "l8"@ || n == "luma8"@,
        Format::La8 => n == "la8"@ || n == "lumaa8"@ || n == "lumaalpha8"@,
        Format::L16 => n == "l16"@ || n == "luma16"@,
        Format::La16 => n == "la16"@ || n == "lumaa16"@ || n == "lumaalpha16"@,
    }
}

/// The failure of a name that no layout has. It carries the name.
#[derive(Debug, PartialEq, Eq)]
pub struct UnknownFormatError {
    pub token: String,
}

/// Whether two characters are the same but for the case of a letter.
fn same_letter(a: char, b: char) -> (r: bool)
    ensures
        r == (lower(a) == lower(b)),
{
    let x = a as u32;
    let y = b as u32;
    let lx = if 65 <= x && x <= 90 {
        x + 32
    } else {
        x
    };
    let ly = if 65 <= y && y <= 90 {
        y + 32
    } else {
        y
    };
    lx == ly
}

/// Whether two names are the same but for the case of their letters.
fn same_name(a: &str, b: &str) -> (r: bool)
    ensures
        r == (folded(a@) == folded(b@)),
{
    let n = a.unicode_len();
    if n != b.unicode_len() {
        assert(folded(a@).len() != folded(b@).len());
        return false;
    }
    let mut i: usize = 0;
    while i < n
        invariant
            i <= n,
            n == a@.len(),
            n == b@.len(),
            forall|j: int| 0 <= j < i ==> lower(a@[j]) == lower(b@[j]),
        decreases n - i,
    {
        if !same_letter(a.get_char(i), b.get_char(i)) {
            assert(folded(a@)[i as int] != folded(b@)[i as int]);
            return false;
        }
        i += 1;
    }
    assert(folded(a@) =~= folded(b@));
    true
}

/// Every name of the table is written in small letters: folding leaves it as
/// it is.
proof fn lemma_table_is_folded()
    ensures
        folded("rgb8"@) == "rgb8"@,
        folded("rgba8"@) == "rgba8"@,
        folded("rgb16"@) == "rgb16"@,
        folded("rgba16"@) == "rgba16"@,
        folded("rgb32f"@) == "rgb32f"@,
        folded("rgba32f"@) == "rgba32f"@,
        folded("l8"@) == "l8"@,
        folded("luma8"@) == "luma8"@,
        folded("la8"@) == "la8"@,
        folded("lumaa8"@) == "lumaa8"@,
        folded("lumaalpha8"@) == "lumaalpha8"@,
        folded("l16"@) == "l16"@,
        folded("luma16"@) == "luma16"@,
        folded("la16"@) == "la16"@,
        folded("lumaa16"@) == "lumaa16"@,
        folded("lumaalpha16"@) == "lumaalpha16"@,
{
    reveal_strlit("rgb8");
    assert(folded("rgb8"@) =~= "rgb8"@);
    reveal_strlit("rgba8");
    assert(folded("rgba8"@) =~= "rgba8"@);
    reveal_strlit("rgb16");
    assert(folded("rgb16"@) =~= "rgb16"@);
    reveal_strlit("rgba16");
    assert(folded("rgba16"@) =~= "rgba16"@);
    reveal_strlit("rgb32f");
    assert(folded("rgb32f"@) =~= "rgb32f"@);
    reveal_strlit("rgba32f");
    assert(folded("rgba32f"@) =~= "rgba32f"@);
    reveal_strlit("l8");
    assert(folded("l8"@) =~= "l8"@);
    reveal_strlit("luma8");
    assert(folded("luma8"@) =~= "luma8"@);
    reveal_strlit("la8");
    assert(folded("la8"@) =~= "la8"@);
    reveal_strlit("lumaa8");
    assert(folded("lumaa8"@) =~= "lumaa8"@);
    reveal_strlit("lumaalpha8");
    assert(folded("lumaalpha8"@) =~= "lumaalpha8"@);
    reveal_strlit("l16");
    assert(folded("l16"@) =~= "l16"@);
    reveal_strlit("luma16");
    assert(folded("luma16"@) =~= "luma16"@);
    reveal_strlit("la16");
    assert(folded("la16"@) =~= "la16"@);
    reveal_strlit("lumaa16");
    assert(folded("lumaa16"@) =~= "lumaa16"@);
    reveal_strlit("lumaalpha16");
    assert(folded("lumaalpha16"@) =~= "lumaalpha16"@);
}

/// Each name of the table is a name of its layout.
pub proof fn lemma_listed_names()
    ensures
        is_name_of("rgb8"@, Format::Rgb8),
        is_name_of("rgba8"@, Format::Rgba8),
        is_name_of("rgb16"@, Format::Rgb16),
        is_name_of("rgba16"@, Format::Rgba16),
        is_name_of("rgb32f"@, Format::Rgb32f),
        is_name_of("rgba32f"@, Format::Rgba32f),
        is_name_of("l8"@, Format::L8),
        is_name_of("luma8"@, Format::L8),
        is_name_of("la8"@, Format::La8),
        is_name_of("lumaa8"@, Format::La8),
        is_name_of("lumaalpha8"@, Format::La8),
        is_name_of("l16"@, Format::L16),
        is_name_of("luma16"@, Format::L16),
        is_name_of("la16"@, Format::La16),
        is_name_of("lumaa16"@, Format::La16),
        is_name_of("lumaalpha16"@, Format::La16),
{
    lemma_table_is_folded();
}

/// The case of its letters does not change what a name stands for.
pub proof fn lemma_case_does_not_matter(a: Seq<char>, b: Seq<char>, format: Format)
    requires
        folded(a) == folded(b),
    ensures
        is_name_of(a, format) == is_name_of(b, format),
{
}

/// No name stands for two layouts.
pub proof fn lemma_name_is_unambiguous(name: Seq<char>, a: Format, b: Format)
    requires
        is_name_of(name, a),
        is_name_of(name, b),
    ensures
        a == b,
{
    reveal_strlit("rgb8");
    reveal_strlit("rgba8");
    reveal_strlit("rgb16");
    reveal_strlit("rgba16");
    reveal_strlit("rgb32f");
    reveal_strlit("rgba32f");
    reveal_strlit("l8");
    reveal_strlit("luma8");
    reveal_strlit("la8");
    reveal_strlit("lumaa8");
    reveal_strlit("lumaalpha8");
    reveal_strlit("l16");
    reveal_strlit("luma16");
    reveal_strlit("la16");
    reveal_strlit("lumaa16");
    reveal_strlit("lumaalpha16");
    // Names of different lengths differ.
    assert("rgb8"@.len() == 4);
    assert("rgba8"@.len() == 5);
    assert("rgb16"@.len() == 5);
    assert("rgba16"@.len() == 6);
    assert("rgb32f"@.len() == 6);
    assert("rgba32f"@.len() == 7);
    assert("l8"@.len() == 2);
    assert("luma8"@.len() == 5);
    assert("la8"@.len() == 3);
    assert("lumaa8"@.len() == 6);
    assert("lumaalpha8"@.len() == 10);
    assert("l16"@.len() == 3);
    assert("luma16"@.len() == 6);
    assert("la16"@.len() == 4);
    assert("lumaa16"@.len() == 7);
    assert("lumaalpha16"@.len() == 11);
    // Names of one length differ in some letter.
    assert("la8"@[1] != "l16"@[1]);
    assert("rgb8"@[0] != "la16"@[0]);
    assert("rgba8"@[3] != "rgb16"@[3]);
    assert("rgba8"@[0] != "luma8"@[0]);
    assert("rgb16"@[0] != "luma8"@[0]);
    assert("rgba16"@[3] != "rgb32f"@[3]);
    assert("rgba16"@[0] != "lumaa8"@[0]);
    assert("rgba16"@[0] != "luma16"@[0]);
    assert("rgb32f"@[0] != "lumaa8"@[0]);
    assert("rgb32f"@[0] != "luma16"@[0]);
    assert("lumaa8"@[4] != "luma16"@[4]);
    assert("rgba32f"@[0] != "lumaa16"@[0]);
}

impl Format {
    /// The layout that `token` names, whatever the case of its letters, or
    /// the failure that carries `token` if no layout has that name.
    pub fn resolve(token: &str) -> (r: Result<Format, UnknownFormatError>)
        ensures
            match r {
                Ok(format) => is_name_of(token@, format),
                Err(e) => e.token@ == token@ && forall|f: Format| !is_name_of(token@, f),
            },
    {
        proof {
            lemma_table_is_folded();
        }
        if same_name(token, "rgb8") {
            Ok(Format::Rgb8)
        } else if same_name(token, "rgba8") {
            Ok(Format::Rgba8)
        } else if same_name(token, "rgb16") {
            Ok(Format::Rgb16)
        } else if same_name(token, "rgba16") {
            Ok(Format::Rgba16)
        } else if same_name(token, "rgb32f") {
            Ok(Format::Rgb32f)
        } else if same_name(token, "rgba32f") {
            Ok(Format::Rgba32f)
        } else if same_name(token, "l8") {
            Ok(Format::L8)
        } else if same_name(token, "luma8") {
            Ok(Format::L8)
        } else if same_name(token, "la8") {
            Ok(Format::La8)
        } else if same_name(token, "lumaa8") {
            Ok(Format::La8)
        } else if same_name(token, "lumaalpha8") {
            Ok(Format::La8)
        } else if same_name(token, "l16") {
            Ok(Format::L16)
        } else if same_name(token, "luma16") {
            Ok(Format::L16)
        } else if same_name(token, "la16") {
            Ok(Format::La16)
        } else if same_name(token, "lumaa16") {
            Ok(Format::La16)
        } else if same_name(token, "lumaalpha16") {
            Ok(Format::La16)
        } else {
            Err(UnknownFormatError { token: token.to_owned() })
        }
    }
}

} // verus!
