//! Deriving icon names from file names.
//!
//! An icon name is the file name with the conventional suffix removed:
//! one trailing `-symbolic.svg` when the name ends with it, else one
//! trailing `.svg`.  A file that does not end in `.svg` is not an icon
//! file and is rejected.

use vstd::prelude::*;
use vstd::string::*;

use crate::error::BuildError;
use crate::text::has_suffix;

verus! {

/// Whether a file name is an icon file name: it ends in `.svg`.
pub open spec fn is_icon_file(file_name: Seq<char>) -> bool {
    has_suffix(file_name, ".svg"@)
}

/// The icon name derived from a file name: the name with one trailing
/// `-symbolic.svg` removed when it ends with that suffix, else with one
/// trailing `.svg` removed, else the name itself.
pub open spec fn icon_name_of(file_name: Seq<char>) -> Seq<char> {
    if has_suffix(file_name, "-symbolic.svg"@) {
        file_name.subrange(0, file_name.len() - "-symbolic.svg"@.len())
    } else if has_suffix(file_name, ".svg"@) {
        file_name.subrange(0, file_name.len() - ".svg"@.len())
    } else {
        file_name
    }
}

/// Derives the icon name from an icon file name.
///
/// Succeeds exactly on file names ending in `.svg`; any other file in an
/// icon folder fails the build.
pub fn path_to_icon_name(file_name: &str) -> (r: Result<String, BuildError>)
    ensures
        r is Ok <==> is_icon_file(file_name@),
        r is Ok ==> (r->Ok_0)@ == icon_name_of(file_name@),
        (r is Err ==> (r->Err_0 matches BuildError::NonIconFile { file_name: f } && f@
            == file_name@)),
{
    proof {
        reveal_strlit("-symbolic.svg");
        reveal_strlit(".svg");
    }
    if crate::text::str_has_suffix(file_name, ".svg") {
        let n: usize = file_name.unicode_len();
        if crate::text::str_has_suffix(file_name, "-symbolic.svg") {
            let m: usize = "-symbolic.svg".unicode_len();
            Ok(file_name.substring_char(0, n - m).to_owned())
        } else {
            let m: usize = ".svg".unicode_len();
            Ok(file_name.substring_char(0, n - m).to_owned())
        }
    } else {
        Err(BuildError::NonIconFile { file_name: file_name.to_owned() })
    }
}

/// Stripping the symbolic suffix: a file name made of a stem and one
/// `-symbolic.svg` suffix derives the stem as its icon name.
pub proof fn lemma_icon_name_strips_symbolic_suffix(file_name: Seq<char>, stem: Seq<char>)
    requires
        file_name == stem + "-symbolic.svg"@,
    ensures
        icon_name_of(file_name) == stem,
{
    reveal_strlit("-symbolic.svg");
    assert(has_suffix(file_name, "-symbolic.svg"@)) by {
        assert(file_name.subrange(
            file_name.len() - "-symbolic.svg"@.len(),
            file_name.len() as int,
        ) =~= "-symbolic.svg"@);
    }
    assert(file_name.subrange(0, file_name.len() - "-symbolic.svg"@.len()) =~= stem);
}

/// Stripping the plain suffix: a file name made of a stem and one `.svg`
/// suffix derives the stem as its icon name, as long as the whole name
/// does not end in `-symbolic.svg`.
pub proof fn lemma_icon_name_strips_svg_suffix(file_name: Seq<char>, stem: Seq<char>)
    requires
        file_name == stem + ".svg"@,
        !has_suffix(file_name, "-symbolic.svg"@),
    ensures
        icon_name_of(file_name) == stem,
{
    reveal_strlit(".svg");
    assert(has_suffix(file_name, ".svg"@)) by {
        assert(file_name.subrange(file_name.len() - ".svg"@.len(), file_name.len() as int)
            =~= ".svg"@);
    }
    assert(file_name.subrange(0, file_name.len() - ".svg"@.len()) =~= stem);
}

} // verus!
