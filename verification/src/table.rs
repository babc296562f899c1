//! Assembling the icon table.
//!
//! The table maps each discovered icon name to the file it came from.  It
//! is filled from two sources: the files of the custom icon folder, whose
//! names are derived by [`crate::naming::path_to_icon_name`], and the
//! icons requested by name, which are looked up in the shipped icon
//! directories.  A name that would appear twice fails the build.

use vstd::prelude::*;
use vstd::string::*;

use crate::config::Config;
use crate::error::BuildError;
use crate::naming::{icon_name_of, is_icon_file, path_to_icon_name};

verus! {

/// A file of the custom icon folder: its bare file name and its full path.
#[derive(Debug)]
pub struct FileEntry {
    pub file_name: String,
    pub path: String,
}

/// The contents of one shipped icon directory: its path and the bare file
/// names inside it.
#[derive(Debug)]
pub struct DirListing {
    pub dir: String,
    pub file_names: Vec<String>,
}

/// One discovered icon: its name and the path of its file.
#[derive(Debug)]
pub struct IconEntry {
    pub name: String,
    pub path: String,
}

/// The icon table: discovered icons in discovery order.
#[derive(Debug)]
pub struct IconTable {
    pub entries: Vec<IconEntry>,
}

/// The file name under which a shipped icon is stored.
pub open spec fn symbolic_file_of(name: Seq<char>) -> Seq<char> {
    name + "-symbolic.svg"@
}

/// No name occurs twice.
pub open spec fn unique_names(names: Seq<Seq<char>>) -> bool {
    forall|i: int, j: int| 0 <= i < j < names.len() ==> names[i] != names[j]
}

/// Whether the directory listing holds a file of the given name.
pub open spec fn listing_has(listing: DirListing, file_name: Seq<char>) -> bool {
    exists|i: int| 0 <= i < listing.file_names@.len() && listing.file_names@[i]@ == file_name
}

/// The path of the first listed directory holding the given file name, if
/// any directory does.
pub open spec fn found_dir(shipped: Seq<DirListing>, file_name: Seq<char>) -> Option<Seq<char>>
    decreases shipped.len(),
{
    if shipped.len() == 0 {
        None
    } else if listing_has(shipped[0], file_name) {
        Some(shipped[0].dir@)
    } else {
        found_dir(shipped.drop_first(), file_name)
    }
}

/// The icons requested by name, or none when the configuration lists none.
pub open spec fn requested_icons(config: Config) -> Seq<String> {
    match config.icons {
        Some(v) => v@,
        None => Seq::empty(),
    }
}

/// The icon names the custom folder contributes, in folder order.
pub open spec fn custom_names(custom: Seq<FileEntry>) -> Seq<Seq<char>> {
    custom.map_values(|e: FileEntry| icon_name_of(e.file_name@))
}

/// Every icon name of one build, custom folder first, requested icons
/// after, in order.
pub open spec fn all_names(config: Config, custom: Seq<FileEntry>) -> Seq<Seq<char>> {
    custom_names(custom) + requested_icons(config).map_values(|s: String| s@)
}

/// The table rows the custom folder contributes.
pub open spec fn expected_custom(custom: Seq<FileEntry>) -> Seq<(Seq<char>, Seq<char>)> {
    custom.map_values(|e: FileEntry| (icon_name_of(e.file_name@), e.path@))
}

/// The table row of one requested icon: the icon name, and its file inside
/// the first shipped directory holding it.
pub open spec fn expected_requested_row(shipped: Seq<DirListing>, name: Seq<char>) -> (
    Seq<char>,
    Seq<char>,
) {
    (name, found_dir(shipped, symbolic_file_of(name))->0 + "/"@ + symbolic_file_of(name))
}

/// The table rows the requested icons contribute, in request order.
pub open spec fn expected_requested(shipped: Seq<DirListing>, icons: Seq<String>) -> Seq<
    (Seq<char>, Seq<char>),
> {
    icons.map_values(|s: String| expected_requested_row(shipped, s@))
}

/// The full table of one build, valid when the build succeeds.
pub open spec fn expected_table(config: Config, custom: Seq<FileEntry>, shipped: Seq<DirListing>) -> Seq<
    (Seq<char>, Seq<char>),
> {
    expected_custom(custom) + expected_requested(shipped, requested_icons(config))
}

/// Whether a build of the given inputs succeeds: an icon folder is known,
/// every custom file is an icon file, no icon name occurs twice, and every
/// requested icon exists in some shipped directory.
pub open spec fn assemble_ok(config: Config, custom: Seq<FileEntry>, shipped: Seq<DirListing>) -> bool {
    &&& config.icons_folder is Some
    &&& forall|i: int| 0 <= i < custom.len() ==> is_icon_file(custom[i].file_name@)
    &&& unique_names(all_names(config, custom))
    &&& forall|j: int|
        0 <= j < requested_icons(config).len() ==> found_dir(
            shipped,
            symbolic_file_of(requested_icons(config)[j]@),
        ) is Some
}

/// The given name occurs at two positions of the name list.
pub open spec fn duplicated(names: Seq<Seq<char>>, name: Seq<char>) -> bool {
    exists|i: int, j: int| 0 <= i < j < names.len() && names[i] == name && names[j] == name
}

/// The name at the given position repeats an earlier one.
pub open spec fn repeats_earlier(names: Seq<Seq<char>>, i: int) -> bool {
    exists|k: int| 0 <= k < i && names[k] == names[i]
}

/// Whether assembly stalls at the given custom position: the file is no
/// icon file, or its derived name repeats an earlier one.
pub open spec fn custom_issue(custom: Seq<FileEntry>, i: int) -> bool {
    !is_icon_file(custom[i].file_name@) || repeats_earlier(custom_names(custom), i)
}

/// The first custom position at or after `i` where assembly stalls.
pub open spec fn first_custom_issue_from(custom: Seq<FileEntry>, i: int) -> Option<int>
    decreases custom.len() - i,
{
    if i < 0 || i >= custom.len() {
        None
    } else if custom_issue(custom, i) {
        Some(i)
    } else {
        first_custom_issue_from(custom, i + 1)
    }
}

/// The first custom position where assembly stalls, if any.
pub open spec fn first_custom_issue(custom: Seq<FileEntry>) -> Option<int> {
    first_custom_issue_from(custom, 0)
}

/// Whether assembly stalls at the given requested position: the icon is in
/// no shipped directory, or its name repeats an earlier one.
pub open spec fn requested_issue(
    config: Config,
    custom: Seq<FileEntry>,
    shipped: Seq<DirListing>,
    j: int,
) -> bool {
    ||| found_dir(shipped, symbolic_file_of(requested_icons(config)[j]@)) is None
    ||| repeats_earlier(all_names(config, custom), custom.len() + j)
}

/// The first requested position at or after `j` where assembly stalls.
pub open spec fn first_requested_issue_from(
    config: Config,
    custom: Seq<FileEntry>,
    shipped: Seq<DirListing>,
    j: int,
) -> Option<int>
    decreases requested_icons(config).len() - j,
{
    if j < 0 || j >= requested_icons(config).len() {
        None
    } else if requested_issue(config, custom, shipped, j) {
        Some(j)
    } else {
        first_requested_issue_from(config, custom, shipped, j + 1)
    }
}

/// The first requested position where assembly stalls, if any.
pub open spec fn first_requested_issue(
    config: Config,
    custom: Seq<FileEntry>,
    shipped: Seq<DirListing>,
) -> Option<int> {
    first_requested_issue_from(config, custom, shipped, 0)
}

/// A search that stalls nowhere before `i` finds its first issue at or
/// after `i`.
proof fn lemma_first_custom_issue_from(custom: Seq<FileEntry>, i: int)
    requires
        0 <= i <= custom.len(),
        forall|k: int| 0 <= k < i ==> !custom_issue(custom, k),
    ensures
        first_custom_issue(custom) == first_custom_issue_from(custom, i),
    decreases i,
{
    if i > 0 {
        lemma_first_custom_issue_from(custom, i - 1);
        assert(first_custom_issue_from(custom, i - 1) == first_custom_issue_from(custom, i));
    }
}

/// The requested-phase counterpart of [`lemma_first_custom_issue_from`].
proof fn lemma_first_requested_issue_from(
    config: Config,
    custom: Seq<FileEntry>,
    shipped: Seq<DirListing>,
    j: int,
)
    requires
        0 <= j <= requested_icons(config).len(),
        forall|k: int| 0 <= k < j ==> !requested_issue(config, custom, shipped, k),
    ensures
        first_requested_issue(config, custom, shipped) == first_requested_issue_from(
            config,
            custom,
            shipped,
            j,
        ),
    decreases j,
{
    if j > 0 {
        lemma_first_requested_issue_from(config, custom, shipped, j - 1);
        assert(first_requested_issue_from(config, custom, shipped, j - 1)
            == first_requested_issue_from(config, custom, shipped, j));
    }
}

/// While the first `i` custom files are icon files and the first `i` names
/// are unique, no custom position before `i` has an issue.
proof fn lemma_no_custom_issue_prefix(
    config: Config,
    custom: Seq<FileEntry>,
    names: Seq<Seq<char>>,
    i: int,
)
    requires
        names == all_names(config, custom),
        0 <= i <= custom.len(),
        forall|k: int| 0 <= k < i ==> is_icon_file(custom[k].file_name@),
        unique_names(names.subrange(0, i)),
    ensures
        forall|k: int| 0 <= k < i ==> !custom_issue(custom, k),
        first_custom_issue(custom) == first_custom_issue_from(custom, i),
{
    assert forall|k: int| 0 <= k < i implies !custom_issue(custom, k) by {
        if repeats_earlier(custom_names(custom), k) {
            let k2 = choose|k2: int|
                0 <= k2 < k && custom_names(custom)[k2] == custom_names(custom)[k];
            assert(names.subrange(0, i)[k2] == custom_names(custom)[k2]);
            assert(names.subrange(0, i)[k] == custom_names(custom)[k]);
            assert(false);
        }
    }
    lemma_first_custom_issue_from(custom, i);
}

/// While the first `j` requested icons are found and all names so far are
/// unique, no requested position before `j` has an issue.
proof fn lemma_no_requested_issue_prefix(
    config: Config,
    custom: Seq<FileEntry>,
    shipped: Seq<DirListing>,
    names: Seq<Seq<char>>,
    j: int,
)
    requires
        names == all_names(config, custom),
        0 <= j <= requested_icons(config).len(),
        forall|k: int|
            0 <= k < j ==> found_dir(shipped, symbolic_file_of(requested_icons(config)[k]@))
                is Some,
        unique_names(names.subrange(0, custom.len() + j)),
    ensures
        forall|k: int| 0 <= k < j ==> !requested_issue(config, custom, shipped, k),
        first_requested_issue(config, custom, shipped) == first_requested_issue_from(
            config,
            custom,
            shipped,
            j,
        ),
{
    assert forall|k: int| 0 <= k < j implies !requested_issue(config, custom, shipped, k) by {
        assert(found_dir(shipped, symbolic_file_of(requested_icons(config)[k]@)) is Some);
        if repeats_earlier(names, custom.len() + k) {
            let k2 = choose|k2: int|
                0 <= k2 < custom.len() + k && #[trigger] names[k2] == names[custom.len() + k];
            assert(names.subrange(0, custom.len() + j)[k2] == names[k2]);
            assert(names.subrange(0, custom.len() + j)[custom.len() + k] == names[custom.len()
                + k]);
            assert(false);
        }
    }
    lemma_first_requested_issue_from(config, custom, shipped, j);
}

impl IconTable {
    /// The rows of the table: icon name and file path, in discovery order.
    pub open spec fn rows(&self) -> Seq<(Seq<char>, Seq<char>)> {
        self.entries@.map_values(|e: IconEntry| (e.name@, e.path@))
    }

    /// The icon names of the table, in discovery order.
    pub open spec fn names(&self) -> Seq<Seq<char>> {
        self.entries@.map_values(|e: IconEntry| e.name@)
    }

    /// A well-formed table holds each icon name once.
    pub open spec fn wf(&self) -> bool {
        unique_names(self.names())
    }

    /// How many icons the table holds.
    pub fn len(&self) -> (r: usize)
        ensures
            r == self.rows().len(),
    {
        self.entries.len()
    }

    /// Whether the table already holds an icon of the given name.
    pub fn contains_name(&self, name: &String) -> (r: bool)
        ensures
            r == self.names().contains(name@),
    {
        let mut i: usize = 0;
        while i < self.entries.len()
            invariant
                i <= self.entries@.len(),
                forall|k: int| 0 <= k < i ==> self.names()[k] != name@,
            decreases self.entries@.len() - i,
        {
            if self.entries[i].name == *name {
                assert(self.names()[i as int] == name@);
                return true;
            }
            i = i + 1;
        }
        assert(forall|k: int| 0 <= k < self.names().len() ==> self.names()[k] != name@);
        false
    }
}

/// The first directory of the listing holding the given file, as an index.
fn find_dir(shipped: &Vec<DirListing>, file_name: &String) -> (r: Option<usize>)
    ensures
        (r matches Some(d) ==> {
            &&& 0 <= d < shipped@.len()
            &&& listing_has(shipped@[d as int], file_name@)
            &&& forall|k: int| 0 <= k < d ==> !listing_has(shipped@[k], file_name@)
        }),
        r is None ==> forall|k: int| 0 <= k < shipped@.len() ==> !listing_has(
            shipped@[k],
            file_name@,
        ),
{
    let mut d: usize = 0;
    while d < shipped.len()
        invariant
            d <= shipped@.len(),
            forall|k: int| 0 <= k < d ==> !listing_has(shipped@[k], file_name@),
        decreases shipped@.len() - d,
    {
        let listing = &shipped[d];
        let mut f: usize = 0;
        while f < listing.file_names.len()
            invariant
                d < shipped@.len(),
                forall|k: int| 0 <= k < d ==> !listing_has(shipped@[k], file_name@),
                f <= listing.file_names@.len(),
                *listing == shipped@[d as int],
                forall|k: int| 0 <= k < f ==> listing.file_names@[k]@ != file_name@,
            decreases listing.file_names@.len() - f,
        {
            if listing.file_names[f] == *file_name {
                assert(listing_has(shipped@[d as int], file_name@));
                return Some(d);
            }
            f = f + 1;
        }
        assert(!listing_has(shipped@[d as int], file_name@));
        d = d + 1;
    }
    None
}

/// The first positive hit of a linear search is what `found_dir` returns.
proof fn lemma_found_dir_some(shipped: Seq<DirListing>, file_name: Seq<char>, d: int)
    requires
        0 <= d < shipped.len(),
        listing_has(shipped[d], file_name),
        forall|k: int| 0 <= k < d ==> !listing_has(shipped[k], file_name),
    ensures
        found_dir(shipped, file_name) == Some(shipped[d].dir@),
    decreases d,
{
    if d == 0 {
    } else {
        assert(!listing_has(shipped[0], file_name));
        lemma_found_dir_some(shipped.drop_first(), file_name, d - 1);
        assert(shipped.drop_first()[d - 1] == shipped[d]);
    }
}

/// The file name under which a shipped icon is looked up.
fn symbolic_file_name(icon: &String) -> (r: String)
    ensures
        r@ == symbolic_file_of(icon@),
{
    let mut s = icon.clone();
    s.append("-symbolic.svg");
    s
}

/// A directory path and a file name, joined by a separator.
fn join_path(dir: &String, file: &String) -> (r: String)
    ensures
        r@ == dir@ + "/"@ + file@,
{
    let mut s = dir.clone();
    s.append("/");
    s.append(file.as_str());
    s
}

/// A search without a hit is a `found_dir` of nothing.
proof fn lemma_found_dir_none(shipped: Seq<DirListing>, file_name: Seq<char>)
    requires
        forall|k: int| 0 <= k < shipped.len() ==> !listing_has(shipped[k], file_name),
    ensures
        found_dir(shipped, file_name) is None,
    decreases shipped.len(),
{
    if shipped.len() > 0 {
        lemma_found_dir_none(shipped.drop_first(), file_name);
    }
}

/// Assembles the icon table of one build.
///
/// The custom folder's files come first, in folder order; the requested
/// icons follow, each resolved to the first shipped directory holding its
/// file.  The build succeeds exactly when an icon folder is known, every
/// custom file is an icon file, no icon name occurs twice and every
/// requested icon is found; a failed build reports the first offender in
/// processing order.
pub fn assemble_icons(config: &Config, custom: &Vec<FileEntry>, shipped: &Vec<DirListing>) -> (r:
    Result<IconTable, BuildError>)
    ensures
        r is Ok <==> assemble_ok(*config, custom@, shipped@),
        r is Ok ==> (r->Ok_0).wf() && (r->Ok_0).rows() == expected_table(
            *config,
            custom@,
            shipped@,
        ),
        (r matches Err(e) ==> match e {
            BuildError::MissingIconsFolder => config.icons_folder is None,
            BuildError::NonIconFile { file_name } => exists|i: int|
                0 <= i < custom@.len() && custom@[i].file_name@ == file_name@ && !is_icon_file(
                    file_name@,
                ),
            BuildError::DuplicateIcon { name } => duplicated(
                all_names(*config, custom@),
                name@,
            ),
            BuildError::IconNotFound { name } => requested_icons(*config).map_values(
                |s: String| s@,
            ).contains(name@) && found_dir(shipped@, symbolic_file_of(name@)) is None,
            BuildError::FileDataFailed => false,
            BuildError::ArchiveFailed => false,
        }),
        config.icons_folder is None ==> (r matches Err(e) && e is MissingIconsFolder),
        (config.icons_folder is Some ==> (first_custom_issue(custom@) matches Some(fi) ==> (
        if !is_icon_file(custom@[fi].file_name@) {
            r matches Err(BuildError::NonIconFile { file_name }) && file_name@
                == custom@[fi].file_name@
        } else {
            r matches Err(BuildError::DuplicateIcon { name }) && name@ == custom_names(
                custom@,
            )[fi]
        }))),
        ((config.icons_folder is Some && first_custom_issue(custom@) is None) ==> (
        first_requested_issue(*config, custom@, shipped@) matches Some(fj) ==> (
        if found_dir(shipped@, symbolic_file_of(requested_icons(*config)[fj]@)) is None {
            r matches Err(BuildError::IconNotFound { name }) && name@ == requested_icons(
                *config,
            )[fj]@
        } else {
            r matches Err(BuildError::DuplicateIcon { name }) && name@ == requested_icons(
                *config,
            )[fj]@
        }))),
{
    if config.icons_folder.is_none() {
        return Err(BuildError::MissingIconsFolder);
    }
    let ghost names_goal = all_names(*config, custom@);
    let mut table = IconTable { entries: Vec::new() };
    assert(table.rows() =~= expected_custom(custom@).subrange(0, 0));
    assert(table.names() =~= names_goal.subrange(0, 0));
    let mut i: usize = 0;
    while i < custom.len()
        invariant
            config.icons_folder is Some,
            names_goal == all_names(*config, custom@),
            i <= custom@.len(),
            forall|k: int| 0 <= k < i ==> is_icon_file(custom@[k].file_name@),
            table.rows() == expected_custom(custom@).subrange(0, i as int),
            table.names() == names_goal.subrange(0, i as int),
            table.wf(),
        decreases custom@.len() - i,
    {
        let entry = &custom[i];
        match path_to_icon_name(entry.file_name.as_str()) {
            Err(e) => {
                proof {
                    lemma_no_custom_issue_prefix(*config, custom@, names_goal, i as int);
                    assert(custom_issue(custom@, i as int));
                    assert(first_custom_issue(custom@) == Some(i as int));
                }
                return Err(e);
            },
            Ok(name) => {
                assert(name@ == icon_name_of(custom@[i as int].file_name@));
                assert(names_goal[i as int] == name@);
                if table.contains_name(&name) {
                    proof {
                        let k = choose|k: int|
                            0 <= k < table.names().len() && table.names()[k] == name@;
                        assert(names_goal[k] == name@);
                        assert(duplicated(names_goal, name@));
                        lemma_no_custom_issue_prefix(*config, custom@, names_goal, i as int);
                        assert(table.names().len() == i);
                        assert(custom_names(custom@)[k] == names_goal[k]);
                        assert(custom_names(custom@)[i as int] == name@);
                        assert(repeats_earlier(custom_names(custom@), i as int));
                        assert(first_custom_issue(custom@) == Some(i as int));
                    }
                    return Err(BuildError::DuplicateIcon { name });
                }
                let ghost old_table = table;
                table.entries.push(IconEntry { name, path: entry.path.clone() });
                proof {
                    assert(table.rows() =~= expected_custom(custom@).subrange(0, i + 1)) by {
                        assert(table.entries@ == old_table.entries@.push(
                            table.entries@[i as int],
                        ));
                    }
                    assert(table.names() =~= names_goal.subrange(0, i + 1));
                    assert(table.wf()) by {
                        assert(forall|a: int, b: int|
                            0 <= a < b < table.names().len() && b < i ==> table.names()[a]
                                != table.names()[b]);
                        assert(forall|a: int|
                            0 <= a < i ==> table.names()[a] != table.names()[i as int]);
                    }
                }
            },
        }
        i = i + 1;
    }
    assert(expected_custom(custom@).subrange(0, custom@.len() as int) =~= expected_custom(custom@));
    let ghost done_custom = custom@.len() as int;
    proof {
        lemma_no_custom_issue_prefix(*config, custom@, names_goal, done_custom);
        assert(first_custom_issue(custom@) is None);
    }
    match &config.icons {
        None => {
            proof {
                assert(requested_icons(*config) =~= Seq::<String>::empty());
                assert(expected_table(*config, custom@, shipped@) =~= expected_custom(custom@));
                assert(names_goal.subrange(0, done_custom) =~= names_goal);
                assert(unique_names(names_goal));
                assert(assemble_ok(*config, custom@, shipped@));
                assert(first_requested_issue(*config, custom@, shipped@) is None);
            }
            Ok(table)
        },
        Some(icons) => {
            let mut j: usize = 0;
            while j < icons.len()
                invariant
                    config.icons_folder is Some,
                    config.icons matches Some(v) && v@ == icons@,
                    names_goal == all_names(*config, custom@),
                    done_custom == custom@.len(),
                    first_custom_issue(custom@) is None,
                    forall|k: int| 0 <= k < custom@.len() ==> is_icon_file(custom@[k].file_name@),
                    j <= icons@.len(),
                    forall|k: int|
                        0 <= k < j ==> found_dir(shipped@, symbolic_file_of(icons@[k]@)) is Some,
                    table.rows() == expected_table(*config, custom@, shipped@).subrange(
                        0,
                        done_custom + j,
                    ),
                    table.names() == names_goal.subrange(0, done_custom + j),
                    table.wf(),
                decreases icons@.len() - j,
            {
                let icon = &icons[j];
                assert(names_goal[done_custom + j] == icon@);
                let file = symbolic_file_name(icon);
                match find_dir(shipped, &file) {
                    None => {
                        proof {
                            lemma_found_dir_none(shipped@, file@);
                            assert(requested_icons(*config).map_values(|s: String| s@)[j as int]
                                == icon@);
                            assert(requested_icons(*config) == icons@);
                            lemma_no_requested_issue_prefix(
                                *config,
                                custom@,
                                shipped@,
                                names_goal,
                                j as int,
                            );
                            assert(requested_issue(*config, custom@, shipped@, j as int));
                            assert(first_requested_issue(*config, custom@, shipped@) == Some(
                                j as int,
                            ));
                        }
                        return Err(BuildError::IconNotFound { name: icon.clone() });
                    },
                    Some(d) => {
                        if table.contains_name(icon) {
                            proof {
                                let k = choose|k: int|
                                    0 <= k < table.names().len() && table.names()[k] == icon@;
                                assert(names_goal[k] == icon@);
                                assert(duplicated(names_goal, icon@));
                                lemma_found_dir_some(shipped@, file@, d as int);
                                assert(requested_icons(*config) == icons@);
                                lemma_no_requested_issue_prefix(
                                    *config,
                                    custom@,
                                    shipped@,
                                    names_goal,
                                    j as int,
                                );
                                assert(table.names().len() == done_custom + j);
                                assert(repeats_earlier(names_goal, done_custom + j));
                                assert(requested_issue(*config, custom@, shipped@, j as int));
                                assert(first_requested_issue(*config, custom@, shipped@) == Some(
                                    j as int,
                                ));
                            }
                            return Err(BuildError::DuplicateIcon { name: icon.clone() });
                        }
                        proof {
                            lemma_found_dir_some(shipped@, file@, d as int);
                        }
                        let path = join_path(&shipped[d].dir, &file);
                        let ghost old_table = table;
                        table.entries.push(IconEntry { name: icon.clone(), path });
                        proof {
                            let goal = expected_table(*config, custom@, shipped@);
                            assert(goal[done_custom + j] == expected_requested_row(
                                shipped@,
                                icon@,
                            ));
                            assert(table.rows() =~= goal.subrange(0, done_custom + j + 1)) by {
                                assert(table.entries@ == old_table.entries@.push(
                                    table.entries@[done_custom + j],
                                ));
                            }
                            assert(table.names() =~= names_goal.subrange(0, done_custom + j + 1));
                            assert(table.wf()) by {
                                assert(forall|a: int|
                                    0 <= a < done_custom + j ==> #[trigger] table.names()[a]
                                        != table.names()[done_custom + j]);
                            }
                        }
                    },
                }
                j = j + 1;
            }
            proof {
                let goal = expected_table(*config, custom@, shipped@);
                assert(table.rows() =~= goal);
                assert(requested_icons(*config) == icons@);
                assert(names_goal.subrange(0, done_custom + icons@.len()) =~= names_goal);
                assert(unique_names(names_goal));
                assert(assemble_ok(*config, custom@, shipped@));
                lemma_no_requested_issue_prefix(
                    *config,
                    custom@,
                    shipped@,
                    names_goal,
                    icons@.len() as int,
                );
                assert(first_requested_issue(*config, custom@, shipped@) is None);
            }
            Ok(table)
        },
    }
}

} // verus!
