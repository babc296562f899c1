//! The icon build pipeline.
//!
//! One call turns the configuration and the directory contents into
//! everything the build writes besides the archive bytes: the icon table,
//! the resource prefix, and the generated constants source.  The archive
//! itself needs the icon files' contents and is built by
//! [`crate::archive::build_icons_archive`] once they are read.

use vstd::prelude::*;

use crate::codegen::{constants_source, generate_constants, opt_text};
use crate::config::{compute_prefix, resource_prefix, Config};
use crate::error::BuildError;
use crate::naming::is_icon_file;
use crate::table::{
    all_names,
    assemble_icons,
    assemble_ok,
    custom_names,
    duplicated,
    expected_table,
    first_custom_issue,
    first_requested_issue,
    found_dir,
    requested_icons,
    symbolic_file_of,
    DirListing,
    FileEntry,
    IconTable,
};

verus! {

/// Everything one build decides: the discovered icons, the resource
/// prefix, and the generated constants source.
pub struct BuildPlan {
    pub table: IconTable,
    pub prefix: String,
    pub constants: String,
}

/// Plans one icon build.
///
/// The plan's table holds the discovered icons, its prefix is the resource
/// prefix the configuration decides, and its constants text is the
/// generated source file for that table.  The build fails exactly as
/// [`assemble_icons`] does.
pub fn build_icons(config: &Config, custom: &Vec<FileEntry>, shipped: &Vec<DirListing>) -> (r:
    Result<BuildPlan, BuildError>)
    ensures
        r is Ok <==> assemble_ok(*config, custom@, shipped@),
        (r matches Ok(plan) ==> {
            &&& plan.table.wf()
            &&& plan.table.rows() == expected_table(*config, custom@, shipped@)
            &&& plan.prefix@ == resource_prefix(*config)
            &&& plan.constants@ == constants_source(
                expected_table(*config, custom@, shipped@),
                opt_text(config.app_id),
                opt_text(config.base_resource_path),
            )
        }),
        (r matches Err(e) ==> match e {
            BuildError::MissingIconsFolder => config.icons_folder is None,
            BuildError::NonIconFile { file_name } => exists|i: int|
                0 <= i < custom@.len() && custom@[i].file_name@ == file_name@ && !is_icon_file(
                    file_name@,
                ),
            BuildError::DuplicateIcon { name } => duplicated(
                all_names(*config, custom@),
                name@,
            ),
            BuildError::IconNotFound { name } => requested_icons(*config).map_values(
                |s: String| s@,
            ).contains(name@) && found_dir(shipped@, symbolic_file_of(name@)) is None,
            BuildError::FileDataFailed => false,
            BuildError::ArchiveFailed => false,
        }),
        config.icons_folder is None ==> (r matches Err(e) && e is MissingIconsFolder),
        (config.icons_folder is Some ==> (first_custom_issue(custom@) matches Some(fi) ==> (
        if !is_icon_file(custom@[fi].file_name@) {
            r matches Err(BuildError::NonIconFile { file_name }) && file_name@
                == custom@[fi].file_name@
        } else {
            r matches Err(BuildError::DuplicateIcon { name }) && name@ == custom_names(
                custom@,
            )[fi]
        }))),
        ((config.icons_folder is Some && first_custom_issue(custom@) is None) ==> (
        first_requested_issue(*config, custom@, shipped@) matches Some(fj) ==> (
        if found_dir(shipped@, symbolic_file_of(requested_icons(*config)[fj]@)) is None {
            r matches Err(BuildError::IconNotFound { name }) && name@ == requested_icons(
                *config,
            )[fj]@
        } else {
            r matches Err(BuildError::DuplicateIcon { name }) && name@ == requested_icons(
                *config,
            )[fj]@
        }))),
{
    match assemble_icons(config, custom, shipped) {
        Err(e) => Err(e),
        Ok(table) => {
            let prefix = compute_prefix(config);
            let constants = generate_constants(&table, config);
            Ok(BuildPlan { table, prefix, constants })
        },
    }
}

} // verus!
