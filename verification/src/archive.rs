//! Serializing icons into a GResource archive.
//!
//! The archive format belongs to the `gvdb` crate; this module calls it
//! through trusted wrappers and states the result abstractly: the archive
//! bytes are a function of the stored keys and file contents alone.

use vstd::prelude::*;
use vstd::string::*;

use gvdb::gresource::{BuilderError, BundleBuilder, FileData, PreprocessOptions};

use crate::error::BuildError;
use crate::table::IconTable;

verus! {

broadcast use vstd::seq::group_seq_axioms;

#[verifier::external_type_specification]
#[verifier::external_body]
pub struct ExFileData<'a>(FileData<'a>);

#[verifier::external_type_specification]
#[verifier::external_body]
pub struct ExBuilderError(BuilderError);

/// The archive key a file data value was created with.
pub uninterp spec fn file_data_key(d: FileData<'static>) -> Seq<char>;

/// The source bytes a file data value was created from.
pub uninterp spec fn file_data_bytes(d: FileData<'static>) -> Seq<u8>;

/// The serialized archive holding the given keys and file contents.
pub uninterp spec fn archive_of(entries: Seq<(Seq<char>, Seq<u8>)>) -> Seq<u8>;

/// Whether creating the archive data of one file with the given contents
/// succeeds; it depends on the bytes alone.
pub uninterp spec fn svg_data_ok(data: Seq<u8>) -> bool;

/// Whether serializing an archive with the given entries succeeds; it
/// depends on the keys and contents alone.
pub uninterp spec fn bundle_ok(entries: Seq<(Seq<char>, Seq<u8>)>) -> bool;

/// The model of a sequence of file data values: the key and the source
/// bytes of each.
pub open spec fn file_entries(files: Seq<FileData<'static>>) -> Seq<(Seq<char>, Seq<u8>)> {
    files.map_values(|d: FileData<'static>| (file_data_key(d), file_data_bytes(d)))
}

/// Relies on `gvdb::gresource::FileData::new`, called with xml-stripblanks
/// preprocessing and compression: on success the value stores the given
/// key, and contents that are a function of the given data alone.  Whether
/// the call succeeds depends on the data alone: the key is stored
/// verbatim, preprocessing fails only on bytes that are not well-formed
/// XML, and compressing into memory cannot fail.
#[verifier::external_body]
fn svg_file_data(key: String, data: &[u8]) -> (r: Result<FileData<'static>, BuilderError>)
    ensures
        r is Ok <==> svg_data_ok(data@),
        (r matches Ok(d) ==> file_data_key(d) == key@ && file_data_bytes(d) == data@),
{
    FileData::new(
        key,
        std::borrow::Cow::Owned(data.to_vec()),
        None,
        true,
        &PreprocessOptions::xml_stripblanks(),
    )
}

/// Relies on `gvdb::gresource::BundleBuilder::from_file_data` and
/// `BundleBuilder::build`: serialization is deterministic, so both the
/// archive bytes and whether building succeeds are functions of the given
/// files, in order, alone.
#[verifier::external_body]
fn build_bundle(files: Vec<FileData<'static>>) -> (r: Result<Vec<u8>, BuilderError>)
    ensures
        r is Ok <==> bundle_ok(file_entries(files@)),
        (r matches Ok(bytes) ==> bytes@ == archive_of(file_entries(files@))),
{
    BundleBuilder::from_file_data(files).build()
}

/// One file to store: its archive key and its contents.
pub struct ResourceFile {
    pub key: String,
    pub data: Vec<u8>,
}

/// The model of a sequence of files to store.
pub open spec fn resource_entries(files: Seq<ResourceFile>) -> Seq<(Seq<char>, Seq<u8>)> {
    files.map_values(|f: ResourceFile| (f.key@, f.data@))
}

/// Every file's contents can be turned into archive data.
pub open spec fn all_files_ok(files: Seq<ResourceFile>) -> bool {
    forall|i: int| 0 <= i < files.len() ==> svg_data_ok(files[i].data@)
}

/// Serializes the given files into a resource archive.
///
/// On success the archive holds exactly the given files under their keys,
/// in order.
pub fn build_archive(files: &Vec<ResourceFile>) -> (r: Result<Vec<u8>, BuildError>)
    ensures
        r is Ok <==> all_files_ok(files@) && bundle_ok(resource_entries(files@)),
        (r matches Ok(bytes) ==> bytes@ == archive_of(resource_entries(files@))),
        (r matches Err(e) ==> match e {
            BuildError::FileDataFailed => exists|i: int|
                0 <= i < files@.len() && !svg_data_ok(files@[i].data@),
            BuildError::ArchiveFailed => all_files_ok(files@) && !bundle_ok(
                resource_entries(files@),
            ),
            _ => false,
        }),
{
    let mut data: Vec<FileData<'static>> = Vec::new();
    assert(file_entries(data@) =~= resource_entries(files@).subrange(0, 0));
    let mut i: usize = 0;
    while i < files.len()
        invariant
            i <= files@.len(),
            file_entries(data@) == resource_entries(files@).subrange(0, i as int),
            forall|k: int| 0 <= k < i ==> svg_data_ok(files@[k].data@),
        decreases files@.len() - i,
    {
        let file = &files[i];
        match svg_file_data(file.key.clone(), file.data.as_slice()) {
            Err(_) => {
                assert(!svg_data_ok(files@[i as int].data@));
                return Err(BuildError::FileDataFailed);
            },
            Ok(d) => {
                let ghost prev = data@;
                data.push(d);
                proof {
                    assert(file_entries(prev).len() == prev.len());
                    assert(prev.len() == i);
                    assert(data@[i as int] == d);
                }
                assert(file_entries(data@) =~~= resource_entries(files@).subrange(0, i + 1));
            },
        }
        i = i + 1;
    }
    assert(resource_entries(files@).subrange(0, files@.len() as int) =~= resource_entries(files@));
    match build_bundle(data) {
        Err(_) => Err(BuildError::ArchiveFailed),
        Ok(bytes) => Ok(bytes),
    }
}

/// Every given file contents can be turned into archive data.
pub open spec fn all_contents_ok(contents: Seq<Vec<u8>>) -> bool {
    forall|i: int| 0 <= i < contents.len() ==> svg_data_ok(contents[i]@)
}

/// The archive key of one bundled icon: the resource prefix, the icon
/// name, and the symbolic file suffix.
pub open spec fn resource_key_of(prefix: Seq<char>, name: Seq<char>) -> Seq<char> {
    prefix + name + "-symbolic.svg"@
}

/// Builds the archive key of one bundled icon.
pub fn resource_key(prefix: &String, name: &String) -> (r: String)
    ensures
        r@ == resource_key_of(prefix@, name@),
{
    let mut s = prefix.clone();
    s.append(name.as_str());
    s.append("-symbolic.svg");
    s
}

/// The archive entries of a table whose icon files hold the given
/// contents, in table order.
pub open spec fn table_entries(
    rows: Seq<(Seq<char>, Seq<char>)>,
    prefix: Seq<char>,
    contents: Seq<Vec<u8>>,
) -> Seq<(Seq<char>, Seq<u8>)> {
    Seq::new(rows.len(), |i: int| (resource_key_of(prefix, rows[i].0), contents[i]@))
}

/// Serializes the icons of a table: row `i` of the table is stored under
/// the key derived from its name, with the given file contents.
pub fn build_icons_archive(table: &IconTable, prefix: &String, contents: &Vec<Vec<u8>>) -> (r:
    Result<Vec<u8>, BuildError>)
    requires
        table.rows().len() == contents@.len(),
    ensures
        r is Ok <==> all_contents_ok(contents@) && bundle_ok(
            table_entries(table.rows(), prefix@, contents@),
        ),
        (r matches Ok(bytes) ==> bytes@ == archive_of(
            table_entries(table.rows(), prefix@, contents@),
        )),
        (r matches Err(e) ==> match e {
            BuildError::FileDataFailed => exists|i: int|
                0 <= i < contents@.len() && !svg_data_ok(contents@[i]@),
            BuildError::ArchiveFailed => all_contents_ok(contents@) && !bundle_ok(
                table_entries(table.rows(), prefix@, contents@),
            ),
            _ => false,
        }),
{
    let mut files: Vec<ResourceFile> = Vec::new();
    let mut i: usize = 0;
    while i < table.entries.len()
        invariant
            table.rows().len() == contents@.len(),
            i <= table.entries@.len(),
            resource_entries(files@) == table_entries(table.rows(), prefix@, contents@).subrange(
                0,
                i as int,
            ),
        decreases table.entries@.len() - i,
    {
        let key = resource_key(prefix, &table.entries[i].name);
        let data = contents[i].clone();
        let ghost prev = files@;
        files.push(ResourceFile { key, data });
        proof {
            assert(resource_entries(prev).len() == prev.len());
            assert(prev.len() == i);
            assert(resource_entries(files@)[i as int] == (
                resource_key_of(prefix@, table.rows()[i as int].0),
                contents@[i as int]@,
            ));
        }
        assert(resource_entries(files@) =~~= table_entries(
            table.rows(),
            prefix@,
            contents@,
        ).subrange(0, i + 1));
        i = i + 1;
    }
    proof {
        let goal = table_entries(table.rows(), prefix@, contents@);
        assert(goal.subrange(0, table.rows().len() as int) =~= goal);
        assert forall|k: int| 0 <= k < files@.len() implies files@[k].data@ == contents@[k]@ by {
            assert(resource_entries(files@)[k] == goal[k]);
        }
        assert(files@.len() == contents@.len());
        assert(all_files_ok(files@) ==> all_contents_ok(contents@)) by {
            if all_files_ok(files@) {
                assert forall|k: int| 0 <= k < contents@.len() implies svg_data_ok(
                    contents@[k]@,
                ) by {
                    assert(files@[k].data@ == contents@[k]@);
                    assert(svg_data_ok(files@[k].data@));
                }
            }
        }
        assert(all_contents_ok(contents@) ==> all_files_ok(files@)) by {
            if all_contents_ok(contents@) {
                assert forall|k: int| 0 <= k < files@.len() implies svg_data_ok(
                    files@[k].data@,
                ) by {
                    assert(files@[k].data@ == contents@[k]@);
                    assert(svg_data_ok(contents@[k]@));
                }
            }
        }
    }
    build_archive(&files)
}

} // verus!
