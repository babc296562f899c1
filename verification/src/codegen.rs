//! Generating the constants source file.
//!
//! For every discovered icon the generated file holds one public string
//! constant whose name is the icon name uppercased with dashes turned to
//! underscores, whose value is the icon name, and whose doc comment names
//! the icon and the file it came from.  Two crate-private constants with
//! the application id and the base resource path close the file.

use vstd::prelude::*;
use vstd::string::*;

use crate::config::Config;
use crate::table::IconTable;
use crate::text::{replace_char, str_replace_char, to_upper, upper_of};

verus! {

/// The constant name of an icon: the name uppercased, dashes as
/// underscores.
pub open spec fn const_name_of(name: Seq<char>) -> Seq<char> {
    replace_char(upper_of(name), '-', '_')
}

/// The generated source text of one icon constant.
///
/// The doc comment quotes the icon's path verbatim between `"` marks:
/// quotes, backslashes and control characters inside the path are not
/// escaped the way a debug formatter would escape them.
pub open spec fn const_block(name: Seq<char>, path: Seq<char>) -> Seq<char> {
    "\n            /// Icon name of the icon `"@ + name + "`, found at `\""@ + path
        + "\"`.\n            pub const "@ + const_name_of(name) + ": &str = \""@ + name
        + "\";\n            "@
}

/// The generated blocks of a table's rows, in table order.
pub open spec fn const_blocks(rows: Seq<(Seq<char>, Seq<char>)>) -> Seq<char>
    decreases rows.len(),
{
    if rows.len() == 0 {
        Seq::empty()
    } else {
        const_blocks(rows.drop_last()) + const_block(rows.last().0, rows.last().1)
    }
}

/// The text of an optional configuration value: the value, or nothing.
pub open spec fn opt_text(o: Option<String>) -> Seq<char> {
    match o {
        Some(s) => s@,
        None => Seq::empty(),
    }
}

/// The two crate-private constants that close the generated file.
pub open spec fn const_trailer(app_id: Seq<char>, base_resource_path: Seq<char>) -> Seq<char> {
    "pub(crate) const APP_ID: &str = \""@ + app_id + "\";"@
        + "pub(crate) const BASE_RESOURCE_PATH: &str = \""@ + base_resource_path + "\";"@
}

/// The whole generated source file: one block per icon, then the trailer.
pub open spec fn constants_source(
    rows: Seq<(Seq<char>, Seq<char>)>,
    app_id: Seq<char>,
    base_resource_path: Seq<char>,
) -> Seq<char> {
    const_blocks(rows) + const_trailer(app_id, base_resource_path)
}

/// The constant name of an icon.
pub fn const_name(name: &String) -> (r: String)
    ensures
        r@ == const_name_of(name@),
{
    let upper = to_upper(name.as_str());
    str_replace_char(upper.as_str(), '-', '_')
}

/// Appends the generated block of one icon.
fn append_block(out: &mut String, name: &String, path: &String)
    ensures
        final(out)@ == old(out)@ + const_block(name@, path@),
{
    out.append("\n            /// Icon name of the icon `");
    out.append(name.as_str());
    out.append("`, found at `\"");
    out.append(path.as_str());
    out.append("\"`.\n            pub const ");
    let cn = const_name(name);
    out.append(cn.as_str());
    out.append(": &str = \"");
    out.append(name.as_str());
    out.append("\";\n            ");
    assert(out@ =~= old(out)@ + const_block(name@, path@));
}

/// Appends the trailer of the generated file.
fn append_trailer(out: &mut String, config: &Config)
    ensures
        final(out)@ == old(out)@ + const_trailer(
            opt_text(config.app_id),
            opt_text(config.base_resource_path),
        ),
{
    out.append("pub(crate) const APP_ID: &str = \"");
    match &config.app_id {
        Some(app_id) => out.append(app_id.as_str()),
        None => (),
    }
    out.append("\";");
    out.append("pub(crate) const BASE_RESOURCE_PATH: &str = \"");
    match &config.base_resource_path {
        Some(base) => out.append(base.as_str()),
        None => (),
    }
    out.append("\";");
    assert(out@ =~= old(out)@ + const_trailer(
        opt_text(config.app_id),
        opt_text(config.base_resource_path),
    ));
}

/// Generates the constants source file for a table of discovered icons:
/// exactly one constant per icon of the table, in table order, then the
/// trailer with the application id and the base resource path.
pub fn generate_constants(table: &IconTable, config: &Config) -> (r: String)
    ensures
        r@ == constants_source(
            table.rows(),
            opt_text(config.app_id),
            opt_text(config.base_resource_path),
        ),
{
    let mut out = String::new();
    let mut i: usize = 0;
    while i < table.entries.len()
        invariant
            i <= table.entries@.len(),
            out@ == const_blocks(table.rows().subrange(0, i as int)),
        decreases table.entries@.len() - i,
    {
        let entry = &table.entries[i];
        append_block(&mut out, &entry.name, &entry.path);
        proof {
            let rows = table.rows();
            assert(rows.subrange(0, i + 1).drop_last() =~= rows.subrange(0, i as int));
            assert(rows.subrange(0, i + 1).last() == rows[i as int]);
        }
        i = i + 1;
    }
    assert(table.rows().subrange(0, table.rows().len() as int) =~= table.rows());
    append_trailer(&mut out, config);
    out
}

} // verus!
