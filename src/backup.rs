//! What a backup is: which recipe, under which file name, as which archive.
//! Writing the archive is left to the caller.
use vstd::prelude::*;
use new_string_template::error::TemplateError;
use new_string_template::template::Template;
use crate::config::{BackupFileType, BackupsConfig, DolorousConfig};

verus! {

#[verifier::external_type_specification]
#[verifier::external_body]
pub struct ExTemplateError(TemplateError);

/// What `Template::render` makes of `template` with the named `values`, or
/// `None` where it fails.
pub uninterp spec fn rendered(template: Seq<char>, values: Seq<(Seq<char>, Seq<char>)>) -> Option<Seq<char>>;

/// The views of named values.
pub open spec fn value_views(values: Seq<(String, String)>) -> Seq<(Seq<char>, Seq<char>)> {
    values.map_values(|p: (String, String)| (p.0@, p.1@))
}

/// Relies on `new_string_template`'s `Template::new` and `Template::render`:
/// the rendering of `template` with `values` looked up by name.
#[verifier::external_body]
fn render_template(template: &str, values: &Vec<(String, String)>) -> (r: Result<String, TemplateError>)
    ensures
        r is Ok <==> rendered(template@, value_views(values@)) is Some,
        r is Ok ==> r->Ok_0@ == rendered(template@, value_views(values@))->Some_0,
{
    let map: std::collections::HashMap<&str, &str> =
        values.iter().map(|p| (p.0.as_str(), p.1.as_str())).collect();
    Template::new(template).render(&map)
}

/// Why a backup could not be planned.
#[derive(Debug, Clone, Copy, PartialEq, Eq, Structural)]
pub enum BackupError {
    /// No recipe has the name asked for.
    Undefined,
    /// The name template could not be rendered.
    InvalidName,
}

/// The archive that a backup is written as.
#[derive(Debug, Clone, Copy, PartialEq, Eq, Structural)]
pub enum Archive {
    Zip,
    /// A gzip-compressed tar, at a compression level from 0 to 9.
    TarGz { level: u32 },
    Tar,
    /// A plain copy of the files into a directory.
    Copy,
}

pub open spec fn extension_of(t: BackupFileType) -> Seq<char> {
    match t {
        BackupFileType::Zip => "zip"@,
        BackupFileType::TarGz | BackupFileType::TarGzSmall | BackupFileType::TarGzFast => "tar.gz"@,
        BackupFileType::Tar => "tar"@,
        BackupFileType::Copy => "d"@,
    }
}

pub open spec fn archive_spec(t: BackupFileType) -> Archive {
    match t {
        BackupFileType::Zip => Archive::Zip,
        BackupFileType::TarGz => Archive::TarGz { level: 6 },
        BackupFileType::TarGzFast => Archive::TarGz { level: 1 },
        BackupFileType::TarGzSmall => Archive::TarGz { level: 9 },
        BackupFileType::Tar => Archive::Tar,
        BackupFileType::Copy => Archive::Copy,
    }
}

/// The file extension of a backup of type `typ`.
pub fn find_extension(typ: &BackupFileType) -> (r: &'static str)
    ensures
        r@ == extension_of(*typ),
{
    match typ {
        BackupFileType::Zip => "zip",
        BackupFileType::TarGz | BackupFileType::TarGzSmall | BackupFileType::TarGzFast => "tar.gz",
        BackupFileType::Tar => "tar",
        BackupFileType::Copy => "d",
    }
}

/// The archive, and its compression level, of a backup of type `typ`.
pub fn archive_of(typ: BackupFileType) -> (r: Archive)
    ensures
        r == archive_spec(typ),
{
    match typ {
        BackupFileType::Zip => Archive::Zip,
        BackupFileType::TarGz => Archive::TarGz { level: 6 },
        BackupFileType::TarGzFast => Archive::TarGz { level: 1 },
        BackupFileType::TarGzSmall => Archive::TarGz { level: 9 },
        BackupFileType::Tar => Archive::Tar,
        BackupFileType::Copy => Archive::Copy,
    }
}

/// The values that a backup's name template is rendered with.
pub open spec fn name_values(date: Seq<char>, t: BackupFileType) -> Seq<(Seq<char>, Seq<char>)> {
    seq![("date"@, date), ("extension"@, extension_of(t))]
}

/// The file name of a backup: `template` rendered with `{date}` as `date`
/// and `{extension}` as the extension of `file_type`.
pub fn render_name(template: &str, date: &str, file_type: &BackupFileType) -> (r: Result<String, BackupError>)
    ensures
        r is Ok <==> rendered(template@, name_values(date@, *file_type)) is Some,
        r is Ok ==> r->Ok_0@ == rendered(template@, name_values(date@, *file_type))->Some_0,
        r is Err ==> r->Err_0 == BackupError::InvalidName,
{
    let mut values: Vec<(String, String)> = Vec::new();
    values.push(("date".to_owned(), date.to_owned()));
    values.push(("extension".to_owned(), find_extension(file_type).to_owned()));
    assert(value_views(values@) =~= name_values(date@, *file_type));
    match render_template(template, &values) {
        Ok(name) => Ok(name),
        Err(_) => Err(BackupError::InvalidName),
    }
}

/// The first recipe named `name`, if any.
pub fn find_backup(backups: &Vec<(String, BackupsConfig)>, name: &str) -> (r: Option<usize>)
    ensures
        r is Some ==> r->Some_0 < backups@.len() && backups@[r->Some_0 as int].0@ == name@,
        r is Some ==> forall|j: int| 0 <= j < r->Some_0 ==> backups@[j].0@ != name@,
        r is None ==> forall|j: int| 0 <= j < backups@.len() ==> backups@[j].0@ != name@,
{
    let target = name.to_owned();
    let mut i: usize = 0;
    while i < backups.len()
        invariant
            0 <= i <= backups@.len(),
            target@ == name@,
            forall|j: int| 0 <= j < i ==> backups@[j].0@ != name@,
        decreases backups@.len() - i,
    {
        if backups[i].0 == target {
            return Some(i);
        }
        i = i + 1;
    }
    None
}

/// The index of the recipe named `name` in a configuration whose names are
/// unique; `BackupError::Undefined` where there is none.
pub fn lookup_backup(config: &DolorousConfig, name: &str) -> (r: Result<usize, BackupError>)
    requires
        config.wf(),
    ensures
        r is Err <==> forall|j: int| 0 <= j < config.backups@.len() ==> config.backups@[j].0@ != name@,
        r is Err ==> r->Err_0 == BackupError::Undefined,
        r is Ok ==> r->Ok_0 < config.backups@.len() && config.backups@[r->Ok_0 as int].0@ == name@,
        r is Ok ==> forall|j: int|
            0 <= j < config.backups@.len() && j != r->Ok_0 ==> config.backups@[j].0@ != name@,
{
    match find_backup(&config.backups, name) {
        Some(i) => {
            assert forall|j: int| 0 <= j < config.backups@.len() && j != i implies config.backups@[j].0@ != name@ by {
                assert(config.backups@[i as int].0@ != config.backups@[j].0@);
            }
            Ok(i)
        },
        None => Err(BackupError::Undefined),
    }
}

/// The file name under which recipe `backup` of `config` is written, with
/// `date` already formatted by the recipe's time format.
pub fn backup_file_name(config: &BackupsConfig, date: &str) -> (r: Result<String, BackupError>)
    ensures
        r is Ok <==> rendered(config.name@, name_values(date@, config.file_type)) is Some,
        r is Ok ==> r->Ok_0@ == rendered(config.name@, name_values(date@, config.file_type))->Some_0,
        r is Err ==> r->Err_0 == BackupError::InvalidName,
{
    render_name(config.name.as_str(), date, &config.file_type)
}

} // verus!
