//! Saved presets: how they are named, and what a file must hold to be
//! imported as one.

use vstd::prelude::*;
use crate::json::{
    json_member_is_array, json_syntax_error, member_is_array, syntax_error, text_view,
};
use crate::text::{hyphenate, hyphenated, lowercase, lowercase_of};

verus! {

/// Name of the directory that holds the presets, inside the configuration
/// directory.
pub const PRESETS_DIR: &'static str = "presets";

/// Extension of a preset file.
pub const PRESET_EXTENSION: &'static str = "json";

/// The name a preset is listed under where its file has none that can be
/// shown.
pub const UNNAMED_PRESET: &'static str = "unknown";

/// The name an imported preset gets where its file has none that can be
/// used.
pub const UNNAMED_IMPORT: &'static str = "imported";

/// The member that a preset document must hold as an array.
pub const INSTANCES_MEMBER: &'static str = "instances";

/// A saved preset: the name it is listed under and the file that holds it.
#[derive(Debug, Clone, PartialEq, Eq)]
pub struct PresetInfo {
    name: String,
    path: String,
}

/// Mathematical model of a [`PresetInfo`].
pub struct PresetInfoView {
    pub name: Seq<char>,
    pub path: Seq<char>,
}

impl View for PresetInfo {
    type V = PresetInfoView;

    closed spec fn view(&self) -> PresetInfoView {
        PresetInfoView { name: self.name@, path: self.path@ }
    }
}

/// Model of a check that passed or the reason it did not.
pub open spec fn check_view(result: Result<(), String>) -> Result<(), Seq<char>> {
    match result {
        Ok(done) => Ok(()),
        Err(reason) => Err(reason@),
    }
}

/// The name a preset is filed under: lower case, with hyphens for spaces.
pub open spec fn slug_of(name: Seq<char>) -> Seq<char> {
    hyphenated(lowercase_of(name))
}

/// The name of the file that holds the preset filed under `stem`.
pub open spec fn preset_file_of(stem: Seq<char>) -> Seq<char> {
    stem + ".json"@
}

/// Whether a file with this extension, if it has one, is a preset.
pub open spec fn preset_extension(extension: Option<Seq<char>>) -> bool {
    extension == Some(PRESET_EXTENSION@)
}

/// The name under which a preset file is listed: its stem, or a fixed name
/// where it has none.
pub open spec fn listed_name_of(stem: Option<Seq<char>>) -> Seq<char> {
    match stem {
        Some(stem) => stem,
        None => UNNAMED_PRESET@,
    }
}

/// The name under which a file is imported: the slug of its stem, or of a
/// fixed name where it has none.
pub open spec fn import_slug_of(stem: Option<Seq<char>>) -> Seq<char> {
    match stem {
        Some(stem) => slug_of(stem),
        None => slug_of(UNNAMED_IMPORT@),
    }
}

/// Whether a document can be imported, given the message with which the
/// JSON parser refused it, if it did, and whether its `instances` member is
/// an array, if it has one.
pub open spec fn preset_verdict_of(syntax_error: Option<Seq<char>>, instances: Option<bool>) -> Result<
    (),
    Seq<char>,
> {
    match syntax_error {
        Some(message) => Err("Invalid JSON: "@ + message),
        None => if instances == Some(true) {
            Ok(())
        } else {
            Err("Preset file must contain an \"instances\" array"@)
        },
    }
}

/// Whether `document` can be imported as a preset: it must be JSON and
/// hold an array under `instances`.
pub open spec fn preset_check_of(document: Seq<char>) -> Result<(), Seq<char>> {
    preset_verdict_of(
        json_syntax_error(document),
        json_member_is_array(document, INSTANCES_MEMBER@),
    )
}

impl PresetInfo {
    /// The preset named `name` in the file at `path`.
    pub fn new(name: String, path: String) -> (info: Self)
        ensures
            info@ == (PresetInfoView { name: name@, path: path@ }),
    {
        Self { name, path }
    }

    /// The entry for the preset file at `path`, whose name without the
    /// extension is `stem` where it has one that can be shown.
    pub fn listed(stem: Option<String>, path: String) -> (info: Self)
        ensures
            info@ == (PresetInfoView { name: listed_name_of(text_view(stem)), path: path@ }),
    {
        let name = match stem {
            Some(stem) => stem,
            None => String::from_str(UNNAMED_PRESET),
        };
        Self { name, path }
    }

    /// The name the preset is listed under.
    pub fn name(&self) -> (name: &String)
        ensures
            name@ == self@.name,
    {
        &self.name
    }

    /// The file that holds the preset.
    pub fn path(&self) -> (path: &String)
        ensures
            path@ == self@.path,
    {
        &self.path
    }
}

/// Whether a file with this extension, if it has one, is a preset.
pub fn is_preset_extension(extension: Option<&str>) -> (yes: bool)
    ensures
        yes == preset_extension(
            match extension {
                Some(extension) => Some(extension@),
                None => None,
            },
        ),
{
    match extension {
        Some(extension) => String::from_str(extension) == String::from_str(PRESET_EXTENSION),
        None => false,
    }
}

/// The name a preset is filed under.
pub fn preset_slug(name: &str) -> (slug: String)
    ensures
        slug@ == slug_of(name@),
{
    hyphenate(lowercase(name).as_str())
}

/// The name under which a file is imported, given its name without the
/// extension where it has one that can be used.
pub fn import_slug(stem: Option<&str>) -> (slug: String)
    ensures
        slug@ == import_slug_of(
            match stem {
                Some(stem) => Some(stem@),
                None => None,
            },
        ),
{
    match stem {
        Some(stem) => preset_slug(stem),
        None => preset_slug(UNNAMED_IMPORT),
    }
}

/// The name of the file that holds the preset filed under `stem`.
pub fn preset_file_name(stem: &str) -> (file: String)
    ensures
        file@ == preset_file_of(stem@),
{
    String::from_str(stem).concat(".json")
}

/// Decides whether a document can be imported, given what the JSON parser
/// said of it.
pub fn preset_verdict(syntax_error: Option<String>, instances: Option<bool>) -> (verdict: Result<
    (),
    String,
>)
    ensures
        check_view(verdict) == preset_verdict_of(text_view(syntax_error), instances),
{
    match syntax_error {
        Some(message) => Err(String::from_str("Invalid JSON: ").concat(message.as_str())),
        None => match instances {
            Some(true) => Ok(()),
            _ => Err(String::from_str("Preset file must contain an \"instances\" array")),
        },
    }
}

/// Checks that `document` can be imported as a preset.
pub fn check_preset_document(document: &str) -> (verdict: Result<(), String>)
    ensures
        check_view(verdict) == preset_check_of(document@),
{
    let error = syntax_error(document);
    let instances = member_is_array(document, INSTANCES_MEMBER);
    preset_verdict(error, instances)
}

} // verus!
