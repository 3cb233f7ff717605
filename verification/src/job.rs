//! The settings of a batch, the files submitted to it and the job units
//! made of both.

use crate::codec::path_extension;
use crate::progress::{detail_views, text_view, ImageDetail, ImageDetailView};
use crate::text::join2;
use vstd::prelude::*;
use vstd::string::StringExecFns;

verus! {

/// The quality that is used where the configured one is switched off.
pub const DEFAULT_QUALITY: u8 = 80;

/// What the user has set for the next batch.
#[derive(Debug)]
pub struct ConversionSettings {
    pub resize_enabled: bool,
    pub width: u32,
    pub height: u32,
    pub quality_enabled: bool,
    pub compression_quality: u8,
    pub rename_enabled: bool,
    pub output_filename: String,
}

/// The mathematical content of the settings.
pub struct SettingsView {
    pub resize_enabled: bool,
    pub width: u32,
    pub height: u32,
    pub quality_enabled: bool,
    pub compression_quality: u8,
    pub rename_enabled: bool,
    pub output_filename: Seq<char>,
}

impl View for ConversionSettings {
    type V = SettingsView;

    open spec fn view(&self) -> SettingsView {
        SettingsView {
            resize_enabled: self.resize_enabled,
            width: self.width,
            height: self.height,
            quality_enabled: self.quality_enabled,
            compression_quality: self.compression_quality,
            rename_enabled: self.rename_enabled,
            output_filename: self.output_filename@,
        }
    }
}

impl SettingsView {
    /// The quality that jobs are encoded at: the configured one, brought
    /// into 1 to 100, if it is switched on, and 80 if not.
    pub open spec fn effective_quality(self) -> u8 {
        if !self.quality_enabled {
            DEFAULT_QUALITY
        } else if self.compression_quality < 1 {
            1
        } else if self.compression_quality > 100 {
            100
        } else {
            self.compression_quality
        }
    }

    /// The dimensions that every raster is stretched to, if resizing is on.
    pub open spec fn resize_target(self) -> Option<(u32, u32)> {
        if self.resize_enabled {
            Some((self.width, self.height))
        } else {
            None
        }
    }

    /// Whether every output takes the configured base name.
    pub open spec fn renames(self) -> bool {
        self.rename_enabled && self.output_filename.len() > 0
    }

    /// The name of the output file for a source with the given stem: the
    /// base name where renaming applies, the stem where not, and `.webp`.
    pub open spec fn output_file_name(self, stem: Seq<char>) -> Seq<char> {
        if self.renames() {
            self.output_filename + ".webp"@
        } else {
            stem + ".webp"@
        }
    }
}

impl Default for ConversionSettings {
    fn default() -> (settings: ConversionSettings)
        ensures
            settings@ == (SettingsView {
                resize_enabled: false,
                width: 800,
                height: 600,
                quality_enabled: false,
                compression_quality: 80,
                rename_enabled: false,
                output_filename: "output"@,
            }),
    {
        ConversionSettings {
            resize_enabled: false,
            width: 800,
            height: 600,
            quality_enabled: false,
            compression_quality: 80,
            rename_enabled: false,
            output_filename: String::from_str("output"),
        }
    }
}

impl ConversionSettings {
    pub fn effective_quality(&self) -> (quality: u8)
        ensures
            quality == self@.effective_quality(),
            1 <= quality <= 100,
    {
        if !self.quality_enabled {
            DEFAULT_QUALITY
        } else if self.compression_quality < 1 {
            1
        } else if self.compression_quality > 100 {
            100
        } else {
            self.compression_quality
        }
    }

    pub fn resize_target(&self) -> (target: Option<(u32, u32)>)
        ensures
            target == self@.resize_target(),
    {
        if self.resize_enabled {
            Some((self.width, self.height))
        } else {
            None
        }
    }

    pub fn output_file_name(&self, stem: &str) -> (name: String)
        ensures
            name@ == self@.output_file_name(stem@),
    {
        if self.rename_enabled && !self.output_filename.as_str().is_empty() {
            join2(self.output_filename.as_str(), ".webp")
        } else {
            join2(stem, ".webp")
        }
    }
}

/// `Path::file_name` of the path, as text. What counts as a separator is
/// the platform's: nothing is claimed of the result.
#[verifier::external_body]
fn path_file_name(path: &str) -> Option<String> {
    match std::path::Path::new(path).file_name() {
        Some(name) => Some(name.to_string_lossy().into_owned()),
        None => None,
    }
}

/// `Path::file_stem` of the path, as text. Nothing is claimed of the result.
#[verifier::external_body]
fn path_file_stem(path: &str) -> Option<String> {
    match std::path::Path::new(path).file_stem() {
        Some(stem) => Some(stem.to_string_lossy().into_owned()),
        None => None,
    }
}

/// `Path::parent` of the path, as text. Nothing is claimed of the result.
#[verifier::external_body]
fn path_parent(path: &str) -> Option<String> {
    match std::path::Path::new(path).parent() {
        Some(parent) => Some(parent.to_string_lossy().into_owned()),
        None => None,
    }
}

/// One file submitted for conversion.
#[derive(Debug)]
pub struct SourceFile {
    /// The path as it was submitted.
    pub path: String,
    /// The file's name, shown to the user.
    pub name: String,
    /// The file's name without its extension.
    pub stem: String,
    /// The directory that holds the file, where the path names one.
    pub parent: Option<String>,
    /// The extension of the file's name, by which its format is known.
    pub extension: Option<String>,
    /// The file's size in bytes at submission.
    pub original_size: u64,
}

/// The mathematical content of a submitted file.
pub struct SourceFileView {
    pub path: Seq<char>,
    pub name: Seq<char>,
    pub stem: Seq<char>,
    pub parent: Option<Seq<char>>,
    pub extension: Option<Seq<char>>,
    pub original_size: u64,
}

impl View for SourceFile {
    type V = SourceFileView;

    open spec fn view(&self) -> SourceFileView {
        SourceFileView {
            path: self.path@,
            name: self.name@,
            stem: self.stem@,
            parent: text_view(self.parent),
            extension: text_view(self.extension),
            original_size: self.original_size,
        }
    }
}

/// The description of a file from what the path rules make of its path: the
/// file's name, or the whole path where it has none; the stem, or nothing
/// where it has none; parent and extension as they are.
pub open spec fn described(
    path: Seq<char>,
    name: Option<Seq<char>>,
    stem: Option<Seq<char>>,
    parent: Option<Seq<char>>,
    extension: Option<Seq<char>>,
    original_size: u64,
) -> SourceFileView {
    SourceFileView {
        path,
        name: match name {
            Some(name) => name,
            None => path,
        },
        stem: match stem {
            Some(stem) => stem,
            None => Seq::empty(),
        },
        parent,
        extension,
        original_size,
    }
}

impl SourceFile {
    /// Describes a file from the parts of its path.
    pub fn from_parts(
        path: String,
        name: Option<String>,
        stem: Option<String>,
        parent: Option<String>,
        extension: Option<String>,
        original_size: u64,
    ) -> (source: SourceFile)
        ensures
            source@ == described(
                path@,
                text_view(name),
                text_view(stem),
                text_view(parent),
                text_view(extension),
                original_size,
            ),
    {
        let name = match name {
            Some(name) => name,
            None => path.clone(),
        };
        let stem = match stem {
            Some(stem) => stem,
            None => String::new(),
        };
        SourceFile { path, name, stem, parent, extension, original_size }
    }

    /// Describes the file at `path`. Name, stem, parent and extension are
    /// what the platform's path rules make of the path.
    pub fn new(path: String, original_size: u64) -> (source: SourceFile)
        ensures
            source@.path == path@,
            source@.original_size == original_size,
            exists|
                name: Option<Seq<char>>,
                stem: Option<Seq<char>>,
                parent: Option<Seq<char>>,
                extension: Option<Seq<char>>,
            |
                source@ == #[trigger] described(path@, name, stem, parent, extension, original_size),
    {
        let name = path_file_name(path.as_str());
        let stem = path_file_stem(path.as_str());
        let parent = path_parent(path.as_str());
        let extension = path_extension(path.as_str());
        let ghost parts = (text_view(name), text_view(stem), text_view(parent), text_view(extension));
        let source = SourceFile::from_parts(path, name, stem, parent, extension, original_size);
        assert(source@ == described(path@, parts.0, parts.1, parts.2, parts.3, original_size));
        source
    }
}

/// A fresh record for each file, in order.
pub open spec fn fresh_details(sources: Seq<SourceFileView>) -> Seq<ImageDetailView> {
    Seq::new(
        sources.len(),
        |i: int| ImageDetailView::loaded(sources[i].name, sources[i].original_size),
    )
}

/// Makes a fresh record for each file, in order: its name, its size at
/// submission, and nothing else yet.
pub fn fresh_records(sources: &Vec<SourceFile>) -> (details: Vec<ImageDetail>)
    ensures
        detail_views(details@) == fresh_details(source_views(sources@)),
{
    let mut details: Vec<ImageDetail> = Vec::new();
    let mut index: usize = 0;
    while index < sources.len()
        invariant
            index <= sources@.len(),
            details@.len() == index,
            forall|i: int|
                0 <= i < index ==> (#[trigger] details@[i])@ == ImageDetailView::loaded(
                    sources@[i]@.name,
                    sources@[i]@.original_size,
                ),
        decreases sources@.len() - index,
    {
        let source = &sources[index];
        details.push(ImageDetail::loaded(source.name.clone(), source.original_size));
        index = index + 1;
    }
    assert(detail_views(details@) =~= fresh_details(source_views(sources@)));
    details
}

/// The views of the submitted files, in order.
pub open spec fn source_views(sources: Seq<SourceFile>) -> Seq<SourceFileView> {
    Seq::new(sources.len(), |i: int| sources[i]@)
}

/// The directory that outputs go to: the chosen one; without a choice, the
/// directory of the first submitted file; without that, `None`, which
/// stands for the working directory.
pub open spec fn resolved_output_directory(
    chosen: Option<Seq<char>>,
    sources: Seq<SourceFileView>,
) -> Option<Seq<char>> {
    match chosen {
        Some(directory) => Some(directory),
        None => if sources.len() > 0 {
            sources[0].parent
        } else {
            None
        },
    }
}

/// Resolves the directory that outputs go to.
pub fn resolve_output_directory(chosen: Option<String>, sources: &Vec<SourceFile>) -> (directory:
    Option<String>)
    ensures
        text_view(directory) == resolved_output_directory(
            text_view(chosen),
            source_views(sources@),
        ),
{
    match chosen {
        Some(directory) => Some(directory),
        None => {
            if sources.len() > 0 {
                match &sources[0].parent {
                    Some(parent) => Some(parent.clone()),
                    None => None,
                }
            } else {
                None
            }
        },
    }
}

/// One conversion task. It is made once, at submission, and never changed.
#[derive(Debug)]
pub struct JobUnit {
    /// The position of the job in the submission.
    pub index: usize,
    pub source_path: String,
    /// The extension of the source's name, by which its format is known.
    pub source_extension: Option<String>,
    /// The directory and the file name that make up the destination path.
    pub output_directory: String,
    pub output_file_name: String,
    /// The dimensions to stretch the raster to, if any.
    pub resize: Option<(u32, u32)>,
    /// The encoding quality, 1 to 100.
    pub quality: u8,
}

/// The mathematical content of a job unit.
pub struct JobUnitView {
    pub index: nat,
    pub source_path: Seq<char>,
    pub source_extension: Option<Seq<char>>,
    pub output_directory: Seq<char>,
    pub output_file_name: Seq<char>,
    pub resize: Option<(u32, u32)>,
    pub quality: u8,
}

impl View for JobUnit {
    type V = JobUnitView;

    open spec fn view(&self) -> JobUnitView {
        JobUnitView {
            index: self.index as nat,
            source_path: self.source_path@,
            source_extension: text_view(self.source_extension),
            output_directory: self.output_directory@,
            output_file_name: self.output_file_name@,
            resize: self.resize,
            quality: self.quality,
        }
    }
}

/// The job that the settings make of the file at position `index`.
pub open spec fn planned_job(
    settings: SettingsView,
    output_directory: Seq<char>,
    source: SourceFileView,
    index: nat,
) -> JobUnitView {
    JobUnitView {
        index,
        source_path: source.path,
        source_extension: source.extension,
        output_directory,
        output_file_name: settings.output_file_name(source.stem),
        resize: settings.resize_target(),
        quality: settings.effective_quality(),
    }
}

/// Makes one job unit of each submitted file, in the order of submission.
pub fn plan_jobs(sources: &Vec<SourceFile>, output_directory: &str, settings: &ConversionSettings) -> (jobs:
    Vec<JobUnit>)
    ensures
        jobs@.len() == sources@.len(),
        forall|i: int|
            0 <= i < jobs@.len() ==> (#[trigger] jobs@[i])@ == planned_job(
                settings@,
                output_directory@,
                sources@[i]@,
                i as nat,
            ),
{
    let mut jobs: Vec<JobUnit> = Vec::new();
    let mut index: usize = 0;
    while index < sources.len()
        invariant
            index <= sources@.len(),
            jobs@.len() == index,
            forall|i: int|
                0 <= i < jobs@.len() ==> (#[trigger] jobs@[i])@ == planned_job(
                    settings@,
                    output_directory@,
                    sources@[i]@,
                    i as nat,
                ),
        decreases sources@.len() - index,
    {
        let source = &sources[index];
        let job = JobUnit {
            index,
            source_path: source.path.clone(),
            source_extension: match &source.extension {
                Some(extension) => Some(extension.clone()),
                None => None,
            },
            output_directory: String::from_str(output_directory),
            output_file_name: settings.output_file_name(source.stem.as_str()),
            resize: settings.resize_target(),
            quality: settings.effective_quality(),
        };
        jobs.push(job);
        index = index + 1;
    }
    jobs
}

} // verus!
