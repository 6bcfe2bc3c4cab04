//! Packages of a custom challenge: its configuration, its description and
//! the files it brings, as read from a ZIP archive.

use super::challenge_config::{ChallengeConfig, ChallengeConfigView};
use super::custom::{default_custom, Custom, CustomView};
use crate::text::same_text;
use std::io::Cursor;
use std::io::Read;
use vstd::prelude::*;
use vstd::utf8::*;

verus! {

#[verifier::external_type_specification]
#[verifier::external_body]
#[verifier::reject_recursive_types(T)]
pub struct ExCursor<T>(std::io::Cursor<T>);

#[verifier::external_type_specification]
#[verifier::external_body]
#[verifier::reject_recursive_types(R)]
pub struct ExZipArchive<R>(zip::ZipArchive<R>);

/// What `String::from_utf8_lossy` makes of `bytes`.
pub uninterp spec fn utf8_lossy(bytes: Seq<u8>) -> Seq<char>;

/// `String::from_utf8_lossy`, owned: the text the bytes encode, each
/// invalid sequence replaced by U+FFFD; for valid UTF-8 exactly the text it
/// encodes. How invalid sequences are replaced is not stated.
#[verifier::external_body]
fn text_from_utf8_lossy(bytes: &[u8]) -> (r: String)
    ensures
        r@ == utf8_lossy(bytes@),
        valid_utf8(bytes@) ==> r@ == decode_utf8(bytes@),
{
    String::from_utf8_lossy(bytes).to_string()
}

/// What `zip::ZipArchive::new` reads from `data`: `None` where it fails;
/// else the entries of the archive, in the order of its central directory,
/// each as [`archive_entries`] gives it.
pub uninterp spec fn zip_contents(data: Seq<u8>) -> Option<Seq<Option<(Seq<char>, Seq<u8>)>>>;

/// The entries of an opened archive, in the order of its central directory:
/// each the name and the uncompressed contents that `zip::ZipArchive::by_index`
/// and `Read::read_to_end` give, or `None` where either of them fails.
pub uninterp spec fn archive_entries(archive: zip::ZipArchive<Cursor<Vec<u8>>>) -> Seq<Option<(Seq<char>, Seq<u8>)>>;

/// `zip::ZipArchive::new` over the bytes, its error as its message. It
/// succeeds exactly when [`zip_contents`] is `Some`, and the archive holds
/// those entries; when that is depends on the archive's layout, which is not
/// stated, nor is the message.
#[verifier::external_body]
fn zip_open(data: &[u8]) -> (r: Result<zip::ZipArchive<Cursor<Vec<u8>>>, String>)
    ensures
        r is Ok <==> zip_contents(data@) is Some,
        r matches Ok(a) ==> zip_contents(data@) == Some(archive_entries(a)),
{
    zip::ZipArchive::new(Cursor::new(data.to_vec())).map_err(|e| e.to_string())
}

/// `zip::ZipArchive::len`: the number of entries.
#[verifier::external_body]
fn zip_len(archive: &zip::ZipArchive<Cursor<Vec<u8>>>) -> (r: usize)
    ensures
        r == archive_entries(*archive).len(),
{
    archive.len()
}

/// Why an entry of an archive could not be read.
pub enum EntryError {
    /// The archive has no readable entry at the index
    Index(String),
    /// The entry's contents could not be read
    Contents(String),
}

/// Entry `index` of the archive (`zip::ZipArchive::by_index`) as its name
/// and its uncompressed contents (`Read::read_to_end`), each error as its
/// message: the entry as [`archive_entries`] gives it, an error where that
/// is `None`. Reading moves only the archive's reader, not its entries. The
/// messages are not stated.
#[verifier::external_body]
fn zip_entry(archive: &mut zip::ZipArchive<Cursor<Vec<u8>>>, index: usize) -> (r: Result<PackageFile, EntryError>)
    requires
        index < archive_entries(*old(archive)).len(),
    ensures
        archive_entries(*final(archive)) == archive_entries(*old(archive)),
        r is Ok <==> archive_entries(*old(archive))[index as int] is Some,
        r matches Ok(e) ==> archive_entries(*old(archive))[index as int] == Some((e.0@, e.1@)),
{
    let mut file = archive.by_index(index).map_err(|e| EntryError::Index(e.to_string()))?;
    let mut contents = Vec::new();
    file.read_to_end(&mut contents).map_err(|e| EntryError::Contents(e.to_string()))?;
    Ok((file.name().to_string(), contents))
}

/// The configuration and the description of a packaged custom challenge.
#[derive(Debug, PartialEq)]
pub struct PackageMetadata {
    pub config: ChallengeConfig,
    pub custom: Custom,
}

impl Clone for PackageMetadata {
    fn clone(&self) -> (r: Self)
        ensures
            r.config@ == self.config@ && r.custom@ == self.custom@,
    {
        PackageMetadata { config: self.config.clone(), custom: self.custom.clone() }
    }
}

impl Default for PackageMetadata {
    /// The default configuration and the default custom challenge.
    fn default() -> (r: PackageMetadata)
        ensures
            r.custom@.id == "custom-example"@,
            r.config@.id == "123"@,
    {
        PackageMetadata { config: ChallengeConfig::default(), custom: Custom::default() }
    }
}

/// A file of a package: its path and its bytes.
pub type PackageFile = (String, Vec<u8>);

/// The files of a package as values.
pub type FilesView = Seq<(Seq<char>, Seq<u8>)>;

/// No path occurs twice.
pub open spec fn unique_paths(files: FilesView) -> bool {
    forall|i: int, j: int| 0 <= i < j < files.len() ==> files[i].0 != files[j].0
}

/// The bytes of the file at `path`, where there is one.
pub open spec fn file_at(files: FilesView, path: Seq<char>) -> Option<Seq<u8>> {
    if exists|i: int| 0 <= i < files.len() && files[i].0 == path {
        let i = choose|i: int| 0 <= i < files.len() && files[i].0 == path;
        Some(files[i].1)
    } else {
        None
    }
}

/// `files` with the file at `path` holding `content`: replaced where there
/// is one, appended where not.
pub open spec fn with_file(files: FilesView, path: Seq<char>, content: Seq<u8>) -> FilesView {
    if exists|i: int| 0 <= i < files.len() && files[i].0 == path {
        let i = choose|i: int| 0 <= i < files.len() && files[i].0 == path;
        files.update(i, (path, content))
    } else {
        files.push((path, content))
    }
}

/// A packaged custom challenge.
#[derive(Debug, PartialEq)]
pub struct Package {
    pub metadata: PackageMetadata,
    pub files: Vec<PackageFile>,
}

impl Package {
    /// The files as values.
    pub open spec fn files_view(&self) -> FilesView {
        self.files.deep_view()
    }

    /// A package with `metadata` and no files.
    pub fn new(metadata: PackageMetadata) -> (r: Package)
        ensures
            r.metadata == metadata,
            r.files_view() == Seq::<(Seq<char>, Seq<u8>)>::empty(),
    {
        let files: Vec<PackageFile> = Vec::new();
        assert(files.deep_view() =~= Seq::<(Seq<char>, Seq<u8>)>::empty());
        Package { metadata, files }
    }

    /// The position of the file at `path`.
    fn position(&self, path: &str) -> (r: Option<usize>)
        ensures
            match r {
                Some(i) => i < self.files@.len() && self.files_view()[i as int].0 == path@,
                None => forall|i: int| 0 <= i < self.files@.len() ==> self.files_view()[i].0 != path@,
            },
    {
        let mut i: usize = 0;
        while i < self.files.len()
            invariant
                i <= self.files@.len(),
                forall|k: int| 0 <= k < i ==> self.files_view()[k].0 != path@,
            decreases self.files@.len() - i,
        {
            if same_text(self.files[i].0.as_str(), path) {
                return Some(i);
            }
            i = i + 1;
        }
        None
    }

    /// Stores `content` as the file at `path`, replacing the file there.
    pub fn add_file(&mut self, path: String, content: Vec<u8>)
        requires
            unique_paths(old(self).files_view()),
        ensures
            final(self).metadata == old(self).metadata,
            final(self).files_view() == with_file(old(self).files_view(), path@, content@),
            unique_paths(final(self).files_view()),
    {
        let ghost before = self.files_view();
        let ghost pv = path@;
        let ghost cv = content@;
        assert(content.deep_view() =~= content@);
        match self.position(path.as_str()) {
            Some(i) => {
                self.files.set(i, (path, content));
                assert(self.files_view() =~= before.update(i as int, (pv, cv)));
                let ghost j = choose|j: int| 0 <= j < before.len() && before[j].0 == pv;
                assert(j == i as int);
            },
            None => {
                self.files.push((path, content));
                assert(self.files_view() =~= before.push((pv, cv)));
            },
        }
    }

    /// The bytes of the file at `path`.
    pub fn get_file(&self, path: &str) -> (r: Option<&Vec<u8>>)
        requires
            unique_paths(self.files_view()),
        ensures
            match r {
                Some(b) => file_at(self.files_view(), path@) == Some(b@),
                None => file_at(self.files_view(), path@) is None,
            },
    {
        match self.position(path) {
            Some(i) => {
                let ghost j = choose|j: int| 0 <= j < self.files_view().len() && self.files_view()[j].0 == path@;
                assert(j == i as int);
                Some(&self.files[i].1)
            },
            None => None,
        }
    }

    /// The file at `path` read as UTF-8, invalid sequences replaced.
    pub fn get_file_as_string(&self, path: &str) -> (r: Option<String>)
        requires
            unique_paths(self.files_view()),
        ensures
            match file_at(self.files_view(), path@) {
                Some(b) => r matches Some(s) && s@ == utf8_lossy(b),
                None => r is None,
            },
    {
        match self.get_file(path) {
            Some(bytes) => Some(text_from_utf8_lossy(bytes.as_slice())),
            None => None,
        }
    }

    /// The challenge configuration of the package.
    pub fn get_challenge_config(&self) -> (r: Option<ChallengeConfig>)
        ensures
            r matches Some(c) && c@ == self.metadata.config@,
    {
        Some(self.metadata.config.clone())
    }

    /// The custom challenge of the package.
    pub fn get_custom_challenge(&self) -> (r: Option<Custom>)
        ensures
            r matches Some(c) && c@ == self.metadata.custom@,
    {
        Some(self.metadata.custom.clone())
    }

    /// The file its custom challenge names as its page.
    pub fn get_html_file(&self) -> (r: Option<String>)
        requires
            unique_paths(self.files_view()),
        ensures
            match file_at(self.files_view(), self.metadata.custom@.html) {
                Some(b) => r matches Some(s) && s@ == utf8_lossy(b),
                None => r is None,
            },
    {
        self.get_file_as_string(self.metadata.custom.html.as_str())
    }

    /// The file its custom challenge names as its style sheet.
    pub fn get_css_file(&self) -> (r: Option<String>)
        requires
            unique_paths(self.files_view()),
        ensures
            match file_at(self.files_view(), self.metadata.custom@.css) {
                Some(b) => r matches Some(s) && s@ == utf8_lossy(b),
                None => r is None,
            },
    {
        self.get_file_as_string(self.metadata.custom.css.as_str())
    }

    /// The file its custom challenge names as its script.
    pub fn get_js_file(&self) -> (r: Option<String>)
        requires
            unique_paths(self.files_view()),
        ensures
            match file_at(self.files_view(), self.metadata.custom@.js) {
                Some(b) => r matches Some(s) && s@ == utf8_lossy(b),
                None => r is None,
            },
    {
        self.get_file_as_string(self.metadata.custom.js.as_str())
    }

    /// The file its custom challenge names as its results page, if it names one.
    pub fn get_results_file(&self) -> (r: Option<String>)
        requires
            unique_paths(self.files_view()),
        ensures
            match self.metadata.custom@.results_html {
                Some(name) => match file_at(self.files_view(), name) {
                    Some(b) => r matches Some(s) && s@ == utf8_lossy(b),
                    None => r is None,
                },
                None => r is None,
            },
    {
        match &self.metadata.custom.results_html {
            Some(name) => self.get_file_as_string(name.as_str()),
            None => None,
        }
    }
}

/// Reading the file at `path` gives back what was last stored there, and
/// storing leaves the other files as they were.
pub proof fn lemma_read_after_write(files: FilesView, path: Seq<char>, content: Seq<u8>, other: Seq<char>)
    requires
        unique_paths(files),
    ensures
        file_at(with_file(files, path, content), path) == Some(content),
        other != path ==> file_at(with_file(files, path, content), other) == file_at(files, other),
        unique_paths(with_file(files, path, content)),
{
    let w = with_file(files, path, content);
    if exists|i: int| 0 <= i < files.len() && files[i].0 == path {
        let i = choose|i: int| 0 <= i < files.len() && files[i].0 == path;
        assert(w[i].0 == path);
        let k = choose|k: int| 0 <= k < w.len() && w[k].0 == path;
        assert(k == i);
        if other != path {
            if exists|j: int| 0 <= j < files.len() && files[j].0 == other {
                let j = choose|j: int| 0 <= j < files.len() && files[j].0 == other;
                assert(w[j].0 == other);
                let m = choose|m: int| 0 <= m < w.len() && w[m].0 == other;
                assert(m == j);
            } else {
                assert forall|m: int| 0 <= m < w.len() implies w[m].0 != other by {
                    if m != i {
                        assert(w[m] == files[m]);
                    }
                }
            }
        }
    } else {
        let n = files.len() as int;
        assert(w[n].0 == path);
        let k = choose|k: int| 0 <= k < w.len() && w[k].0 == path;
        assert(k == n);
        if other != path {
            if exists|j: int| 0 <= j < files.len() && files[j].0 == other {
                let j = choose|j: int| 0 <= j < files.len() && files[j].0 == other;
                assert(w[j].0 == other);
                let m = choose|m: int| 0 <= m < w.len() && w[m].0 == other;
                assert(m == j);
            } else {
                assert forall|m: int| 0 <= m < w.len() implies w[m].0 != other by {
                    if m < n {
                        assert(w[m] == files[m]);
                    }
                }
            }
        }
    }
}

/// The entries as they were read, in order.
pub open spec fn read_entries(es: Seq<Option<(Seq<char>, Seq<u8>)>>) -> FilesView {
    Seq::new(es.len(), |i: int| es[i]->0)
}

/// `got` is what reading the entries `es` in order gives up to the first
/// entry that cannot be read, and `failed` tells whether there is one.
pub open spec fn read_until_failure(es: Seq<Option<(Seq<char>, Seq<u8>)>>, got: FilesView, failed: bool) -> bool {
    &&& got.len() <= es.len()
    &&& forall|j: int| 0 <= j < got.len() ==> es[j] is Some
    &&& got == read_entries(es.take(got.len() as int))
    &&& failed <==> got.len() < es.len()
    &&& got.len() < es.len() ==> es[got.len() as int] is None
}

/// The entries read from a package archive, in order, up to the first that
/// could not be read.
#[derive(Debug, PartialEq)]
pub struct ArchiveEntries {
    pub entries: Vec<PackageFile>,
    /// Why the entry after the last one read could not be read
    pub failure: Option<String>,
}

/// What an entry of a package is, by its name.
#[derive(Debug, Clone, Copy, PartialEq, Eq, Structural)]
pub enum EntryKind {
    /// `config.yml`, the configuration
    Config,
    /// `challenge.yml`, the description of the custom challenge
    Challenge,
    /// Any other file
    File,
}

/// The kind of the entry named `name`.
pub open spec fn spec_entry_kind(name: Seq<char>) -> EntryKind {
    if name == "config.yml"@ {
        EntryKind::Config
    } else if name == "challenge.yml"@ {
        EntryKind::Challenge
    } else {
        EntryKind::File
    }
}

/// An entry of a package with its configuration or description parsed, or
/// the message of the parse error.
#[derive(Debug, PartialEq)]
pub enum ParsedEntry {
    Config(Result<ChallengeConfig, String>),
    Challenge(Result<Custom, String>),
    File(String, Vec<u8>),
}

/// The value of a [`ParsedEntry`].
pub enum ParsedEntryView {
    Config(Result<ChallengeConfigView, Seq<char>>),
    Challenge(Result<CustomView, Seq<char>>),
    File(Seq<char>, Seq<u8>),
}

impl DeepView for ParsedEntry {
    type V = ParsedEntryView;

    open spec fn deep_view(&self) -> ParsedEntryView {
        match self {
            ParsedEntry::Config(Ok(c)) => ParsedEntryView::Config(Ok(c@)),
            ParsedEntry::Config(Err(e)) => ParsedEntryView::Config(Err(e@)),
            ParsedEntry::Challenge(Ok(c)) => ParsedEntryView::Challenge(Ok(c@)),
            ParsedEntry::Challenge(Err(e)) => ParsedEntryView::Challenge(Err(e@)),
            ParsedEntry::File(n, b) => ParsedEntryView::File(n@, b@),
        }
    }
}

/// What the entries read so far make of a package: the last configuration
/// and description met, and the files.
pub struct PackageDraft {
    pub config: Option<ChallengeConfigView>,
    pub custom: Option<CustomView>,
    pub files: FilesView,
}

/// The entries taken in order: each configuration or description replaces
/// the one before, each file is stored at its path; the first parse error
/// ends it, with a message that names the file.
pub open spec fn gathered(ps: Seq<ParsedEntryView>) -> Result<PackageDraft, Seq<char>>
    decreases ps.len(),
{
    if ps.len() == 0 {
        Ok(PackageDraft { config: None, custom: None, files: Seq::empty() })
    } else {
        match gathered(ps.drop_last()) {
            Err(m) => Err(m),
            Ok(d) => match ps.last() {
                ParsedEntryView::Config(Ok(c)) => Ok(PackageDraft { config: Some(c), ..d }),
                ParsedEntryView::Config(Err(e)) => Err("Failed to parse config.yml: "@ + e),
                ParsedEntryView::Challenge(Ok(c)) => Ok(PackageDraft { custom: Some(c), ..d }),
                ParsedEntryView::Challenge(Err(e)) => Err("Failed to parse challenge.yml: "@ + e),
                ParsedEntryView::File(n, b) => Ok(PackageDraft { files: with_file(d.files, n, b), ..d }),
            },
        }
    }
}

/// What reading a package gives from its entries `ps` and the failure to
/// read the entry after them: the first parse error; else the read
/// failure; else an error when no configuration was met; else the package
/// of the configuration, the description (the built-in example where there
/// is none) and the files.
pub open spec fn assembled(ps: Seq<ParsedEntryView>, failure: Option<Seq<char>>, r: Result<Package, String>) -> bool {
    match gathered(ps) {
        Err(m) => r matches Err(x) && x@ == m,
        Ok(d) => match failure {
            Some(e) => r matches Err(x) && x@ == e,
            None => match d.config {
                None => r matches Err(x) && x@ == "Missing config.yml in package"@,
                Some(c) => r matches Ok(p) && p.metadata.config@ == c
                    && p.metadata.custom@ == (match d.custom {
                        Some(u) => u,
                        None => default_custom(),
                    })
                    && p.files_view() == d.files
                    && unique_paths(p.files_view()),
            },
        },
    }
}

/// Once the entries end in an error, more entries do not change it.
proof fn lemma_gathered_error_stays(ps: Seq<ParsedEntryView>, j: int, m: int)
    requires
        0 <= j <= m <= ps.len(),
        gathered(ps.take(j)) is Err,
    ensures
        gathered(ps.take(m)) == gathered(ps.take(j)),
    decreases m - j,
{
    if m > j {
        lemma_gathered_error_stays(ps, j, m - 1);
        assert(ps.take(m).drop_last() =~= ps.take(m - 1));
    }
}

/// The contents of a package archive, read entry by entry.
pub struct PackageReader;

impl PackageReader {
    /// The entries of the ZIP archive in `package_data`, in order, up to the
    /// first that cannot be read, with the reason it cannot; an error where
    /// the archive cannot be opened. Each message tells which step failed
    /// (opening the archive, finding the entry, reading its contents),
    /// followed by the archive's own message.
    pub fn read_archive(package_data: &[u8]) -> (r: Result<ArchiveEntries, String>)
        ensures
            match zip_contents(package_data@) {
                None => r matches Err(m) && "Failed to create ZIP archive: "@.is_prefix_of(m@),
                Some(es) => r matches Ok(a) && read_until_failure(es, a.entries.deep_view(), a.failure is Some)
                    && (a.failure matches Some(m) ==> "Failed to read file from archive: "@.is_prefix_of(m@)
                        || "Failed to read file contents: "@.is_prefix_of(m@)),
            },
    {
        let mut archive = match zip_open(package_data) {
            Ok(a) => a,
            Err(e) => {
                let prefix = "Failed to create ZIP archive: ";
                let mut m = prefix.to_string();
                m.append(e.as_str());
                assert(m@.take(prefix@.len() as int) =~= prefix@);
                return Err(m);
            },
        };
        let ghost es = archive_entries(archive);
        let n = zip_len(&archive);
        let mut entries: Vec<PackageFile> = Vec::new();
        assert(entries.deep_view() =~= read_entries(es.take(0)));
        let mut i: usize = 0;
        while i < n
            invariant
                i <= n,
                n == es.len(),
                archive_entries(archive) == es,
                zip_contents(package_data@) == Some(es),
                forall|j: int| 0 <= j < i ==> es[j] is Some,
                entries.deep_view() == read_entries(es.take(i as int)),
            decreases n - i,
        {
            let (name, contents) = match zip_entry(&mut archive, i) {
                Ok(entry) => entry,
                Err(EntryError::Index(e)) => {
                    let prefix = "Failed to read file from archive: ";
                    let mut m = prefix.to_string();
                    m.append(e.as_str());
                    assert(m@.take(prefix@.len() as int) =~= prefix@);
                    return Ok(ArchiveEntries { entries, failure: Some(m) });
                },
                Err(EntryError::Contents(e)) => {
                    let prefix = "Failed to read file contents: ";
                    let mut m = prefix.to_string();
                    m.append(e.as_str());
                    assert(m@.take(prefix@.len() as int) =~= prefix@);
                    return Ok(ArchiveEntries { entries, failure: Some(m) });
                },
            };
            let ghost before = entries.deep_view();
            assert(contents.deep_view() =~= contents@);
            entries.push((name, contents));
            assert(entries.deep_view() =~= before.push(es[i as int]->0));
            assert(read_entries(es.take(i as int + 1)) =~= read_entries(es.take(i as int)).push(es[i as int]->0));
            i = i + 1;
        }
        assert(es.take(n as int) =~= es);
        Ok(ArchiveEntries { entries, failure: None })
    }

    /// What the entry named `name` is: the configuration, the description of
    /// the custom challenge or a file.
    pub fn entry_kind(name: &str) -> (r: EntryKind)
        ensures
            r == spec_entry_kind(name@),
    {
        if same_text(name, "config.yml") {
            EntryKind::Config
        } else if same_text(name, "challenge.yml") {
            EntryKind::Challenge
        } else {
            EntryKind::File
        }
    }

    /// The package the entries `parsed` make, taken in order, when reading
    /// stopped with `failure` after them.
    #[verifier::loop_isolation(false)]
    pub fn assemble(parsed: Vec<ParsedEntry>, failure: Option<String>) -> (r: Result<Package, String>)
        ensures
            assembled(parsed.deep_view(), match failure {
                Some(e) => Some(e@),
                None => None,
            }, r),
    {
        let ghost ps = parsed.deep_view();
        let n = parsed.len();
        assert(ps.len() == n);
        let mut parsed = parsed;
        let mut config: Option<ChallengeConfig> = None;
        let mut custom: Option<Custom> = None;
        let mut package = Package::new(PackageMetadata::default());
        assert(ps.skip(0) =~= ps);
        assert(ps.take(0) =~= Seq::<ParsedEntryView>::empty());
        let mut k: usize = 0;
        while parsed.len() > 0
            invariant
                k + parsed@.len() == n,
                n == ps.len(),
                parsed.deep_view() =~= ps.skip(k as int),
                unique_paths(package.files_view()),
                gathered(ps.take(k as int)) == Ok::<PackageDraft, Seq<char>>(PackageDraft {
                    config: match config { Some(c) => Some(c@), None => None },
                    custom: match custom { Some(c) => Some(c@), None => None },
                    files: package.files_view(),
                }),
            decreases parsed@.len(),
        {
            let ghost before = parsed.deep_view();
            let ghost old_vec = parsed@;
            assert(before[0] == ps[k as int]);
            let entry = parsed.remove(0);
            assert(old_vec[0].deep_view() == before[0]);
            assert forall|i: int| 0 <= i < parsed@.len() implies parsed.deep_view()[i] == ps.skip(k + 1)[i] by {
                assert(parsed@[i] == old_vec[i + 1]);
                assert(before[i + 1] == ps[k + 1 + i]);
            }
            assert(parsed.deep_view() =~= ps.skip(k + 1));
            assert(ps.take(k + 1).drop_last() =~= ps.take(k as int));
            assert(ps.take(k + 1).last() == ps[k as int]);
            match entry {
                ParsedEntry::Config(Ok(c)) => {
                    config = Some(c);
                },
                ParsedEntry::Config(Err(e)) => {
                    let mut m = "Failed to parse config.yml: ".to_string();
                    m.append(e.as_str());
                    proof {
                        lemma_gathered_error_stays(ps, k + 1, n as int);
                        assert(ps.take(n as int) =~= ps);
                    }
                    return Err(m);
                },
                ParsedEntry::Challenge(Ok(c)) => {
                    custom = Some(c);
                },
                ParsedEntry::Challenge(Err(e)) => {
                    let mut m = "Failed to parse challenge.yml: ".to_string();
                    m.append(e.as_str());
                    proof {
                        lemma_gathered_error_stays(ps, k + 1, n as int);
                        assert(ps.take(n as int) =~= ps);
                    }
                    return Err(m);
                },
                ParsedEntry::File(path, bytes) => {
                    assert(bytes.deep_view() =~= bytes@);
                    package.add_file(path, bytes);
                },
            }
            k = k + 1;
        }
        assert(ps.take(n as int) =~= ps);
        if let Some(e) = failure {
            return Err(e);
        }
        match config {
            None => Err("Missing config.yml in package".to_string()),
            Some(c) => {
                let custom = match custom {
                    Some(u) => u,
                    None => Custom::default(),
                };
                package.metadata = PackageMetadata { config: c, custom };
                Ok(package)
            },
        }
    }
}

} // verus!
