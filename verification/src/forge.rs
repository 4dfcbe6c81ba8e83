//! Assembly of the staging tree: the build variables, the set of classified
//! files, the scan policy and the destination layout.

pub mod deb_files;
pub mod manifest;
pub mod template;

use crate::args::{Architecture, Args, ArgsView};
use crate::forge::deb_files::{classified, classify, FileType};
use crate::text::{
    char_replaced, chars_of, decimal, decimal_chars, replace_char, spells, string_of,
};
use vstd::prelude::*;
use vstd::string::StringExecFns;

verus! {

/// Why a project cannot be staged.
#[derive(Clone, Debug, PartialEq, Eq)]
pub enum ForgeError {
    /// The binary's name or the version is known neither from the command
    /// line nor from the manifest.
    ManifestIncomplete,
    /// No built binary is at the path, where it is expected.
    BinaryNotFound(String),
    /// A second file was found for the role.
    Duplicate(FileType),
    /// No file was found for the role, which every package needs.
    MissingRequired(FileType),
}

/// A `ForgeError` as a value of the model.
pub enum ForgeErrorView {
    ManifestIncomplete,
    BinaryNotFound(Seq<char>),
    Duplicate(FileType),
    MissingRequired(FileType),
}

/// The resolved build parameters of one run.
#[derive(Debug, PartialEq, Eq)]
pub struct Variables {
    project_dir: String,
    binary_name: String,
    linux_binary_name: String,
    version: String,
    architecture: Architecture,
}

/// `Variables` as a value of the model.
pub struct VariablesView {
    pub project_dir: Seq<char>,
    pub binary_name: Seq<char>,
    pub linux_binary_name: Seq<char>,
    pub version: Seq<char>,
    pub architecture: Architecture,
}

/// The binary's name as Debian wants it: hyphens in place of underscores.
pub open spec fn linux_name(binary_name: Seq<char>) -> Seq<char> {
    char_replaced(binary_name, '_', '-')
}

/// The texts of pairs of strings.
pub open spec fn pair_texts(pairs: Seq<(&str, &str)>) -> Seq<(Seq<char>, Seq<char>)> {
    Seq::new(pairs.len(), |i: int| (pairs[i].0@, pairs[i].1@))
}

/// The path of `name` in the directory `dir`.
pub open spec fn joined(dir: Seq<char>, name: Seq<char>) -> Seq<char> {
    dir + "/"@ + name
}

impl VariablesView {
    /// The variables that complete build parameters give.
    pub open spec fn from_args(args: ArgsView) -> VariablesView
        recommends
            args.complete(),
    {
        VariablesView {
            project_dir: args.project_dir,
            binary_name: args.binary_name.unwrap(),
            linux_binary_name: linux_name(args.binary_name.unwrap()),
            version: args.version.unwrap(),
            architecture: args.architecture,
        }
    }

    /// Where the built binary is expected.
    pub open spec fn binary_path(self) -> Seq<char> {
        joined(joined(self.project_dir, self.architecture.platform_bin_text()), self.binary_name)
    }

    /// The root of the staging tree.
    pub open spec fn staging_root(self) -> Seq<char> {
        joined(
            self.project_dir,
            "build/tmp/dist/linux/"@ + self.linux_binary_name + "-"@ + self.version,
        )
    }

    /// The directory of a role's file, relative to the staging root.
    pub open spec fn subdirectory(self, file_type: FileType) -> Seq<char> {
        match file_type {
            FileType::Changelog | FileType::Copyright => "usr/share/doc/"@
                + self.linux_binary_name,
            FileType::Icon64 | FileType::Icon128 | FileType::Icon256 | FileType::Icon512 => {
                "usr/share/icons/hicolor/"@ + file_type.resolution_text() + "/apps"@
            },
            FileType::Binary => "usr/local/bin"@,
            FileType::Desktop => "usr/share/applications"@,
            FileType::Format => "DEBIAN/source"@,
            _ => "DEBIAN"@,
        }
    }

    /// The directory in which a role's file is staged.
    pub open spec fn file_type_path(self, file_type: FileType) -> Seq<char> {
        joined(self.staging_root(), self.subdirectory(file_type))
    }

    /// The path at which a role's file is staged.
    pub open spec fn destination(self, file_type: FileType) -> Seq<char> {
        joined(self.file_type_path(file_type), file_type.output_name(self.linux_binary_name))
    }

    /// The variables of a template with their values, in the order in which
    /// they are substituted.
    pub open spec fn replacements(self) -> Seq<(Seq<char>, Seq<char>)> {
        seq![
            ("$BinaryName"@, self.binary_name),
            ("$LinuxBinaryName"@, self.linux_binary_name),
            ("$Version"@, self.version),
            ("$Target"@, self.architecture.target_text()),
            ("$Architecture"@, self.architecture.short_text()),
        ]
    }
}

impl View for ForgeError {
    type V = ForgeErrorView;

    open spec fn view(&self) -> ForgeErrorView {
        match self {
            ForgeError::ManifestIncomplete => ForgeErrorView::ManifestIncomplete,
            ForgeError::BinaryNotFound(path) => ForgeErrorView::BinaryNotFound(path@),
            ForgeError::Duplicate(role) => ForgeErrorView::Duplicate(*role),
            ForgeError::MissingRequired(role) => ForgeErrorView::MissingRequired(*role),
        }
    }
}

impl ForgeErrorView {
    /// The text that reports the error.
    pub open spec fn message(self) -> Seq<char> {
        match self {
            ForgeErrorView::ManifestIncomplete => "Failed to parse Cargo.toml"@,
            ForgeErrorView::BinaryNotFound(path) => "Failed to find a binary at "@ + path,
            ForgeErrorView::Duplicate(role) => "Found more than 1 "@ + role.name_text() + " file"@,
            ForgeErrorView::MissingRequired(role) => "Could not locate a "@ + role.name_text()
                + " file"@,
        }
    }
}

impl ForgeError {
    /// The text that reports the error.
    pub fn message(&self) -> (r: String)
        ensures
            r@ == self@.message(),
    {
        match self {
            ForgeError::ManifestIncomplete => String::from_str("Failed to parse Cargo.toml"),
            ForgeError::BinaryNotFound(path) => String::from_str(
                "Failed to find a binary at ",
            ).concat(path.as_str()),
            ForgeError::Duplicate(role) => String::from_str("Found more than 1 ").concat(
                role.name(),
            ).concat(" file"),
            ForgeError::MissingRequired(role) => String::from_str("Could not locate a ").concat(
                role.name(),
            ).concat(" file"),
        }
    }
}

impl View for Variables {
    type V = VariablesView;

    closed spec fn view(&self) -> VariablesView {
        VariablesView {
            project_dir: self.project_dir@,
            binary_name: self.binary_name@,
            linux_binary_name: self.linux_binary_name@,
            version: self.version@,
            architecture: self.architecture,
        }
    }
}

impl Variables {
    #[verifier::type_invariant]
    spec fn normalized(self) -> bool {
        self.linux_binary_name@ == linux_name(self.binary_name@)
    }

    /// The variables of a run, from build parameters in which the binary's
    /// name and the version are known.
    pub fn from(args: Args) -> (r: Result<Variables, ForgeError>)
        ensures
            match r {
                Ok(vars) => args@.complete() && vars@ == VariablesView::from_args(args@),
                Err(e) => !args@.complete() && e == ForgeError::ManifestIncomplete,
            },
    {
        let Args { binary_name, version, project_dir, architecture, dry_run: _ } = args;
        match (binary_name, version) {
            (Some(binary_name), Some(version)) => {
                let name = chars_of(binary_name.as_str());
                let hyphened = replace_char(name.as_slice(), '_', '-');
                Ok(
                    Variables {
                        project_dir,
                        linux_binary_name: string_of(hyphened.as_slice()),
                        binary_name,
                        version,
                        architecture,
                    },
                )
            },
            _ => Err(ForgeError::ManifestIncomplete),
        }
    }

    /// The project's root directory.
    pub fn project_dir(&self) -> (r: &str)
        ensures
            r@ == self@.project_dir,
    {
        self.project_dir.as_str()
    }

    /// The binary's name.
    pub fn binary_name(&self) -> (r: &str)
        ensures
            r@ == self@.binary_name,
    {
        self.binary_name.as_str()
    }

    /// The binary's name with hyphens in place of underscores.
    pub fn linux_binary_name(&self) -> (r: &str)
        ensures
            r@ == self@.linux_binary_name,
            r@ == linux_name(self@.binary_name),
    {
        proof {
            use_type_invariant(self);
        }
        self.linux_binary_name.as_str()
    }

    /// The package's version.
    pub fn version(&self) -> (r: &str)
        ensures
            r@ == self@.version,
    {
        self.version.as_str()
    }

    /// The target of the build.
    pub fn architecture(&self) -> (r: Architecture)
        ensures
            r == self@.architecture,
    {
        self.architecture
    }

    /// Where the built binary is expected.
    pub fn get_binary_path(&self) -> (r: String)
        ensures
            r@ == self@.binary_path(),
    {
        String::from_str(self.project_dir.as_str()).concat("/").concat(
            self.architecture.platform_bin_path(),
        ).concat("/").concat(self.binary_name.as_str())
    }

    /// The directory in which a role's file is staged.
    pub fn get_file_type_path(&self, file_type: FileType) -> (r: String)
        ensures
            r@ == self@.file_type_path(file_type),
    {
        let root = String::from_str("build/tmp/dist/linux/").concat(
            self.linux_binary_name.as_str(),
        ).concat("-").concat(self.version.as_str());
        let out = String::from_str(self.project_dir.as_str()).concat("/").concat(root.as_str());
        let sub = match file_type {
            FileType::Changelog | FileType::Copyright => String::from_str("usr/share/doc/").concat(
                self.linux_binary_name.as_str(),
            ),
            FileType::Icon64 | FileType::Icon128 | FileType::Icon256 | FileType::Icon512 => {
                String::from_str("usr/share/icons/hicolor/").concat(file_type.resolution()).concat(
                    "/apps",
                )
            },
            FileType::Binary => String::from_str("usr/local/bin"),
            FileType::Desktop => String::from_str("usr/share/applications"),
            FileType::Format => String::from_str("DEBIAN/source"),
            _ => String::from_str("DEBIAN"),
        };
        out.concat("/").concat(sub.as_str())
    }

    /// The path at which a role's file is staged.
    pub fn get_destination(&self, file_type: FileType) -> (r: String)
        ensures
            r@ == self@.destination(file_type),
    {
        let name = file_type.output_file_name(self.linux_binary_name.as_str());
        self.get_file_type_path(file_type).concat("/").concat(name.as_str())
    }

    /// The variables of a template with their values, in the order in which
    /// they are substituted.
    pub fn replacements(&self) -> (r: [(&'static str, &str); 5])
        ensures
            pair_texts(r@) == self@.replacements(),
    {
        let r = [
            ("$BinaryName", self.binary_name.as_str()),
            ("$LinuxBinaryName", self.linux_binary_name.as_str()),
            ("$Version", self.version.as_str()),
            ("$Target", self.architecture.target()),
            ("$Architecture", self.architecture.short()),
        ];
        assert(pair_texts(r@) =~= self@.replacements());
        r
    }
}

/// The files found so far, each with its role, in the order in which they
/// were found. No two of them have the same role.
#[derive(Debug)]
pub struct DebFiles {
    entries: Vec<(FileType, String)>,
}

/// Files with their roles, as a value of the model: each role with the
/// source path of its file, in the order in which the files were found.
pub type Entries = Seq<(FileType, Seq<char>)>;

/// Whether `files` holds a file of the role.
pub open spec fn has_role(files: Entries, role: FileType) -> bool {
    exists|i: int| 0 <= i < files.len() && (#[trigger] files[i]).0 == role
}

/// No two files of `files` have the same role.
pub open spec fn distinct_roles(files: Entries) -> bool {
    forall|i: int, j: int|
        0 <= i < j < files.len() ==> (#[trigger] files[i]).0 != (#[trigger] files[j]).0
}

/// The roles of `after` are those of `before` and `role`.
pub open spec fn gained_role(
    before: Entries,
    after: Entries,
    role: FileType,
) -> bool {
    forall|other: FileType|
        #![trigger has_role(after, other)]
        #![trigger has_role(before, other)]
        has_role(after, other) <==> (other == role || has_role(before, other))
}

/// The files `files`, where nothing was refused.
pub open spec fn taken(files: Entries) -> Result<Entries, ForgeErrorView> {
    Ok(files)
}

/// The refusal `e` of a file.
pub open spec fn refused(e: ForgeErrorView) -> Result<Entries, ForgeErrorView> {
    Err(e)
}

/// `files` after the file at `path` was added under `role`: a second file of
/// a role is an error, whatever its path.
pub open spec fn inserted(files: Entries, role: FileType, path: Seq<char>) -> Result<
    Entries,
    ForgeErrorView,
> {
    if has_role(files, role) {
        Err(ForgeErrorView::Duplicate(role))
    } else {
        Ok(files.push((role, path)))
    }
}

/// `files` after a file called `name` was found at `path`: the file is added
/// under the role its name gives it, unless it has none.
pub open spec fn collected(files: Entries, name: Seq<char>, path: Seq<char>) -> Result<
    Entries,
    ForgeErrorView,
> {
    match classified(name) {
        Some(role) => inserted(files, role, path),
        None => Ok(files),
    }
}

/// A file added under a role adds that role, and no other, to those that
/// have a file.
pub proof fn lemma_push_gains_role(files: Entries, role: FileType, path: Seq<char>)
    ensures
        gained_role(files, files.push((role, path)), role),
{
    let after = files.push((role, path));
    assert forall|other: FileType|
        has_role(after, other) <==> (other == role || has_role(files, other)) by {
        if has_role(after, other) {
            let i = choose|i: int| 0 <= i < after.len() && (#[trigger] after[i]).0 == other;
            if i < files.len() {
                assert(files[i].0 == other);
            }
        }
        if other == role {
            assert(after[files.len() as int].0 == role);
        }
        if has_role(files, other) {
            let i = choose|i: int| 0 <= i < files.len() && (#[trigger] files[i]).0 == other;
            assert(after[i].0 == other);
        }
    }
}

/// A role that has no file yet takes one, and the roles stay distinct.
pub proof fn lemma_first_insert_accepted(files: Entries, role: FileType, path: Seq<char>)
    requires
        distinct_roles(files),
        !has_role(files, role),
    ensures
        inserted(files, role, path) == taken(files.push((role, path))),
        has_role(files.push((role, path)), role),
        distinct_roles(files.push((role, path))),
{
    let after = files.push((role, path));
    assert(after[files.len() as int].0 == role);
    assert forall|i: int, j: int| 0 <= i < j < after.len() implies (#[trigger] after[i]).0
        != (#[trigger] after[j]).0 by {
        assert(after[i] == files[i]);
        if j < files.len() {
            assert(after[j] == files[j]);
        }
    }
}

/// Once a role has taken a file, a second file for it is refused, whether
/// its path is another or the same.
pub proof fn lemma_second_insert_refused(
    files: Entries,
    role: FileType,
    first: Seq<char>,
    second: Seq<char>,
)
    requires
        inserted(files, role, first).is_ok(),
    ensures
        inserted(inserted(files, role, first)->Ok_0, role, second) == refused(
            ForgeErrorView::Duplicate(role),
        ),
{
    let after = files.push((role, first));
    assert(after[files.len() as int].0 == role);
}

/// Two files whose names give them the same role cannot both be taken in.
pub proof fn lemma_same_role_collected_once(
    files: Entries,
    name: Seq<char>,
    path: Seq<char>,
    other_name: Seq<char>,
    other_path: Seq<char>,
)
    requires
        classified(name).is_some(),
        classified(other_name) == classified(name),
        collected(files, name, path).is_ok(),
    ensures
        collected(collected(files, name, path)->Ok_0, other_name, other_path) == refused(
            ForgeErrorView::Duplicate(classified(name).unwrap()),
        ),
{
    lemma_second_insert_refused(files, classified(name).unwrap(), path, other_path);
}

impl View for DebFiles {
    type V = Entries;

    closed spec fn view(&self) -> Entries {
        Seq::new(self.entries@.len(), |i: int| (self.entries@[i].0, self.entries@[i].1@))
    }
}

impl DebFiles {
    #[verifier::type_invariant]
    spec fn unambiguous(self) -> bool {
        distinct_roles(self@)
    }

    /// The empty set of files.
    pub fn new() -> (r: DebFiles)
        ensures
            r@ == Entries::empty(),
    {
        DebFiles { entries: Vec::new() }
    }

    /// The number of files.
    pub fn len(&self) -> (r: usize)
        ensures
            r == self@.len(),
            distinct_roles(self@),
    {
        proof {
            use_type_invariant(self);
        }
        self.entries.len()
    }

    /// Whether a file of the role was found.
    pub fn contains_key(&self, role: FileType) -> (r: bool)
        ensures
            r == has_role(self@, role),
    {
        let mut i: usize = 0;
        while i < self.entries.len()
            invariant
                i <= self.entries.len(),
                forall|k: int| 0 <= k < i ==> (#[trigger] self@[k]).0 != role,
            decreases self.entries.len() - i,
        {
            if self.entries[i].0 == role {
                assert(self@[i as int].0 == role);
                return true;
            }
            i += 1;
        }
        false
    }

    /// The source path of the role's file, if one was found.
    pub fn get(&self, role: FileType) -> (r: Option<&String>)
        ensures
            match r {
                Some(path) => exists|i: int|
                    0 <= i < self@.len() && #[trigger] self@[i] == (role, path@),
                None => !has_role(self@, role),
            },
    {
        let mut i: usize = 0;
        while i < self.entries.len()
            invariant
                i <= self.entries.len(),
                forall|k: int| 0 <= k < i ==> (#[trigger] self@[k]).0 != role,
            decreases self.entries.len() - i,
        {
            if self.entries[i].0 == role {
                assert(self@[i as int] == (role, self.entries[i as int].1@));
                return Some(&self.entries[i].1);
            }
            i += 1;
        }
        None
    }

    /// Adds the file at `path` under `role`. A role that already has a file
    /// is refused, whatever the path, and the set stays as it was.
    pub fn insert(&mut self, role: FileType, path: String) -> (r: Result<(), ForgeError>)
        ensures
            distinct_roles(final(self)@),
            has_role(final(self)@, role),
            match r {
                Ok(()) => inserted(old(self)@, role, path@) == taken(final(self)@) && gained_role(
                    old(self)@,
                    final(self)@,
                    role,
                ),
                Err(e) => inserted(old(self)@, role, path@) == refused(e@)
                    && final(self)@ == old(self)@,
            },
    {
        proof {
            use_type_invariant(&*self);
            lemma_push_gains_role(self@, role, path@);
        }
        if self.contains_key(role) {
            return Err(ForgeError::Duplicate(role));
        }
        let ghost before = self@;
        let mut entries: Vec<(FileType, String)> = Vec::new();
        std::mem::swap(&mut self.entries, &mut entries);
        entries.push((role, path));
        proof {
            let after = Seq::new(entries@.len(), |i: int| (entries@[i].0, entries@[i].1@));
            assert(after == before.push((role, path@)));
            lemma_first_insert_accepted(before, role, path@);
        }
        std::mem::swap(&mut self.entries, &mut entries);
        assert(self@ == before.push((role, path@)));
        Ok(())
    }

    /// Takes in the file called `file_name`, found at `path`, if its name
    /// gives it a role, and says which role that is.
    pub fn conditional_insert(&mut self, file_name: &str, path: String) -> (r: Result<
        Option<FileType>,
        ForgeError,
    >)
        ensures
            distinct_roles(final(self)@),
            match r {
                Ok(role) => role == classified(file_name@) && collected(
                    old(self)@,
                    file_name@,
                    path@,
                ) == taken(final(self)@),
                Err(e) => collected(old(self)@, file_name@, path@) == refused(e@) && final(self)@
                    == old(self)@,
            },
            r matches Ok(Some(role)) ==> gained_role(old(self)@, final(self)@, role),
    {
        proof {
            use_type_invariant(&*self);
        }
        match classify(file_name) {
            Some(role) => match self.insert(role, path) {
                Ok(()) => Ok(Some(role)),
                Err(e) => Err(e),
            },
            None => Ok(None),
        }
    }
}

/// The directories of a project in which packaging files are looked for.
#[derive(Clone, Copy, Debug, PartialEq, Eq, Structural)]
pub enum SearchDir {
    Assets,
    Build,
    Debian,
}

/// What a directory entry is.
#[derive(Clone, Copy, Debug, PartialEq, Eq, Structural)]
pub enum EntryKind {
    Directory,
    File,
    /// Neither a directory nor a regular file.
    Other,
}

/// What is to be done with a directory entry.
#[derive(Clone, Copy, Debug, PartialEq, Eq, Structural)]
pub enum ScanAction {
    /// Scan the directory, under the given policy.
    Descend(SearchDir),
    /// Delete the directory with all it holds: stale output of an earlier
    /// build.
    Reset,
    /// The directory holds stale output, and a dry run leaves it alone.
    SpareStale,
    /// Take the file in, if its name gives it a role.
    Classify,
    /// Pass over the entry.
    Skip,
}

/// The search directory called `name`, if there is one.
pub open spec fn search_dir_named(name: Seq<char>) -> Option<SearchDir> {
    if name == "assets"@ {
        Some(SearchDir::Assets)
    } else if name == "build"@ {
        Some(SearchDir::Build)
    } else if name == "debian"@ {
        Some(SearchDir::Debian)
    } else {
        None
    }
}

/// What is to be done with an entry of the project's root directory: a
/// search directory is scanned, a file is classified, all else is passed
/// over.
pub open spec fn root_action(kind: EntryKind, name: Seq<char>) -> ScanAction {
    match kind {
        EntryKind::Directory => match search_dir_named(name) {
            Some(dir) => ScanAction::Descend(dir),
            None => ScanAction::Skip,
        },
        EntryKind::File => ScanAction::Classify,
        EntryKind::Other => ScanAction::Skip,
    }
}

impl SearchDir {
    /// The directory's name.
    pub open spec fn name_text(self) -> Seq<char> {
        match self {
            SearchDir::Assets => "assets"@,
            SearchDir::Build => "build"@,
            SearchDir::Debian => "debian"@,
        }
    }

    /// What is to be done with an entry found while scanning under this
    /// policy. Under `Assets` and `Debian` every directory is scanned in turn
    /// and every file classified. Under `Build` no file is classified; a
    /// directory called `tmp` is deleted, unless the run is a dry one; a
    /// directory called `debian` is scanned under `Debian`; any other is
    /// passed over.
    pub open spec fn action(self, kind: EntryKind, name: Seq<char>, dry_run: bool) -> ScanAction {
        match kind {
            EntryKind::Directory => match self {
                SearchDir::Assets | SearchDir::Debian => ScanAction::Descend(self),
                SearchDir::Build => if name == "tmp"@ {
                    if dry_run {
                        ScanAction::SpareStale
                    } else {
                        ScanAction::Reset
                    }
                } else if name == "debian"@ {
                    ScanAction::Descend(SearchDir::Debian)
                } else {
                    ScanAction::Skip
                },
            },
            EntryKind::File => match self {
                SearchDir::Assets | SearchDir::Debian => ScanAction::Classify,
                SearchDir::Build => ScanAction::Skip,
            },
            EntryKind::Other => ScanAction::Skip,
        }
    }

    /// The directory's name.
    pub fn name(self) -> (r: &'static str)
        ensures
            r@ == self.name_text(),
    {
        match self {
            SearchDir::Assets => "assets",
            SearchDir::Build => "build",
            SearchDir::Debian => "debian",
        }
    }

    /// The search directory called `name`, if there is one.
    pub fn named(name: &str) -> (r: Option<SearchDir>)
        ensures
            r == search_dir_named(name@),
    {
        let n = chars_of(name);
        if spells(n.as_slice(), SearchDir::Assets.name()) {
            Some(SearchDir::Assets)
        } else if spells(n.as_slice(), SearchDir::Build.name()) {
            Some(SearchDir::Build)
        } else if spells(n.as_slice(), SearchDir::Debian.name()) {
            Some(SearchDir::Debian)
        } else {
            None
        }
    }

    /// What is to be done with the entry called `name`, found while
    /// scanning under this policy.
    pub fn scan(self, kind: EntryKind, name: &str, dry_run: bool) -> (r: ScanAction)
        ensures
            r == self.action(kind, name@, dry_run),
    {
        match kind {
            EntryKind::Directory => match self {
                SearchDir::Assets | SearchDir::Debian => ScanAction::Descend(self),
                SearchDir::Build => {
                    let n = chars_of(name);
                    if spells(n.as_slice(), "tmp") {
                        if dry_run {
                            ScanAction::SpareStale
                        } else {
                            ScanAction::Reset
                        }
                    } else if spells(n.as_slice(), SearchDir::Debian.name()) {
                        ScanAction::Descend(SearchDir::Debian)
                    } else {
                        ScanAction::Skip
                    }
                },
            },
            EntryKind::File => match self {
                SearchDir::Assets | SearchDir::Debian => ScanAction::Classify,
                SearchDir::Build => ScanAction::Skip,
            },
            EntryKind::Other => ScanAction::Skip,
        }
    }
}

/// A directory is deleted only if it is called `tmp`, is found while
/// scanning under `Build`, and the run is not a dry one.
pub proof fn lemma_reset_only_stale_output(
    dir: SearchDir,
    kind: EntryKind,
    name: Seq<char>,
    dry_run: bool,
)
    ensures
        dir.action(kind, name, dry_run) == ScanAction::Reset <==> dir == SearchDir::Build && kind
            == EntryKind::Directory && name == "tmp"@ && !dry_run,
        root_action(kind, name) != ScanAction::Reset,
{
}

/// Under `Build` nothing is classified, and only a directory called
/// `debian` is scanned.
pub proof fn lemma_build_scans_only_debian(kind: EntryKind, name: Seq<char>, dry_run: bool)
    ensures
        SearchDir::Build.action(kind, name, dry_run) != ScanAction::Classify,
        SearchDir::Build.action(kind, name, dry_run) matches ScanAction::Descend(dir) ==> dir
            == SearchDir::Debian && kind == EntryKind::Directory && name == "debian"@,
{
}

/// A dry run deletes nothing and stages nothing, and of a valid project it
/// reports just that.
pub proof fn lemma_dry_run_changes_nothing(
    forge: ForgeView,
    dir: SearchDir,
    kind: EntryKind,
    name: Seq<char>,
)
    requires
        forge.dry_run,
    ensures
        dir.action(kind, name, forge.dry_run) != ScanAction::Reset,
        root_action(kind, name) != ScanAction::Reset,
        !(forge.finished() matches Ok(OutcomeView::Stage(_))),
        forge.validated().is_ok() ==> forge.finished() == Ok::<_, ForgeErrorView>(
            OutcomeView::DryRun,
        ),
{
}

/// Files are staged only where the run is no dry one and the binary and a
/// file of each required role were found, and then all that were found are.
pub proof fn lemma_staged_means_valid(forge: ForgeView, plan: Seq<StagedFileView>)
    requires
        forge.finished() == Ok::<_, ForgeErrorView>(OutcomeView::Stage(plan)),
    ensures
        !forge.dry_run,
        has_role(forge.files, FileType::Binary),
        has_role(forge.files, FileType::Control),
        has_role(forge.files, FileType::Changelog),
        has_role(forge.files, FileType::Copyright),
        plan == forge.plan(),
        plan.len() == forge.files.len(),
{
}

/// One file of the staging tree: where it comes from, where it goes, and
/// whether variables are substituted on the way.
#[derive(Clone, Debug, PartialEq, Eq)]
pub struct StagedFile {
    pub file_type: FileType,
    pub source: String,
    pub directory: String,
    pub destination: String,
    pub text: bool,
}

/// A `StagedFile` as a value of the model.
pub struct StagedFileView {
    pub file_type: FileType,
    pub source: Seq<char>,
    pub directory: Seq<char>,
    pub destination: Seq<char>,
    pub text: bool,
}

/// The files of a staging tree as values of the model.
pub open spec fn staged_views(plan: Seq<StagedFile>) -> Seq<StagedFileView> {
    Seq::new(plan.len(), |i: int| plan[i]@)
}

impl View for StagedFile {
    type V = StagedFileView;

    open spec fn view(&self) -> StagedFileView {
        StagedFileView {
            file_type: self.file_type,
            source: self.source@,
            directory: self.directory@,
            destination: self.destination@,
            text: self.text,
        }
    }
}

/// A project on its way into a staging tree: its variables, the files found
/// for it, and whether the run is a dry one, which looks and writes nothing.
#[derive(Debug)]
pub struct Forge {
    vars: Variables,
    files: DebFiles,
    dry_run: bool,
}

/// A `Forge` as a value of the model.
pub struct ForgeView {
    pub vars: VariablesView,
    pub files: Entries,
    pub dry_run: bool,
}

/// What follows the validation of a project.
#[derive(Clone, Debug, PartialEq, Eq)]
pub enum Outcome {
    /// The run was a dry one: the project is valid, and nothing is staged.
    DryRun,
    /// The files to stage, in the order in which they were found.
    Stage(Vec<StagedFile>),
}

/// An `Outcome` as a value of the model.
pub enum OutcomeView {
    DryRun,
    Stage(Seq<StagedFileView>),
}

impl View for Outcome {
    type V = OutcomeView;

    open spec fn view(&self) -> OutcomeView {
        match self {
            Outcome::DryRun => OutcomeView::DryRun,
            Outcome::Stage(plan) => OutcomeView::Stage(staged_views(plan@)),
        }
    }
}

/// The first of the roles that every package needs for which `files` holds
/// no file, in the order control, changelog, copyright.
pub open spec fn first_missing(files: Entries) -> Option<FileType> {
    if !has_role(files, FileType::Control) {
        Some(FileType::Control)
    } else if !has_role(files, FileType::Changelog) {
        Some(FileType::Changelog)
    } else if !has_role(files, FileType::Copyright) {
        Some(FileType::Copyright)
    } else {
        None
    }
}

impl ForgeView {
    /// Whether the project can be staged: the binary and a file of each
    /// required role are there. Otherwise, what is missing first.
    pub open spec fn validated(self) -> Result<(), ForgeErrorView> {
        if !has_role(self.files, FileType::Binary) {
            Err(ForgeErrorView::BinaryNotFound(self.vars.binary_path()))
        } else {
            match first_missing(self.files) {
                Some(role) => Err(ForgeErrorView::MissingRequired(role)),
                None => Ok(()),
            }
        }
    }

    /// The files after the built binary was looked for where it is
    /// expected: it is added under its role if it was found there.
    pub open spec fn with_binary(self, found: bool) -> Result<Entries, ForgeErrorView> {
        if found {
            inserted(self.files, FileType::Binary, self.vars.binary_path())
        } else {
            Err(ForgeErrorView::BinaryNotFound(self.vars.binary_path()))
        }
    }

    /// How the file `entry` is staged.
    pub open spec fn staged(self, entry: (FileType, Seq<char>)) -> StagedFileView {
        StagedFileView {
            file_type: entry.0,
            source: entry.1,
            directory: self.vars.file_type_path(entry.0),
            destination: self.vars.destination(entry.0),
            text: entry.0.textual(),
        }
    }

    /// The staging tree: each file found, in the order in which the files
    /// were found, with the place it is staged at.
    pub open spec fn plan(self) -> Seq<StagedFileView> {
        Seq::new(self.files.len(), |i: int| self.staged(self.files[i]))
    }

    /// What follows the validation: a project that cannot be staged is an
    /// error, in a dry run as in any other; a dry run of a valid project
    /// stages nothing; any other run stages the whole plan.
    pub open spec fn finished(self) -> Result<OutcomeView, ForgeErrorView> {
        match self.validated() {
            Err(e) => Err(e),
            Ok(()) => if self.dry_run {
                Ok(OutcomeView::DryRun)
            } else {
                Ok(OutcomeView::Stage(self.plan()))
            },
        }
    }

    /// The number of files besides the binary.
    pub open spec fn imported(self) -> nat {
        if has_role(self.files, FileType::Binary) {
            (self.files.len() - 1) as nat
        } else {
            self.files.len()
        }
    }

    /// The text that reports a finished run.
    pub open spec fn summary(self) -> Seq<char> {
        "Successfully imported "@ + decimal(self.imported()) + " files, and project binary"@
    }
}

impl View for Forge {
    type V = ForgeView;

    closed spec fn view(&self) -> ForgeView {
        ForgeView { vars: self.vars@, files: self.files@, dry_run: self.dry_run }
    }
}

impl Forge {
    /// Starts on a project, with no file found yet.
    pub fn from(args: Args) -> (r: Result<Forge, ForgeError>)
        ensures
            match r {
                Ok(forge) => args@.complete() && forge@.vars == VariablesView::from_args(args@)
                    && forge@.files == Entries::empty() && forge@.dry_run == args@.dry_run,
                Err(e) => !args@.complete() && e == ForgeError::ManifestIncomplete,
            },
    {
        let dry_run = args.dry_run;
        match Variables::from(args) {
            Ok(vars) => Ok(Forge { vars, files: DebFiles::new(), dry_run }),
            Err(e) => Err(e),
        }
    }

    /// Whether the run is a dry one.
    pub fn dry_run(&self) -> (r: bool)
        ensures
            r == self@.dry_run,
    {
        self.dry_run
    }

    /// The project's variables.
    pub fn vars(&self) -> (r: &Variables)
        ensures
            r@ == self@.vars,
    {
        &self.vars
    }

    /// The files found so far.
    pub fn files(&self) -> (r: &DebFiles)
        ensures
            r@ == self@.files,
            distinct_roles(self@.files),
    {
        proof {
            use_type_invariant(&self.files);
        }
        &self.files
    }

    /// Takes in the built binary, given whether a file was found at
    /// `get_binary_path()`.
    pub fn add_binary(&mut self, found: bool) -> (r: Result<(), ForgeError>)
        ensures
            final(self)@.vars == old(self)@.vars,
            final(self)@.dry_run == old(self)@.dry_run,
            distinct_roles(final(self)@.files),
            match r {
                Ok(()) => old(self)@.with_binary(found) == taken(final(self)@.files) && gained_role(
                    old(self)@.files,
                    final(self)@.files,
                    FileType::Binary,
                ),
                Err(e) => old(self)@.with_binary(found) == refused(e@)
                    && final(self)@.files == old(self)@.files,
            },
    {
        proof {
            use_type_invariant(&self.files);
        }
        let path = self.vars.get_binary_path();
        if !found {
            return Err(ForgeError::BinaryNotFound(path));
        }
        self.files.insert(FileType::Binary, path)
    }

    /// What is to be done with the entry called `name` of the project's
    /// root directory.
    pub fn root_entry(kind: EntryKind, name: &str) -> (r: ScanAction)
        ensures
            r == root_action(kind, name@),
    {
        match kind {
            EntryKind::Directory => match SearchDir::named(name) {
                Some(dir) => ScanAction::Descend(dir),
                None => ScanAction::Skip,
            },
            EntryKind::File => ScanAction::Classify,
            EntryKind::Other => ScanAction::Skip,
        }
    }

    /// What is to be done with the entry called `name`, found while
    /// scanning under the policy of `dir` in this run.
    pub fn scan_entry(&self, dir: SearchDir, kind: EntryKind, name: &str) -> (r: ScanAction)
        ensures
            r == dir.action(kind, name@, self@.dry_run),
    {
        dir.scan(kind, name, self.dry_run)
    }

    /// Takes in the file called `file_name`, found at `path`, if its name
    /// gives it a role, and says which role that is.
    pub fn conditional_insert(&mut self, file_name: &str, path: String) -> (r: Result<
        Option<FileType>,
        ForgeError,
    >)
        ensures
            final(self)@.vars == old(self)@.vars,
            final(self)@.dry_run == old(self)@.dry_run,
            distinct_roles(final(self)@.files),
            match r {
                Ok(role) => role == classified(file_name@) && collected(
                    old(self)@.files,
                    file_name@,
                    path@,
                ) == taken(final(self)@.files),
                Err(e) => collected(old(self)@.files, file_name@, path@) == refused(e@)
                    && final(self)@.files == old(self)@.files,
            },
            r matches Ok(Some(role)) ==> gained_role(old(self)@.files, final(self)@.files, role),
    {
        self.files.conditional_insert(file_name, path)
    }

    /// Whether the project can be staged: the binary and a file of each
    /// required role are there.
    pub fn validate(&self) -> (r: Result<(), ForgeError>)
        ensures
            self@.validated() == match r {
                Ok(()) => Ok(()),
                Err(e) => Err(e@),
            },
    {
        if !self.files.contains_key(FileType::Binary) {
            Err(ForgeError::BinaryNotFound(self.vars.get_binary_path()))
        } else if !self.files.contains_key(FileType::Control) {
            Err(ForgeError::MissingRequired(FileType::Control))
        } else if !self.files.contains_key(FileType::Changelog) {
            Err(ForgeError::MissingRequired(FileType::Changelog))
        } else if !self.files.contains_key(FileType::Copyright) {
            Err(ForgeError::MissingRequired(FileType::Copyright))
        } else {
            Ok(())
        }
    }

    /// What follows the scan: a project that cannot be staged is an error;
    /// a dry run of a valid project ends here, with nothing to stage; any
    /// other run is handed the staging tree, one file for each file found.
    pub fn forge(&self) -> (r: Result<Outcome, ForgeError>)
        ensures
            self@.finished() == match r {
                Ok(outcome) => Ok(outcome@),
                Err(e) => Err(e@),
            },
    {
        self.validate()?;
        if self.dry_run {
            Ok(Outcome::DryRun)
        } else {
            Ok(Outcome::Stage(self.plan()))
        }
    }

    fn plan(&self) -> (plan: Vec<StagedFile>)
        ensures
            staged_views(plan@) == self@.plan(),
    {
        let mut plan: Vec<StagedFile> = Vec::new();
        let mut i: usize = 0;
        while i < self.files.entries.len()
            invariant
                i <= self.files.entries.len(),
                plan@.len() == i,
                staged_views(plan@) == self@.plan().take(i as int),
            decreases self.files.entries.len() - i,
        {
            let role = self.files.entries[i].0;
            plan.push(
                StagedFile {
                    file_type: role,
                    source: self.files.entries[i].1.clone(),
                    directory: self.vars.get_file_type_path(role),
                    destination: self.vars.get_destination(role),
                    text: role.is_text(),
                },
            );
            i += 1;
        }
        assert(self@.plan().take(i as int) == self@.plan());
        plan
    }

    /// The number of files found besides the binary.
    pub fn imported(&self) -> (r: usize)
        ensures
            r == self@.imported(),
    {
        let n = self.files.len();
        if self.files.contains_key(FileType::Binary) {
            n - 1
        } else {
            n
        }
    }

    /// The words that report a finished run.
    pub fn summary(&self) -> (r: String)
        ensures
            r@ == self@.summary(),
    {
        let count = decimal_chars(self.imported());
        let count = string_of(count.as_slice());
        String::from_str("Successfully imported ").concat(count.as_str()).concat(
            " files, and project binary",
        )
    }
}

} // verus!
