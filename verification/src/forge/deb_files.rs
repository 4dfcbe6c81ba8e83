//! The roles a file can play in a Debian package, how a file name is given
//! its role, and what each role's file is called in the package.

use crate::text::{
    chars_of, contains, contains_seq, last_index_of, lemma_last_index_of, rfind_char, spells,
};
use vstd::prelude::*;
use vstd::slice::slice_subrange;
use vstd::string::StringExecFns;

verus! {

/// The role of a file in the package.
#[derive(PartialEq, Eq, Structural, Hash, Clone, Copy, Debug)]
pub enum FileType {
    // required
    Control,
    Changelog,
    Copyright,
    Binary,
    // optional
    Icon64,
    Icon128,
    Icon256,
    Icon512,
    Desktop,
    Install,
    PreInst,
    PostInst,
    PreRm,
    PostRm,
    ConfFiles,
    Watch,
    Format,
    Dirs,
    Docs,
    Menu,
    ManPages,
}

/// The role that a file name without an extension stands for.
pub open spec fn reserved_role(name: Seq<char>) -> Option<FileType> {
    if name == "control"@ {
        Some(FileType::Control)
    } else if name == "changelog"@ {
        Some(FileType::Changelog)
    } else if name == "copyright"@ {
        Some(FileType::Copyright)
    } else if name == "install"@ {
        Some(FileType::Install)
    } else if name == "preinst"@ {
        Some(FileType::PreInst)
    } else if name == "postinst"@ {
        Some(FileType::PostInst)
    } else if name == "prerm"@ {
        Some(FileType::PreRm)
    } else if name == "postrm"@ {
        Some(FileType::PostRm)
    } else if name == "conffiles"@ {
        Some(FileType::ConfFiles)
    } else if name == "watch"@ {
        Some(FileType::Watch)
    } else if name == "format"@ {
        Some(FileType::Format)
    } else if name == "dirs"@ {
        Some(FileType::Dirs)
    } else if name == "docs"@ {
        Some(FileType::Docs)
    } else if name == "desktop"@ {
        Some(FileType::Desktop)
    } else if name == "menu"@ {
        Some(FileType::Menu)
    } else if name == "manpages"@ {
        Some(FileType::ManPages)
    } else {
        None
    }
}

/// Whether `extension` is that of an image that can serve as an icon.
pub open spec fn is_icon_format(extension: Seq<char>) -> bool {
    ||| extension == "png"@
    ||| extension == "jpg"@
    ||| extension == "jpeg"@
    ||| extension == "tiff"@
    ||| extension == "svg"@
}

/// The icon role of an image called `name`: that of the first width, in the
/// order 64, 128, 256, 512, whose decimal numeral occurs anywhere in the
/// name. A name that holds several widths so gets the smallest of them, and a
/// name that holds none gets no role.
pub open spec fn icon_role(name: Seq<char>) -> Option<FileType> {
    if contains_seq(name, "64"@) {
        Some(FileType::Icon64)
    } else if contains_seq(name, "128"@) {
        Some(FileType::Icon128)
    } else if contains_seq(name, "256"@) {
        Some(FileType::Icon256)
    } else if contains_seq(name, "512"@) {
        Some(FileType::Icon512)
    } else {
        None
    }
}

/// The extension of `name`: what follows its last dot, if it has a dot.
pub open spec fn extension(name: Seq<char>) -> Option<Seq<char>> {
    match last_index_of(name, '.') {
        Some(dot) => Some(name.skip(dot + 1)),
        None => None,
    }
}

/// The role of the file called `name`, if it has one.
pub open spec fn classified(name: Seq<char>) -> Option<FileType> {
    match extension(name) {
        Some(ext) => if ext == "desktop"@ {
            Some(FileType::Desktop)
        } else if is_icon_format(ext) {
            icon_role(name)
        } else {
            None
        },
        None => reserved_role(name),
    }
}

impl FileType {
    /// Whether the role is one of the icon resolutions.
    pub open spec fn is_icon(self) -> bool {
        self == FileType::Icon64 || self == FileType::Icon128 || self == FileType::Icon256 || self
            == FileType::Icon512
    }

    /// Whether the role's file is text, in which variables are substituted,
    /// and not an image or the executable, which are copied as they are.
    pub open spec fn textual(self) -> bool {
        !self.is_icon() && self != FileType::Binary
    }

    /// The decimal width of an icon role, in pixels.
    pub open spec fn width_text(self) -> Seq<char>
        recommends
            self.is_icon(),
    {
        match self {
            FileType::Icon64 => "64"@,
            FileType::Icon128 => "128"@,
            FileType::Icon256 => "256"@,
            _ => "512"@,
        }
    }

    /// The directory name that stands for an icon role's resolution.
    pub open spec fn resolution_text(self) -> Seq<char>
        recommends
            self.is_icon(),
    {
        match self {
            FileType::Icon64 => "64x64"@,
            FileType::Icon128 => "128x128"@,
            FileType::Icon256 => "256x256"@,
            _ => "512x512"@,
        }
    }

    /// The role's name, as messages spell it.
    pub open spec fn name_text(self) -> Seq<char> {
        match self {
            FileType::Control => "Control"@,
            FileType::Changelog => "Changelog"@,
            FileType::Copyright => "Copyright"@,
            FileType::Binary => "Binary"@,
            FileType::Icon64 => "Icon64"@,
            FileType::Icon128 => "Icon128"@,
            FileType::Icon256 => "Icon256"@,
            FileType::Icon512 => "Icon512"@,
            FileType::Desktop => "Desktop"@,
            FileType::Install => "Install"@,
            FileType::PreInst => "PreInst"@,
            FileType::PostInst => "PostInst"@,
            FileType::PreRm => "PreRm"@,
            FileType::PostRm => "PostRm"@,
            FileType::ConfFiles => "ConfFiles"@,
            FileType::Watch => "Watch"@,
            FileType::Format => "Format"@,
            FileType::Dirs => "Dirs"@,
            FileType::Docs => "Docs"@,
            FileType::Menu => "Menu"@,
            FileType::ManPages => "ManPages"@,
        }
    }

    /// The name of the role's file in the package, for a package whose
    /// binary is called `linux_binary_name`.
    pub open spec fn output_name(self, linux_binary_name: Seq<char>) -> Seq<char> {
        match self {
            FileType::Control => "control"@,
            FileType::Changelog => "changelog"@,
            FileType::Copyright => "copyright"@,
            FileType::Binary => linux_binary_name,
            FileType::Icon64 | FileType::Icon128 | FileType::Icon256 | FileType::Icon512 => {
                linux_binary_name + ".png"@
            },
            FileType::Desktop => linux_binary_name + ".desktop"@,
            FileType::Install => "install"@,
            FileType::PreInst => "preinst"@,
            FileType::PostInst => "postinst"@,
            FileType::PreRm => "prerm"@,
            FileType::PostRm => "postrm"@,
            FileType::ConfFiles => "conffiles"@,
            FileType::Watch => "watch"@,
            FileType::Format => "format"@,
            FileType::Dirs => "dirs"@,
            FileType::Docs => "docs"@,
            FileType::Menu => "menu"@,
            FileType::ManPages => "manpages"@,
        }
    }

    /// The role that a file name without an extension stands for.
    pub fn from(str: &str) -> (r: Option<FileType>)
        ensures
            r == reserved_role(str@),
    {
        let name = chars_of(str);
        FileType::from_chars(name.as_slice())
    }

    fn from_chars(name: &[char]) -> (r: Option<FileType>)
        ensures
            r == reserved_role(name@),
    {
        if spells(name, "control") {
            Some(FileType::Control)
        } else if spells(name, "changelog") {
            Some(FileType::Changelog)
        } else if spells(name, "copyright") {
            Some(FileType::Copyright)
        } else if spells(name, "install") {
            Some(FileType::Install)
        } else if spells(name, "preinst") {
            Some(FileType::PreInst)
        } else if spells(name, "postinst") {
            Some(FileType::PostInst)
        } else if spells(name, "prerm") {
            Some(FileType::PreRm)
        } else if spells(name, "postrm") {
            Some(FileType::PostRm)
        } else if spells(name, "conffiles") {
            Some(FileType::ConfFiles)
        } else if spells(name, "watch") {
            Some(FileType::Watch)
        } else if spells(name, "format") {
            Some(FileType::Format)
        } else if spells(name, "dirs") {
            Some(FileType::Dirs)
        } else if spells(name, "docs") {
            Some(FileType::Docs)
        } else if spells(name, "desktop") {
            Some(FileType::Desktop)
        } else if spells(name, "menu") {
            Some(FileType::Menu)
        } else if spells(name, "manpages") {
            Some(FileType::ManPages)
        } else {
            None
        }
    }

    /// Whether the role's file is text.
    pub fn is_text(self) -> (r: bool)
        ensures
            r == self.textual(),
    {
        !matches!(
            self,
            FileType::Icon64
                | FileType::Icon128
                | FileType::Icon256
                | FileType::Icon512
                | FileType::Binary
        )
    }

    /// The decimal width of an icon role, in pixels.
    pub fn width(self) -> (r: &'static str)
        requires
            self.is_icon(),
        ensures
            r@ == self.width_text(),
    {
        match self {
            FileType::Icon64 => "64",
            FileType::Icon128 => "128",
            FileType::Icon256 => "256",
            _ => "512",
        }
    }

    /// The directory name that stands for an icon role's resolution.
    pub fn resolution(self) -> (r: &'static str)
        requires
            self.is_icon(),
        ensures
            r@ == self.resolution_text(),
    {
        match self {
            FileType::Icon64 => "64x64",
            FileType::Icon128 => "128x128",
            FileType::Icon256 => "256x256",
            _ => "512x512",
        }
    }

    /// The role's name, as messages spell it.
    pub fn name(self) -> (r: &'static str)
        ensures
            r@ == self.name_text(),
    {
        match self {
            FileType::Control => "Control",
            FileType::Changelog => "Changelog",
            FileType::Copyright => "Copyright",
            FileType::Binary => "Binary",
            FileType::Icon64 => "Icon64",
            FileType::Icon128 => "Icon128",
            FileType::Icon256 => "Icon256",
            FileType::Icon512 => "Icon512",
            FileType::Desktop => "Desktop",
            FileType::Install => "Install",
            FileType::PreInst => "PreInst",
            FileType::PostInst => "PostInst",
            FileType::PreRm => "PreRm",
            FileType::PostRm => "PostRm",
            FileType::ConfFiles => "ConfFiles",
            FileType::Watch => "Watch",
            FileType::Format => "Format",
            FileType::Dirs => "Dirs",
            FileType::Docs => "Docs",
            FileType::Menu => "Menu",
            FileType::ManPages => "ManPages",
        }
    }

    /// The name of the role's file in the package, for a package whose
    /// binary is called `linux_binary_name`.
    pub fn output_file_name(self, linux_binary_name: &str) -> (r: String)
        ensures
            r@ == self.output_name(linux_binary_name@),
    {
        match self {
            FileType::Control => String::from_str("control"),
            FileType::Changelog => String::from_str("changelog"),
            FileType::Copyright => String::from_str("copyright"),
            FileType::Binary => String::from_str(linux_binary_name),
            FileType::Icon64 | FileType::Icon128 | FileType::Icon256 | FileType::Icon512 => {
                String::from_str(linux_binary_name).concat(".png")
            },
            FileType::Desktop => String::from_str(linux_binary_name).concat(".desktop"),
            FileType::Install => String::from_str("install"),
            FileType::PreInst => String::from_str("preinst"),
            FileType::PostInst => String::from_str("postinst"),
            FileType::PreRm => String::from_str("prerm"),
            FileType::PostRm => String::from_str("postrm"),
            FileType::ConfFiles => String::from_str("conffiles"),
            FileType::Watch => String::from_str("watch"),
            FileType::Format => String::from_str("format"),
            FileType::Dirs => String::from_str("dirs"),
            FileType::Docs => String::from_str("docs"),
            FileType::Menu => String::from_str("menu"),
            FileType::ManPages => String::from_str("manpages"),
        }
    }
}

/// No reserved name has a dot in it, and so none has an extension.
pub proof fn lemma_reserved_name_has_no_extension(name: Seq<char>)
    requires
        reserved_role(name).is_some(),
    ensures
        extension(name).is_none(),
{
    lemma_last_index_of(name, '.');
    reveal_strlit("control");
    reveal_strlit("changelog");
    reveal_strlit("copyright");
    reveal_strlit("install");
    reveal_strlit("preinst");
    reveal_strlit("postinst");
    reveal_strlit("prerm");
    reveal_strlit("postrm");
    reveal_strlit("conffiles");
    reveal_strlit("watch");
    reveal_strlit("format");
    reveal_strlit("dirs");
    reveal_strlit("docs");
    reveal_strlit("desktop");
    reveal_strlit("menu");
    reveal_strlit("manpages");
}

/// A file whose whole name is a reserved name has the role that the name
/// stands for.
pub proof fn lemma_reserved_name_classified(name: Seq<char>)
    requires
        reserved_role(name).is_some(),
    ensures
        classified(name) == reserved_role(name),
{
    lemma_reserved_name_has_no_extension(name);
}

/// A file with an extension other than `desktop` and those of the icon
/// images has no role, whatever stands before the extension.
pub proof fn lemma_unrecognized_extension_unclassified(name: Seq<char>)
    requires
        extension(name).is_some(),
        extension(name).unwrap() != "desktop"@,
        !is_icon_format(extension(name).unwrap()),
    ensures
        classified(name).is_none(),
{
}

/// The extension of a desktop entry is not one of the icon images.
pub proof fn lemma_icon_format_is_not_desktop(extension: Seq<char>)
    requires
        is_icon_format(extension),
    ensures
        extension != "desktop"@,
{
    reveal_strlit("desktop");
    reveal_strlit("png");
    reveal_strlit("jpg");
    reveal_strlit("jpeg");
    reveal_strlit("tiff");
    reveal_strlit("svg");
    assert("desktop"@.len() == 7);
    assert("png"@.len() == 3);
    assert("jpg"@.len() == 3);
    assert("jpeg"@.len() == 4);
    assert("tiff"@.len() == 4);
    assert("svg"@.len() == 3);
}

/// An image whose name holds the width of exactly one icon role has that
/// role.
pub proof fn lemma_icon_with_one_width(name: Seq<char>, icon: FileType)
    requires
        extension(name).is_some(),
        is_icon_format(extension(name).unwrap()),
        icon.is_icon(),
        contains_seq(name, icon.width_text()),
        forall|other: FileType|
            other.is_icon() && other != icon ==> !contains_seq(name, #[trigger] other.width_text()),
    ensures
        classified(name) == Some(icon),
{
    lemma_icon_format_is_not_desktop(extension(name).unwrap());
    assert(FileType::Icon64.width_text() == "64"@);
    assert(FileType::Icon128.width_text() == "128"@);
    assert(FileType::Icon256.width_text() == "256"@);
    assert(FileType::Icon512.width_text() == "512"@);
}

/// An image has the role of the first width, in the order 64, 128, 256, 512,
/// that its name holds, and no role if its name holds none of them.
pub proof fn lemma_icon_by_first_width(name: Seq<char>)
    requires
        extension(name).is_some(),
        is_icon_format(extension(name).unwrap()),
    ensures
        classified(name) == icon_role(name),
        match icon_role(name) {
            Some(icon) => icon.is_icon() && contains_seq(name, icon.width_text()),
            None => forall|icon: FileType|
                icon.is_icon() ==> !contains_seq(name, #[trigger] icon.width_text()),
        },
{
    lemma_icon_format_is_not_desktop(extension(name).unwrap());
}

/// Whether `extension` is that of an image that can serve as an icon.
fn icon_format(extension: &[char]) -> (r: bool)
    ensures
        r == is_icon_format(extension@),
{
    spells(extension, "png") || spells(extension, "jpg") || spells(extension, "jpeg") || spells(
        extension,
        "tiff",
    ) || spells(extension, "svg")
}

/// Whether the decimal width of the icon role `icon` occurs in `name`.
fn holds_width(name: &[char], icon: FileType) -> (r: bool)
    requires
        icon.is_icon(),
    ensures
        r == contains_seq(name@, icon.width_text()),
{
    let width = chars_of(icon.width());
    contains(name, width.as_slice())
}

/// The icon role of an image called `name`.
fn icon_of(name: &[char]) -> (r: Option<FileType>)
    ensures
        r == icon_role(name@),
{
    if holds_width(name, FileType::Icon64) {
        Some(FileType::Icon64)
    } else if holds_width(name, FileType::Icon128) {
        Some(FileType::Icon128)
    } else if holds_width(name, FileType::Icon256) {
        Some(FileType::Icon256)
    } else if holds_width(name, FileType::Icon512) {
        Some(FileType::Icon512)
    } else {
        None
    }
}

/// The role of the file called `file_name`, if it has one. A file without a
/// role is no error: it is not part of the package.
pub fn classify(file_name: &str) -> (r: Option<FileType>)
    ensures
        r == classified(file_name@),
{
    let name = chars_of(file_name);
    match rfind_char(name.as_slice(), '.') {
        Some(dot) => {
            proof {
                lemma_last_index_of(name@, '.');
            }
            let ext = slice_subrange(name.as_slice(), dot + 1, name.len());
            assert(ext@ == name@.skip(dot + 1));
            if spells(ext, "desktop") {
                Some(FileType::Desktop)
            } else if icon_format(ext) {
                icon_of(name.as_slice())
            } else {
                None
            }
        },
        None => FileType::from_chars(name.as_slice()),
    }
}

} // verus!
