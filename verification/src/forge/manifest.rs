//! The project manifest, from which the binary's name and the version are
//! taken where the command line gave none.

use crate::args::{opt_text, texts, Args, ArgsView};
use crate::forge::ForgeError;
use crate::text::{chars_of, matches_at, occurs_at, string_of};
use vstd::prelude::*;
use vstd::slice::slice_subrange;

verus! {

/// The kinds of character that are trimmed off.
#[derive(Clone, Copy, Debug, PartialEq, Eq, Structural)]
pub enum CharClass {
    /// The characters that Unicode marks as `White_Space`.
    Whitespace,
    /// What stands between a field's name and its value, and around the
    /// value: space, `=`, and both quotes.
    Padding,
}

/// Whether Unicode marks `c` as `White_Space`.
pub open spec fn is_whitespace(c: char) -> bool {
    ||| ('\u{9}' <= c && c <= '\u{D}')
    ||| c == ' '
    ||| c == '\u{85}'
    ||| c == '\u{A0}'
    ||| c == '\u{1680}'
    ||| ('\u{2000}' <= c && c <= '\u{200A}')
    ||| c == '\u{2028}'
    ||| c == '\u{2029}'
    ||| c == '\u{202F}'
    ||| c == '\u{205F}'
    ||| c == '\u{3000}'
}

/// Whether `c` may surround a field's value.
pub open spec fn is_padding(c: char) -> bool {
    c == ' ' || c == '\'' || c == '"' || c == '='
}

impl CharClass {
    /// Whether `c` is of this kind.
    pub open spec fn holds(self, c: char) -> bool {
        match self {
            CharClass::Whitespace => is_whitespace(c),
            CharClass::Padding => is_padding(c),
        }
    }

    /// Whether `c` is of this kind.
    pub fn has(self, c: char) -> (r: bool)
        ensures
            r == self.holds(c),
    {
        match self {
            CharClass::Whitespace => ('\u{9}' <= c && c <= '\u{D}') || c == ' ' || c == '\u{85}'
                || c == '\u{A0}' || c == '\u{1680}' || ('\u{2000}' <= c && c <= '\u{200A}') || c
                == '\u{2028}' || c == '\u{2029}' || c == '\u{202F}' || c == '\u{205F}' || c
                == '\u{3000}',
            CharClass::Padding => c == ' ' || c == '\'' || c == '"' || c == '=',
        }
    }
}

/// `s` without its leading characters of the kind `class`.
pub open spec fn trimmed_start(s: Seq<char>, class: CharClass) -> Seq<char>
    decreases s.len(),
{
    if s.len() > 0 && class.holds(s[0]) {
        trimmed_start(s.skip(1), class)
    } else {
        s
    }
}

/// `s` without its trailing characters of the kind `class`.
pub open spec fn trimmed_end(s: Seq<char>, class: CharClass) -> Seq<char>
    decreases s.len(),
{
    if s.len() > 0 && class.holds(s.last()) {
        trimmed_end(s.drop_last(), class)
    } else {
        s
    }
}

/// `s` without its leading and trailing characters of the kind `class`.
pub open spec fn trimmed(s: Seq<char>, class: CharClass) -> Seq<char> {
    trimmed_end(trimmed_start(s, class), class)
}

/// The value that `line` gives the field called `field`: what follows the
/// name at the start of the line, without the padding around it.
pub open spec fn field_value(line: Seq<char>, field: Seq<char>) -> Option<Seq<char>> {
    if occurs_at(line, field, 0) {
        Some(trimmed(line.skip(field.len() as int), CharClass::Padding))
    } else {
        None
    }
}

impl ArgsView {
    /// Whether the binary's name and the version are known.
    pub open spec fn complete(self) -> bool {
        self.binary_name.is_some() && self.version.is_some()
    }

    /// The parameters after one line of the manifest was read: a parameter
    /// that is not known yet is taken from a line that gives it, the name
    /// before the version.
    pub open spec fn absorbed(self, line: Seq<char>) -> ArgsView {
        let l = trimmed_start(line, CharClass::Whitespace);
        if self.binary_name.is_none() && field_value(l, "name"@).is_some() {
            ArgsView { binary_name: field_value(l, "name"@), ..self }
        } else if self.version.is_none() && field_value(l, "version"@).is_some() {
            ArgsView { version: field_value(l, "version"@), ..self }
        } else {
            self
        }
    }

    /// The parameters after the lines of the manifest were read, first to
    /// last.
    pub open spec fn absorbed_all(self, lines: Seq<Seq<char>>) -> ArgsView
        decreases lines.len(),
    {
        if lines.len() == 0 {
            self
        } else {
            self.absorbed(lines[0]).absorbed_all(lines.skip(1))
        }
    }
}

/// Once the name and the version are known, no line changes anything.
pub proof fn lemma_complete_absorbs_nothing(args: ArgsView, lines: Seq<Seq<char>>)
    requires
        args.complete(),
    ensures
        args.absorbed_all(lines) == args,
    decreases lines.len(),
{
    if lines.len() > 0 {
        lemma_complete_absorbs_nothing(args, lines.skip(1));
    }
}

/// `s` without its leading and trailing characters of the kind `class`.
pub fn trim(s: &[char], class: CharClass) -> (r: &[char])
    ensures
        r@ == trimmed(s@, class),
{
    let front = trim_start(s, class);
    let mut b: usize = front.len();
    assert(front@.subrange(0, b as int) == front@);
    while b > 0 && class.has(front[b - 1])
        invariant
            b <= front.len(),
            trimmed_end(front@, class) == trimmed_end(front@.subrange(0, b as int), class),
        decreases b,
    {
        assert(front@.subrange(0, b as int).drop_last() == front@.subrange(0, b - 1));
        b -= 1;
    }
    slice_subrange(front, 0, b)
}

/// `s` without its leading characters of the kind `class`.
pub fn trim_start(s: &[char], class: CharClass) -> (r: &[char])
    ensures
        r@ == trimmed_start(s@, class),
{
    let mut a: usize = 0;
    assert(s@.skip(0) == s@);
    while a < s.len() && class.has(s[a])
        invariant
            a <= s.len(),
            trimmed_start(s@, class) == trimmed_start(s@.skip(a as int), class),
        decreases s.len() - a,
    {
        assert(s@.skip(a as int).skip(1) == s@.skip(a + 1));
        a += 1;
    }
    assert(s@.skip(a as int) == s@.subrange(a as int, s.len() as int));
    slice_subrange(s, a, s.len())
}

fn field_of(line: &[char], field: &str) -> (r: Option<String>)
    ensures
        opt_text(r) == field_value(line@, field@),
{
    let name = chars_of(field);
    if matches_at(line, name.as_slice(), 0) {
        let rest = slice_subrange(line, name.len(), line.len());
        assert(rest@ == line@.skip(name@.len() as int));
        Some(string_of(trim(rest, CharClass::Padding)))
    } else {
        None
    }
}

/// The value that `line` gives the field called `field`, if the line starts
/// with the field's name.
pub fn try_parse_field(line: &str, field: &'static str) -> (r: Option<String>)
    ensures
        opt_text(r) == field_value(line@, field@),
{
    let l = chars_of(line);
    field_of(l.as_slice(), field)
}

impl Args {
    /// Whether the binary's name and the version are known.
    pub fn has_toml_fields(&self) -> (r: bool)
        ensures
            r == self@.complete(),
    {
        self.binary_name.is_some() && self.version.is_some()
    }

    /// Reads one line of the manifest.
    pub fn parse_toml_line(&mut self, line: &str)
        ensures
            final(self)@ == old(self)@.absorbed(line@),
    {
        let whole = chars_of(line);
        let l = trim_start(whole.as_slice(), CharClass::Whitespace);
        if self.binary_name.is_none() {
            match field_of(l, "name") {
                Some(name) => {
                    self.binary_name = Some(name);
                    return ;
                },
                None => {},
            }
        }
        if self.version.is_none() {
            match field_of(l, "version") {
                Some(version) => {
                    self.version = Some(version);
                },
                None => {},
            }
        }
    }

    /// Takes from the lines of the manifest what the command line left
    /// open, and fails where the binary's name or the version is then still
    /// not known.
    pub fn conditionally_parse_toml(&mut self, lines: &Vec<String>) -> (r: Result<(), ForgeError>)
        ensures
            final(self)@ == old(self)@.absorbed_all(texts(lines@)),
            r.is_ok() == final(self)@.complete(),
            r matches Err(e) ==> e == ForgeError::ManifestIncomplete,
    {
        let mut i: usize = 0;
        assert(texts(lines@).skip(0) == texts(lines@));
        while i < lines.len() && !self.has_toml_fields()
            invariant
                i <= lines.len(),
                self@.absorbed_all(texts(lines@).skip(i as int)) == old(self)@.absorbed_all(
                    texts(lines@),
                ),
            decreases lines.len() - i,
        {
            assert(texts(lines@).skip(i as int)[0] == lines@[i as int]@);
            assert(texts(lines@).skip(i as int).skip(1) == texts(lines@).skip(i + 1));
            self.parse_toml_line(lines[i].as_str());
            i += 1;
        }
        proof {
            if self@.complete() {
                lemma_complete_absorbs_nothing(self@, texts(lines@).skip(i as int));
            }
        }
        if self.has_toml_fields() {
            Ok(())
        } else {
            Err(ForgeError::ManifestIncomplete)
        }
    }
}

} // verus!
