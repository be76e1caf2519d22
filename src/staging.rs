//! Names for the private copies of the artifact that each reload loads.

use vstd::prelude::*;
use vstd::string::*;

verus! {

/// What `Path::file_stem` gives for `path`, read lossily as text.
pub uninterp spec fn path_file_stem(path: Seq<char>) -> Option<Seq<char>>;

/// What `Path::extension` gives for `path`, read lossily as text.
pub uninterp spec fn path_extension(path: Seq<char>) -> Option<Seq<char>>;

/// Relies on `std::path::Path::file_stem`, with `OsStr::to_string_lossy`:
/// the file name of `path` without its extension.
#[verifier::external_body]
fn file_stem_of(path: &str) -> (r: Option<String>)
    ensures
        r is Some <==> path_file_stem(path@) is Some,
        r is Some ==> r->0@ == path_file_stem(path@)->0,
{
    std::path::Path::new(path).file_stem().map(|s| s.to_string_lossy().to_string())
}

/// Relies on `std::path::Path::extension`, with `OsStr::to_string_lossy`:
/// the extension of the file name of `path`, without its dot.
#[verifier::external_body]
fn extension_of(path: &str) -> (r: Option<String>)
    ensures
        r is Some <==> path_extension(path@) is Some,
        r is Some ==> r->0@ == path_extension(path@)->0,
{
    std::path::Path::new(path).extension().map(|s| s.to_string_lossy().to_string())
}

/// The stem that staged copies of the artifact at `path` carry.
pub open spec fn stem_text(path: Seq<char>) -> Seq<char> {
    match path_file_stem(path) {
        Some(s) => s,
        None => Seq::empty(),
    }
}

/// The extension, with its leading dot, that staged copies carry.
pub open spec fn extension_text(path: Seq<char>) -> Seq<char> {
    match path_extension(path) {
        Some(e) => seq!['.'] + e,
        None => Seq::empty(),
    }
}

/// The character of decimal digit `d`.
pub open spec fn digit_char(d: nat) -> char {
    if d == 0 {
        '0'
    } else if d == 1 {
        '1'
    } else if d == 2 {
        '2'
    } else if d == 3 {
        '3'
    } else if d == 4 {
        '4'
    } else if d == 5 {
        '5'
    } else if d == 6 {
        '6'
    } else if d == 7 {
        '7'
    } else if d == 8 {
        '8'
    } else {
        '9'
    }
}

/// `n` written in decimal, without leading zeros.
pub open spec fn decimal(n: nat) -> Seq<char>
    decreases n,
{
    if n < 10 {
        seq![digit_char(n)]
    } else {
        decimal(n / 10) + seq![digit_char(n % 10)]
    }
}

fn push_digit(s: &mut String, d: u64)
    requires
        d < 10,
    ensures
        final(s)@ == old(s)@ + seq![digit_char(d as nat)],
{
    proof {
        reveal_strlit("0");
        reveal_strlit("1");
        reveal_strlit("2");
        reveal_strlit("3");
        reveal_strlit("4");
        reveal_strlit("5");
        reveal_strlit("6");
        reveal_strlit("7");
        reveal_strlit("8");
        reveal_strlit("9");
    }
    if d == 0 {
        s.append("0");
    } else if d == 1 {
        s.append("1");
    } else if d == 2 {
        s.append("2");
    } else if d == 3 {
        s.append("3");
    } else if d == 4 {
        s.append("4");
    } else if d == 5 {
        s.append("5");
    } else if d == 6 {
        s.append("6");
    } else if d == 7 {
        s.append("7");
    } else if d == 8 {
        s.append("8");
    } else {
        s.append("9");
    }
}

/// Appends `n` in decimal to `s`.
pub fn push_decimal(s: &mut String, n: u64)
    ensures
        final(s)@ == old(s)@ + decimal(n as nat),
    decreases n,
{
    if n >= 10 {
        push_decimal(s, n / 10);
    }
    push_digit(s, n % 10);
}

/// The parts of the artifact's file name that staged copies keep.
pub struct ArtifactName {
    pub stem: String,
    pub extension: String,
}

impl ArtifactName {
    /// Splits the artifact path into the stem and the dotted extension of
    /// its file name; a part the path lacks is empty.
    pub fn of_path(path: &str) -> (r: ArtifactName)
        ensures
            r.stem@ == stem_text(path@),
            r.extension@ == extension_text(path@),
    {
        let stem = match file_stem_of(path) {
            Some(s) => s,
            None => String::new(),
        };
        let extension = match extension_of(path) {
            Some(e) => {
                proof {
                    reveal_strlit(".");
                }
                let mut dotted = String::from_str(".");
                dotted.append(e.as_str());
                dotted
            },
            None => String::new(),
        };
        ArtifactName { stem, extension }
    }

    /// The file name of the `counter`-th staged copy made by process `pid`:
    /// `<stem>_<pid>_<counter><extension>`.
    pub fn destination_name(&self, pid: u32, counter: u64) -> (r: String)
        ensures
            r@ == staged_name(self.stem@, pid as nat, counter as nat, self.extension@),
    {
        proof {
            reveal_strlit("_");
        }
        let mut name = self.stem.clone();
        name.append("_");
        push_decimal(&mut name, pid as u64);
        name.append("_");
        push_decimal(&mut name, counter);
        name.append(self.extension.as_str());
        name
    }
}

/// `<stem>_<pid>_<counter><extension>`.
pub open spec fn staged_name(stem: Seq<char>, pid: nat, counter: nat, extension: Seq<char>) -> Seq<
    char,
> {
    stem + seq!['_'] + decimal(pid) + seq!['_'] + decimal(counter) + extension
}

} // verus!
