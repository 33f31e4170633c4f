//! Finding the daemon's executable.
//!
//! The resolution is a function of what the environment holds: the two
//! overrides, the place of a fetched executable, the search path, and, for
//! each candidate on the search path, what kind of file stands there. Who
//! calls it reads the environment and the disk.

use crate::text::{push_text, slice_text, strings};
use crate::error::{Error, ErrorView};
use crate::versions::{electrs_name, electrs_name_spec, Os, Version};
use vstd::prelude::*;
use vstd::string::{StrSliceExecFns, StringExecFns};

verus! {

/// How a platform writes search paths and file names.
#[derive(Debug, Clone, Copy, PartialEq, Eq, Structural)]
pub enum PathStyle {
    /// Directories of a search path stand between `:`, the parts of a path
    /// between `/`, and the executable is named `electrs`.
    Unix,
    /// Directories of a search path stand between `;`, the parts of a path
    /// between `\` or `/`, and the executable is named `electrs.exe`.
    Windows,
}

impl PathStyle {
    /// The character between two directories of a search path.
    pub open spec fn separator(self) -> char {
        match self {
            PathStyle::Unix => ':',
            PathStyle::Windows => ';',
        }
    }

    /// The name of the executable.
    pub open spec fn file_name(self) -> Seq<char> {
        match self {
            PathStyle::Unix => "electrs"@,
            PathStyle::Windows => "electrs.exe"@,
        }
    }

    /// What is written between a directory and a file in it.
    pub open spec fn joint(self) -> Seq<char> {
        match self {
            PathStyle::Unix => "/"@,
            PathStyle::Windows => "\\"@,
        }
    }

    /// A file's name follows this directory without anything between them:
    /// the directory is empty, or ends in a separator, or, on Windows, is a
    /// drive and nothing else.
    pub open spec fn is_open(self, dir: Seq<char>) -> bool {
        match self {
            PathStyle::Unix => dir.len() == 0 || dir.last() == '/',
            PathStyle::Windows => dir.len() == 0 || dir.last() == '/' || dir.last() == '\\'
                || is_drive(dir),
        }
    }
}

/// A letter that can name a drive.
pub open spec fn is_drive_letter(c: char) -> bool {
    ('a' as u32 <= c as u32 && c as u32 <= 'z' as u32) || ('A' as u32 <= c as u32 && c as u32
        <= 'Z' as u32)
}

/// A drive and nothing else, as in `C:`.
pub open spec fn is_drive(dir: Seq<char>) -> bool {
    dir.len() == 2 && is_drive_letter(dir[0]) && dir[1] == ':'
}

/// A file mode that lets its owner, its group or anyone else execute the
/// file.
pub open spec fn mode_is_executable(mode: u32) -> bool {
    mode & 0o111 != 0
}

/// Tells whether a file with the given permission bits can be executed by
/// its owner, its group or anyone else.
pub fn is_executable_mode(mode: u32) -> (r: bool)
    ensures
        r == mode_is_executable(mode),
{
    mode & 0o111 != 0
}

/// The place of the executable that was fetched for a release, below
/// `out_dir`.
pub open spec fn downloaded_exe_path_spec(out_dir: Seq<char>, os: Os, version: Version) -> Seq<
    char,
> {
    out_dir + "/electrs/"@ + electrs_name_spec(os, Some(version)) + "/electrs"@
}

/// The place of the fetched executable: there is one where a release was
/// chosen and fetching was not switched off.
pub fn downloaded_exe_path(
    out_dir: &str,
    os: Os,
    version: Option<Version>,
    skip_download: bool,
) -> (path: Option<String>)
    ensures
        path is Some <==> version is Some && !skip_download,
        path is Some ==> path->0@ == downloaded_exe_path_spec(out_dir@, os, version->0),
{
    match version {
        Some(_) => {
            if skip_download {
                None
            } else {
                let mut path = String::from_str(out_dir);
                path.append("/electrs/");
                let name = electrs_name(os, version);
                path.append(name.as_str());
                path.append("/electrs");
                Some(path)
            }
        },
        None => None,
    }
}

/// The fields of `s` between separators. There is one field more than there
/// are separators, and a field may be empty.
pub open spec fn split(s: Seq<char>, sep: char) -> Seq<Seq<char>>
    decreases s.len(),
{
    if s.len() == 0 {
        seq![Seq::empty()]
    } else {
        let before = split(s.drop_last(), sep);
        if s.last() == sep {
            before.push(Seq::empty())
        } else {
            before.drop_last().push(before.last().push(s.last()))
        }
    }
}

/// The fields joined again, with a separator between two of them.
pub open spec fn join(fields: Seq<Seq<char>>, sep: char) -> Seq<char>
    decreases fields.len(),
{
    if fields.len() == 0 {
        Seq::empty()
    } else if fields.len() == 1 {
        fields[0]
    } else {
        join(fields.drop_last(), sep).push(sep) + fields.last()
    }
}

/// Splitting loses nothing and leaves no separator inside a field: the
/// fields, joined, are the text again.
pub proof fn lemma_split_join(s: Seq<char>, sep: char)
    ensures
        split(s, sep).len() >= 1,
        join(split(s, sep), sep) == s,
        forall|i: int, j: int|
            0 <= i < split(s, sep).len() && 0 <= j < split(s, sep)[i].len() ==> split(
                s,
                sep,
            )[i][j] != sep,
    decreases s.len(),
{
    if s.len() > 0 {
        let before = split(s.drop_last(), sep);
        lemma_split_join(s.drop_last(), sep);
        let fields = split(s, sep);
        if s.last() == sep {
            assert(fields.drop_last() =~= before);
        } else if before.len() > 1 {
            assert(fields.drop_last() =~= before.drop_last());
            assert(join(before, sep) == join(before.drop_last(), sep).push(sep) + before.last());
            assert(join(fields, sep) =~= (join(before.drop_last(), sep).push(sep)
                + before.last()).push(s.last()));
        }
    }
}

/// The executable in a directory of the search path: its name follows the
/// directory, with a separator between them unless the directory is open.
pub open spec fn candidate_in(dir: Seq<char>, style: PathStyle) -> Seq<char> {
    if style.is_open(dir) {
        dir + style.file_name()
    } else {
        dir + style.joint() + style.file_name()
    }
}

/// The candidates of a search path: one for each of its directories, in
/// order.
pub open spec fn candidates_spec(path_var: Seq<char>, style: PathStyle) -> Seq<Seq<char>> {
    let dirs = split(path_var, style.separator());
    Seq::new(dirs.len(), |i: int| candidate_in(dirs[i], style))
}

/// Tells whether a file's name follows the directory without anything
/// between them.
fn is_open(dir: &str, style: PathStyle) -> (open: bool)
    ensures
        open == style.is_open(dir@),
{
    let len = dir.unicode_len();
    if len == 0 {
        return true;
    }
    let last = dir.get_char(len - 1);
    match style {
        PathStyle::Unix => last == '/',
        PathStyle::Windows => {
            if last == '/' || last == '\\' {
                true
            } else if len == 2 && last == ':' {
                let drive = dir.get_char(0) as u32;
                ('a' as u32 <= drive && drive <= 'z' as u32) || ('A' as u32 <= drive && drive
                    <= 'Z' as u32)
            } else {
                false
            }
        },
    }
}

/// The executable in a directory.
fn candidate(dir: &str, style: PathStyle) -> (path: String)
    ensures
        path@ == candidate_in(dir@, style),
{
    let mut path = String::from_str(dir);
    if !is_open(dir, style) {
        match style {
            PathStyle::Unix => path.append("/"),
            PathStyle::Windows => path.append("\\"),
        }
    }
    match style {
        PathStyle::Unix => path.append("electrs"),
        PathStyle::Windows => path.append("electrs.exe"),
    }
    path
}

/// The character between two directories of a search path.
fn list_separator(style: PathStyle) -> (c: char)
    ensures
        c == style.separator(),
{
    match style {
        PathStyle::Unix => ':',
        PathStyle::Windows => ';',
    }
}

/// Lists where the executable would stand in each directory of a search
/// path.
pub fn path_candidates(path_var: &str, style: PathStyle) -> (candidates: Vec<String>)
    ensures
        strings(candidates@) == candidates_spec(path_var@, style),
{
    let separator = list_separator(style);
    let len = path_var.unicode_len();
    let mut candidates: Vec<String> = Vec::new();
    let mut start: usize = 0;
    let mut i: usize = 0;
    proof {
        assert(path_var@.subrange(0, 0) =~= Seq::<char>::empty());
        assert(split(path_var@.subrange(0, 0), separator) =~= seq![
            path_var@.subrange(0, 0),
        ]);
        assert(candidates_spec(path_var@.subrange(0, 0), style) =~= strings(candidates@).push(
            candidate_in(path_var@.subrange(0, 0), style),
        ));
    }
    while i < len
        invariant
            len == path_var@.len(),
            separator == style.separator(),
            0 <= start <= i <= len,
            split(path_var@.subrange(0, i as int), separator).len() == candidates.len() + 1,
            split(path_var@.subrange(0, i as int), separator).last() == path_var@.subrange(
                start as int,
                i as int,
            ),
            candidates_spec(path_var@.subrange(0, i as int), style) == strings(candidates@).push(
                candidate_in(path_var@.subrange(start as int, i as int), style),
            ),
        decreases len - i,
    {
        let ghost before = path_var@.subrange(0, i as int);
        let ghost now = path_var@.subrange(0, i + 1);
        proof {
            assert(now.drop_last() =~= before);
        }
        if path_var.get_char(i) == separator {
            let dir = path_var.substring_char(start, i);
            let path = candidate(dir, style);
            push_text(&mut candidates, path.as_str());
            start = i + 1;
            proof {
                assert(split(now, separator) == split(before, separator).push(
                    Seq::empty(),
                ));
                assert(candidates_spec(now, style) =~= strings(candidates@).push(
                    candidate_in(path_var@.subrange(start as int, i + 1), style),
                ));
            }
        } else {
            proof {
                let fields = split(before, separator);
                assert(path_var@.subrange(start as int, i + 1) =~= fields.last().push(
                    path_var@[i as int],
                ));
                assert(split(now, separator) == fields.drop_last().push(
                    fields.last().push(path_var@[i as int]),
                ));
                assert forall|k: int| 0 <= k < candidates.len() implies candidates_spec(now, style)[k]
                    == strings(candidates@)[k] by {
                    assert(candidates_spec(before, style)[k] == candidate_in(fields[k], style));
                }
                assert(candidates_spec(now, style) =~= strings(candidates@).push(
                    candidate_in(path_var@.subrange(start as int, i + 1), style),
                ));
            }
        }
        i = i + 1;
    }
    let dir = path_var.substring_char(start, len);
    let path = candidate(dir, style);
    push_text(&mut candidates, path.as_str());
    assert(path_var@.subrange(0, len as int) =~= path_var@);
    candidates
}

/// A file was found and may be executed.
pub open spec fn is_hit(probe: Option<u32>) -> bool {
    probe is Some && mode_is_executable(probe->0)
}

/// The first of `count` candidates at which an executable file stands,
/// going by `probes`: for each candidate in order, the mode of the regular
/// file found there, or `None` where there is none. A candidate without a
/// probe counts as missing.
pub open spec fn first_hit(probes: Seq<Option<u32>>, count: int) -> Option<int> {
    if exists|i: int| 0 <= i < count && i < probes.len() && is_hit(#[trigger] probes[i]) {
        Some(
            choose|i: int|
                0 <= i < count && i < probes.len() && is_hit(#[trigger] probes[i]) && forall|
                    j: int,
                |
                    0 <= j < i ==> !is_hit(#[trigger] probes[j]),
        )
    } else {
        None
    }
}

/// The first hit is a hit, and no candidate before it is one.
pub proof fn lemma_first_hit(probes: Seq<Option<u32>>, count: int)
    ensures
        first_hit(probes, count) matches Some(i) ==> 0 <= i < count && i < probes.len() && is_hit(
            probes[i],
        ) && forall|j: int| 0 <= j < i ==> !is_hit(#[trigger] probes[j]),
        first_hit(probes, count) is None ==> forall|j: int|
            0 <= j < count && j < probes.len() ==> !is_hit(#[trigger] probes[j]),
{
    if exists|i: int| 0 <= i < count && i < probes.len() && is_hit(#[trigger] probes[i]) {
        let some = choose|i: int| 0 <= i < count && i < probes.len() && is_hit(#[trigger] probes[i]);
        lemma_least_hit(probes, count, some);
    }
}

/// Below any hit there is a least one.
proof fn lemma_least_hit(probes: Seq<Option<u32>>, count: int, hit: int)
    requires
        0 <= hit < count,
        hit < probes.len(),
        is_hit(probes[hit]),
    ensures
        exists|i: int|
            0 <= i < count && i < probes.len() && is_hit(#[trigger] probes[i]) && forall|j: int|
                0 <= j < i ==> !is_hit(#[trigger] probes[j]),
    decreases hit,
{
    if exists|j: int| 0 <= j < hit && is_hit(#[trigger] probes[j]) {
        let earlier = choose|j: int| 0 <= j < hit && is_hit(#[trigger] probes[j]);
        lemma_least_hit(probes, count, earlier);
    }
}

/// Finds the first of `count` candidates at which an executable file
/// stands.
pub fn first_executable(probes: &Vec<Option<u32>>, count: usize) -> (found: Option<usize>)
    ensures
        found is Some <==> first_hit(probes@, count as int) is Some,
        found is Some ==> found->0 == first_hit(probes@, count as int)->0,
{
    proof {
        lemma_first_hit(probes@, count as int);
    }
    let mut i: usize = 0;
    while i < count && i < probes.len()
        invariant
            0 <= i,
            i <= count,
            i <= probes.len(),
            forall|j: int| 0 <= j < i ==> !is_hit(#[trigger] probes@[j]),
        decreases probes.len() - i,
    {
        let hit = match probes[i] {
            Some(mode) => is_executable_mode(mode),
            None => false,
        };
        if hit {
            return Some(i);
        }
        i = i + 1;
    }
    None
}

/// The executable that the environment resolves to.
///
/// The two overrides exclude each other. One override alone wins, the first
/// before the second; then comes a fetched executable; then the first
/// candidate of the search path at which an executable file stands.
pub open spec fn exe_path_spec(
    first_override: Option<Seq<char>>,
    second_override: Option<Seq<char>>,
    downloaded: Option<Seq<char>>,
    path_var: Option<Seq<char>>,
    style: PathStyle,
    probes: Seq<Option<u32>>,
) -> Result<Seq<char>, ErrorView> {
    if first_override is Some && second_override is Some {
        Err(ErrorView::BothEnvVars)
    } else if first_override is Some {
        Ok(first_override->0)
    } else if second_override is Some {
        Ok(second_override->0)
    } else if downloaded is Some {
        Ok(downloaded->0)
    } else if path_var is None {
        Err(ErrorView::NoElectrsExecutableFound)
    } else {
        let candidates = candidates_spec(path_var->0, style);
        match first_hit(probes, candidates.len() as int) {
            Some(i) => Ok(candidates[i]),
            None => Err(ErrorView::NoElectrsExecutableFound),
        }
    }
}

/// The content of a resolution.
pub open spec fn resolution(r: Result<String, Error>) -> Result<Seq<char>, ErrorView> {
    match r {
        Ok(path) => Ok(path@),
        Err(error) => Err(error@),
    }
}

/// Resolves the daemon's executable.
///
/// `first_override` and `second_override` are the values of the two
/// environment overrides, `downloaded` is the place of a fetched executable,
/// `path_var` is the search path, written in `style`, and `probes` says, for
/// each candidate of [`path_candidates`] in order, the mode of the regular
/// file that stands there, or `None` where none does. Where the platform
/// has no permission bits, every regular file is to be given a mode that
/// can be executed.
pub fn exe_path(
    first_override: Option<&str>,
    second_override: Option<&str>,
    downloaded: Option<&str>,
    path_var: Option<&str>,
    style: PathStyle,
    probes: &Vec<Option<u32>>,
) -> (path: Result<String, Error>)
    ensures
        resolution(path) == exe_path_spec(
            slice_text(first_override),
            slice_text(second_override),
            slice_text(downloaded),
            slice_text(path_var),
            style,
            probes@,
        ),
{
    match (first_override, second_override) {
        (Some(_), Some(_)) => Err(Error::BothEnvVars),
        (Some(path), None) => Ok(String::from_str(path)),
        (None, Some(path)) => Ok(String::from_str(path)),
        (None, None) => match downloaded {
            Some(path) => Ok(String::from_str(path)),
            None => match path_var {
                None => Err(Error::NoElectrsExecutableFound),
                Some(path_var) => {
                    let candidates = path_candidates(path_var, style);
                    proof {
                        lemma_first_hit(probes@, candidates.len() as int);
                    }
                    match first_executable(probes, candidates.len()) {
                        Some(i) => Ok(candidates[i].clone()),
                        None => Err(Error::NoElectrsExecutableFound),
                    }
                },
            },
        },
    }
}

} // verus!
