//! The finished header: the accumulated declarations between a fixed opening and closing.

use vstd::prelude::*;
use crate::text::{
    after_last, last_index_of, lemma_last_index_of, lemma_last_index_of_is_last, same_text,
};

verus! {

/// The view of a text that may be absent.
pub open spec fn opt_view(text: Option<String>) -> Option<Seq<char>> {
    match text {
        Some(t) => Some(t@),
        None => None,
    }
}

/// The view of a borrowed text that may be absent.
pub open spec fn opt_str_view(text: Option<&str>) -> Option<Seq<char>> {
    match text {
        Some(t) => Some(t@),
        None => None,
    }
}

/// Where the header is to go.
#[derive(Clone, Debug)]
pub struct Config {
    /// The directory; the current one where none is chosen.
    pub dir: Option<String>,
    /// The path of the file, from the directory; `cheddar.h` where none is chosen.
    pub file: Option<String>,
}

/// A configuration, as mathematics.
pub struct ConfigView {
    pub dir: Option<Seq<char>>,
    pub file: Option<Seq<char>>,
}

impl View for Config {
    type V = ConfigView;

    open spec fn view(&self) -> ConfigView {
        ConfigView { dir: opt_view(self.dir), file: opt_view(self.file) }
    }
}

impl Default for Config {
    /// No directory and no file name chosen.
    fn default() -> (config: Config)
        ensures
            config@ == (ConfigView { dir: None, file: None }),
    {
        Config { dir: None, file: None }
    }
}

/// The name of the header where none is chosen.
pub open spec fn default_file() -> Seq<char> {
    "cheddar.h"@
}

/// The file name that the path `path` ends in, if it ends in one. `/` alone parts the
/// components of a path, on every machine. Empty components and `.` count for nothing,
/// so `a/`, `a//` and `a/.` end in `a`; a path that ends in `..`, or that has no
/// component but such, ends in no file name.
pub open spec fn base_name(path: Seq<char>) -> Option<Seq<char>>
    decreases path.len(),
{
    let cut = last_index_of(path, '/');
    let last = path.skip(cut + 1);
    if last.len() == 0 || last == "."@ {
        if cut < 0 {
            None
        } else {
            proof {
                lemma_last_index_of_is_last(path, '/');
            }
            base_name(path.take(cut))
        }
    } else if last == ".."@ {
        None
    } else {
        Some(last)
    }
}

/// The file name `name` without its extension: what stands before its last `.`, or all
/// of it where it has no `.` or only one at its start.
pub open spec fn name_stem(name: Seq<char>) -> Seq<char> {
    if last_index_of(name, '.') > 0 {
        name.take(last_index_of(name, '.'))
    } else {
        name
    }
}

/// The stem of the path `path`: the file name that it ends in, without its extension.
/// A path that ends in no file name has no stem.
pub open spec fn file_stem(path: Seq<char>) -> Option<Seq<char>> {
    match base_name(path) {
        Some(name) => Some(name_stem(name)),
        None => None,
    }
}

/// The name of the macro that guards the header at the path `file` against double
/// inclusion. It is made of the stem of `file`, so of the file name alone and of no
/// directory before it; `default` stands for a stem that is wanting.
pub open spec fn guard_name(file: Seq<char>) -> Seq<char> {
    "cheddar_gen_"@ + match file_stem(file) {
        Some(stem) => stem,
        None => "default"@,
    } + "_h"@
}

/// What stands at the end of a path without being a file name: a `/` or a `.` at
/// the end is left aside, and a path that ends in `..` ends in no file name.
pub proof fn lemma_base_name_at_special_ends(path: Seq<char>)
    ensures
        base_name(path + "/"@) == base_name(path),
        base_name(path + "/."@) == base_name(path),
        base_name(path + "/.."@) == None::<Seq<char>>,
{
    reveal_strlit("/");
    reveal_strlit("/.");
    reveal_strlit("/..");
    reveal_strlit(".");
    reveal_strlit("..");
    let n = path.len() as int;
    let slash = path + "/"@;
    lemma_last_index_of(slash, '/', n);
    assert(slash.take(n) =~= path);
    let dot = path + "/."@;
    lemma_last_index_of(dot, '/', n);
    assert(dot.skip(n + 1) =~= "."@);
    assert(dot.take(n) =~= path);
    let dots = path + "/.."@;
    lemma_last_index_of(dots, '/', n);
    assert(dots.skip(n + 1) =~= ".."@);
}

/// Directories in front of a file name change nothing: behind any directory and a `/`,
/// a name without a `/` that is a file name is what the path ends in, and the guard is
/// that of the name alone.
pub proof fn lemma_guard_ignores_directories(dir: Seq<char>, name: Seq<char>)
    requires
        forall|k: int| 0 <= k < name.len() ==> name[k] != '/',
        name.len() > 0,
        name != "."@,
        name != ".."@,
    ensures
        base_name(name) == Some(name),
        base_name(dir + "/"@ + name) == Some(name),
        file_stem(dir + "/"@ + name) == file_stem(name),
        guard_name(dir + "/"@ + name) == guard_name(name),
{
    reveal_strlit("/");
    let path = dir + "/"@ + name;
    lemma_last_index_of(name, '/', -1);
    assert(name.skip(0) =~= name);
    lemma_last_index_of(path, '/', dir.len() as int);
    assert(path.skip(dir.len() as int + 1) =~= name);
}

/// The opening of the guard against double inclusion.
pub open spec fn include_guard(guard: Seq<char>) -> Seq<char> {
    "#ifndef "@ + guard + "\n#define "@ + guard + "\n\n"@
}

/// The opening of the block that gives the declarations C linkage in C++.
pub open spec fn cplusplus_guard() -> Seq<char> {
    "#ifdef __cplusplus\nextern \"C\" {\n#endif\n\n"@
}

/// The headers that declare the fixed-width integers and `bool`.
pub open spec fn includes() -> Seq<char> {
    "#include <stdint.h>\n#include <stdbool.h>\n\n"@
}

/// The closing of the C linkage block and of the guard.
pub open spec fn epilogue() -> Seq<char> {
    "#ifdef __cplusplus\n}\n#endif\n\n#endif"@
}

/// A finished header, in the parts that are written one after another, with the place
/// that it is meant for.
#[derive(Clone, Debug)]
pub struct Header {
    /// The directory to write to, where one was chosen.
    pub dir: Option<String>,
    /// The path of the file, from the directory.
    pub file: String,
    pub include_guard: String,
    pub cplusplus_guard: String,
    pub includes: String,
    pub declarations: String,
    pub epilogue: String,
}

/// A finished header, as mathematics.
pub struct HeaderView {
    pub dir: Option<Seq<char>>,
    pub file: Seq<char>,
    pub include_guard: Seq<char>,
    pub cplusplus_guard: Seq<char>,
    pub includes: Seq<char>,
    pub declarations: Seq<char>,
    pub epilogue: Seq<char>,
}

impl View for Header {
    type V = HeaderView;

    open spec fn view(&self) -> HeaderView {
        HeaderView {
            dir: opt_view(self.dir),
            file: self.file@,
            include_guard: self.include_guard@,
            cplusplus_guard: self.cplusplus_guard@,
            includes: self.includes@,
            declarations: self.declarations@,
            epilogue: self.epilogue@,
        }
    }
}

impl HeaderView {
    /// The whole text of the header.
    pub open spec fn text(self) -> Seq<char> {
        self.include_guard + self.cplusplus_guard + self.includes + self.declarations
            + self.epilogue
    }
}

/// The header that holds `declarations`, for the directory and file name chosen.
pub open spec fn header_of(
    declarations: Seq<char>,
    dir: Option<Seq<char>>,
    file: Option<Seq<char>>,
) -> HeaderView {
    let file = match file {
        Some(f) => f,
        None => default_file(),
    };
    HeaderView {
        dir,
        file,
        include_guard: include_guard(guard_name(file)),
        cplusplus_guard: cplusplus_guard(),
        includes: includes(),
        declarations,
        epilogue: epilogue(),
    }
}

/// Returns the file name that `path` ends in, or `None` where it ends in none.
pub fn file_name<'a>(path: &'a str) -> (res: Option<&'a str>)
    ensures
        opt_str_view(res) == base_name(path@),
{
    let mut end: usize = path.unicode_len();
    assert(path@.take(end as int) =~= path@);
    loop
        invariant
            end <= path@.len(),
            base_name(path@) == base_name(path@.take(end as int)),
        decreases end,
    {
        let start = after_last(path, end, '/');
        let last = path.substring_char(start, end);
        assert(path@.take(end as int).skip(start as int) =~= last@);
        if start == end || same_text(last, ".") {
            if start == 0 {
                return None;
            }
            assert(path@.take(end as int).take(start - 1) =~= path@.take(start - 1));
            end = start - 1;
        } else if same_text(last, "..") {
            return None;
        } else {
            return Some(last);
        }
    }
}

/// Returns the file name `name` without its extension.
pub fn stem_of_name<'a>(name: &'a str) -> (res: &'a str)
    ensures
        res@ == name_stem(name@),
{
    let n = name.unicode_len();
    assert(name@.take(n as int) =~= name@);
    let dot = after_last(name, n, '.');
    if dot > 1 {
        name.substring_char(0, dot - 1)
    } else {
        name
    }
}

/// Returns the stem of the path `path`, or `None` where it ends in no file name.
pub fn stem<'a>(path: &'a str) -> (res: Option<&'a str>)
    ensures
        opt_str_view(res) == file_stem(path@),
{
    match file_name(path) {
        Some(name) => Some(stem_of_name(name)),
        None => None,
    }
}

/// Returns the name of the macro that guards the header at the path `file`.
pub fn guard(file: &str) -> (res: String)
    ensures
        res@ == guard_name(file@),
{
    let mut res = "cheddar_gen_".to_owned();
    match stem(file) {
        Some(s) => res.append(s),
        None => res.append("default"),
    }
    res.append("_h");
    res
}

impl Header {
    /// Returns the whole text of the header.
    pub fn text(&self) -> (res: String)
        ensures
            res@ == self@.text(),
    {
        let mut res = self.include_guard.clone();
        res.append(self.cplusplus_guard.as_str());
        res.append(self.includes.as_str());
        res.append(self.declarations.as_str());
        res.append(self.epilogue.as_str());
        res
    }
}

} // verus!
