//! Where the icons of applications are looked for, and the fonts of their
//! labels.

use vstd::prelude::*;
use vstd::string::{StrSliceExecFns, StringExecFns};
use crate::text::{
    decimal, lowered, opt_str, push_decimal, same, same_lowered, split, split_at_char, starts_lowered,
    starts_with, str_texts, texts, trim, trimmed,
};

verus! {

/// Whether a part of a font query says nothing about the weight.
pub open spec fn weightless(part: Seq<char>) -> bool {
    &&& !("style="@.is_prefix_of(lowered(part)))
    &&& !("weight="@.is_prefix_of(lowered(part)))
    &&& lowered(part) != "bold"@
}

/// The pieces with a sign between each two.
pub open spec fn joined(parts: Seq<Seq<char>>, sep: Seq<char>) -> Seq<char>
    decreases parts.len(),
{
    if parts.len() == 0 {
        Seq::empty()
    } else if parts.len() == 1 {
        parts[0]
    } else {
        joined(parts.drop_last(), sep) + sep + parts.last()
    }
}

/// Holds of the parts that say nothing about the weight.
pub open spec fn keeps_part() -> spec_fn(Seq<char>) -> bool {
    |part: Seq<char>| weightless(part)
}

/// A font query for the regular weight of a font.
pub open spec fn regular_query(base: Option<Seq<char>>) -> Seq<char> {
    match base {
        Some(name) => if name.len() == 0 {
            "sans"@
        } else {
            let parts = split(name, ':').filter(keeps_part());
            (if parts.len() == 0 {
                "sans"@
            } else {
                joined(parts, ":"@)
            }) + ":weight=regular"@
        },
        None => "sans"@,
    }
}

fn is_weightless(part: &str) -> (r: bool)
    ensures
        r == weightless(part@),
{
    !starts_lowered(part, "style=") && !starts_lowered(part, "weight=") && !same_lowered(
        part,
        "bold",
    )
}

/// Build a regular-weight fontconfig query from a base UI font name.
///
/// Strips bold-related properties so that icon labels render in the regular
/// weight even when the main UI font is configured as bold. Returns `"sans"`
/// when `base` is `None` or empty.
pub fn regular_weight_font_query(base: Option<&str>) -> (r: String)
    ensures
        r@ == regular_query(opt_str(base)),
{
    let base: &str = match base {
        Some(name) => name,
        None => return "sans".to_string(),
    };
    if base.unicode_len() == 0 {
        return "sans".to_string();
    }
    let parts: Vec<&str> = split_at_char(base, ':');
    let ghost pieces = split(base@, ':');
    let mut query = String::new();
    let mut kept: usize = 0;
    let mut i: usize = 0;
    proof {
        reveal(Seq::filter);
        assert(pieces.take(0).filter(keeps_part()) =~= Seq::empty());
        assert(query@ =~= joined(Seq::empty(), ":"@));
    }
    while i < parts.len()
        invariant
            i <= parts@.len(),
            kept <= i,
            str_texts(parts@) == pieces,
            kept == pieces.take(i as int).filter(keeps_part()).len(),
            query@ == joined(pieces.take(i as int).filter(keeps_part()), ":"@),
        decreases parts@.len() - i,
    {
        let ghost before = pieces.take(i as int).filter(keeps_part());
        proof {
            reveal(Seq::filter);
            assert(pieces.take(i as int + 1).drop_last() =~= pieces.take(i as int));
            assert(pieces[i as int] == parts@[i as int]@);
        }
        if is_weightless(parts[i]) {
            assert(before.push(pieces[i as int]).drop_last() =~= before);
            if kept > 0 {
                query.append(":");
            } else {
                assert(before =~= Seq::empty());
            }
            query.append(parts[i]);
            assert(query@ =~= joined(before.push(pieces[i as int]), ":"@));
            kept = kept + 1;
        }
        i = i + 1;
    }
    assert(pieces.take(i as int) =~= pieces);
    if kept == 0 {
        query = "sans".to_string();
    }
    query.append(":weight=regular");
    query
}

/// A path inside a directory. An absolute path stands for itself.
pub open spec fn path_in(dir: Seq<char>, name: Seq<char>) -> Seq<char> {
    if dir.len() == 0 || (name.len() > 0 && name[0] == '/') {
        name
    } else if dir.last() == '/' {
        dir + name
    } else {
        dir + "/"@ + name
    }
}

/// A path inside a directory
pub fn join_path(dir: &str, name: &str) -> (r: String)
    ensures
        r@ == path_in(dir@, name@),
{
    let n: usize = dir.unicode_len();
    if n == 0 || (name.unicode_len() > 0 && name.get_char(0) == '/') {
        return name.to_string();
    }
    let mut r: String = dir.to_string();
    if dir.get_char(n - 1) != '/' {
        r.append("/");
    }
    r.append(name);
    assert(r@ =~= path_in(dir@, name@));
    r
}

fn joined_path(dir: &str, first: &str, second: &str) -> (r: String)
    ensures
        r@ == path_in(path_in(dir@, first@), second@),
{
    let outer: String = join_path(dir, first);
    join_path(outer.as_str(), second)
}

fn with_suffix(name: &str, suffix: &str) -> (r: String)
    ensures
        r@ == name@ + suffix@,
{
    let mut r: String = name.to_string();
    r.append(suffix);
    r
}

/// Whether the lines up to a number leave the reader inside the main section.
pub open spec fn in_entry(lines: Seq<Seq<char>>, n: int) -> bool
    decreases n,
{
    if n <= 0 {
        false
    } else {
        let line = trimmed(lines[n - 1]);
        if line.len() > 0 && line[0] == '[' {
            line == "[Desktop Entry]"@
        } else {
            in_entry(lines, n - 1)
        }
    }
}

/// The icon that a line of the main section names.
pub open spec fn icon_named(line: Seq<char>) -> Option<Seq<char>> {
    let prefix = "Icon="@;
    let text = trimmed(line);
    let value = trimmed(text.skip(prefix.len() as int));
    if prefix.is_prefix_of(text) && value.len() > 0 {
        Some(value)
    } else {
        None
    }
}

/// The first icon that one of the first `n` lines names.
pub open spec fn icon_within(lines: Seq<Seq<char>>, n: int) -> Option<Seq<char>>
    decreases n,
{
    if n <= 0 {
        None
    } else {
        match icon_within(lines, n - 1) {
            Some(name) => Some(name),
            None => if in_entry(lines, n) {
                icon_named(lines[n - 1])
            } else {
                None
            },
        }
    }
}

/// The icon that a desktop file names.
pub open spec fn desktop_icon(content: Seq<char>) -> Option<Seq<char>> {
    let lines = split(content, '\n');
    icon_within(lines, lines.len() as int)
}

fn icon_in_line(line: &str) -> (r: Option<String>)
    ensures
        opt_of(r) == icon_named(line@),
{
    let text: &str = trim(line);
    if !starts_with(text, "Icon=") {
        return None;
    }
    proof {
        reveal_strlit("Icon=");
    }
    let rest: &str = text.substring_char(5, text.unicode_len());
    assert(rest@ =~= text@.skip(5));
    let value: &str = trim(rest);
    if value.unicode_len() > 0 {
        Some(value.to_string())
    } else {
        None
    }
}

/// An optional string by its characters.
pub open spec fn opt_of(s: Option<String>) -> Option<Seq<char>> {
    match s {
        Some(x) => Some(x@),
        None => None,
    }
}

/// Parse a .desktop file and return the Icon= value from [Desktop Entry].
pub fn parse_desktop_icon(content: &str) -> (r: Option<String>)
    ensures
        opt_of(r) == desktop_icon(content@),
{
    let lines: Vec<&str> = split_at_char(content, '\n');
    let ghost pieces = split(content@, '\n');
    let mut entry: bool = false;
    let mut i: usize = 0;
    while i < lines.len()
        invariant
            i <= lines@.len(),
            str_texts(lines@) == pieces,
            pieces == split(content@, '\n'),
            entry == in_entry(pieces, i as int),
            icon_within(pieces, i as int) is None,
        decreases lines@.len() - i,
    {
        assert(pieces[i as int] == lines@[i as int]@);
        let line: &str = trim(lines[i]);
        if line.unicode_len() > 0 && line.get_char(0) == '[' {
            let main: bool = same(line, "[Desktop Entry]");
            proof {
                reveal_strlit("Icon=");
                assert("Icon="@[0] == 'I');
                assert(icon_named(pieces[i as int]) is None);
            }
            entry = main;
        } else if entry {
            if let Some(name) = icon_in_line(lines[i]) {
                proof {
                    lemma_icon_stays(pieces, i as int + 1, pieces.len() as int);
                }
                return Some(name);
            }
        }
        i = i + 1;
    }
    None
}

/// The first icon found is the one that counts.
proof fn lemma_icon_stays(lines: Seq<Seq<char>>, m: int, n: int)
    requires
        0 <= m <= n,
        icon_within(lines, m) is Some,
    ensures
        icon_within(lines, n) == icon_within(lines, m),
    decreases n,
{
    if m < n {
        lemma_icon_stays(lines, m, n - 1);
    }
}

/// The pieces that are not empty.
pub open spec fn nonempty() -> spec_fn(Seq<char>) -> bool {
    |piece: Seq<char>| piece.len() > 0
}

/// Where data of the user is: in a directory of its own, or below the home
/// directory.
pub open spec fn data_home_dir(data_home: Option<Seq<char>>, home: Option<Seq<char>>) -> Seq<Seq<char>> {
    match data_home {
        Some(dir) => if dir.len() > 0 {
            seq![dir]
        } else {
            Seq::empty()
        },
        None => match home {
            Some(home) => seq![path_in(path_in(home, ".local"@), "share"@)],
            None => Seq::empty(),
        },
    }
}

/// Where data of the system is.
pub open spec fn system_dirs(data_dirs: Option<Seq<char>>) -> Seq<Seq<char>> {
    match data_dirs {
        Some(dirs) if dirs.len() > 0 => split(dirs, ':').filter(nonempty()),
        _ => seq!["/usr/local/share"@, "/usr/share"@],
    }
}

/// Return XDG data directories: `$XDG_DATA_HOME` then `$XDG_DATA_DIRS`, given
/// these variables and `$HOME`
pub fn xdg_data_dirs(data_home: Option<&str>, home: Option<&str>, data_dirs: Option<&str>) -> (r: Vec<String>)
    ensures
        texts(r@) == data_home_dir(opt_str(data_home), opt_str(home)) + system_dirs(
            opt_str(data_dirs),
        ),
{
    let mut dirs: Vec<String> = Vec::new();
    match data_home {
        Some(dir) => {
            if dir.unicode_len() > 0 {
                dirs.push(dir.to_string());
            }
        },
        None => {
            if let Some(home) = home {
                dirs.push(joined_path(home, ".local", "share"));
            }
        },
    }
    let ghost own = data_home_dir(opt_str(data_home), opt_str(home));
    assert(texts(dirs@) =~= own);
    if let Some(list) = data_dirs {
        if list.unicode_len() > 0 {
            let parts: Vec<&str> = split_at_char(list, ':');
            let ghost pieces = split(list@, ':');
            let mut i: usize = 0;
            proof {
                reveal(Seq::filter);
                assert(pieces.take(0).filter(nonempty()) =~= Seq::empty());
                assert(texts(dirs@) =~= own + Seq::<Seq<char>>::empty());
            }
            while i < parts.len()
                invariant
                    i <= parts@.len(),
                    str_texts(parts@) == pieces,
                    texts(dirs@) == own + pieces.take(i as int).filter(nonempty()),
                decreases parts@.len() - i,
            {
                let ghost before = pieces.take(i as int).filter(nonempty());
                proof {
                    reveal(Seq::filter);
                    assert(pieces.take(i as int + 1).drop_last() =~= pieces.take(i as int));
                    assert(pieces[i as int] == parts@[i as int]@);
                }
                if parts[i].unicode_len() > 0 {
                    let ghost earlier = dirs@;
                    dirs.push(parts[i].to_string());
                    assert(texts(dirs@) =~= texts(earlier).push(pieces[i as int]));
                    assert(texts(dirs@) =~= own + before.push(pieces[i as int]));
                }
                i = i + 1;
            }
            assert(pieces.take(i as int) =~= pieces);
            return dirs;
        }
    }
    dirs.push("/usr/local/share".to_string());
    dirs.push("/usr/share".to_string());
    assert(texts(dirs@) =~= own + system_dirs(opt_str(data_dirs)));
    dirs
}

/// A file that may hold an icon.
#[derive(Debug)]
pub struct IconFile {
    pub path: String,
    /// Whether it would be a drawing rather than pixels.
    pub svg: bool,
}

/// An [`IconFile`] by its contents.
pub struct IconFileView {
    pub path: Seq<char>,
    pub svg: bool,
}

impl View for IconFile {
    type V = IconFileView;

    open spec fn view(&self) -> IconFileView {
        IconFileView { path: self.path@, svg: self.svg }
    }
}

pub open spec fn file_views(s: Seq<IconFile>) -> Seq<IconFileView> {
    s.map_values(|f: IconFile| f@)
}

/// The drawing of a name in a directory.
pub open spec fn svg_in(dir: Seq<char>, name: Seq<char>) -> IconFileView {
    IconFileView { path: path_in(dir, name + ".svg"@), svg: true }
}

/// The pixels of a name in a directory.
pub open spec fn png_in(dir: Seq<char>, name: Seq<char>) -> IconFileView {
    IconFileView { path: path_in(dir, name + ".png"@), svg: false }
}

fn push_svg(files: &mut Vec<IconFile>, dir: &str, name: &str)
    ensures
        file_views(final(files)@) == file_views(old(files)@).push(svg_in(dir@, name@)),
{
    let file: String = with_suffix(name, ".svg");
    files.push(IconFile { path: join_path(dir, file.as_str()), svg: true });
    assert(file_views(files@) =~= file_views(old(files)@).push(svg_in(dir@, name@)));
}

fn push_png(files: &mut Vec<IconFile>, dir: &str, name: &str)
    ensures
        file_views(final(files)@) == file_views(old(files)@).push(png_in(dir@, name@)),
{
    let file: String = with_suffix(name, ".png");
    files.push(IconFile { path: join_path(dir, file.as_str()), svg: false });
    assert(file_views(files@) =~= file_views(old(files)@).push(png_in(dir@, name@)));
}

/// The directory in which a user keeps icons of their own.
pub open spec fn own_icons(home: Seq<char>) -> Seq<char> {
    path_in(path_in(path_in(home, ".config"@), "canoe"@), "icons"@)
}

/// Icons of the user's own for an application, to be tried in this order
pub fn override_files(home: &str, app_id: &str) -> (r: Vec<IconFile>)
    ensures
        file_views(r@) == seq![
            svg_in(own_icons(home@), app_id@),
            png_in(own_icons(home@), app_id@),
        ],
{
    let config: String = joined_path(home, ".config", "canoe");
    let dir: String = join_path(config.as_str(), "icons");
    let mut files: Vec<IconFile> = Vec::new();
    assert(file_views(files@) =~= Seq::empty());
    push_svg(&mut files, dir.as_str(), app_id);
    push_png(&mut files, dir.as_str(), app_id);
    assert(file_views(files@) =~= seq![
        svg_in(own_icons(home@), app_id@),
        png_in(own_icons(home@), app_id@),
    ]);
    files
}

/// The desktop file of an application below a data directory.
pub open spec fn desktop_file_in(dir: Seq<char>, app_id: Seq<char>) -> Seq<char> {
    path_in(path_in(dir, "applications"@), app_id + ".desktop"@)
}

/// Desktop files of an application, to be tried in this order
pub fn desktop_files(dirs: &Vec<String>, app_id: &str) -> (r: Vec<String>)
    ensures
        texts(r@) == texts(dirs@).map_values(|dir: Seq<char>| desktop_file_in(dir, app_id@)),
{
    let file: String = with_suffix(app_id, ".desktop");
    let ghost want = texts(dirs@).map_values(|dir: Seq<char>| desktop_file_in(dir, app_id@));
    let mut files: Vec<String> = Vec::new();
    let mut i: usize = 0;
    while i < dirs.len()
        invariant
            i <= dirs@.len(),
            file@ == app_id@ + ".desktop"@,
            want == texts(dirs@).map_values(|dir: Seq<char>| desktop_file_in(dir, app_id@)),
            texts(files@) == want.take(i as int),
        decreases dirs@.len() - i,
    {
        let ghost earlier = files@;
        files.push(joined_path(dirs[i].as_str(), "applications", file.as_str()));
        assert(texts(dirs@)[i as int] == dirs@[i as int]@);
        assert(texts(files@) =~= texts(earlier).push(want[i as int]));
        i = i + 1;
        assert(texts(files@) =~= want.take(i as int));
    }
    assert(texts(files@) =~= want);
    files
}

/// Standard sizes of the hicolor theme, the largest first.
pub open spec fn hicolor_size(k: int) -> nat {
    if k == 0 {
        512
    } else if k == 1 {
        256
    } else if k == 2 {
        128
    } else if k == 3 {
        96
    } else if k == 4 {
        72
    } else if k == 5 {
        64
    } else if k == 6 {
        48
    } else if k == 7 {
        36
    } else if k == 8 {
        32
    } else if k == 9 {
        24
    } else if k == 10 {
        22
    } else {
        16
    }
}

/// The number of standard sizes.
pub const HICOLOR_SIZES: usize = 12;

fn size_at(k: usize) -> (r: usize)
    ensures
        r == hicolor_size(k as int),
{
    match k {
        0 => 512,
        1 => 256,
        2 => 128,
        3 => 96,
        4 => 72,
        5 => 64,
        6 => 48,
        7 => 36,
        8 => 32,
        9 => 24,
        10 => 22,
        _ => 16,
    }
}

/// The directory of a standard size, below that of the theme.
pub open spec fn sized_dir(theme: Seq<char>, size: nat) -> Seq<char> {
    path_in(path_in(theme, decimal(size) + "x"@ + decimal(size)), "apps"@)
}

/// Icons of the first `n` standard sizes.
pub open spec fn sized_files(theme: Seq<char>, name: Seq<char>, n: int) -> Seq<IconFileView>
    decreases n,
{
    if n <= 0 {
        Seq::empty()
    } else {
        let dir = sized_dir(theme, hicolor_size(n - 1));
        sized_files(theme, name, n - 1).push(png_in(dir, name)).push(svg_in(dir, name))
    }
}

/// Icons of the hicolor theme below a data directory: the scalable one, then
/// those of the standard sizes.
pub open spec fn hicolor_in(dir: Seq<char>, name: Seq<char>) -> Seq<IconFileView> {
    let theme = path_in(path_in(dir, "icons"@), "hicolor"@);
    seq![svg_in(path_in(path_in(theme, "scalable"@), "apps"@), name)] + sized_files(
        theme,
        name,
        HICOLOR_SIZES as int,
    )
}

/// Icons of the hicolor theme below the first `n` data directories.
pub open spec fn hicolor_files(dirs: Seq<Seq<char>>, name: Seq<char>, n: int) -> Seq<IconFileView>
    decreases n,
{
    if n <= 0 {
        Seq::empty()
    } else {
        hicolor_files(dirs, name, n - 1) + hicolor_in(dirs[n - 1], name)
    }
}

/// Icons outside of any theme below the first `n` data directories.
pub open spec fn pixmap_files(dirs: Seq<Seq<char>>, name: Seq<char>, n: int) -> Seq<IconFileView>
    decreases n,
{
    if n <= 0 {
        Seq::empty()
    } else {
        let dir = path_in(dirs[n - 1], "pixmaps"@);
        pixmap_files(dirs, name, n - 1).push(png_in(dir, name)).push(svg_in(dir, name))
    }
}

fn push_sized(files: &mut Vec<IconFile>, theme: &str, name: &str)
    ensures
        file_views(final(files)@) == file_views(old(files)@) + sized_files(
            theme@,
            name@,
            HICOLOR_SIZES as int,
        ),
{
    let ghost before = file_views(files@);
    let mut k: usize = 0;
    assert(file_views(files@) =~= before + sized_files(theme@, name@, 0));
    while k < HICOLOR_SIZES
        invariant
            k <= HICOLOR_SIZES,
            file_views(files@) == before + sized_files(theme@, name@, k as int),
        decreases HICOLOR_SIZES - k,
    {
        let size: usize = size_at(k);
        let mut sub = String::new();
        push_decimal(&mut sub, size);
        sub.append("x");
        push_decimal(&mut sub, size);
        assert(sub@ =~= decimal(size as nat) + "x"@ + decimal(size as nat));
        let dir: String = joined_path(theme, sub.as_str(), "apps");
        push_png(files, dir.as_str(), name);
        push_svg(files, dir.as_str(), name);
        k = k + 1;
        assert(file_views(files@) =~= before + sized_files(theme@, name@, k as int));
    }
}

/// Icons of a name, to be tried in this order: those of the hicolor theme in
/// all data directories, then those outside of any theme
pub fn find_hicolor_icon(dirs: &Vec<String>, icon_name: &str) -> (r: Vec<IconFile>)
    ensures
        file_views(r@) == hicolor_files(texts(dirs@), icon_name@, dirs@.len() as int)
            + pixmap_files(texts(dirs@), icon_name@, dirs@.len() as int),
{
    let ghost all = texts(dirs@);
    let mut files: Vec<IconFile> = Vec::new();
    let mut i: usize = 0;
    assert(file_views(files@) =~= hicolor_files(all, icon_name@, 0));
    while i < dirs.len()
        invariant
            i <= dirs@.len(),
            all == texts(dirs@),
            file_views(files@) == hicolor_files(all, icon_name@, i as int),
        decreases dirs@.len() - i,
    {
        let theme: String = joined_path(dirs[i].as_str(), "icons", "hicolor");
        let scalable: String = joined_path(theme.as_str(), "scalable", "apps");
        push_svg(&mut files, scalable.as_str(), icon_name);
        push_sized(&mut files, theme.as_str(), icon_name);
        assert(all[i as int] == dirs@[i as int]@);
        i = i + 1;
        assert(file_views(files@) =~= hicolor_files(all, icon_name@, i as int));
    }
    let ghost themed = file_views(files@);
    let mut k: usize = 0;
    assert(file_views(files@) =~= themed + pixmap_files(all, icon_name@, 0));
    while k < dirs.len()
        invariant
            k <= dirs@.len(),
            all == texts(dirs@),
            file_views(files@) == themed + pixmap_files(all, icon_name@, k as int),
        decreases dirs@.len() - k,
    {
        let dir: String = join_path(dirs[k].as_str(), "pixmaps");
        push_png(&mut files, dir.as_str(), icon_name);
        push_svg(&mut files, dir.as_str(), icon_name);
        assert(all[k as int] == dirs@[k as int]@);
        k = k + 1;
        assert(file_views(files@) =~= themed + pixmap_files(all, icon_name@, k as int));
    }
    files
}

/// Whether a path ends in a file name with an extension.
pub open spec fn has_extension(path: Seq<char>, extension: Seq<char>) -> bool {
    let n = path.len() - extension.len();
    &&& n > 0
    &&& path.skip(n) == extension
    &&& path[n - 1] != '/'
}

fn ends_with_extension(path: &str, extension: &str) -> (r: bool)
    ensures
        r == has_extension(path@, extension@),
{
    let m: usize = path.unicode_len();
    let k: usize = extension.unicode_len();
    if m <= k {
        return false;
    }
    let n: usize = m - k;
    if path.get_char(n - 1) == '/' {
        return false;
    }
    let tail: &str = path.substring_char(n, m);
    assert(tail@ =~= path@.skip(n as int));
    same(tail, extension)
}

/// The icon of an absolute path, if it can be one
pub fn load_icon_by_path(path: &str) -> (r: Option<IconFile>)
    ensures
        match r {
            Some(file) => file@.path == path@ && if file@.svg {
                has_extension(path@, ".svg"@)
            } else {
                !has_extension(path@, ".svg"@) && has_extension(path@, ".png"@)
            },
            None => !has_extension(path@, ".svg"@) && !has_extension(path@, ".png"@),
        },
{
    if ends_with_extension(path, ".svg") {
        Some(IconFile { path: path.to_string(), svg: true })
    } else if ends_with_extension(path, ".png") {
        Some(IconFile { path: path.to_string(), svg: false })
    } else {
        None
    }
}

/// Whether an icon is given by its path rather than by its name
pub fn is_absolute(icon_name: &str) -> (r: bool)
    ensures
        r == (icon_name@.len() > 0 && icon_name@[0] == '/'),
{
    icon_name.unicode_len() > 0 && icon_name.get_char(0) == '/'
}

/// The icon of an application is the first one that its desktop file names in its main section: what
/// other sections name does not count, nor what comes behind.
pub proof fn law_first_icon_of_the_main_section_counts(lines: Seq<Seq<char>>, n: int, k: int)
    requires
        0 <= k < n <= lines.len(),
        in_entry(lines, k + 1),
        icon_named(lines[k]) is Some,
        forall|j: int| #![trigger lines[j]]
            0 <= j < k ==> !in_entry(lines, j + 1) || icon_named(lines[j]) is None,
    ensures
        icon_within(lines, n) == icon_named(lines[k]),
    decreases n,
{
    if n - 1 > k {
        law_first_icon_of_the_main_section_counts(lines, n - 1, k);
    } else {
        lemma_no_icon_before(lines, k);
    }
}

proof fn lemma_no_icon_before(lines: Seq<Seq<char>>, n: int)
    requires
        0 <= n <= lines.len(),
        forall|j: int| #![trigger lines[j]]
            0 <= j < n ==> !in_entry(lines, j + 1) || icon_named(lines[j]) is None,
    ensures
        icon_within(lines, n) is None,
    decreases n,
{
    if n > 0 {
        lemma_no_icon_before(lines, n - 1);
        assert(!in_entry(lines, (n - 1) + 1) || icon_named(lines[n - 1]) is None);
    }
}

/// A line is in the main section if the last heading before it, or itself, is that of the main
/// section.
pub proof fn law_headings_begin_sections(lines: Seq<Seq<char>>, h: int, n: int)
    requires
        0 <= h < n <= lines.len(),
        trimmed(lines[h]).len() > 0 && trimmed(lines[h])[0] == '[',
        forall|j: int| #![trigger lines[j]]
            h < j < n ==> trimmed(lines[j]).len() == 0 || trimmed(lines[j])[0] != '[',
    ensures
        in_entry(lines, n) <==> trimmed(lines[h]) == "[Desktop Entry]"@,
    decreases n,
{
    if n - 1 > h {
        law_headings_begin_sections(lines, h, n - 1);
        assert(trimmed(lines[n - 1]).len() == 0 || trimmed(lines[n - 1])[0] != '[');
    }
}

/// A name is looked for inside the directory, with one slash between them.
pub proof fn law_paths_join_with_one_slash(dir: Seq<char>, name: Seq<char>)
    requires
        dir.len() > 0,
        name.len() > 0,
    ensures
        name[0] == '/' ==> path_in(dir, name) == name,
        name[0] != '/' && dir.last() != '/' ==> path_in(dir, name) == dir + seq!['/'] + name,
        name[0] != '/' && dir.last() == '/' ==> path_in(dir, name) == dir + name,
{
    reveal_strlit("/");
    assert("/"@ =~= seq!['/']);
}

} // verus!
