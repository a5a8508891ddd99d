//! Titles: the name under which a document is shown.
//!
//! A document is shown under the last name in its path. How a path is cut
//! into pieces depends on the machine, so the caller says which style its
//! paths have. Empty pieces and `.` pieces do not count, so trailing
//! separators are ignored; a path that ends in `..`, or that has no piece
//! that counts, has no file name. In the Windows style a drive letter with
//! its colon is taken off first; the prefixes of network shares and of
//! verbatim paths are read as ordinary pieces.

use vstd::prelude::*;
use vstd::string::*;

verus! {

broadcast use vstd::string::group_string_axioms;

/// How paths are written on the machine the service runs on.
#[derive(Debug, Clone, Copy, PartialEq, Eq, Structural)]
pub enum PathStyle {
    /// `/` separates the pieces.
    Posix,
    /// `/` and `\` separate the pieces, and a drive letter with its colon
    /// may stand in front.
    Windows,
}

/// The title of a document that has no path yet.
pub open spec fn untitled() -> Seq<char> {
    "Untitled"@
}

/// Whether `c` separates pieces in a path of this style.
pub open spec fn is_separator(style: PathStyle, c: char) -> bool {
    c == '/' || (style == PathStyle::Windows && c == '\\')
}

/// Whether `c` can name a drive.
pub open spec fn is_drive_letter(c: char) -> bool {
    ('a' <= c && c <= 'z') || ('A' <= c && c <= 'Z')
}

/// Whether the path starts with a drive letter and its colon.
pub open spec fn has_drive(style: PathStyle, path: Seq<char>) -> bool {
    style == PathStyle::Windows && path.len() >= 2 && is_drive_letter(path[0]) && path[1] == ':'
}

/// The path behind its drive, if it names one.
pub open spec fn without_drive(style: PathStyle, path: Seq<char>) -> Seq<char> {
    if has_drive(style, path) {
        path.skip(2)
    } else {
        path
    }
}

/// Where the last piece of `path` begins: just behind its last separator,
/// or at 0 if it has none.
pub open spec fn last_piece_start(style: PathStyle, path: Seq<char>) -> int
    decreases path.len(),
{
    if path.len() == 0 {
        0
    } else if is_separator(style, path.last()) {
        path.len() as int
    } else {
        last_piece_start(style, path.drop_last())
    }
}

/// A piece that names nothing: the empty piece and `.`.
pub open spec fn is_skipped_piece(piece: Seq<char>) -> bool {
    piece.len() == 0 || (piece.len() == 1 && piece[0] == '.')
}

/// The piece `..`, which names the parent directory.
pub open spec fn is_parent_piece(piece: Seq<char>) -> bool {
    piece.len() == 2 && piece[0] == '.' && piece[1] == '.'
}

/// The last piece of `path` that names something, unless that piece is
/// `..`.
pub open spec fn last_name_of(style: PathStyle, path: Seq<char>) -> Option<Seq<char>>
    decreases path.len(),
{
    let start = last_piece_start(style, path);
    let piece = path.skip(start);
    if !is_skipped_piece(piece) {
        if is_parent_piece(piece) {
            None
        } else {
            Some(piece)
        }
    } else if start == 0 {
        None
    } else {
        proof {
            lemma_last_piece_start_in_range(style, path);
        }
        last_name_of(style, path.take(start - 1))
    }
}

/// The file name of `path`: the last name behind its drive.
pub open spec fn file_name_of(style: PathStyle, path: Seq<char>) -> Option<Seq<char>> {
    last_name_of(style, without_drive(style, path))
}

/// The title shown after loading from `path`: its file name, or the whole
/// path if it has none.
pub open spec fn load_title(style: PathStyle, path: Seq<char>) -> Seq<char> {
    match file_name_of(style, path) {
        Some(name) => name,
        None => path,
    }
}

/// The title shown after saving to `path`: its file name, or the title of an
/// unnamed document if it has none.
pub open spec fn save_title(style: PathStyle, path: Seq<char>) -> Seq<char> {
    match file_name_of(style, path) {
        Some(name) => name,
        None => untitled(),
    }
}

/// The last piece begins inside the path.
pub proof fn lemma_last_piece_start_in_range(style: PathStyle, path: Seq<char>)
    ensures
        0 <= last_piece_start(style, path) <= path.len(),
    decreases path.len(),
{
    if path.len() > 0 && !is_separator(style, path.last()) {
        lemma_last_piece_start_in_range(style, path.drop_last());
    }
}

/// A position with a separator just before it (or at the very start) and
/// none from it on is where the last piece begins.
proof fn lemma_last_piece_start_is(style: PathStyle, path: Seq<char>, start: int)
    requires
        0 <= start <= path.len(),
        start == 0 || is_separator(style, path[start - 1]),
        forall|i: int| start <= i < path.len() ==> !is_separator(style, path[i]),
    ensures
        last_piece_start(style, path) == start,
    decreases path.len(),
{
    if path.len() > 0 && !is_separator(style, path.last()) {
        lemma_last_piece_start_is(style, path.drop_last(), start);
    }
}

/// No separator stands in the last piece.
proof fn lemma_no_separator_in_last_piece(style: PathStyle, path: Seq<char>)
    ensures
        forall|i: int|
            last_piece_start(style, path) <= i < path.len() ==> !is_separator(style, path[i]),
    decreases path.len(),
{
    lemma_last_piece_start_in_range(style, path);
    if path.len() > 0 && !is_separator(style, path.last()) {
        let front = path.drop_last();
        lemma_no_separator_in_last_piece(style, front);
        assert forall|i: int| last_piece_start(style, path) <= i < path.len() implies !is_separator(
            style,
            path[i],
        ) by {
            if i < front.len() {
                assert(front[i] == path[i]);
            }
        }
    }
}

/// A name found in a path is never empty and holds no separator.
proof fn lemma_last_name_is_a_piece(style: PathStyle, path: Seq<char>)
    ensures
        match last_name_of(style, path) {
            Some(name) => name.len() > 0 && forall|i: int|
                0 <= i < name.len() ==> !is_separator(style, name[i]),
            None => true,
        },
    decreases path.len(),
{
    let start = last_piece_start(style, path);
    let piece = path.skip(start);
    lemma_last_piece_start_in_range(style, path);
    lemma_no_separator_in_last_piece(style, path);
    if is_skipped_piece(piece) && start != 0 {
        lemma_last_name_is_a_piece(style, path.take(start - 1));
    }
}

/// A file name is never empty and holds no separator.
pub proof fn lemma_file_name_is_a_piece(style: PathStyle, path: Seq<char>)
    ensures
        match file_name_of(style, path) {
            Some(name) => name.len() > 0 && forall|i: int|
                0 <= i < name.len() ==> !is_separator(style, name[i]),
            None => true,
        },
{
    lemma_last_name_is_a_piece(style, without_drive(style, path));
}

/// The characters of a text, one by one.
fn chars_of(text: &str) -> (chars: Vec<char>)
    ensures
        chars@ == text@,
{
    let mut chars: Vec<char> = Vec::new();
    for c in it: text.chars()
        invariant
            it.seq() == text@,
            chars@ == it.seq().take(it.index()),
    {
        chars.push(c);
    }
    chars
}

/// Whether `c` separates pieces in a path of this style.
fn separates(style: PathStyle, c: char) -> (yes: bool)
    ensures
        yes == is_separator(style, c),
{
    match style {
        PathStyle::Posix => c == '/',
        PathStyle::Windows => c == '/' || c == '\\',
    }
}

/// How many characters at the front of the path name its drive: 2 or 0.
fn drive_len(style: PathStyle, chars: &Vec<char>) -> (len: usize)
    ensures
        len == if has_drive(style, chars@) {
            2int
        } else {
            0int
        },
{
    match style {
        PathStyle::Posix => 0,
        PathStyle::Windows => {
            if chars.len() >= 2 && chars[1] == ':' && (('a' <= chars[0] && chars[0] <= 'z') || ('A'
                <= chars[0] && chars[0] <= 'Z')) {
                2
            } else {
                0
            }
        },
    }
}

/// The file name of `path`, if it has one.
pub fn file_name(path: &str, style: PathStyle) -> (name: Option<String>)
    ensures
        match name {
            Some(n) => file_name_of(style, path@) == Some(n@),
            None => file_name_of(style, path@) is None,
        },
{
    let chars = chars_of(path);
    let base: usize = drive_len(style, &chars);
    let ghost body = path@.skip(base as int);
    let mut end: usize = chars.len();
    assert(body.take(end - base) == body);
    assert(body == without_drive(style, path@));
    loop
        invariant
            chars@ == path@,
            body == path@.skip(base as int),
            base <= end <= chars.len(),
            file_name_of(style, path@) == last_name_of(style, body.take(end - base)),
        decreases end,
    {
        let ghost head = body.take(end - base);
        let mut start: usize = end;
        while start > base && !separates(style, chars[start - 1])
            invariant
                chars@ == path@,
                base <= start <= end <= chars.len(),
                forall|i: int| start <= i < end ==> !is_separator(style, chars@[i]),
            decreases start,
        {
            start -= 1;
        }
        proof {
            lemma_last_piece_start_is(style, head, start - base);
            assert(head.skip(start - base) == path@.subrange(start as int, end as int));
        }
        let len: usize = end - start;
        if len == 0 || (len == 1 && chars[start] == '.') {
            if start == base {
                return None;
            }
            proof {
                assert(head.take(start - base - 1) == body.take(start - 1 - base));
            }
            end = start - 1;
        } else if len == 2 && chars[start] == '.' && chars[start + 1] == '.' {
            return None;
        } else {
            let piece = path.substring_char(start, end);
            return Some(String::from_str(piece));
        }
    }
}

/// The title to show for a document loaded from `path`.
pub fn title_after_load(path: &str, style: PathStyle) -> (title: String)
    ensures
        title@ == load_title(style, path@),
{
    match file_name(path, style) {
        Some(name) => name,
        None => String::from_str(path),
    }
}

/// The title to show for a document saved to `path`.
pub fn title_after_save(path: &str, style: PathStyle) -> (title: String)
    ensures
        title@ == save_title(style, path@),
{
    match file_name(path, style) {
        Some(name) => name,
        None => String::from_str("Untitled"),
    }
}

} // verus!
