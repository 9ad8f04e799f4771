//! What the program does with its arguments, and the window that it starts with.

use vstd::prelude::*;

verus! {

/// The place of the last dot in a name; `-1` where it has none.
pub open spec fn last_dot(name: Seq<char>) -> int
    decreases name.len(),
{
    if name.len() == 0 {
        -1
    } else if name.last() == '.' {
        name.len() - 1
    } else {
        last_dot(name.drop_last())
    }
}

/// The place of the last slash in a path; `-1` where it has none.
pub open spec fn last_slash(path: Seq<char>) -> int
    decreases path.len(),
{
    if path.len() == 0 {
        -1
    } else if path.last() == '/' {
        path.len() - 1
    } else {
        last_slash(path.drop_last())
    }
}

/// What follows the last slash in a path.
pub open spec fn last_part(path: Seq<char>) -> Seq<char> {
    path.skip(last_slash(path) + 1)
}

/// A path without the slashes at its end, and without the parts there that stand for the
/// directory itself.
pub open spec fn trimmed(path: Seq<char>) -> Seq<char>
    decreases path.len(),
{
    if path.len() > 0 && path.last() == '/' {
        trimmed(path.drop_last())
    } else if path.len() > 1 && path.last() == '.' && path[path.len() - 2] == '/' {
        trimmed(path.drop_last())
    } else {
        path
    }
}

/// The last name in a path; empty where it has none.
pub open spec fn last_name(path: Seq<char>) -> Seq<char> {
    last_part(trimmed(path))
}

/// Whether every system takes the last name in a path for its file name.
pub open spec fn plainly_named(path: Seq<char>) -> bool {
    &&& forall|i: int| 0 <= i < path.len() ==> #[trigger] path[i] != '\\'
    &&& !(path.len() >= 2 && path[0] == '/' && path[1] == '/')
    &&& forall|i: int|
        0 <= i < last_name(path).len() ==> #[trigger] last_name(path)[i] != ':'
}

/// The extension of a file name: what follows its last dot, unless that is its first
/// character.
pub open spec fn name_extension(name: Seq<char>) -> Option<Seq<char>> {
    if last_dot(name) <= 0 || name == ".."@ {
        None
    } else {
        Some(name.skip(last_dot(name) + 1))
    }
}

/// `Path::extension`: the extension of the file name in which a path ends; slashes and parts
/// `.` after it do not count. Where every system takes the last name in the path for that
/// file name, it is stated which extension that is. Elsewhere it depends on how the system
/// writes paths, and only that it has no dot is stated.
#[verifier::external_body]
fn path_extension(path: &str) -> (extension: Option<String>)
    ensures
        plainly_named(path@) ==> match extension {
            Some(text) => name_extension(last_name(path@)) == Some(text@),
            None => name_extension(last_name(path@)) is None,
        },
        extension matches Some(text) ==> forall|i: int|
            0 <= i < text@.len() ==> #[trigger] text@[i] != '.',
{
    std::path::Path::new(path).extension()?.to_str().map(str::to_owned)
}

/// Whether an extension is that of the program's documents. Case counts.
pub fn is_document_extension(extension: &Option<String>) -> (yes: bool)
    ensures
        yes == (extension matches Some(text) && text@ == "rsboard"@),
{
    match extension {
        Some(text) => *text == "rsboard".to_owned(),
        None => false,
    }
}

/// Whether a path is that of one of the program's documents.
pub fn is_rsboard_file(path: &str) -> (yes: bool)
    ensures
        plainly_named(path@) ==> yes == (name_extension(last_name(path@)) == Some("rsboard"@)),
{
    let extension = path_extension(path);
    is_document_extension(&extension)
}

/// What the program was started with.
pub struct StartupArguments {
    pub files: Vec<String>,
    pub start_visible: bool,
}

/// The documents among the arguments, given which of them are.
pub open spec fn chosen(arguments: Seq<String>, documents: Seq<bool>) -> Seq<String>
    decreases arguments.len(),
{
    if arguments.len() == 0 {
        Seq::empty()
    } else {
        let before = chosen(arguments.drop_last(), documents);
        let last = arguments.len() - 1;
        if arguments[last]@ != "--show"@ && documents[last] {
            before.push(arguments[last])
        } else {
            before
        }
    }
}

impl StartupArguments {
    /// What the program was started with, given its arguments and which of them are paths
    /// of documents: an argument may ask for the window, documents are opened, and all else
    /// is passed over.
    pub fn from_arguments_and_kinds(arguments: &Vec<String>, documents: &Vec<bool>) -> (startup:
        Self)
        requires
            documents@.len() == arguments@.len(),
        ensures
            startup.files@ == chosen(arguments@, documents@),
            startup.start_visible == exists|i: int|
                0 <= i < arguments@.len() && (#[trigger] arguments@[i])@ == "--show"@,
    {
        let show = "--show".to_owned();
        let mut files: Vec<String> = Vec::new();
        let mut start_visible = false;
        for i in 0..arguments.len()
            invariant
                show@ == "--show"@,
                documents@.len() == arguments@.len(),
                files@ == chosen(arguments@.take(i as int), documents@),
                start_visible == exists|j: int|
                    0 <= j < i && (#[trigger] arguments@[j])@ == "--show"@,
        {
            proof {
                assert(arguments@.take(i + 1).drop_last() =~= arguments@.take(i as int));
                assert(arguments@.take(i + 1)[i as int] == arguments@[i as int]);
            }
            if arguments[i] == show {
                start_visible = true;
                assert(arguments@[i as int]@ == "--show"@);
            } else if documents[i] {
                files.push(arguments[i].clone());
            }
        }
        assert(arguments@.take(arguments@.len() as int) =~= arguments@);
        StartupArguments { files, start_visible }
    }

    /// What the program was started with, given its arguments.
    pub fn from_arguments(arguments: &Vec<String>) -> (startup: Self)
        ensures
            exists|documents: Seq<bool>| #[trigger]
                told_apart(arguments@, documents) && startup.files@ == chosen(
                    arguments@,
                    documents,
                ),
            startup.start_visible == exists|i: int|
                0 <= i < arguments@.len() && (#[trigger] arguments@[i])@ == "--show"@,
    {
        let mut documents: Vec<bool> = Vec::new();
        for i in 0..arguments.len()
            invariant
                documents@.len() == i,
                forall|j: int|
                    0 <= j < i ==> (plainly_named((#[trigger] arguments@[j])@) ==> documents@[j]
                        == (name_extension(last_name(arguments@[j]@)) == Some("rsboard"@))),
        {
            documents.push(is_rsboard_file(arguments[i].as_str()));
        }
        assert(told_apart(arguments@, documents@));
        StartupArguments::from_arguments_and_kinds(arguments, &documents)
    }

    /// Whether the program starts with its window on screen.
    pub fn initially_visible(&self) -> (visible: bool)
        ensures
            visible == (self.start_visible || self.files@.len() > 0),
    {
        self.start_visible || self.files.len() > 0
    }
}

/// Whether `documents` tells which arguments are paths of documents, as far as their names
/// show it.
pub open spec fn told_apart(arguments: Seq<String>, documents: Seq<bool>) -> bool {
    &&& documents.len() == arguments.len()
    &&& forall|i: int|
        0 <= i < arguments.len() ==> (plainly_named((#[trigger] arguments[i])@) ==> documents[i]
            == (name_extension(last_name(arguments[i]@)) == Some("rsboard"@)))
}

/// How the root window is set up.
#[derive(Clone, Copy, PartialEq, Eq, Structural)]
pub struct RootViewport {
    pub transparent: bool,
    pub visible: bool,
    pub active: bool,
    pub decorations: bool,
    pub resizable: bool,
    pub mouse_passthrough: bool,
}

/// The root window at the start. Without a library to show it stays on screen all the same,
/// as a bare window that lets the mouse through, so that the windows over the displays can
/// be made from it; it is transparent because they have to be.
pub fn native_options(initially_visible: bool) -> (viewport: RootViewport)
    ensures
        viewport == (RootViewport {
            transparent: true,
            visible: true,
            active: initially_visible,
            decorations: initially_visible,
            resizable: initially_visible,
            mouse_passthrough: !initially_visible,
        }),
{
    RootViewport {
        transparent: true,
        visible: true,
        active: initially_visible,
        decorations: initially_visible,
        resizable: initially_visible,
        mouse_passthrough: !initially_visible,
    }
}

} // verus!
