//! Unpacking a release payload into the install directory.
//!
//! The archive is read by the host and handed over as a list of entries. The
//! plan says which directories to create and which files to write, in order;
//! a model of the file tree says what carrying out the plan leaves behind.

use vstd::prelude::*;
use vstd::string::*;

verus! {

/// One entry of an archive: its name relative to the archive's root, with
/// `/` between the parts, and for a file its content.
#[derive(Debug, PartialEq, Eq)]
pub struct ArchiveEntry {
    pub name: String,
    pub is_directory: bool,
    pub content: Vec<u8>,
}

/// What an entry says.
pub struct EntryView {
    pub name: Seq<char>,
    pub is_directory: bool,
    pub content: Seq<u8>,
}

impl View for ArchiveEntry {
    type V = EntryView;

    open spec fn view(&self) -> EntryView {
        EntryView { name: self.name@, is_directory: self.is_directory, content: self.content@ }
    }
}

/// One thing to do to the file tree.
#[derive(Debug, PartialEq, Eq)]
pub enum FileOperation {
    /// Create the directory and every missing directory above it; what is
    /// there already stays as it is.
    CreateDirectories { path: String },
    /// Write the file, replacing one that is there.
    WriteFile { path: String, content: Vec<u8> },
}

/// What an operation says.
pub enum OperationView {
    CreateDirectories { path: Seq<char> },
    WriteFile { path: Seq<char>, content: Seq<u8> },
}

impl View for FileOperation {
    type V = OperationView;

    open spec fn view(&self) -> OperationView {
        match self {
            FileOperation::CreateDirectories { path } => OperationView::CreateDirectories { path: path@ },
            FileOperation::WriteFile { path, content } => OperationView::WriteFile {
                path: path@,
                content: content@,
            },
        }
    }
}

/// The views of a list of entries, in order.
pub open spec fn entries_of(s: Seq<ArchiveEntry>) -> Seq<EntryView> {
    s.map_values(|e: ArchiveEntry| e@)
}

/// The views of a list of operations, in order.
pub open spec fn operations_of(s: Seq<FileOperation>) -> Seq<OperationView> {
    s.map_values(|o: FileOperation| o@)
}

/// An entry's name without the `/` that ends the name of a directory.
pub open spec fn trimmed(name: Seq<char>) -> Seq<char> {
    if name.len() > 0 && name.last() == '/' {
        name.drop_last()
    } else {
        name
    }
}

/// Where an entry goes: its name below the install directory.
pub open spec fn target(root: Seq<char>, name: Seq<char>) -> Seq<char> {
    root + seq!['/'] + trimmed(name)
}

/// The position of the last `/` of a path, or -1 if it has none.
pub open spec fn last_separator(path: Seq<char>) -> int
    decreases path.len(),
{
    if path.len() == 0 {
        -1
    } else if path.last() == '/' {
        path.len() - 1
    } else {
        last_separator(path.drop_last())
    }
}

/// The directory that holds `path`: what stands before its last `/`.
pub open spec fn parent(path: Seq<char>) -> Seq<char> {
    if last_separator(path) < 0 {
        Seq::empty()
    } else {
        path.take(last_separator(path))
    }
}

/// What one entry asks for: a directory is created; a file is written after
/// the directory that holds it has been created.
pub open spec fn entry_plan(entry: EntryView, root: Seq<char>) -> Seq<OperationView> {
    if entry.is_directory {
        seq![OperationView::CreateDirectories { path: target(root, entry.name) }]
    } else {
        seq![
            OperationView::CreateDirectories { path: parent(target(root, entry.name)) },
            OperationView::WriteFile { path: target(root, entry.name), content: entry.content },
        ]
    }
}

/// The operations that unpack `entries` below `root`, entry by entry.
pub open spec fn plan_of(entries: Seq<EntryView>, root: Seq<char>) -> Seq<OperationView>
    decreases entries.len(),
{
    if entries.len() == 0 {
        Seq::empty()
    } else {
        plan_of(entries.drop_last(), root) + entry_plan(entries.last(), root)
    }
}

/// The last `/` of a path is a `/`, and none follows it.
pub proof fn lemma_last_separator(path: Seq<char>)
    ensures
        -1 <= last_separator(path) < path.len(),
        last_separator(path) >= 0 ==> path[last_separator(path)] == '/',
        forall|k: int| last_separator(path) < k < path.len() ==> path[k] != '/',
    decreases path.len(),
{
    if path.len() > 0 && path.last() != '/' {
        let front = path.drop_last();
        lemma_last_separator(front);
        assert forall|k: int| last_separator(path) < k < path.len() implies path[k] != '/' by {
            if k < front.len() {
                assert(front[k] != '/');
            }
        }
        if last_separator(path) >= 0 {
            assert(front[last_separator(path)] == '/');
        }
    }
}

/// A `/` that no `/` follows is the last one.
pub proof fn lemma_last_separator_is(path: Seq<char>, i: int)
    requires
        0 <= i < path.len(),
        path[i] == '/',
        forall|k: int| i < k < path.len() ==> path[k] != '/',
    ensures
        last_separator(path) == i,
{
    lemma_last_separator(path);
}

/// A path without `/` has no last one.
pub proof fn lemma_no_separator(path: Seq<char>)
    requires
        forall|k: int| 0 <= k < path.len() ==> path[k] != '/',
    ensures
        last_separator(path) == -1,
{
    lemma_last_separator(path);
}

fn last_separator_index(path: &str) -> (r: Option<usize>)
    ensures
        match r {
            Some(i) => i == last_separator(path@),
            None => last_separator(path@) == -1,
        },
{
    let n: usize = path.unicode_len();
    let mut i: usize = n;
    while i > 0
        invariant
            i <= n,
            n == path@.len(),
            forall|k: int| i <= k < n ==> path@[k] != '/',
        decreases i,
    {
        if path.get_char(i - 1) == '/' {
            proof {
                lemma_last_separator_is(path@, i - 1);
            }
            return Some(i - 1);
        }
        i -= 1;
    }
    proof {
        lemma_no_separator(path@);
    }
    None
}

/// Whether a path holds a `/`.
pub fn has_separator(path: &str) -> (r: bool)
    ensures
        r == (last_separator(path@) >= 0),
{
    proof {
        lemma_last_separator(path@);
    }
    last_separator_index(path).is_some()
}

/// Where an entry goes: its name below the install directory.
pub fn target_path(root: &str, name: &str) -> (path: String)
    ensures
        path@ == target(root@, name@),
{
    let n: usize = name.unicode_len();
    let mut path = String::from_str(root);
    proof {
        reveal_strlit("/");
        assert("/"@ =~= seq!['/']);
    }
    path.append("/");
    if n > 0 && name.get_char(n - 1) == '/' {
        let front = name.substring_char(0, n - 1);
        assert(front@ =~= name@.drop_last());
        path.append(front);
    } else {
        path.append(name);
    }
    path
}

/// The directory that holds `path`.
pub fn parent_path(path: &str) -> (directory: String)
    ensures
        directory@ == parent(path@),
{
    match last_separator_index(path) {
        Some(i) => {
            proof {
                lemma_last_separator(path@);
            }
            let front = path.substring_char(0, i);
            assert(front@ =~= path@.take(i as int));
            String::from_str(front)
        },
        None => {
            let directory = String::new();
            assert(directory@ =~= Seq::<char>::empty());
            directory
        },
    }
}

fn copy_bytes(bytes: &Vec<u8>) -> (r: Vec<u8>)
    ensures
        r@ == bytes@,
{
    let mut r: Vec<u8> = Vec::new();
    let mut i: usize = 0;
    while i < bytes.len()
        invariant
            i <= bytes.len(),
            r@ == bytes@.take(i as int),
        decreases bytes.len() - i,
    {
        r.push(bytes[i]);
        assert(bytes@.take(i + 1) =~= bytes@.take(i as int).push(bytes@[i as int]));
        i += 1;
    }
    assert(bytes@.take(bytes@.len() as int) =~= bytes@);
    r
}

/// The operations that unpack `entries` below `install_directory`, in the
/// order in which they are to be carried out.
pub fn extraction_plan(entries: &Vec<ArchiveEntry>, install_directory: &str) -> (plan: Vec<FileOperation>)
    ensures
        operations_of(plan@) == plan_of(entries_of(entries@), install_directory@),
{
    let mut plan: Vec<FileOperation> = Vec::new();
    let mut i: usize = 0;
    assert(operations_of(plan@) =~= Seq::empty());
    assert(entries_of(entries@).take(0) =~= Seq::empty());
    while i < entries.len()
        invariant
            i <= entries.len(),
            operations_of(plan@) == plan_of(entries_of(entries@).take(i as int), install_directory@),
        decreases entries.len() - i,
    {
        let ghost before = operations_of(plan@);
        let entry = &entries[i];
        let path = target_path(install_directory, entry.name.as_str());
        if entry.is_directory {
            plan.push(FileOperation::CreateDirectories { path });
        } else {
            let directory = parent_path(path.as_str());
            plan.push(FileOperation::CreateDirectories { path: directory });
            plan.push(FileOperation::WriteFile { path, content: copy_bytes(&entry.content) });
        }
        proof {
            let done = entries_of(entries@).take(i + 1);
            assert(done.drop_last() =~= entries_of(entries@).take(i as int));
            assert(done.last() == entries@[i as int]@);
            assert(operations_of(plan@) =~= before + entry_plan(entries@[i as int]@, install_directory@));
        }
        i += 1;
    }
    assert(entries_of(entries@).take(entries@.len() as int) =~= entries_of(entries@));
    plan
}

/// What stands at a path of the file tree.
pub enum Node {
    Directory,
    File(Seq<u8>),
}

/// The file tree: what stands at each path that exists.
pub type Tree = Map<Seq<char>, Node>;

/// Whether `directory` is `path` itself or a directory above it: a part of
/// the path that ends where a `/` follows.
pub open spec fn holds(directory: Seq<char>, path: Seq<char>) -> bool {
    directory == path || (directory.len() < path.len() && path[directory.len() as int] == '/'
        && directory == path.take(directory.len() as int))
}

/// The tree after one operation was carried out. Creating directories adds
/// the directory and those above it where nothing stands yet and changes
/// nothing that is there; writing a file puts the content at the path.
pub open spec fn carried_out(tree: Tree, operation: OperationView) -> Tree {
    match operation {
        OperationView::CreateDirectories { path } => Map::new(
            |p: Seq<char>| tree.dom().contains(p) || holds(p, path),
            |p: Seq<char>|
                if tree.dom().contains(p) {
                    tree[p]
                } else {
                    Node::Directory
                },
        ),
        OperationView::WriteFile { path, content } => tree.insert(path, Node::File(content)),
    }
}

/// The tree after the operations were carried out in order.
pub open spec fn applied(tree: Tree, operations: Seq<OperationView>) -> Tree
    decreases operations.len(),
{
    if operations.len() == 0 {
        tree
    } else {
        carried_out(applied(tree, operations.drop_last()), operations.last())
    }
}

/// The tree after `entries` were unpacked below `root`.
pub open spec fn extracted(tree: Tree, entries: Seq<EntryView>, root: Seq<char>) -> Tree {
    applied(tree, plan_of(entries, root))
}

/// Whether the archive holds a file that goes to `path`.
pub open spec fn holds_file(entries: Seq<EntryView>, root: Seq<char>, path: Seq<char>) -> bool {
    exists|i: int|
        0 <= i < entries.len() && !(#[trigger] entries[i]).is_directory && target(root, entries[i].name)
            == path
}

/// Whether `path` is where an entry of the archive goes, or a directory
/// above that place.
pub open spec fn holds_place(entries: Seq<EntryView>, root: Seq<char>, path: Seq<char>) -> bool {
    exists|i: int| 0 <= i < entries.len() && holds(path, target(root, (#[trigger] entries[i]).name))
}

proof fn lemma_applied_in_turn(tree: Tree, first: Seq<OperationView>, second: Seq<OperationView>)
    ensures
        applied(tree, first + second) == applied(applied(tree, first), second),
    decreases second.len(),
{
    if second.len() == 0 {
        assert(first + second =~= first);
    } else {
        lemma_applied_in_turn(tree, first, second.drop_last());
        assert((first + second).drop_last() =~= first + second.drop_last());
        assert((first + second).last() == second.last());
    }
}

proof fn lemma_entry_applied(tree: Tree, entry: EntryView, root: Seq<char>)
    ensures
        applied(tree, entry_plan(entry, root)) == if entry.is_directory {
            carried_out(tree, OperationView::CreateDirectories { path: target(root, entry.name) })
        } else {
            carried_out(
                carried_out(
                    tree,
                    OperationView::CreateDirectories { path: parent(target(root, entry.name)) },
                ),
                OperationView::WriteFile { path: target(root, entry.name), content: entry.content },
            )
        },
{
    let plan = entry_plan(entry, root);
    if entry.is_directory {
        let create = OperationView::CreateDirectories { path: target(root, entry.name) };
        assert(plan.len() == 1 && plan.last() == create);
        assert(plan.drop_last() =~= Seq::empty());
        assert(applied(tree, plan.drop_last()) == tree);
        assert(applied(tree, plan) == carried_out(applied(tree, plan.drop_last()), plan.last()));
    } else {
        let create = OperationView::CreateDirectories { path: parent(target(root, entry.name)) };
        let write = OperationView::WriteFile { path: target(root, entry.name), content: entry.content };
        let first = plan.drop_last();
        assert(plan.len() == 2 && plan.last() == write);
        assert(first =~= seq![create]);
        assert(first.len() == 1 && first.last() == create);
        assert(first.drop_last() =~= Seq::empty());
        assert(applied(tree, first.drop_last()) == tree);
        assert(applied(tree, first) == carried_out(applied(tree, first.drop_last()), first.last()));
        assert(applied(tree, plan) == carried_out(applied(tree, first), plan.last()));
    }
}

proof fn lemma_extracted_step(tree: Tree, entries: Seq<EntryView>, root: Seq<char>)
    requires
        entries.len() > 0,
    ensures
        extracted(tree, entries, root) == applied(
            extracted(tree, entries.drop_last(), root),
            entry_plan(entries.last(), root),
        ),
{
    lemma_applied_in_turn(tree, plan_of(entries.drop_last(), root), entry_plan(entries.last(), root));
}

/// The directory that holds a place below the install directory is a
/// directory above that place.
pub proof fn lemma_parent_holds(root: Seq<char>, name: Seq<char>)
    ensures
        holds(parent(target(root, name)), target(root, name)),
        last_separator(target(root, name)) >= root.len(),
{
    let place = target(root, name);
    lemma_last_separator(place);
    assert(place[root.len() as int] == '/');
}

/// A directory above a directory above a place is above that place.
pub proof fn lemma_holds_in_turn(top: Seq<char>, middle: Seq<char>, path: Seq<char>)
    requires
        holds(top, middle),
        holds(middle, path),
    ensures
        holds(top, path),
{
    if top != middle && middle != path {
        assert(path[top.len() as int] == middle[top.len() as int]);
        assert(top =~= path.take(top.len() as int));
    }
}

/// What was in the tree before stays exactly as it was, unless the archive
/// holds a file for that very path.
pub proof fn lemma_unrelated_untouched(
    tree: Tree,
    entries: Seq<EntryView>,
    root: Seq<char>,
    path: Seq<char>,
)
    requires
        tree.dom().contains(path),
        !holds_file(entries, root, path),
    ensures
        extracted(tree, entries, root).dom().contains(path),
        extracted(tree, entries, root)[path] == tree[path],
    decreases entries.len(),
{
    if entries.len() > 0 {
        let front = entries.drop_last();
        let last = entries.last();
        assert forall|i: int| 0 <= i < front.len() && !(#[trigger] front[i]).is_directory implies target(
            root,
            front[i].name,
        ) != path by {
            assert(front[i] == entries[i]);
        }
        lemma_unrelated_untouched(tree, front, root, path);
        lemma_extracted_step(tree, entries, root);
        lemma_entry_applied(extracted(tree, front, root), last, root);
        if !last.is_directory {
            assert(entries[entries.len() - 1] == last);
        }
    }
}

/// A file of the archive stands at its place with its content, unless a
/// later entry of the archive is a file for the same place.
pub proof fn lemma_file_reproduced(tree: Tree, entries: Seq<EntryView>, root: Seq<char>, i: int)
    requires
        0 <= i < entries.len(),
        !entries[i].is_directory,
        forall|j: int|
            i < j < entries.len() && !(#[trigger] entries[j]).is_directory ==> target(
                root,
                entries[j].name,
            ) != target(root, entries[i].name),
    ensures
        extracted(tree, entries, root).dom().contains(target(root, entries[i].name)),
        extracted(tree, entries, root)[target(root, entries[i].name)] == Node::File(entries[i].content),
    decreases entries.len(),
{
    let front = entries.drop_last();
    let last = entries.last();
    lemma_extracted_step(tree, entries, root);
    lemma_entry_applied(extracted(tree, front, root), last, root);
    if i < entries.len() - 1 {
        assert(front[i] == entries[i]);
        assert forall|j: int| i < j < front.len() && !(#[trigger] front[j]).is_directory implies target(
            root,
            front[j].name,
        ) != target(root, front[i].name) by {
            assert(front[j] == entries[j]);
        }
        lemma_file_reproduced(tree, front, root, i);
        assert(entries[entries.len() - 1] == last);
    }
}

/// After unpacking, the place of every entry exists, and so does every
/// directory above it.
pub proof fn lemma_places_exist(
    tree: Tree,
    entries: Seq<EntryView>,
    root: Seq<char>,
    path: Seq<char>,
)
    requires
        holds_place(entries, root, path),
    ensures
        extracted(tree, entries, root).dom().contains(path),
    decreases entries.len(),
{
    let i = choose|i: int| 0 <= i < entries.len() && holds(path, target(root, (#[trigger] entries[i]).name));
    let front = entries.drop_last();
    let last = entries.last();
    lemma_extracted_step(tree, entries, root);
    lemma_entry_applied(extracted(tree, front, root), last, root);
    if i < entries.len() - 1 {
        assert(front[i] == entries[i]);
        lemma_places_exist(tree, front, root, path);
    } else {
        let place = target(root, last.name);
        if !last.is_directory && path != place {
            lemma_last_separator(place);
            let cut = last_separator(place);
            if path.len() < cut {
                assert(parent(place)[path.len() as int] == '/');
                assert(path =~= parent(place).take(path.len() as int));
            } else if path.len() == cut {
                assert(path =~= parent(place));
            }
        }
    }
}

/// Unpacking adds nothing but the places of the archive's entries and the
/// directories above them.
pub proof fn lemma_nothing_else(tree: Tree, entries: Seq<EntryView>, root: Seq<char>, path: Seq<char>)
    requires
        extracted(tree, entries, root).dom().contains(path),
        !tree.dom().contains(path),
    ensures
        holds_place(entries, root, path),
    decreases entries.len(),
{
    if entries.len() > 0 {
        let front = entries.drop_last();
        let last = entries.last();
        lemma_extracted_step(tree, entries, root);
        lemma_entry_applied(extracted(tree, front, root), last, root);
        if extracted(tree, front, root).dom().contains(path) {
            lemma_nothing_else(tree, front, root, path);
            let i = choose|i: int|
                0 <= i < front.len() && holds(path, target(root, (#[trigger] front[i]).name));
            assert(entries[i] == front[i]);
        } else {
            let place = target(root, last.name);
            if !last.is_directory && path != place {
                lemma_parent_holds(root, last.name);
                lemma_holds_in_turn(path, parent(place), place);
            }
            assert(holds(path, target(root, entries[entries.len() - 1].name)));
        }
    }
}

} // verus!
