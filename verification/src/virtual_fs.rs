//! A read-only file tree that is packed into one blob: how it is built,
//! and how paths are found in it.

use vstd::prelude::*;
use crate::names::{
    compare_names, lemma_name_equal, lemma_name_flip, lemma_name_trans, name_lt, NameOrder,
};

verus! {

#[derive(Debug)]
pub struct VirtualFile {
    pub name: String,
    pub offset: u64,
    pub len: u64,
}

#[derive(Debug)]
pub struct VirtualSymlink {
    pub name: String,
    pub dest_parts: Vec<String>,
}

#[derive(Debug)]
pub struct VirtualDirectory {
    pub name: String,
    /// Sorted by name.
    pub entries: Vec<VfsEntry>,
}

#[derive(Debug)]
pub enum VfsEntry {
    Dir(VirtualDirectory),
    File(VirtualFile),
    Symlink(VirtualSymlink),
}

impl VfsEntry {
    pub open spec fn spec_name(&self) -> Seq<char> {
        match self {
            VfsEntry::Dir(dir) => dir.name@,
            VfsEntry::File(file) => file.name@,
            VfsEntry::Symlink(symlink) => symlink.name@,
        }
    }

    pub fn name(&self) -> (s: &str)
        ensures
            s@ == self.spec_name(),
    {
        match self {
            VfsEntry::Dir(dir) => dir.name.as_str(),
            VfsEntry::File(file) => file.name.as_str(),
            VfsEntry::Symlink(symlink) => symlink.name.as_str(),
        }
    }

    /// Every directory in the entry is sorted.
    pub open spec fn wf(&self) -> bool
        decreases self,
    {
        match self {
            VfsEntry::Dir(dir) => dir.wf(),
            _ => true,
        }
    }
}

impl VirtualDirectory {
    /// The entries come in the order of their names, and no name comes
    /// twice.
    pub open spec fn sorted(&self) -> bool {
        forall|i: int, j: int|
            0 <= i < j < self.entries@.len() ==> name_lt(
                #[trigger] self.entries@[i].spec_name(),
                #[trigger] self.entries@[j].spec_name(),
            )
    }

    /// This directory and every directory below it is sorted.
    pub open spec fn wf(&self) -> bool
        decreases self,
    {
        &&& self.sorted()
        &&& forall|i: int| 0 <= i < self.entries@.len() ==> (#[trigger] self.entries@[i]).wf()
    }
}

/// What stands at a path: a directory, a file with its place in the blob,
/// or a link with the path it points to, from the root.
pub enum Node {
    Dir,
    File { offset: u64, len: u64 },
    Symlink { dest: Seq<Seq<char>> },
}

/// A path as the names along it.
pub open spec fn parts_of(path: Seq<String>) -> Seq<Seq<char>> {
    path.map_values(|part: String| part@)
}

impl VfsEntry {
    /// What the entry is, without what is below it.
    pub open spec fn node(&self) -> Node {
        match self {
            VfsEntry::Dir(_) => Node::Dir,
            VfsEntry::File(file) => Node::File { offset: file.offset, len: file.len },
            VfsEntry::Symlink(symlink) => Node::Symlink { dest: parts_of(symlink.dest_parts@) },
        }
    }
}

impl VirtualDirectory {
    /// The place of the entry named `name`, if there is one.
    pub open spec fn index_of(&self, name: Seq<char>) -> Option<int> {
        if exists|i: int| 0 <= i < self.entries@.len() && self.entries@[i].spec_name() == name {
            Some(
                choose|i: int| 0 <= i < self.entries@.len() && self.entries@[i].spec_name() == name,
            )
        } else {
            None
        }
    }

    /// What stands at `path` below this directory, links not followed.
    pub open spec fn node_at(&self, path: Seq<Seq<char>>) -> Option<Node>
        decreases path.len(),
    {
        if path.len() == 0 {
            None
        } else {
            match self.index_of(path[0]) {
                None => None,
                Some(i) => if path.len() == 1 {
                    Some(self.entries@[i].node())
                } else {
                    match self.entries@[i] {
                        VfsEntry::Dir(dir) => dir.node_at(path.drop_first()),
                        _ => None,
                    }
                },
            }
        }
    }

    /// The tree below this directory: what stands at each path.
    pub open spec fn tree(&self) -> Map<Seq<Seq<char>>, Node> {
        Map::new(
            |path: Seq<Seq<char>>| self.node_at(path) is Some,
            |path: Seq<Seq<char>>| self.node_at(path)->0,
        )
    }

    /// In a sorted directory, the entry at place `i` is the one that its
    /// name finds.
    pub proof fn lemma_index_of(&self, i: int)
        requires
            self.sorted(),
            0 <= i < self.entries@.len(),
        ensures
            self.index_of(self.entries@[i].spec_name()) == Some(i),
    {
        let name = self.entries@[i].spec_name();
        let j = choose|j: int| 0 <= j < self.entries@.len() && self.entries@[j].spec_name() == name;
        lemma_name_equal(name, name);
        if j < i {
            assert(name_lt(self.entries@[j].spec_name(), self.entries@[i].spec_name()));
        }
        if i < j {
            assert(name_lt(self.entries@[i].spec_name(), self.entries@[j].spec_name()));
        }
    }

    /// Finds the entry named `name`: its place, or else the place where an
    /// entry of that name would have to go.
    pub fn find(&self, name: &str) -> (r: Result<usize, usize>)
        requires
            self.sorted(),
        ensures
            match r {
                Ok(i) => self.index_of(name@) == Some(i as int) && i < self.entries@.len(),
                Err(i) => {
                    &&& self.index_of(name@) is None
                    &&& i <= self.entries@.len()
                    &&& forall|k: int| 0 <= k < i ==> name_lt(#[trigger] self.entries@[k].spec_name(), name@)
                    &&& forall|k: int|
                        i <= k < self.entries@.len() ==> name_lt(
                            name@,
                            #[trigger] self.entries@[k].spec_name(),
                        )
                },
            },
    {
        let mut lo: usize = 0;
        let mut hi: usize = self.entries.len();
        while lo < hi
            invariant
                self.sorted(),
                lo <= hi <= self.entries@.len(),
                forall|k: int| 0 <= k < lo ==> name_lt(#[trigger] self.entries@[k].spec_name(), name@),
                forall|k: int|
                    hi <= k < self.entries@.len() ==> name_lt(
                        name@,
                        #[trigger] self.entries@[k].spec_name(),
                    ),
            decreases hi - lo,
        {
            let mid = lo + (hi - lo) / 2;
            let ghost at_mid = self.entries@[mid as int].spec_name();
            match compare_names(self.entries[mid].name(), name) {
                NameOrder::Equal => {
                    proof {
                        lemma_name_equal(at_mid, name@);
                        self.lemma_index_of(mid as int);
                    }
                    return Ok(mid);
                },
                NameOrder::Less => {
                    proof {
                        assert forall|k: int| 0 <= k < mid + 1 implies name_lt(
                            #[trigger] self.entries@[k].spec_name(),
                            name@,
                        ) by {
                            if k < mid {
                                lemma_name_trans(self.entries@[k].spec_name(), at_mid, name@);
                            }
                        }
                    }
                    lo = mid + 1;
                },
                NameOrder::Greater => {
                    proof {
                        lemma_name_flip(name@, at_mid);
                        assert forall|k: int| mid <= k < self.entries@.len() implies name_lt(
                            name@,
                            #[trigger] self.entries@[k].spec_name(),
                        ) by {
                            if mid < k {
                                lemma_name_trans(name@, at_mid, self.entries@[k].spec_name());
                            }
                        }
                    }
                    hi = mid;
                },
            }
        }
        proof {
            if self.index_of(name@) is Some {
                let j = self.index_of(name@)->0;
                lemma_name_equal(self.entries@[j].spec_name(), name@);
            }
        }
        Err(lo)
    }
}

/// A file or a link to be put into a tree: its name and what it is.
pub struct Leaf {
    pub name: Seq<char>,
    pub node: Node,
}

/// What a tree holds once the directories along `dirs` are there, and
/// below them the leaf `leaf`, if there is one: everything that it held,
/// a directory at every step along `dirs`, and the leaf below the last.
pub open spec fn spec_put(
    tree: Map<Seq<Seq<char>>, Node>,
    dirs: Seq<Seq<char>>,
    leaf: Option<Leaf>,
) -> Map<Seq<Seq<char>>, Node> {
    Map::new(
        |path: Seq<Seq<char>>|
            tree.contains_key(path) || along(dirs, path) || (leaf is Some && path == dirs.push(
                leaf->0.name,
            )),
        |path: Seq<Seq<char>>|
            if leaf is Some && path == dirs.push(leaf->0.name) {
                leaf->0.node
            } else if tree.contains_key(path) {
                tree[path]
            } else {
                Node::Dir
            },
    )
}

/// Whether `path` is a step along `dirs`: not empty, and the beginning of
/// `dirs`.
pub open spec fn along(dirs: Seq<Seq<char>>, path: Seq<Seq<char>>) -> bool {
    0 < path.len() <= dirs.len() && path == dirs.take(path.len() as int)
}

/// Whether the way is clear for the directories along `dirs` and a leaf
/// named `leaf` below them: nothing but a directory stands at any step
/// along `dirs`, and nothing stands where the leaf goes.
pub open spec fn clear(tree: Map<Seq<Seq<char>>, Node>, dirs: Seq<Seq<char>>, leaf: Option<Seq<char>>) -> bool {
    &&& forall|path: Seq<Seq<char>>|
        along(dirs, path) && #[trigger] tree.contains_key(path) ==> tree[path] is Dir
    &&& leaf matches Some(name) ==> !tree.contains_key(dirs.push(name))
}

/// The name and the node of a leaf.
pub open spec fn leaf_of(entry: Option<VfsEntry>) -> Option<Leaf> {
    match entry {
        Some(e) => Some(Leaf { name: e.spec_name(), node: e.node() }),
        None => None,
    }
}

/// The name of a leaf.
pub open spec fn leaf_name(entry: Option<VfsEntry>) -> Option<Seq<char>> {
    match entry {
        Some(e) => Some(e.spec_name()),
        None => None,
    }
}

proof fn lemma_inserted(a: VirtualDirectory, b: VirtualDirectory, k: int, path: Seq<Seq<char>>)
    requires
        a.sorted(),
        b.sorted(),
        0 <= k <= a.entries@.len(),
        b.entries@ == a.entries@.insert(k, b.entries@[k]),
        a.index_of(b.entries@[k].spec_name()) is None,
        path.len() > 0,
    ensures
        path[0] == b.entries@[k].spec_name() ==> b.index_of(path[0]) == Some(k),
        path[0] != b.entries@[k].spec_name() ==> b.node_at(path) == a.node_at(path),
{
    let name = b.entries@[k].spec_name();
    if path[0] == name {
        b.lemma_index_of(k);
    } else {
        match a.index_of(path[0]) {
            Some(j) => {
                let j2 = if j < k { j } else { j + 1 };
                assert(b.entries@[j2] == a.entries@[j]);
                b.lemma_index_of(j2);
            },
            None => {
                if b.index_of(path[0]) is Some {
                    let j2 = b.index_of(path[0])->0;
                    let j = if j2 < k { j2 } else { j2 - 1 };
                    assert(a.entries@[j] == b.entries@[j2]);
                }
            },
        }
    }
}

proof fn lemma_updated(a: VirtualDirectory, b: VirtualDirectory, i: int, path: Seq<Seq<char>>)
    requires
        a.sorted(),
        0 <= i < a.entries@.len(),
        b.entries@ == a.entries@.update(i, b.entries@[i]),
        b.entries@[i].spec_name() == a.entries@[i].spec_name(),
        path.len() > 0,
    ensures
        b.sorted(),
        path[0] == a.entries@[i].spec_name() ==> b.index_of(path[0]) == Some(i) && a.index_of(
            path[0],
        ) == Some(i),
        path[0] != a.entries@[i].spec_name() ==> b.node_at(path) == a.node_at(path),
{
    assert forall|x: int, y: int| 0 <= x < y < b.entries@.len() implies name_lt(
        #[trigger] b.entries@[x].spec_name(),
        #[trigger] b.entries@[y].spec_name(),
    ) by {
        assert(name_lt(a.entries@[x].spec_name(), a.entries@[y].spec_name()));
    }
    let name = a.entries@[i].spec_name();
    if path[0] == name {
        a.lemma_index_of(i);
        b.lemma_index_of(i);
    } else {
        match a.index_of(path[0]) {
            Some(j) => {
                assert(b.entries@[j] == a.entries@[j]);
                b.lemma_index_of(j);
            },
            None => {
                if b.index_of(path[0]) is Some {
                    let j = b.index_of(path[0])->0;
                    assert(a.entries@[j] == b.entries@[j]);
                }
            },
        }
    }
}

proof fn lemma_empty_dir(dir: VirtualDirectory, path: Seq<Seq<char>>)
    requires
        dir.entries@.len() == 0,
    ensures
        dir.node_at(path) is None,
{
}

fn insert_sorted(dir: &mut VirtualDirectory, k: usize, entry: VfsEntry)
    requires
        old(dir).wf(),
        entry.wf(),
        k <= old(dir).entries@.len(),
        old(dir).index_of(entry.spec_name()) is None,
        forall|j: int| 0 <= j < k ==> name_lt(#[trigger] old(dir).entries@[j].spec_name(), entry.spec_name()),
        forall|j: int|
            k <= j < old(dir).entries@.len() ==> name_lt(
                entry.spec_name(),
                #[trigger] old(dir).entries@[j].spec_name(),
            ),
    ensures
        final(dir).wf(),
        final(dir).name == old(dir).name,
        final(dir).entries@ == old(dir).entries@.insert(k as int, entry),
{
    dir.entries.insert(k, entry);
    proof {
        let a = old(dir).entries@;
        let b = dir.entries@;
        assert forall|x: int, y: int| 0 <= x < y < b.len() implies name_lt(
            #[trigger] b[x].spec_name(),
            #[trigger] b[y].spec_name(),
        ) by {
            let x0 = if x < k { x } else { x - 1 };
            let y0 = if y < k { y } else { y - 1 };
            if x != k && y != k {
                assert(name_lt(a[x0].spec_name(), a[y0].spec_name()));
            }
        }
        assert forall|x: int| 0 <= x < b.len() implies (#[trigger] b[x]).wf() by {
            let x0 = if x < k { x } else { x - 1 };
            if x != k {
                assert(a[x0].wf());
            }
        }
    }
}

proof fn lemma_along_step(dirs: Seq<Seq<char>>, path: Seq<Seq<char>>)
    requires
        dirs.len() > 0,
        path.len() > 0,
    ensures
        along(dirs, path) <==> path[0] == dirs[0] && (path.len() == 1 || along(
            dirs.drop_first(),
            path.drop_first(),
        )),
{
    let rest = dirs.drop_first();
    let tail = path.drop_first();
    if along(dirs, path) {
        assert(path[0] == dirs.take(path.len() as int)[0]);
        if path.len() > 1 {
            assert(tail =~= rest.take(tail.len() as int));
        }
    }
    if path[0] == dirs[0] && path.len() == 1 {
        assert(path =~= dirs.take(1));
    }
    if path[0] == dirs[0] && path.len() > 1 && along(rest, tail) {
        assert(path =~= seq![path[0]] + tail);
        assert(dirs.take(path.len() as int) =~= seq![dirs[0]] + rest.take(tail.len() as int));
    }
}

proof fn lemma_push_step(dirs: Seq<Seq<char>>, name: Seq<char>, path: Seq<Seq<char>>)
    requires
        dirs.len() > 0,
        path.len() > 0,
    ensures
        path == dirs.push(name) <==> path[0] == dirs[0] && path.drop_first() == dirs.drop_first().push(
            name,
        ),
{
    let rest = dirs.drop_first();
    let tail = path.drop_first();
    if path == dirs.push(name) {
        assert(tail =~= rest.push(name));
    }
    if path[0] == dirs[0] && tail == rest.push(name) {
        assert(path =~= seq![path[0]] + tail);
        assert(dirs.push(name) =~= seq![dirs[0]] + rest.push(name));
    }
}

proof fn lemma_put_step(
    before: VirtualDirectory,
    middle: VirtualDirectory,
    after: VirtualDirectory,
    index: int,
    dirs: Seq<Seq<char>>,
    leaf: Option<Leaf>,
    child_before: VirtualDirectory,
    child_after: VirtualDirectory,
    path: Seq<Seq<char>>,
)
    requires
        before.sorted(),
        middle.sorted(),
        dirs.len() > 0,
        0 <= index < middle.entries@.len(),
        middle.entries@[index] == VfsEntry::Dir(child_before),
        child_before.name@ == dirs[0],
        child_after.name@ == dirs[0],
        after.entries@ == middle.entries@.update(index, VfsEntry::Dir(child_after)),
        middle == before || (before.index_of(dirs[0]) is None && index <= before.entries@.len()
            && middle.entries@ == before.entries@.insert(index, middle.entries@[index])),
        child_after.tree() == spec_put(child_before.tree(), dirs.drop_first(), leaf),
        forall|tail: Seq<Seq<char>>|
            tail.len() > 0 ==> child_before.node_at(tail) == before.node_at(seq![dirs[0]] + tail),
        forall|at: Seq<Seq<char>>|
            along(dirs, at) && #[trigger] before.tree().contains_key(at) ==> before.tree()[at] is Dir,
    ensures
        after.node_at(path) == spec_put(before.tree(), dirs, leaf).get(path),
{
    let name = dirs[0];
    let rest = dirs.drop_first();
    let goal = spec_put(before.tree(), dirs, leaf);
    if path.len() == 0 {
        assert(!along(dirs, path));
        if leaf is Some {
            assert(dirs.push(leaf->0.name).len() > 0);
        }
        assert(!goal.contains_key(path));
    } else {
        lemma_updated(middle, after, index, path);
        if middle != before {
            lemma_inserted(before, middle, index, path);
        }
        lemma_along_step(dirs, path);
        if leaf is Some {
            lemma_push_step(dirs, leaf->0.name, path);
        }
        if path[0] != name {
            assert(after.node_at(path) == before.node_at(path));
            assert(!along(dirs, path));
            assert(goal.contains_key(path) == before.tree().contains_key(path));
        } else {
            let tail = path.drop_first();
            assert(path =~= seq![name] + tail);
            assert(after.index_of(name) == Some(index));
            if path.len() == 1 {
                assert(after.node_at(path) == Some(Node::Dir));
                assert(along(dirs, path));
                if before.tree().contains_key(path) {
                    assert(before.tree()[path] is Dir);
                }
                assert(goal.contains_key(path));
                assert(goal[path] == Node::Dir);
            } else {
                assert(after.node_at(path) == child_after.node_at(tail));
                assert(child_after.node_at(tail) is Some <==> child_after.tree().contains_key(tail));
                assert(child_before.node_at(tail) == before.node_at(path));
                assert(before.tree().contains_key(path) <==> child_before.tree().contains_key(tail));
                assert(along(dirs, path) <==> along(rest, tail));
                if child_after.tree().contains_key(tail) {
                    assert(goal.contains_key(path));
                    assert(goal[path] == child_after.tree()[tail]);
                } else {
                    assert(!goal.contains_key(path));
                }
            }
        }
    }
}

fn put(dir: &mut VirtualDirectory, parts: &Vec<String>, from: usize, to: usize, leaf: Option<VfsEntry>)
    requires
        old(dir).wf(),
        from <= to <= parts@.len(),
        leaf matches Some(e) ==> !(e is Dir),
        clear(old(dir).tree(), parts_of(parts@).subrange(from as int, to as int), leaf_name(leaf)),
    ensures
        final(dir).wf(),
        final(dir).name == old(dir).name,
        final(dir).tree() == spec_put(
            old(dir).tree(),
            parts_of(parts@).subrange(from as int, to as int),
            leaf_of(leaf),
        ),
    decreases to - from,
{
    let ghost dirs = parts_of(parts@).subrange(from as int, to as int);
    let ghost before = *dir;
    if from == to {
        match leaf {
            Some(entry) => {
                let ghost name = entry.spec_name();
                let ghost node = entry.node();
                proof {
                    assert(dirs.push(name) =~= seq![name]);
                    if before.index_of(name) is Some {
                        assert(before.node_at(seq![name]) is Some);
                        assert(before.tree().contains_key(seq![name]));
                    }
                }
                match dir.find(entry.name()) {
                    Err(k) => {
                        insert_sorted(dir, k, entry);
                        proof {
                            assert forall|path: Seq<Seq<char>>|
                                dir.node_at(path) == (if path == seq![name] {
                                    Some(node)
                                } else {
                                    before.node_at(path)
                                }) by {
                                if path.len() > 0 {
                                    lemma_inserted(before, *dir, k as int, path);
                                    if path[0] == name && path.len() == 1 {
                                        assert(path =~= seq![name]);
                                    }
                                }
                            }
                            assert(dir.tree() =~= spec_put(before.tree(), dirs, leaf_of(leaf)));
                        }
                    },
                    Ok(_) => {},
                }
            },
            None => {
                proof {
                    assert(dir.tree() =~= spec_put(before.tree(), dirs, leaf_of(leaf)));
                }
            },
        }
    } else {
        let ghost name = parts@[from as int]@;
        let ghost rest = parts_of(parts@).subrange(from as int + 1, to as int);
        proof {
            assert(dirs[0] == name);
            assert(dirs.drop_first() =~= rest);
            assert(along(dirs, seq![name])) by {
                assert(dirs.take(1) =~= seq![name]);
            }
        }
        let index = match dir.find(parts[from].as_str()) {
            Ok(i) => {
                proof {
                    assert(before.node_at(seq![name]) is Some);
                    assert(before.tree().contains_key(seq![name]));
                }
                i
            },
            Err(k) => {
                let child = VirtualDirectory { name: parts[from].clone(), entries: Vec::new() };
                insert_sorted(dir, k, VfsEntry::Dir(child));
                k
            },
        };
        let ghost middle = *dir;
        let ghost child_before = middle.entries@[index as int]->Dir_0;
        proof {
            assert(middle.entries@[index as int] is Dir);
            assert(middle.entries@[index as int].wf());
            middle.lemma_index_of(index as int);
            // What the child holds before the recursion, seen from above.
            assert forall|tail: Seq<Seq<char>>| tail.len() > 0 implies child_before.node_at(tail)
                == before.node_at(seq![name] + tail) by {
                let path = seq![name] + tail;
                assert(path.drop_first() =~= tail);
                if before.index_of(name) is Some {
                    assert(middle == before);
                } else {
                    lemma_empty_dir(child_before, tail);
                }
            }
            assert forall|path: Seq<Seq<char>>|
                along(rest, path) && #[trigger] child_before.tree().contains_key(
                    path,
                ) implies child_before.tree()[path] is Dir by {
                let above = seq![name] + path;
                assert(above.drop_first() =~= path);
                lemma_along_step(dirs, above);
                assert(before.tree().contains_key(above));
            }
            if leaf is Some {
                let leaf_name = leaf->0.spec_name();
                let target = rest.push(leaf_name);
                let above = seq![name] + target;
                assert(above.drop_first() =~= target);
                lemma_push_step(dirs, leaf_name, above);
                assert(!before.tree().contains_key(above));
            }
        }
        match &mut dir.entries[index] {
            VfsEntry::Dir(child) => {
                put(child, parts, from + 1, to, leaf);
            },
            _ => {},
        }
        proof {
            let child_after = dir.entries@[index as int]->Dir_0;
            assert(dir.entries@ == middle.entries@.update(index as int, dir.entries@[index as int]));
            assert forall|path: Seq<Seq<char>>| dir.node_at(path) == spec_put(
                before.tree(),
                dirs,
                leaf_of(leaf),
            ).get(path) by {
                lemma_put_step(
                    before,
                    middle,
                    *dir,
                    index as int,
                    dirs,
                    leaf_of(leaf),
                    child_before,
                    child_after,
                    path,
                );
            }
            lemma_updated(middle, *dir, index as int, seq![name]);
            assert forall|x: int| 0 <= x < dir.entries@.len() implies (#[trigger] dir.entries@[x]).wf() by {
                if x != index {
                    assert(middle.entries@[x].wf());
                }
            }
            assert(dir.tree() =~= spec_put(before.tree(), dirs, leaf_of(leaf)));
        }
    }
}

/// The part of a file name before its extension: the name up to its last
/// dot, or the whole name if it has no dot or only starts with one.
pub open spec fn spec_file_stem(name: Seq<char>) -> Seq<char> {
    match last_dot(name, name.len() as int) {
        Some(i) => if i == 0 {
            name
        } else {
            name.take(i)
        },
        None => name,
    }
}

/// The place of the last dot among the first `n` characters of `name`.
pub open spec fn last_dot(name: Seq<char>, n: int) -> Option<int>
    decreases n,
{
    if n <= 0 {
        None
    } else if name[n - 1] == '.' {
        Some(n - 1)
    } else {
        last_dot(name, n - 1)
    }
}

/// The stem of a file name.
pub fn file_stem(name: &str) -> (stem: String)
    ensures
        stem@ == spec_file_stem(name@),
{
    let len = name.unicode_len();
    let mut n: usize = len;
    while n > 0
        invariant
            n <= len,
            len == name@.len(),
            last_dot(name@, len as int) == last_dot(name@, n as int),
        decreases n,
    {
        if name.get_char(n - 1) == '.' {
            if n - 1 == 0 {
                return String::from_str(name);
            }
            return String::from_str(name.substring_char(0, n - 1));
        }
        n -= 1;
    }
    String::from_str(name)
}

/// Whether `root` is the beginning of `path`.
pub open spec fn below(root: Seq<String>, path: Seq<String>) -> bool {
    root.len() <= path.len() && parts_of(path).take(root.len() as int) == parts_of(root)
}

/// Says whether `root` is the beginning of `path`.
pub fn is_below(root: &Vec<String>, path: &Vec<String>) -> (b: bool)
    ensures
        b == below(root@, path@),
{
    if root.len() > path.len() {
        return false;
    }
    let mut i: usize = 0;
    while i < root.len()
        invariant
            i <= root@.len() <= path@.len(),
            forall|j: int| 0 <= j < i ==> root@[j]@ == path@[j]@,
        decreases root@.len() - i,
    {
        if root[i] != path[i] {
            proof {
                assert(parts_of(path@).take(root@.len() as int)[i as int] == path@[i as int]@);
                assert(parts_of(root@)[i as int] == root@[i as int]@);
            }
            return false;
        }
        i += 1;
    }
    proof {
        assert(parts_of(path@).take(root@.len() as int) =~= parts_of(root@));
    }
    true
}

/// The bytes of the first `n` files, counted.
pub open spec fn total_len(files: Seq<Vec<u8>>, n: int) -> int
    decreases n,
{
    if n <= 0 {
        0
    } else {
        total_len(files, n - 1) + files[n - 1]@.len()
    }
}

/// The place of the first of the first `n` files that holds `data`.
pub open spec fn first_same(files: Seq<Vec<u8>>, data: Seq<u8>, n: int) -> Option<int>
    decreases n,
{
    if n <= 0 {
        None
    } else {
        match first_same(files, data, n - 1) {
            Some(i) => Some(i),
            None => if files[n - 1]@ == data {
                Some(n - 1)
            } else {
                None
            },
        }
    }
}

/// Where the bytes `data` go in a blob that holds `files`: where the first
/// file with the same bytes starts, or else at the end.
pub open spec fn spec_offset(files: Seq<Vec<u8>>, data: Seq<u8>) -> int {
    match first_same(files, data, files.len() as int) {
        Some(i) => total_len(files, i),
        None => total_len(files, files.len() as int),
    }
}

proof fn lemma_total_len_grows(files: Seq<Vec<u8>>, i: int, n: int)
    requires
        0 <= i <= n <= files.len(),
    ensures
        total_len(files, i) <= total_len(files, n),
    decreases n - i,
{
    if i < n {
        lemma_total_len_grows(files, i, n - 1);
    }
}

proof fn lemma_total_len_pushed(files: Seq<Vec<u8>>, data: Vec<u8>, n: int)
    requires
        0 <= n <= files.len(),
    ensures
        total_len(files.push(data), n) == total_len(files, n),
    decreases n,
{
    if n > 0 {
        lemma_total_len_pushed(files, data, n - 1);
    }
}

fn same_bytes(a: &Vec<u8>, b: &Vec<u8>) -> (r: bool)
    ensures
        r == (a@ == b@),
{
    if a.len() != b.len() {
        return false;
    }
    let mut i: usize = 0;
    while i < a.len()
        invariant
            i <= a@.len(),
            a@.len() == b@.len(),
            forall|j: int| 0 <= j < i ==> a@[j] == b@[j],
        decreases a@.len() - i,
    {
        if a[i] != b[i] {
            return false;
        }
        i += 1;
    }
    proof {
        assert(a@ =~= b@);
    }
    true
}

/// Builds a file tree and the blob that holds the bytes of its files.
pub struct VfsBuilder {
    root_path: Vec<String>,
    root_dir: VirtualDirectory,
    files: Vec<Vec<u8>>,
    current_offset: u64,
}

impl VfsBuilder {
    /// The path that the tree is rooted at.
    pub closed spec fn root_path(&self) -> Seq<String> {
        self.root_path@
    }

    /// The directory at the root.
    pub closed spec fn root_dir(&self) -> VirtualDirectory {
        self.root_dir
    }

    /// The bytes of the files, each stored once.
    pub closed spec fn files(&self) -> Seq<Vec<u8>> {
        self.files@
    }

    /// Where the next new file goes in the blob.
    pub closed spec fn current_offset(&self) -> u64 {
        self.current_offset
    }

    /// Every directory of the tree is sorted by name and holds no name
    /// twice, and the next new file goes to the end of the blob.
    pub open spec fn wf(&self) -> bool {
        &&& self.root_dir().wf()
        &&& self.current_offset() == self.blob_len()
    }

    /// How long the blob is.
    pub open spec fn blob_len(&self) -> int {
        total_len(self.files(), self.files().len() as int)
    }

    /// A builder for the tree below `root_path`. The root directory is
    /// named after the stem of the last name of the path.
    pub fn new(root_path: Vec<String>) -> (b: VfsBuilder)
        requires
            root_path@.len() > 0,
        ensures
            b.wf(),
            b.root_path() == root_path@,
            b.root_dir().name@ == spec_file_stem(root_path@.last()@),
            b.root_dir().entries@.len() == 0,
            b.files().len() == 0,
    {
        let name = file_stem(root_path[root_path.len() - 1].as_str());
        VfsBuilder {
            root_dir: VirtualDirectory { name, entries: Vec::new() },
            root_path,
            files: Vec::new(),
            current_offset: 0,
        }
    }

    /// The names of `path` below the root.
    pub open spec fn relative(&self, path: Seq<String>) -> Seq<Seq<char>> {
        parts_of(path).skip(self.root_path().len() as int)
    }

    /// Makes sure that the directory at `path` is there, and every
    /// directory above it.
    pub fn add_dir(&mut self, path: &Vec<String>)
        requires
            old(self).wf(),
            below(old(self).root_path(), path@),
            clear(old(self).root_dir().tree(), old(self).relative(path@), None),
        ensures
            final(self).wf(),
            final(self).root_path() == old(self).root_path(),
            final(self).files() == old(self).files(),
            final(self).root_dir().name == old(self).root_dir().name,
            final(self).root_dir().tree() == spec_put(
                old(self).root_dir().tree(),
                old(self).relative(path@),
                None,
            ),
    {
        proof {
            assert(parts_of(path@).subrange(self.root_path@.len() as int, path@.len() as int)
                =~= self.relative(path@));
        }
        put(&mut self.root_dir, path, self.root_path.len(), path.len(), None);
    }

    /// The names above the last name of `path`, below the root.
    pub open spec fn relative_parent(&self, path: Seq<String>) -> Seq<Seq<char>> {
        parts_of(path).subrange(self.root_path().len() as int, path.len() - 1)
    }

    /// Adds a file at `path`, and the directories above it. Bytes that the
    /// blob already holds are not stored again: the file then shares the
    /// place of the first file with the same bytes.
    pub fn add_file(&mut self, path: &Vec<String>, data: Vec<u8>)
        requires
            old(self).wf(),
            below(old(self).root_path(), path@),
            path@.len() > old(self).root_path().len(),
            clear(
                old(self).root_dir().tree(),
                old(self).relative_parent(path@),
                Some(path@.last()@),
            ),
            old(self).blob_len() + data@.len() <= u64::MAX,
        ensures
            final(self).wf(),
            final(self).root_path() == old(self).root_path(),
            final(self).root_dir().name == old(self).root_dir().name,
            final(self).root_dir().tree() == spec_put(
                old(self).root_dir().tree(),
                old(self).relative_parent(path@),
                Some(
                    Leaf {
                        name: path@.last()@,
                        node: Node::File {
                            offset: spec_offset(old(self).files(), data@) as u64,
                            len: data@.len() as u64,
                        },
                    },
                ),
            ),
            final(self).files() == (if first_same(
                old(self).files(),
                data@,
                old(self).files().len() as int,
            ) is None {
                old(self).files().push(data)
            } else {
                old(self).files()
            }),
    {
        let mut offset = self.current_offset;
        let mut start: u64 = 0;
        let mut found = false;
        let mut i: usize = 0;
        while i < self.files.len() && !found
            invariant
                i <= self.files@.len(),
                self.files@ == old(self).files@,
                self.current_offset == total_len(self.files@, self.files@.len() as int),
                first_same(self.files@, data@, i as int) is None,
                !found ==> start == total_len(self.files@, i as int) && offset
                    == self.current_offset,
                found ==> i < self.files@.len() && self.files@[i as int]@ == data@ && offset
                    == total_len(self.files@, i as int),
            decreases self.files@.len() - i + (if found { 0int } else { 1 }),
        {
            if same_bytes(&self.files[i], &data) {
                offset = start;
                found = true;
            } else {
                proof {
                    lemma_total_len_grows(self.files@, i as int + 1, self.files@.len() as int);
                }
                start = start + self.files[i].len() as u64;
                i += 1;
            }
        }
        proof {
            let n = self.files@.len() as int;
            if found {
                lemma_first_same_found(self.files@, data@, i as int, n);
            }
            lemma_total_len_grows(self.files@, 0, n);
        }
        let name = path[path.len() - 1].clone();
        let data_len = data.len();
        let file = VirtualFile { name, offset, len: data_len as u64 };
        put(&mut self.root_dir, path, self.root_path.len(), path.len() - 1, Some(VfsEntry::File(file)));
        if !found {
            proof {
                lemma_total_len_pushed(self.files@, data, self.files@.len() as int);
            }
            self.files.push(data);
            self.current_offset += data_len as u64;
        }
    }

    /// Adds a link at `path` that points to `target`, and the directories
    /// above it.
    pub fn add_symlink(&mut self, path: &Vec<String>, target: &Vec<String>)
        requires
            old(self).wf(),
            below(old(self).root_path(), path@),
            below(old(self).root_path(), target@),
            path@.len() > old(self).root_path().len(),
            clear(
                old(self).root_dir().tree(),
                old(self).relative_parent(path@),
                Some(path@.last()@),
            ),
        ensures
            final(self).wf(),
            final(self).root_path() == old(self).root_path(),
            final(self).files() == old(self).files(),
            final(self).root_dir().name == old(self).root_dir().name,
            final(self).root_dir().tree() == spec_put(
                old(self).root_dir().tree(),
                old(self).relative_parent(path@),
                Some(
                    Leaf {
                        name: path@.last()@,
                        node: Node::Symlink { dest: old(self).relative(target@) },
                    },
                ),
            ),
    {
        let mut dest_parts: Vec<String> = Vec::new();
        let mut i: usize = self.root_path.len();
        while i < target.len()
            invariant
                self.root_path@.len() <= i <= target@.len(),
                dest_parts@.len() == i - self.root_path@.len(),
                forall|j: int|
                    0 <= j < dest_parts@.len() ==> (#[trigger] dest_parts@[j])@ == target@[self.root_path@.len()
                        + j]@,
            decreases target@.len() - i,
        {
            dest_parts.push(target[i].clone());
            i += 1;
        }
        proof {
            assert(parts_of(dest_parts@) =~= self.relative(target@));
        }
        let name = path[path.len() - 1].clone();
        let symlink = VirtualSymlink { name, dest_parts };
        put(
            &mut self.root_dir,
            path,
            self.root_path.len(),
            path.len() - 1,
            Some(VfsEntry::Symlink(symlink)),
        );
    }

    /// Hands out the tree and the files of the blob, in the order in which
    /// they go into it.
    pub fn into_dir_and_files(self) -> (r: (VirtualDirectory, Vec<Vec<u8>>))
        ensures
            r.0 == self.root_dir(),
            r.1@ == self.files(),
            self.wf() ==> r.0.wf(),
    {
        (self.root_dir, self.files)
    }
}

impl VirtualDirectory {
    proof fn lemma_absent_below(&self, path: Seq<Seq<char>>, k: int, m: int)
        requires
            0 < k <= m <= path.len(),
            !(self.node_at(path.take(k)) is Some && self.node_at(path.take(k))->0 is Dir),
        ensures
            k < m ==> self.node_at(path.take(m)) is None,
        decreases k,
    {
        if k < m {
            let short = path.take(k);
            let long = path.take(m);
            assert(long[0] == short[0]);
            if k == 1 {
                assert(short.len() == 1);
            } else {
                match self.index_of(short[0]) {
                    Some(i) => match self.entries@[i] {
                        VfsEntry::Dir(below) => {
                            let rest = path.drop_first();
                            assert(short.drop_first() =~= rest.take(k - 1));
                            assert(long.drop_first() =~= rest.take(m - 1));
                            below.lemma_absent_below(rest, k - 1, m - 1);
                        },
                        _ => {},
                    },
                    None => {},
                }
            }
        }
    }
}

impl VfsBuilder {
    /// Whether the way is clear for the directories of `path` below the
    /// root, the last name being that of a leaf if `leaf` says so.
    pub open spec fn way_is_clear(&self, path: Seq<String>, leaf: bool) -> bool {
        &&& below(self.root_path(), path)
        &&& if leaf {
            path.len() > self.root_path().len() && clear(
                self.root_dir().tree(),
                self.relative_parent(path),
                Some(path.last()@),
            )
        } else {
            clear(self.root_dir().tree(), self.relative(path), None)
        }
    }

    /// Says whether a directory can be made at `path`, or a file or a link
    /// put there if `leaf` says so: the path lies below the root, nothing
    /// but directories stands in the way, and nothing stands where a leaf
    /// would go.
    pub fn can_add(&self, path: &Vec<String>, leaf: bool) -> (b: bool)
        requires
            self.wf(),
        ensures
            b == self.way_is_clear(path@, leaf),
    {
        if !is_below(&self.root_path, path) {
            return false;
        }
        if leaf && path.len() == self.root_path.len() {
            return false;
        }
        let from = self.root_path.len();
        let to = if leaf {
            path.len() - 1
        } else {
            path.len()
        };
        let ghost dirs = parts_of(path@).subrange(from as int, to as int);
        let ghost tree = self.root_dir.tree();
        proof {
            if !leaf {
                assert(dirs =~= self.relative(path@));
            }
            assert(dirs.take(0) =~= Seq::<Seq<char>>::empty());
        }
        let mut current: &VirtualDirectory = &self.root_dir;
        let mut i: usize = from;
        while i < to
            invariant
                self.root_dir.wf(),
                from <= i <= to <= path@.len(),
                from == self.root_path@.len(),
                to == (if leaf { path@.len() - 1 } else { path@.len() as int }),
                below(self.root_path@, path@),
                !leaf ==> dirs == self.relative(path@),
                dirs == parts_of(path@).subrange(from as int, to as int),
                tree == self.root_dir.tree(),
                self.root_dir.dir_at(dirs.take(i - from)) == Some(*current),
                forall|k: int|
                    0 < k <= i - from ==> self.root_dir.node_at(#[trigger] dirs.take(k)) == Some(
                        Node::Dir,
                    ),
            decreases to - i,
        {
            let ghost done = dirs.take(i - from);
            let ghost name = path@[i as int]@;
            proof {
                self.root_dir.lemma_dir_at_wf(done);
                self.root_dir.lemma_dir_at_step(done, name);
                assert(dirs.take(i - from + 1) =~= done.push(name));
            }
            match current.find(path[i].as_str()) {
                Ok(index) => match &current.entries[index] {
                    VfsEntry::Dir(below) => {
                        current = below;
                    },
                    _ => {
                        proof {
                            let at = dirs.take(i - from + 1);
                            assert(along(dirs, at));
                            assert(tree.contains_key(at) && !(tree[at] is Dir));
                        }
                        return false;
                    },
                },
                Err(_) => {
                    proof {
                        let stop = i - from + 1;
                        assert forall|at: Seq<Seq<char>>|
                            along(dirs, at) && #[trigger] tree.contains_key(at) implies tree[at] is Dir by {
                            let k = at.len() as int;
                            if k > stop {
                                self.root_dir.lemma_absent_below(dirs, stop, k);
                            } else if k < stop {
                                assert(self.root_dir.node_at(dirs.take(k)) == Some(Node::Dir));
                            }
                        }
                        if leaf {
                            let target = dirs.push(path@.last()@);
                            assert(target.take(stop) =~= dirs.take(stop));
                            assert(target.take(target.len() as int) =~= target);
                            self.root_dir.lemma_absent_below(target, stop, target.len() as int);
                        }
                    }
                    return true;
                },
            }
            i += 1;
        }
        proof {
            assert(dirs.take(dirs.len() as int) =~= dirs);
            assert forall|at: Seq<Seq<char>>|
                along(dirs, at) && #[trigger] tree.contains_key(at) implies tree[at] is Dir by {
                assert(self.root_dir.node_at(dirs.take(at.len() as int)) == Some(Node::Dir));
            }
            self.root_dir.lemma_dir_at_wf(dirs);
            if leaf {
                self.root_dir.lemma_dir_at_step(dirs, path@.last()@);
            }
        }
        if leaf {
            current.find(path[path.len() - 1].as_str()).is_err()
        } else {
            true
        }
    }

    /// Says whether `path` lies below the root of the tree.
    pub fn is_under_root(&self, path: &Vec<String>) -> (b: bool)
        ensures
            b == below(self.root_path(), path@),
    {
        is_below(&self.root_path, path)
    }

    /// Whether the blob can take `len` more bytes.
    pub fn has_room_for(&self, len: usize) -> (b: bool)
        requires
            self.wf(),
        ensures
            b == (self.blob_len() + len <= u64::MAX),
    {
        len as u64 <= u64::MAX - self.current_offset
    }
}

impl VirtualDirectory {
    /// Says whether this directory and every directory below it is
    /// sorted, as a tree that was read back from a blob has to be before
    /// paths are looked up in it.
    pub fn check(&self) -> (b: bool)
        ensures
            b == self.wf(),
        decreases self,
    {
        let mut i: usize = 0;
        while i < self.entries.len()
            invariant
                i <= self.entries@.len(),
                forall|x: int, y: int|
                    0 <= x < y < i ==> name_lt(
                        #[trigger] self.entries@[x].spec_name(),
                        #[trigger] self.entries@[y].spec_name(),
                    ),
                forall|x: int| 0 <= x < i ==> (#[trigger] self.entries@[x]).wf(),
            decreases self.entries@.len() - i,
        {
            if i > 0 {
                match compare_names(self.entries[i - 1].name(), self.entries[i].name()) {
                    NameOrder::Less => {
                        proof {
                            let last = self.entries@[i as int - 1].spec_name();
                            let next = self.entries@[i as int].spec_name();
                            assert forall|x: int| 0 <= x < i implies name_lt(
                                #[trigger] self.entries@[x].spec_name(),
                                next,
                            ) by {
                                if x < i - 1 {
                                    lemma_name_trans(self.entries@[x].spec_name(), last, next);
                                }
                            }
                        }
                    },
                    _ => {
                        proof {
                            assert(!name_lt(
                                self.entries@[i as int - 1].spec_name(),
                                self.entries@[i as int].spec_name(),
                            ));
                        }
                        return false;
                    },
                }
            }
            let below_ok = match &self.entries[i] {
                VfsEntry::Dir(below) => below.check(),
                _ => true,
            };
            if !below_ok {
                proof {
                    assert(!self.entries@[i as int].wf());
                }
                return false;
            }
            i += 1;
        }
        true
    }
}

proof fn lemma_first_same_found(files: Seq<Vec<u8>>, data: Seq<u8>, i: int, n: int)
    requires
        0 <= i < n <= files.len(),
        first_same(files, data, i) is None,
        files[i]@ == data,
    ensures
        first_same(files, data, n) == Some(i),
    decreases n - i,
{
    if i + 1 < n {
        lemma_first_same_found(files, data, i, n - 1);
    }
}

/// An entry of the tree, borrowed.
#[derive(Debug)]
pub enum VfsEntryRef<'a> {
    Dir(&'a VirtualDirectory),
    File(&'a VirtualFile),
    Symlink(&'a VirtualSymlink),
}

/// What a file system tells about an entry. A packed tree knows the kind
/// of the entry and the size of a file; everything else is zero or
/// unknown.
#[derive(Clone, Copy, Debug, PartialEq, Eq, Structural)]
pub struct FsStat {
    pub is_directory: bool,
    pub is_file: bool,
    pub is_symlink: bool,
    pub atime: Option<u64>,
    pub birthtime: Option<u64>,
    pub mtime: Option<u64>,
    pub blksize: u64,
    pub size: u64,
    pub dev: u64,
    pub ino: u64,
    pub mode: u32,
    pub nlink: u64,
    pub uid: u32,
    pub gid: u32,
    pub rdev: u64,
    pub blocks: u64,
}

/// What is told about an entry that is `node`.
pub open spec fn spec_fs_state(node: Node) -> FsStat {
    FsStat {
        is_directory: node is Dir,
        is_file: node is File,
        is_symlink: node is Symlink,
        atime: None,
        birthtime: None,
        mtime: None,
        blksize: 0,
        size: match node {
            Node::File { len, .. } => len,
            _ => 0,
        },
        dev: 0,
        ino: 0,
        mode: 0,
        nlink: 0,
        uid: 0,
        gid: 0,
        rdev: 0,
        blocks: 0,
    }
}

impl<'a> VfsEntryRef<'a> {
    pub open spec fn spec_name(&self) -> Seq<char> {
        match self {
            VfsEntryRef::Dir(dir) => dir.name@,
            VfsEntryRef::File(file) => file.name@,
            VfsEntryRef::Symlink(symlink) => symlink.name@,
        }
    }

    /// What the entry is, without what is below it.
    pub open spec fn node(&self) -> Node {
        match self {
            VfsEntryRef::Dir(_) => Node::Dir,
            VfsEntryRef::File(file) => Node::File { offset: file.offset, len: file.len },
            VfsEntryRef::Symlink(symlink) => Node::Symlink { dest: parts_of(symlink.dest_parts@) },
        }
    }

    pub fn name(&self) -> (s: &str)
        ensures
            s@ == self.spec_name(),
    {
        match self {
            VfsEntryRef::Dir(dir) => dir.name.as_str(),
            VfsEntryRef::File(file) => file.name.as_str(),
            VfsEntryRef::Symlink(symlink) => symlink.name.as_str(),
        }
    }

    /// What a file system tells about the entry.
    pub fn as_fs_state(&self) -> (stat: FsStat)
        ensures
            stat == spec_fs_state(self.node()),
    {
        let (is_directory, is_file, is_symlink, size) = match self {
            VfsEntryRef::Dir(_) => (true, false, false, 0),
            VfsEntryRef::File(file) => (false, true, false, file.len),
            VfsEntryRef::Symlink(_) => (false, false, true, 0),
        };
        FsStat {
            is_directory,
            is_file,
            is_symlink,
            atime: None,
            birthtime: None,
            mtime: None,
            blksize: 0,
            size,
            dev: 0,
            ino: 0,
            mode: 0,
            nlink: 0,
            uid: 0,
            gid: 0,
            rdev: 0,
            blocks: 0,
        }
    }
}

impl VfsEntry {
    /// The same entry, borrowed.
    pub fn as_ref(&self) -> (r: VfsEntryRef<'_>)
        ensures
            r.node() == self.node(),
            r.spec_name() == self.spec_name(),
            match (r, *self) {
                (VfsEntryRef::Dir(a), VfsEntry::Dir(b)) => *a == b,
                (VfsEntryRef::File(a), VfsEntry::File(b)) => *a == b,
                (VfsEntryRef::Symlink(a), VfsEntry::Symlink(b)) => *a == b,
                _ => false,
            },
    {
        match self {
            VfsEntry::Dir(dir) => VfsEntryRef::Dir(dir),
            VfsEntry::File(file) => VfsEntryRef::File(file),
            VfsEntry::Symlink(symlink) => VfsEntryRef::Symlink(symlink),
        }
    }
}

fn join_parts(head: &Vec<String>, tail: &Vec<String>) -> (joined: Vec<String>)
    ensures
        parts_of(joined@) == parts_of(head@) + parts_of(tail@),
{
    let mut joined = copy_parts(head, 0, head.len());
    let mut i: usize = 0;
    while i < tail.len()
        invariant
            i <= tail@.len(),
            joined@.len() == head@.len() + i,
            forall|j: int| 0 <= j < head@.len() ==> (#[trigger] joined@[j])@ == head@[j]@,
            forall|j: int| 0 <= j < i ==> (#[trigger] joined@[head@.len() + j])@ == tail@[j]@,
        decreases tail@.len() - i,
    {
        joined.push(tail[i].clone());
        i += 1;
    }
    proof {
        let both = parts_of(head@) + parts_of(tail@);
        assert(parts_of(joined@).len() == both.len());
        assert forall|j: int| 0 <= j < both.len() implies parts_of(joined@)[j] == both[j] by {
            if j >= head@.len() {
                assert(joined@[head@.len() + (j - head@.len())]@ == tail@[j - head@.len()]@);
            }
        }
        assert(parts_of(joined@) =~= both);
    }
    joined
}

impl VirtualSymlink {
    /// The path that the link points to, given the path of the root.
    pub fn resolve_dest_from_root(&self, root: &Vec<String>) -> (dest: Vec<String>)
        ensures
            parts_of(dest@) == parts_of(root@) + parts_of(self.dest_parts@),
    {
        join_parts(root, &self.dest_parts)
    }
}

fn copy_parts(parts: &Vec<String>, from: usize, to: usize) -> (copy: Vec<String>)
    requires
        from <= to <= parts@.len(),
    ensures
        parts_of(copy@) == parts_of(parts@).subrange(from as int, to as int),
        copy@.len() == to - from,
        forall|j: int| 0 <= j < copy@.len() ==> (#[trigger] copy@[j])@ == parts@[from + j]@,
{
    let mut copy: Vec<String> = Vec::new();
    let mut i: usize = from;
    while i < to
        invariant
            from <= i <= to <= parts@.len(),
            copy@.len() == i - from,
            forall|j: int| 0 <= j < copy@.len() ==> (#[trigger] copy@[j])@ == parts@[from + j]@,
        decreases to - i,
    {
        copy.push(parts[i].clone());
        i += 1;
    }
    proof {
        assert(parts_of(copy@) =~= parts_of(parts@).subrange(from as int, to as int));
    }
    copy
}

/// Why a path is not found in a tree.
#[derive(Clone, Copy, Debug, PartialEq, Eq, Structural)]
pub enum VfsError {
    /// Nothing stands at the path, or the path leaves the tree.
    NotFound,
    /// Links lead to links without end.
    CircularSymlinks,
    /// A directory stands where a file is asked for.
    IsDirectory,
    /// The file lies beyond what a blob can hold.
    OutOfRange,
}

impl VfsError {
    pub open spec fn spec_message(self) -> Seq<char> {
        match self {
            VfsError::NotFound => "path not found"@,
            VfsError::CircularSymlinks => "circular symlinks"@,
            VfsError::IsDirectory => "path is a directory"@,
            VfsError::OutOfRange => "file out of range"@,
        }
    }

    /// The error in words.
    pub fn message(&self) -> (s: &'static str)
        ensures
            s@ == self.spec_message(),
    {
        match self {
            VfsError::NotFound => "path not found",
            VfsError::CircularSymlinks => "circular symlinks",
            VfsError::IsDirectory => "path is a directory",
            VfsError::OutOfRange => "file out of range",
        }
    }
}

/// What a search ends at: the path below the root, with every link along
/// it resolved, and what stands there.
pub struct Found {
    pub path: Seq<Seq<char>>,
    pub node: Node,
}

/// Where the path `rel` below the root of `dir` leads, if links along the
/// way are followed and the last name is not. `budget` is how many links
/// may be followed one inside the other.
pub open spec fn spec_no_follow(dir: VirtualDirectory, rel: Seq<Seq<char>>, budget: nat) -> Result<Found, VfsError>
    decreases budget, 0nat, rel.len(),
{
    if rel.len() == 0 {
        Ok(Found { path: Seq::empty(), node: Node::Dir })
    } else {
        match spec_no_follow(dir, rel.drop_last(), budget) {
            Err(e) => Err(e),
            Ok(prev) => {
                let base: Result<Seq<Seq<char>>, VfsError> = match prev.node {
                    Node::Dir => Ok(prev.path),
                    Node::File { .. } => Err(VfsError::NotFound),
                    Node::Symlink { dest } => if budget == 0 {
                        Err(VfsError::CircularSymlinks)
                    } else {
                        match spec_follow(dir, dest, (budget - 1) as nat) {
                            Err(e) => Err(e),
                            Ok(target) => if target.node is Dir {
                                Ok(target.path)
                            } else {
                                Err(VfsError::NotFound)
                            },
                        }
                    },
                };
                match base {
                    Err(e) => Err(e),
                    Ok(base) => {
                        let path = base.push(rel.last());
                        match dir.node_at(path) {
                            Some(node) => Ok(Found { path, node }),
                            None => Err(VfsError::NotFound),
                        }
                    },
                }
            },
        }
    }
}

/// Where the path `rel` below the root of `dir` leads, if every link is
/// followed, the last name too.
pub open spec fn spec_follow(dir: VirtualDirectory, rel: Seq<Seq<char>>, budget: nat) -> Result<Found, VfsError>
    decreases budget, 1nat, rel.len(),
{
    match spec_no_follow(dir, rel, budget) {
        Err(e) => Err(e),
        Ok(found) => match found.node {
            Node::Symlink { dest } => if budget == 0 {
                Err(VfsError::CircularSymlinks)
            } else {
                spec_follow(dir, dest, (budget - 1) as nat)
            },
            _ => Ok(found),
        },
    }
}

impl VirtualDirectory {
    /// The directory at `path` below this one, links not followed.
    pub open spec fn dir_at(&self, path: Seq<Seq<char>>) -> Option<VirtualDirectory>
        decreases path.len(),
    {
        if path.len() == 0 {
            Some(*self)
        } else {
            match self.index_of(path[0]) {
                Some(i) => match self.entries@[i] {
                    VfsEntry::Dir(dir) => dir.dir_at(path.drop_first()),
                    _ => None,
                },
                None => None,
            }
        }
    }

    proof fn lemma_dir_at_wf(&self, path: Seq<Seq<char>>)
        requires
            self.wf(),
            self.dir_at(path) is Some,
        ensures
            self.dir_at(path)->0.wf(),
        decreases path.len(),
    {
        if path.len() > 0 {
            let i = self.index_of(path[0])->0;
            assert(self.entries@[i].wf());
            self.entries@[i]->Dir_0.lemma_dir_at_wf(path.drop_first());
        }
    }

    proof fn lemma_dir_at_step(&self, path: Seq<Seq<char>>, name: Seq<char>)
        requires
            self.dir_at(path) is Some,
        ensures
            self.node_at(path.push(name)) == (match self.dir_at(path)->0.index_of(name) {
                Some(j) => Some(self.dir_at(path)->0.entries@[j].node()),
                None => None,
            }),
            self.dir_at(path.push(name)) == (match self.dir_at(path)->0.index_of(name) {
                Some(j) => match self.dir_at(path)->0.entries@[j] {
                    VfsEntry::Dir(below) => Some(below),
                    _ => None,
                },
                None => None,
            }),
        decreases path.len(),
    {
        let longer = path.push(name);
        if path.len() == 0 {
            assert(longer.drop_first() =~= Seq::<Seq<char>>::empty());
            assert(self.dir_at(path) == Some(*self));
            match self.index_of(name) {
                Some(j) => {
                    match self.entries@[j] {
                        VfsEntry::Dir(below) => {
                            assert(below.dir_at(longer.drop_first()) == Some(below));
                        },
                        _ => {},
                    }
                },
                None => {},
            }
        } else {
            assert(longer[0] == path[0]);
            assert(longer.drop_first() =~= path.drop_first().push(name));
            let i = self.index_of(path[0])->0;
            self.entries@[i]->Dir_0.lemma_dir_at_step(path.drop_first(), name);
        }
    }
}

/// A packed tree with the path that it stands for and the place in the
/// blob where its files begin.
pub struct VfsRoot {
    pub dir: VirtualDirectory,
    pub root: Vec<String>,
    pub start_file_offset: u64,
}

/// Whether `entry` at `path` is what a search had to end at: the entry
/// that stands at the path found, under the last name of that path.
pub open spec fn ends_at(dir: VirtualDirectory, path: Seq<String>, entry: VfsEntryRef<'_>, found: Found) -> bool {
    &&& parts_of(path) == found.path
    &&& entry.node() == found.node
    &&& found.path.len() > 0 ==> entry.spec_name() == found.path.last()
    &&& entry matches VfsEntryRef::Dir(d) ==> dir.dir_at(found.path) == Some(*d)
}

/// Whether a search gave what it had to give.
pub open spec fn agrees(
    dir: VirtualDirectory,
    r: Result<(Vec<String>, VfsEntryRef<'_>), VfsError>,
    expected: Result<Found, VfsError>,
) -> bool {
    match expected {
        Ok(found) => r matches Ok(pair) && ends_at(dir, pair.0@, pair.1, found),
        Err(e) => r matches Err(got) && got == e,
    }
}

impl VfsRoot {
    /// Finds `rel` below the root, following the links along the way but
    /// not a link at the end.
    pub fn find_entry_no_follow_inner<'a>(&'a self, rel: &Vec<String>, budget: usize) -> (r: Result<
        (Vec<String>, VfsEntryRef<'a>),
        VfsError,
    >)
        requires
            self.dir.wf(),
        ensures
            agrees(self.dir, r, spec_no_follow(self.dir, parts_of(rel@), budget as nat)),
        decreases budget, 0nat,
    {
        let ghost all = parts_of(rel@);
        let mut final_path: Vec<String> = Vec::new();
        let mut current: VfsEntryRef<'a> = VfsEntryRef::Dir(&self.dir);
        let mut i: usize = 0;
        proof {
            assert(all.take(0) =~= Seq::<Seq<char>>::empty());
            assert(parts_of(final_path@) =~= Seq::<Seq<char>>::empty());
        }
        while i < rel.len()
            invariant
                self.dir.wf(),
                all == parts_of(rel@),
                i <= rel@.len(),
                spec_no_follow(self.dir, all.take(i as int), budget as nat) is Ok,
                ends_at(
                    self.dir,
                    final_path@,
                    current,
                    spec_no_follow(self.dir, all.take(i as int), budget as nat)->Ok_0,
                ),
            decreases rel@.len() - i,
        {
            let ghost next = all.take(i as int + 1);
            let ghost prev = spec_no_follow(self.dir, all.take(i as int), budget as nat)->Ok_0;
            proof {
                assert(next.drop_last() =~= all.take(i as int));
                assert(next.last() == rel@[i as int]@);
                if spec_no_follow(self.dir, next, budget as nat) is Err {
                    lemma_no_follow_fails_on(self.dir, all, budget as nat, i as int + 1);
                }
            }
            let current_dir: &'a VirtualDirectory = match current {
                VfsEntryRef::Dir(dir) => dir,
                VfsEntryRef::File(_) => {
                    return Err(VfsError::NotFound);
                },
                VfsEntryRef::Symlink(symlink) => {
                    if budget == 0 {
                        return Err(VfsError::CircularSymlinks);
                    }
                    let (resolved, entry) = self.find_entry_inner(&symlink.dest_parts, budget - 1)?;
                    final_path = resolved;
                    match entry {
                        VfsEntryRef::Dir(dir) => dir,
                        _ => {
                            return Err(VfsError::NotFound);
                        },
                    }
                },
            };
            let ghost base = parts_of(final_path@);
            proof {
                assert(self.dir.dir_at(base) == Some(*current_dir));
                self.dir.lemma_dir_at_wf(base);
                self.dir.lemma_dir_at_step(base, rel@[i as int]@);
            }
            final_path.push(rel[i].clone());
            proof {
                assert(parts_of(final_path@) =~= base.push(rel@[i as int]@));
            }
            match current_dir.find(rel[i].as_str()) {
                Ok(index) => {
                    current = current_dir.entries[index].as_ref();
                },
                Err(_) => {
                    return Err(VfsError::NotFound);
                },
            }
            i += 1;
        }
        proof {
            assert(all.take(rel@.len() as int) =~= all);
        }
        Ok((final_path, current))
    }

    /// Finds `rel` below the root, following every link.
    pub fn find_entry_inner<'a>(&'a self, rel: &Vec<String>, budget: usize) -> (r: Result<
        (Vec<String>, VfsEntryRef<'a>),
        VfsError,
    >)
        requires
            self.dir.wf(),
        ensures
            agrees(self.dir, r, spec_follow(self.dir, parts_of(rel@), budget as nat)),
        decreases budget, 1nat,
    {
        let (resolved, entry) = self.find_entry_no_follow_inner(rel, budget)?;
        match entry {
            VfsEntryRef::Symlink(symlink) => {
                if budget == 0 {
                    return Err(VfsError::CircularSymlinks);
                }
                self.find_entry_inner(&symlink.dest_parts, budget - 1)
            },
            _ => Ok((resolved, entry)),
        }
    }
}

/// How many links stand among the first `n` entries of `dir` and below
/// them.
pub open spec fn links_upto(dir: VirtualDirectory, n: int) -> nat
    decreases dir, n,
{
    if n <= 0 || n > dir.entries@.len() {
        0
    } else {
        links_upto(dir, n - 1) + (match dir.entries@[n - 1] {
            VfsEntry::Symlink(_) => 1nat,
            VfsEntry::Dir(below) => links_upto(below, below.entries@.len() as int),
            VfsEntry::File(_) => 0nat,
        })
    }
}

/// How many links a search may follow one inside the other: as many as
/// the tree holds, or as many as a machine can count.
pub open spec fn spec_budget(dir: VirtualDirectory) -> nat {
    let links = links_upto(dir, dir.entries@.len() as int);
    if links <= usize::MAX {
        links
    } else {
        usize::MAX as nat
    }
}

fn count_links(dir: &VirtualDirectory) -> (n: usize)
    ensures
        n == spec_budget(*dir),
    decreases dir,
{
    let mut count: usize = 0;
    let mut i: usize = 0;
    while i < dir.entries.len()
        invariant
            i <= dir.entries@.len(),
            count == (if links_upto(*dir, i as int) <= usize::MAX {
                links_upto(*dir, i as int)
            } else {
                usize::MAX as nat
            }),
        decreases dir.entries@.len() - i,
    {
        let more: usize = match &dir.entries[i] {
            VfsEntry::Symlink(_) => 1,
            VfsEntry::Dir(below) => count_links(below),
            VfsEntry::File(_) => 0,
        };
        count = if more <= usize::MAX - count {
            count + more
        } else {
            usize::MAX
        };
        i += 1;
    }
    count
}

impl VfsRoot {
    pub open spec fn wf(&self) -> bool {
        self.dir.wf()
    }

    /// The names of `path` below the root.
    pub open spec fn relative(&self, path: Seq<String>) -> Seq<Seq<char>> {
        parts_of(path).skip(self.root@.len() as int)
    }

    /// Whether `r` is what a search for `path` had to give, if the search
    /// below the root had to give `expected`: the path from the root on,
    /// and the entry.
    pub open spec fn answers(
        &self,
        path: Seq<String>,
        r: Result<(Vec<String>, VfsEntryRef<'_>), VfsError>,
        expected: Result<Found, VfsError>,
    ) -> bool {
        if !below(self.root@, path) {
            r matches Err(e) && e == VfsError::NotFound
        } else {
            match expected {
                Ok(found) => r matches Ok(pair) && parts_of(pair.0@) == parts_of(self.root@)
                    + found.path && pair.1.node() == found.node && (found.path.len() > 0
                    ==> pair.1.spec_name() == found.path.last()) && (pair.1 matches VfsEntryRef::Dir(
                    d,
                ) ==> self.dir.dir_at(found.path) == Some(*d)),
                Err(e) => r matches Err(got) && got == e,
            }
        }
    }

    fn from_root<'a>(&self, r: Result<(Vec<String>, VfsEntryRef<'a>), VfsError>) -> (out: Result<
        (Vec<String>, VfsEntryRef<'a>),
        VfsError,
    >)
        ensures
            match r {
                Ok(pair) => out matches Ok(full) && full.1 == pair.1 && parts_of(full.0@)
                    == parts_of(self.root@) + parts_of(pair.0@),
                Err(e) => out matches Err(got) && got == e,
            },
    {
        match r {
            Ok((resolved, entry)) => Ok((join_parts(&self.root, &resolved), entry)),
            Err(e) => Err(e),
        }
    }

    /// Finds the entry at `path`, following every link. Returns the path
    /// with every link resolved, and the entry.
    pub fn find_entry<'a>(&'a self, path: &Vec<String>) -> (r: Result<
        (Vec<String>, VfsEntryRef<'a>),
        VfsError,
    >)
        requires
            self.wf(),
        ensures
            self.answers(
                path@,
                r,
                spec_follow(self.dir, self.relative(path@), spec_budget(self.dir)),
            ),
    {
        if !is_below(&self.root, path) {
            return Err(VfsError::NotFound);
        }
        let rel = copy_parts(path, self.root.len(), path.len());
        proof {
            assert(parts_of(rel@) =~= self.relative(path@));
        }
        let budget = count_links(&self.dir);
        self.from_root(self.find_entry_inner(&rel, budget))
    }

    /// Finds the entry at `path`, following the links along the way but
    /// not a link at the end.
    pub fn find_entry_no_follow<'a>(&'a self, path: &Vec<String>) -> (r: Result<
        (Vec<String>, VfsEntryRef<'a>),
        VfsError,
    >)
        requires
            self.wf(),
        ensures
            self.answers(
                path@,
                r,
                spec_no_follow(self.dir, self.relative(path@), spec_budget(self.dir)),
            ),
    {
        if !is_below(&self.root, path) {
            return Err(VfsError::NotFound);
        }
        let rel = copy_parts(path, self.root.len(), path.len());
        proof {
            assert(parts_of(rel@) =~= self.relative(path@));
        }
        let budget = count_links(&self.dir);
        self.from_root(self.find_entry_no_follow_inner(&rel, budget))
    }

    /// What the file system tells about the entry at `path`, a link at the
    /// end not followed.
    pub fn symlink_metadata(&self, path: &Vec<String>) -> (r: Result<FsStat, VfsError>)
        requires
            self.wf(),
        ensures
            r == stat_of(
                if below(self.root@, path@) {
                    spec_no_follow(self.dir, self.relative(path@), spec_budget(self.dir))
                } else {
                    Err(VfsError::NotFound)
                },
            ),
    {
        let (_, entry) = self.find_entry_no_follow(path)?;
        Ok(entry.as_fs_state())
    }

    /// What the file system tells about the entry at `path`, every link
    /// followed.
    pub fn metadata(&self, path: &Vec<String>) -> (r: Result<FsStat, VfsError>)
        requires
            self.wf(),
        ensures
            r == stat_of(
                if below(self.root@, path@) {
                    spec_follow(self.dir, self.relative(path@), spec_budget(self.dir))
                } else {
                    Err(VfsError::NotFound)
                },
            ),
    {
        let (_, entry) = self.find_entry(path)?;
        Ok(entry.as_fs_state())
    }

    /// The path of the entry at `path` with every link resolved.
    pub fn canonicalize(&self, path: &Vec<String>) -> (r: Result<Vec<String>, VfsError>)
        requires
            self.wf(),
        ensures
            if below(self.root@, path@) {
                match spec_follow(self.dir, self.relative(path@), spec_budget(self.dir)) {
                    Ok(found) => r matches Ok(full) && parts_of(full@) == parts_of(self.root@)
                        + found.path,
                    Err(e) => r matches Err(got) && got == e,
                }
            } else {
                r matches Err(e) && e == VfsError::NotFound
            },
    {
        let (resolved, _) = self.find_entry(path)?;
        Ok(resolved)
    }

    /// Where in the blob the file at `path` lies, every link followed:
    /// where it starts, and how long it is.
    pub fn file_range(&self, path: &Vec<String>) -> (r: Result<(u64, u64), VfsError>)
        requires
            self.wf(),
        ensures
            r == range_of(
                self.start_file_offset,
                if below(self.root@, path@) {
                    spec_follow(self.dir, self.relative(path@), spec_budget(self.dir))
                } else {
                    Err(VfsError::NotFound)
                },
            ),
    {
        let (_, entry) = self.find_entry(path)?;
        match entry {
            VfsEntryRef::Dir(_) => Err(VfsError::IsDirectory),
            VfsEntryRef::Symlink(_) => Err(VfsError::CircularSymlinks),
            VfsEntryRef::File(file) => {
                if file.offset > u64::MAX - self.start_file_offset {
                    Err(VfsError::OutOfRange)
                } else {
                    Ok((self.start_file_offset + file.offset, file.len))
                }
            },
        }
    }
}

/// What is told about the end of a search.
pub open spec fn stat_of(found: Result<Found, VfsError>) -> Result<FsStat, VfsError> {
    match found {
        Ok(found) => Ok(spec_fs_state(found.node)),
        Err(e) => Err(e),
    }
}

/// Where in a blob whose files begin at `start` the end of a search lies:
/// a file lies at its place after `start`; a directory is not a file.
pub open spec fn range_of(start: u64, found: Result<Found, VfsError>) -> Result<(u64, u64), VfsError> {
    match found {
        Ok(found) => match found.node {
            Node::File { offset, len } => if start + offset <= u64::MAX {
                Ok(((start + offset) as u64, len))
            } else {
                Err(VfsError::OutOfRange)
            },
            Node::Dir => Err(VfsError::IsDirectory),
            Node::Symlink { .. } => Err(VfsError::CircularSymlinks),
        },
        Err(e) => Err(e),
    }
}

proof fn lemma_no_follow_fails_on(dir: VirtualDirectory, rel: Seq<Seq<char>>, budget: nat, j: int)
    requires
        0 <= j <= rel.len(),
        spec_no_follow(dir, rel.take(j), budget) is Err,
    ensures
        spec_no_follow(dir, rel, budget) == spec_no_follow(dir, rel.take(j), budget),
    decreases rel.len() - j,
{
    if j < rel.len() {
        let next = rel.take(j + 1);
        assert(next.drop_last() =~= rel.take(j));
        assert(spec_no_follow(dir, next, budget) == spec_no_follow(dir, rel.take(j), budget));
        lemma_no_follow_fails_on(dir, rel, budget, j + 1);
    } else {
        assert(rel.take(j) =~= rel);
    }
}

} // verus!
