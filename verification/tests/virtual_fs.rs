use op_runtime::virtual_fs::{
    file_stem, VfsBuilder, VfsEntry, VfsEntryRef, VfsError, VfsRoot, VirtualDirectory,
};

fn path(parts: &[&str]) -> Vec<String> {
    parts.iter().map(|part| part.to_string()).collect()
}

fn join(base: &[String], parts: &[&str]) -> Vec<String> {
    let mut joined = base.to_vec();
    joined.extend(parts.iter().map(|part| part.to_string()));
    joined
}

/// The tree of a builder together with its blob, as a program would read
/// it back from a file.
struct Packed {
    root: VfsRoot,
    blob: Vec<u8>,
}

impl Packed {
    fn read_to_string(&self, path: &Vec<String>) -> Result<String, VfsError> {
        let (start, len) = self.root.file_range(path)?;
        let bytes = &self.blob[start as usize..(start + len) as usize];
        Ok(String::from_utf8(bytes.to_vec()).unwrap())
    }
}

fn into_virtual_fs(builder: VfsBuilder, temp_dir: &[String]) -> (Vec<String>, Packed) {
    let (root_dir, files) = builder.into_dir_and_files();
    let blob: Vec<u8> = files.iter().flatten().copied().collect();
    let dest_path = join(temp_dir, &["dest"]);
    let root = VfsRoot { dir: root_dir, root: dest_path.clone(), start_file_offset: 0 };
    (dest_path, Packed { root, blob })
}

#[test]
fn builds_and_uses_virtual_fs() {
    let temp_dir = path(&["", "tmp", "t"]);
    let src_path = join(&temp_dir, &["src"]);
    let mut builder = VfsBuilder::new(src_path.clone());
    builder.add_file(&join(&src_path, &["a.txt"]), "data".into());
    builder.add_file(&join(&src_path, &["b.txt"]), "data".into());
    builder.add_file(&join(&src_path, &["c.txt"]), "c".into());
    builder.add_file(&join(&src_path, &["sub_dir", "d.txt"]), "d".into());
    builder.add_file(&join(&src_path, &["e.txt"]), "e".into());
    builder.add_symlink(&join(&src_path, &["sub_dir", "e.txt"]), &join(&src_path, &["e.txt"]));

    // get the virtual fs
    let (dest_path, virtual_fs) = into_virtual_fs(builder, &temp_dir);
    // because of the duplicate data, four files are stored for five
    assert_eq!(virtual_fs.blob, b"datacde".to_vec());

    assert_eq!(virtual_fs.read_to_string(&join(&dest_path, &["a.txt"])).unwrap(), "data");
    assert_eq!(virtual_fs.read_to_string(&join(&dest_path, &["b.txt"])).unwrap(), "data");

    // attempt reading a symlink
    assert_eq!(
        virtual_fs.read_to_string(&join(&dest_path, &["sub_dir", "e.txt"])).unwrap(),
        "e",
    );

    // canonicalize symlink
    assert_eq!(
        virtual_fs.root.canonicalize(&join(&dest_path, &["sub_dir", "e.txt"])).unwrap(),
        join(&dest_path, &["e.txt"]),
    );

    // metadata
    assert!(
        virtual_fs.root.symlink_metadata(&join(&dest_path, &["sub_dir", "e.txt"])).unwrap().is_symlink
    );
    assert!(virtual_fs.root.metadata(&join(&dest_path, &["sub_dir", "e.txt"])).unwrap().is_file);
    assert!(virtual_fs.root.metadata(&join(&dest_path, &["sub_dir"])).unwrap().is_directory);
    assert!(virtual_fs.root.metadata(&join(&dest_path, &["e.txt"])).unwrap().is_file);
}

#[test]
fn test_include_dir_recursive() {
    // The tree that a recursive walk of the directory would add: two files
    // with the same bytes, a nested directory with one file, and a link to
    // that directory.
    let temp_dir = path(&["", "tmp", "t"]);
    let src_path = join(&temp_dir, &["src"]);
    let mut builder = VfsBuilder::new(src_path.clone());
    builder.add_dir(&src_path);
    builder.add_file(&join(&src_path, &["a.txt"]), "data".into());
    builder.add_file(&join(&src_path, &["b.txt"]), "data".into());
    builder.add_dir(&join(&src_path, &["nested"]));
    builder.add_dir(&join(&src_path, &["nested", "sub_dir"]));
    builder.add_file(&join(&src_path, &["nested", "sub_dir", "c.txt"]), "c".into());
    builder.add_symlink(
        &join(&src_path, &["sub_dir_link"]),
        &join(&src_path, &["nested", "sub_dir"]),
    );
    let (dest_path, virtual_fs) = into_virtual_fs(builder, &temp_dir);

    assert_eq!(virtual_fs.read_to_string(&join(&dest_path, &["a.txt"])).unwrap(), "data");
    assert_eq!(virtual_fs.read_to_string(&join(&dest_path, &["b.txt"])).unwrap(), "data");

    assert_eq!(
        virtual_fs.read_to_string(&join(&dest_path, &["nested", "sub_dir", "c.txt"])).unwrap(),
        "c",
    );
    assert_eq!(
        virtual_fs.read_to_string(&join(&dest_path, &["sub_dir_link", "c.txt"])).unwrap(),
        "c",
    );
    assert!(
        virtual_fs.root.symlink_metadata(&join(&dest_path, &["sub_dir_link"])).unwrap().is_symlink
    );

    assert_eq!(
        virtual_fs.root.canonicalize(&join(&dest_path, &["sub_dir_link", "c.txt"])).unwrap(),
        join(&dest_path, &["nested", "sub_dir", "c.txt"]),
    );
}

fn names(dir: &VirtualDirectory) -> Vec<&str> {
    dir.entries.iter().map(|entry| entry.name()).collect()
}

#[test]
fn entries_are_kept_sorted_by_name() {
    let root = path(&["r"]);
    let mut builder = VfsBuilder::new(root.clone());
    for name in ["m", "z", "a", "ab", "B", "é", "b"] {
        builder.add_file(&join(&root, &[name]), name.as_bytes().to_vec());
    }
    builder.add_dir(&join(&root, &["c", "d"]));
    let (dir, files) = builder.into_dir_and_files();
    assert_eq!(names(&dir), vec!["B", "a", "ab", "b", "c", "m", "z", "é"]);
    assert_eq!(files.len(), 7);
    match &dir.entries[4] {
        VfsEntry::Dir(c) => assert_eq!(names(c), vec!["d"]),
        other => panic!("not a directory: {:?}", other),
    }
    assert_eq!(dir.find("ab"), Ok(2));
    assert_eq!(dir.find("aa"), Err(2));
    assert_eq!(dir.find("zz"), Err(7));
}

#[test]
fn file_offsets_follow_the_blob() {
    let root = path(&["r"]);
    let mut builder = VfsBuilder::new(root.clone());
    builder.add_file(&join(&root, &["one"]), vec![1, 2, 3]);
    builder.add_file(&join(&root, &["two"]), vec![4, 5]);
    builder.add_file(&join(&root, &["three"]), vec![1, 2, 3]);
    builder.add_file(&join(&root, &["four"]), vec![6]);
    let (dir, files) = builder.into_dir_and_files();
    assert_eq!(files, vec![vec![1, 2, 3], vec![4, 5], vec![6]]);
    let packed = VfsRoot { dir, root: root.clone(), start_file_offset: 100 };
    assert_eq!(packed.file_range(&join(&root, &["one"])), Ok((100, 3)));
    assert_eq!(packed.file_range(&join(&root, &["two"])), Ok((103, 2)));
    assert_eq!(packed.file_range(&join(&root, &["three"])), Ok((100, 3)));
    assert_eq!(packed.file_range(&join(&root, &["four"])), Ok((105, 1)));
    assert_eq!(packed.file_range(&root), Err(VfsError::IsDirectory));
    assert_eq!(packed.file_range(&join(&root, &["five"])), Err(VfsError::NotFound));
    assert_eq!(packed.file_range(&path(&["elsewhere", "one"])), Err(VfsError::NotFound));
    assert_eq!(packed.file_range(&join(&root, &["one", "x"])), Err(VfsError::NotFound));
}

#[test]
fn circular_links_are_reported() {
    let root = path(&["r"]);
    let mut builder = VfsBuilder::new(root.clone());
    builder.add_symlink(&join(&root, &["a"]), &join(&root, &["b"]));
    builder.add_symlink(&join(&root, &["b"]), &join(&root, &["a"]));
    builder.add_symlink(&join(&root, &["self", "l"]), &join(&root, &["self", "l", "x"]));
    builder.add_file(&join(&root, &["f"]), vec![1]);
    builder.add_symlink(&join(&root, &["to_f"]), &join(&root, &["f"]));
    builder.add_symlink(&join(&root, &["to_to_f"]), &join(&root, &["to_f"]));
    let (dir, _) = builder.into_dir_and_files();
    let packed = VfsRoot { dir, root: root.clone(), start_file_offset: 0 };

    let err = packed.find_entry(&join(&root, &["a"])).unwrap_err();
    assert_eq!(err, VfsError::CircularSymlinks);
    assert_eq!(err.message(), "circular symlinks");
    assert_eq!(
        packed.metadata(&join(&root, &["self", "l", "x"])),
        Err(VfsError::CircularSymlinks)
    );
    assert!(packed.symlink_metadata(&join(&root, &["a"])).unwrap().is_symlink);

    let (resolved, entry) = packed.find_entry(&join(&root, &["to_to_f"])).unwrap();
    assert_eq!(resolved, join(&root, &["f"]));
    assert!(matches!(entry, VfsEntryRef::File(file) if file.len == 1));
    assert_eq!(entry.name(), "f");
    let stat = entry.as_fs_state();
    assert_eq!((stat.is_file, stat.size, stat.mode, stat.mtime), (true, 1, 0, None));
}

#[test]
fn stem_is_the_name_before_the_last_dot() {
    assert_eq!(file_stem("src"), "src");
    assert_eq!(file_stem("archive.tar.gz"), "archive.tar");
    assert_eq!(file_stem(".hidden"), ".hidden");
    assert_eq!(file_stem("a."), "a");
    assert_eq!(file_stem("é.txt"), "é");
    let (dir, _) = VfsBuilder::new(path(&["x", "app.bundle"])).into_dir_and_files();
    assert_eq!(dir.name, "app");
}

#[test]
fn way_is_checked_before_adding() {
    let root = path(&["r"]);
    let mut builder = VfsBuilder::new(root.clone());
    builder.add_file(&join(&root, &["d", "f"]), vec![1]);
    assert!(builder.can_add(&join(&root, &["d", "g"]), true));
    assert!(builder.can_add(&join(&root, &["d", "e", "g"]), true));
    assert!(builder.can_add(&join(&root, &["d"]), false));
    assert!(builder.can_add(&root, false));
    // the path is taken
    assert!(!builder.can_add(&join(&root, &["d", "f"]), true));
    assert!(!builder.can_add(&join(&root, &["d"]), true));
    assert!(!builder.can_add(&root, true));
    // a file is in the way
    assert!(!builder.can_add(&join(&root, &["d", "f"]), false));
    assert!(!builder.can_add(&join(&root, &["d", "f", "x"]), true));
    // the path lies elsewhere
    assert!(!builder.can_add(&path(&["s", "d"]), false));
    assert!(builder.is_under_root(&join(&root, &["x"])));
    assert!(!builder.is_under_root(&path(&["s"])));
    assert!(builder.has_room_for(1 << 20));

    let (dir, _) = builder.into_dir_and_files();
    assert!(dir.check());
    let file = |name: &str| VfsEntry::File(op_runtime::virtual_fs::VirtualFile {
        name: name.to_string(),
        offset: 0,
        len: 0,
    });
    let unsorted = VirtualDirectory { name: "x".to_string(), entries: vec![file("b"), file("a")] };
    assert!(!unsorted.check());
    let twice = VirtualDirectory { name: "x".to_string(), entries: vec![file("a"), file("a")] };
    assert!(!twice.check());
    let nested = VirtualDirectory { name: "y".to_string(), entries: vec![VfsEntry::Dir(unsorted)] };
    assert!(!nested.check());
}

#[test]
fn empty_files_are_stored_once() {
    let root = path(&["r"]);
    let mut builder = VfsBuilder::new(root.clone());
    builder.add_file(&join(&root, &["a"]), vec![]);
    builder.add_file(&join(&root, &["b"]), vec![]);
    builder.add_file(&join(&root, &["c"]), vec![7]);
    builder.add_file(&join(&root, &["d"]), vec![]);
    let (dir, files) = builder.into_dir_and_files();
    assert_eq!(files, vec![vec![], vec![7]]);
    let packed = VfsRoot { dir, root: root.clone(), start_file_offset: 0 };
    assert_eq!(packed.file_range(&join(&root, &["b"])), Ok((0, 0)));
    assert_eq!(packed.file_range(&join(&root, &["c"])), Ok((0, 1)));
    assert_eq!(packed.file_range(&join(&root, &["d"])), Ok((0, 0)));
}

#[test]
fn the_entry_found_bears_the_last_name_of_its_path() {
    // two files of the same place and length stand side by side
    let root = path(&["r"]);
    let mut builder = VfsBuilder::new(root.clone());
    builder.add_file(&join(&root, &["one"]), vec![1]);
    builder.add_file(&join(&root, &["two"]), vec![1]);
    builder.add_symlink(&join(&root, &["link"]), &join(&root, &["two"]));
    let (dir, _) = builder.into_dir_and_files();
    let packed = VfsRoot { dir, root: root.clone(), start_file_offset: 0 };
    let (resolved, entry) = packed.find_entry(&join(&root, &["link"])).unwrap();
    assert_eq!(resolved, join(&root, &["two"]));
    assert_eq!(entry.name(), "two");
    let (resolved, entry) = packed.find_entry_no_follow(&join(&root, &["link"])).unwrap();
    assert_eq!(resolved, join(&root, &["link"]));
    assert_eq!(entry.name(), "link");
    assert!(matches!(entry, VfsEntryRef::Symlink(link) if link.dest_parts == vec!["two".to_string()]));
    assert_eq!(packed.find_entry(&join(&root, &["one"])).unwrap().1.name(), "one");
}
