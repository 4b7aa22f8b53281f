use starry::vfs::dir::{chain, read_dir, ChainedDirOps, DirMapping, NodeOpsMux, SimpleDirOps};
use starry::vfs::error::VfsError;
use starry::vfs::name::{entry_less, less, rank};
use starry::vfs::node::NodeType;
use starry::vfs::tmp::{filesystem_name, MemoryFs, MetadataUpdate, TMPFS_MAGIC};

#[test]
fn names_are_ordered_like_strings() {
    let mut names: Vec<&str> = vec!["b", "", "abc", "ab", "B", "a", "\u{e9}", "z", "ab\0", "aa"];
    let mut sorted = names.clone();
    sorted.sort();
    names.sort_by(|a, b| {
        if less(a.as_bytes(), b.as_bytes()) {
            std::cmp::Ordering::Less
        } else if less(b.as_bytes(), a.as_bytes()) {
            std::cmp::Ordering::Greater
        } else {
            std::cmp::Ordering::Equal
        }
    });
    assert_eq!(names, sorted);
    assert!(!less(b"same", b"same"));
    assert!(less(b"", b"a"));
    assert!(!less(b"a", b""));
    assert!(less(b"a", b"b"));
    assert!(less(b"ab", b"abc"));
    assert!(less(b"Z", b"a"));
}

#[test]
fn directory_entries_put_dot_first() {
    assert_eq!(rank(b"."), 0);
    assert_eq!(rank(b".."), 1);
    assert_eq!(rank(b"..."), 2);
    assert_eq!(rank(b""), 2);
    assert_eq!(rank(b"a"), 2);
    assert!(entry_less(b".", b".."));
    assert!(entry_less(b"..", b"!"));
    assert!(entry_less(b".", b""));
    assert!(!entry_less(b"a", b"."));
    assert!(entry_less(b"a", b"b"));
    assert!(!entry_less(b".", b"."));
}

#[test]
fn dir_mapping_keeps_names_in_order() {
    let mut map = DirMapping::new();
    assert_eq!(map.len(), 0);
    assert_eq!(map.lookup_child("x"), Err(VfsError::NotFound));
    map.add("stat".to_string(), NodeOpsMux::File(1));
    map.add("cpuinfo".to_string(), NodeOpsMux::File(2));
    map.add("self".to_string(), NodeOpsMux::Dir(3));
    map.add("meminfo".to_string(), NodeOpsMux::File(4));
    assert_eq!(map.child_names(), vec!["cpuinfo", "meminfo", "self", "stat"]);
    assert_eq!(map.lookup_child("self"), Ok(NodeOpsMux::Dir(3)));
    assert_eq!(map.lookup_child("stat"), Ok(NodeOpsMux::File(1)));
    assert_eq!(map.lookup_child("sta"), Err(VfsError::NotFound));
    map.add("self".to_string(), NodeOpsMux::File(9));
    assert_eq!(map.len(), 4);
    assert_eq!(map.lookup_child("self"), Ok(NodeOpsMux::File(9)));
    assert!(map.is_cacheable());
    assert_eq!(DirMapping::default().len(), 0);
}

#[test]
fn chained_directories() {
    let mut first = DirMapping::new();
    first.add("a".to_string(), NodeOpsMux::File(1));
    first.add("both".to_string(), NodeOpsMux::File(2));
    let mut second = DirMapping::new();
    second.add("both".to_string(), NodeOpsMux::Dir(3));
    second.add("z".to_string(), NodeOpsMux::Dir(4));
    let both: ChainedDirOps<DirMapping, DirMapping> = chain(first, second);
    assert_eq!(both.child_names(), vec!["a", "both", "both", "z"]);
    assert_eq!(both.lookup_child("a"), Ok(NodeOpsMux::File(1)));
    assert_eq!(both.lookup_child("both"), Ok(NodeOpsMux::File(2)));
    assert_eq!(both.lookup_child("z"), Ok(NodeOpsMux::Dir(4)));
    assert_eq!(both.lookup_child("none"), Err(VfsError::NotFound));
    assert!(both.is_cacheable());
    assert_eq!(read_dir(&both, 0), vec![".", "..", "a", "both", "both", "z"]);
    assert_eq!(read_dir(&both, 1), vec!["..", "a", "both", "both", "z"]);
    assert_eq!(read_dir(&both, 2), vec!["a", "both", "both", "z"]);
    assert_eq!(read_dir(&both, 5), vec!["z"]);
    assert_eq!(read_dir(&both, 6), Vec::<String>::new());
    assert_eq!(read_dir(&both, u64::MAX), Vec::<String>::new());
}

fn names_in(fs: &MemoryFs, dir: u64) -> Vec<String> {
    let mut names: Vec<String> =
        fs.read_dir(dir, 0).unwrap().into_iter().map(|item| item.name).collect();
    names.sort();
    names
}

#[test]
fn a_new_file_system_has_only_its_root() {
    let fs = MemoryFs::new();
    assert!(fs.contains(1));
    assert!(!fs.contains(0));
    assert!(!fs.contains(2));
    let root = fs.metadata(1).unwrap();
    assert_eq!(root.inode, 1);
    assert_eq!(root.node_type, NodeType::Directory);
    assert_eq!(root.mode, 0o755);
    assert_eq!(root.nlink, 2);
    assert_eq!(root.size, 2);
    assert_eq!((root.uid, root.gid, root.device), (0, 0, 0));
    assert_eq!(fs.lookup(1, "."), Ok((1, NodeType::Directory)));
    assert_eq!(fs.lookup(1, ".."), Ok((1, NodeType::Directory)));
    assert_eq!(fs.lookup(1, "x"), Err(VfsError::NotFound));
    assert_eq!(names_in(&fs, 1), vec![".", ".."]);
    assert_eq!(filesystem_name(), "tmpfs");
    assert_eq!(TMPFS_MAGIC, 0x01021994);
    assert_eq!(fs.metadata(9), Err(VfsError::NotFound));
}

#[test]
fn create_lookup_and_unlink_a_file() {
    let mut fs = MemoryFs::new();
    let ino = fs.create(1, "hello".to_string(), NodeType::RegularFile, 0o644).unwrap();
    assert_ne!(ino, 1);
    assert_eq!(fs.lookup(1, "hello"), Ok((ino, NodeType::RegularFile)));
    let meta = fs.metadata(ino).unwrap();
    assert_eq!((meta.inode, meta.nlink, meta.mode, meta.size), (ino, 1, 0o644, 0));
    assert_eq!(fs.metadata(1).unwrap().size, 3);
    assert_eq!(fs.metadata(1).unwrap().nlink, 2);
    assert_eq!(
        fs.create(1, "hello".to_string(), NodeType::RegularFile, 0o600),
        Err(VfsError::AlreadyExists)
    );
    assert_eq!(
        fs.create(ino, "x".to_string(), NodeType::RegularFile, 0o600),
        Err(VfsError::NotADirectory)
    );
    assert_eq!(
        fs.create(77, "x".to_string(), NodeType::RegularFile, 0o600),
        Err(VfsError::NotFound)
    );
    assert_eq!(names_in(&fs, 1), vec![".", "..", "hello"]);
    assert_eq!(fs.unlink(1, "hello"), Ok(()));
    assert!(!fs.contains(ino));
    assert_eq!(fs.lookup(1, "hello"), Err(VfsError::NotFound));
    assert_eq!(fs.unlink(1, "hello"), Err(VfsError::NotFound));
    assert_eq!(fs.unlink(ino, "x"), Err(VfsError::NotFound));
    assert_eq!(fs.metadata(1).unwrap().size, 2);
}

#[test]
fn hard_links_keep_the_inode_alive() {
    let mut fs = MemoryFs::new();
    let ino = fs.create(1, "a".to_string(), NodeType::RegularFile, 0o644).unwrap();
    assert_eq!(fs.link(1, "b".to_string(), ino), Ok((ino, NodeType::RegularFile)));
    assert_eq!(fs.metadata(ino).unwrap().nlink, 2);
    assert_eq!(fs.link(1, "b".to_string(), ino), Err(VfsError::AlreadyExists));
    assert_eq!(fs.link(1, "c".to_string(), 99), Err(VfsError::NotFound));
    assert_eq!(fs.link(ino, "c".to_string(), ino), Err(VfsError::NotADirectory));
    assert_eq!(fs.unlink(1, "a"), Ok(()));
    assert!(fs.contains(ino));
    assert_eq!(fs.metadata(ino).unwrap().nlink, 1);
    assert_eq!(fs.lookup(1, "b"), Ok((ino, NodeType::RegularFile)));
    assert_eq!(fs.unlink(1, "b"), Ok(()));
    assert!(!fs.contains(ino));
}

#[test]
fn open_handles_keep_the_inode_alive() {
    let mut fs = MemoryFs::new();
    let ino = fs.create(1, "a".to_string(), NodeType::RegularFile, 0o644).unwrap();
    assert!(fs.open_node(ino));
    assert!(!fs.open_node(99));
    assert_eq!(fs.unlink(1, "a"), Ok(()));
    assert!(fs.contains(ino));
    assert_eq!(fs.metadata(ino).unwrap().nlink, 0);
    fs.close_node(ino);
    assert!(!fs.contains(ino));
    fs.close_node(ino);
    fs.close_node(0);
}

#[test]
fn directories_count_their_own_entries() {
    let mut fs = MemoryFs::new();
    let dir = fs.create(1, "d".to_string(), NodeType::Directory, 0o755).unwrap();
    assert_eq!(fs.lookup(dir, "."), Ok((dir, NodeType::Directory)));
    assert_eq!(fs.lookup(dir, ".."), Ok((1, NodeType::Directory)));
    assert_eq!(fs.metadata(dir).unwrap().nlink, 2);
    assert_eq!(fs.metadata(dir).unwrap().size, 2);
    assert_eq!(fs.metadata(1).unwrap().nlink, 3);
    let file = fs.create(dir, "f".to_string(), NodeType::RegularFile, 0o600).unwrap();
    assert_eq!(fs.unlink(1, "d"), Err(VfsError::DirectoryNotEmpty));
    assert_eq!(fs.unlink(dir, "f"), Ok(()));
    assert!(!fs.contains(file));
    assert_eq!(fs.unlink(1, "d"), Ok(()));
    assert_eq!(fs.lookup(1, "d"), Err(VfsError::NotFound));
    // the directory still holds the entry for itself, and so stays until
    // the last handle on it is closed
    assert!(fs.contains(dir));
    assert_eq!(fs.metadata(dir).unwrap().nlink, 1);
    assert!(fs.open_node(dir));
    fs.close_node(dir);
    assert!(!fs.contains(dir));
    assert_eq!(fs.metadata(1).unwrap().nlink, 2);
}

#[test]
fn rename_moves_and_replaces() {
    let mut fs = MemoryFs::new();
    let a = fs.create(1, "a".to_string(), NodeType::RegularFile, 0o644).unwrap();
    let b = fs.create(1, "b".to_string(), NodeType::RegularFile, 0o644).unwrap();
    let dir = fs.create(1, "d".to_string(), NodeType::Directory, 0o755).unwrap();
    assert_eq!(fs.rename(1, "a", dir, "inside".to_string()), Ok(()));
    assert_eq!(fs.lookup(1, "a"), Err(VfsError::NotFound));
    assert_eq!(fs.lookup(dir, "inside"), Ok((a, NodeType::RegularFile)));
    assert_eq!(fs.metadata(a).unwrap().nlink, 1);
    // onto an existing name: the old target loses its link and goes away
    assert_eq!(fs.rename(dir, "inside", 1, "b".to_string()), Ok(()));
    assert!(!fs.contains(b));
    assert_eq!(fs.lookup(1, "b"), Ok((a, NodeType::RegularFile)));
    assert_eq!(fs.metadata(a).unwrap().nlink, 1);
    // both names stand for one inode already: nothing to do
    assert_eq!(fs.link(1, "c".to_string(), a), Ok((a, NodeType::RegularFile)));
    assert_eq!(fs.rename(1, "b", 1, "c".to_string()), Ok(()));
    assert_eq!(fs.lookup(1, "b"), Ok((a, NodeType::RegularFile)));
    assert_eq!(fs.metadata(a).unwrap().nlink, 2);
    assert_eq!(fs.rename(1, "none", 1, "x".to_string()), Err(VfsError::NotFound));
    assert_eq!(fs.rename(a, "x", 1, "y".to_string()), Err(VfsError::NotADirectory));
    assert_eq!(fs.rename(1, "none", 1, "c".to_string()), Err(VfsError::NotFound));
    // a target that is no directory: the old name is gone all the same
    assert_eq!(fs.rename(1, "c", a, "y".to_string()), Err(VfsError::NotADirectory));
    assert_eq!(fs.lookup(1, "c"), Err(VfsError::NotFound));
    assert_eq!(fs.metadata(a).unwrap().nlink, 1);
}

#[test]
fn listing_from_an_offset() {
    let mut fs = MemoryFs::new();
    let a = fs.create(1, "a".to_string(), NodeType::RegularFile, 0o644).unwrap();
    let d = fs.create(1, "d".to_string(), NodeType::Directory, 0o755).unwrap();
    let all = fs.read_dir(1, 0).unwrap();
    assert_eq!(all.len(), 4);
    for (i, item) in all.iter().enumerate() {
        assert_eq!(item.offset, i as u64 + 1);
        let expected = match item.name.as_str() {
            "." | ".." => (1, NodeType::Directory),
            "a" => (a, NodeType::RegularFile),
            "d" => (d, NodeType::Directory),
            other => panic!("unexpected name {other}"),
        };
        assert_eq!((item.ino, item.node_type), expected);
    }
    let rest = fs.read_dir(1, 3).unwrap();
    assert_eq!(rest.len(), 1);
    assert_eq!(rest[0].name, all[3].name);
    assert_eq!(rest[0].offset, 4);
    assert!(fs.read_dir(1, 4).unwrap().is_empty());
    assert!(fs.read_dir(1, u64::MAX).unwrap().is_empty());
    assert!(matches!(fs.read_dir(a, 0), Err(VfsError::NotADirectory)));
    assert!(matches!(fs.read_dir(50, 0), Err(VfsError::NotFound)));
}

#[test]
fn file_length_symlinks_and_metadata() {
    let mut fs = MemoryFs::new();
    let f = fs.create(1, "f".to_string(), NodeType::RegularFile, 0o644).unwrap();
    assert_eq!(fs.set_len(f, 1234), Ok(()));
    assert_eq!(fs.metadata(f).unwrap().size, 1234);
    assert_eq!(fs.set_len(1, 5), Err(VfsError::IsADirectory));
    assert_eq!(fs.set_len(99, 5), Err(VfsError::NotFound));
    assert_eq!(fs.read_at(f, 10, 0), Err(VfsError::InvalidInput));
    let l = fs.create(1, "l".to_string(), NodeType::Symlink, 0o777).unwrap();
    assert_eq!(fs.set_symlink(l, "/t\u{e9}st"), Ok(()));
    assert_eq!(fs.metadata(l).unwrap().size, 6);
    assert_eq!(fs.read_at(l, 100, 0), Ok("/t\u{e9}st".as_bytes().to_vec()));
    assert_eq!(fs.read_at(l, 3, 0), Ok(b"/t\xc3".to_vec()));
    assert_eq!(fs.read_at(l, 0, 0), Ok(vec![]));
    assert_eq!(fs.read_at(l, 3, 1), Err(VfsError::InvalidInput));
    assert_eq!(fs.read_at(1, 3, 0), Err(VfsError::IsADirectory));
    assert_eq!(fs.read_at(99, 3, 0), Err(VfsError::NotFound));
    assert_eq!(fs.set_symlink(1, "x"), Err(VfsError::IsADirectory));
    let t = starry::time::TimeValue { secs: 9, nanos: 8 };
    let update = MetadataUpdate { mode: Some(0o600), owner: Some((5, 6)), atime: Some(t), mtime: None };
    assert_eq!(fs.update_metadata(f, update), Ok(()));
    let meta = fs.metadata(f).unwrap();
    assert_eq!((meta.mode, meta.uid, meta.gid, meta.atime), (0o600, 5, 6, t));
    assert_eq!(meta.mtime, starry::time::TimeValue { secs: 0, nanos: 0 });
    assert_eq!(meta.size, 1234);
    let none = MetadataUpdate { mode: None, owner: None, atime: None, mtime: Some(t) };
    assert_eq!(fs.update_metadata(f, none), Ok(()));
    let meta = fs.metadata(f).unwrap();
    assert_eq!((meta.mode, meta.uid, meta.mtime), (0o600, 5, t));
    assert_eq!(fs.update_metadata(99, none), Err(VfsError::NotFound));
}

#[test]
fn inode_numbers_are_reused() {
    let mut fs = MemoryFs::new();
    let a = fs.create(1, "a".to_string(), NodeType::RegularFile, 0o644).unwrap();
    assert_eq!(fs.unlink(1, "a"), Ok(()));
    let b = fs.create(1, "b".to_string(), NodeType::RegularFile, 0o644).unwrap();
    assert_eq!(a, b);
    let c = fs.inode_new(None, NodeType::Directory, 0o700).unwrap();
    assert_eq!(fs.lookup(c, ".."), Ok((c, NodeType::Directory)));
    assert_eq!(fs.metadata(c).unwrap().nlink, 2);
    assert_eq!(fs.inode_new(Some(1234), NodeType::Directory, 0o700), Err(VfsError::NotFound));
    assert!(fs.add_link(c));
    assert_eq!(fs.metadata(c).unwrap().nlink, 3);
    fs.release_inode(c, 5);
    assert_eq!(fs.metadata(c).unwrap().nlink, 0);
    assert!(fs.contains(c));
    assert_eq!(fs.as_dir(c), Ok(()));
    assert_eq!(fs.as_dir(b), Err(VfsError::NotADirectory));
    assert_eq!(fs.as_dir(0), Err(VfsError::NotFound));
    let empty = MemoryFs::empty();
    assert!(!empty.contains(1));
}
