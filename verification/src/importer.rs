//! Resource Importer.
//!
//! Given a user-selected source tree and the installation target, the
//! importer mirrors the tree into a fixed subdirectory of the target:
//! directories are created if absent and files are copied byte for byte,
//! overwriting any file of the same name. The source tree arrives
//! flattened: each subdirectory and each file under its path relative to
//! the tree's root, as produced by the caller's directory walk.

use vstd::prelude::*;
use vstd::map_lib::group_map_union;
use crate::paths::joined;
use crate::paths::join_component;
use crate::fs_model::FsModel;

verus! {

/// A user-selected source tree, flattened: every subdirectory and every
/// file under its path relative to the tree's root.
pub struct SourceTree {
    /// Relative paths of the subdirectories, in walk order.
    pub dirs: Vec<String>,
    /// Relative path and contents of each file.
    pub files: Vec<(String, Vec<u8>)>,
}

impl SourceTree {
    /// The subdirectories' relative paths.
    pub open spec fn dir_views(self) -> Seq<Seq<char>> {
        self.dirs@.map(|i: int, d: String| d@)
    }

    /// The files' relative paths and contents.
    pub open spec fn file_views(self) -> Seq<(Seq<char>, Seq<u8>)> {
        self.files@.map(|i: int, e: (String, Vec<u8>)| (e.0@, e.1@))
    }

    /// A tree as a directory walk yields it: relative paths are nonempty
    /// and no two entries share one.
    pub open spec fn wf(self) -> bool {
        &&& forall|i: int, j: int|
            0 <= i < j < self.files@.len() ==> self.files@[i].0@ != self.files@[j].0@
        &&& forall|i: int, j: int|
            0 <= i < j < self.dirs@.len() ==> self.dirs@[i]@ != self.dirs@[j]@
        &&& forall|i: int| 0 <= i < self.files@.len() ==> self.files@[i].0@.len() > 0
        &&& forall|i: int| 0 <= i < self.dirs@.len() ==> self.dirs@[i]@.len() > 0
    }
}

/// The fixed subdirectory of the target that receives imported resources.
pub open spec fn resources_dir_name() -> Seq<char> {
    "TNSM Resources"@
}

/// The destination directory of an import into `target`.
pub open spec fn import_destination_spec(target: Seq<char>) -> Seq<char> {
    joined(target, resources_dir_name())
}

/// The destination directory of an import into `target`.
pub fn import_destination(target: &String) -> (r: String)
    ensures
        r@ == import_destination_spec(target@),
{
    join_component(target, "TNSM Resources")
}

/// The map of imported files: each file of the tree under its destination
/// path below `dest`.
pub open spec fn imported_files(
    files: Seq<(Seq<char>, Seq<u8>)>,
    dest: Seq<char>,
) -> Map<Seq<char>, Seq<u8>>
    decreases files.len(),
{
    if files.len() == 0 {
        Map::empty()
    } else {
        imported_files(files.drop_last(), dest).insert(
            joined(dest, files.last().0),
            files.last().1,
        )
    }
}

/// The set of directories an import creates: the destination itself plus
/// each subdirectory of the tree under it.
pub open spec fn imported_dirs(dirs: Seq<Seq<char>>, dest: Seq<char>) -> Set<Seq<char>>
    decreases dirs.len(),
{
    if dirs.len() == 0 {
        Set::empty().insert(dest)
    } else {
        imported_dirs(dirs.drop_last(), dest).insert(joined(dest, dirs.last()))
    }
}

/// `p` lies strictly inside the directory `dir`.
pub open spec fn is_under(dir: Seq<char>, p: Seq<char>) -> bool {
    &&& p.len() > dir.len() + 1
    &&& p.subrange(0, dir.len() as int) == dir
    &&& p[dir.len() as int] == '\\'
}

/// A joined path with a nonempty component lies strictly under its base.
pub proof fn lemma_joined_is_under(dir: Seq<char>, component: Seq<char>)
    requires
        component.len() > 0,
    ensures
        is_under(dir, joined(dir, component)),
{
    let p = joined(dir, component);
    assert(p.subrange(0, dir.len() as int) =~= dir);
    assert(p[dir.len() as int] == '\\');
}

/// Joining distinct components to one base yields distinct paths.
pub proof fn lemma_joined_injective(dir: Seq<char>, a: Seq<char>, b: Seq<char>)
    requires
        joined(dir, a) == joined(dir, b),
    ensures
        a == b,
{
    assert(joined(dir, a).len() == dir.len() + 1 + a.len());
    assert(joined(dir, b).len() == dir.len() + 1 + b.len());
    assert(a.len() == b.len());
    assert forall|i: int| 0 <= i < a.len() implies a[i] == b[i] by {
        assert(joined(dir, a)[dir.len() + 1 + i] == a[i]);
        assert(joined(dir, b)[dir.len() + 1 + i] == b[i]);
    }
    assert(a =~= b);
}

/// A path is imported exactly when some file of the tree maps to it.
proof fn lemma_imported_files_dom(files: Seq<(Seq<char>, Seq<u8>)>, dest: Seq<char>, p: Seq<char>)
    ensures
        imported_files(files, dest).dom().contains(p) <==> exists|k: int|
            0 <= k < files.len() && p == joined(dest, files[k].0),
    decreases files.len(),
{
    if files.len() > 0 {
        lemma_imported_files_dom(files.drop_last(), dest, p);
        if p == joined(dest, files.last().0) {
            assert(p == joined(dest, files[files.len() - 1].0));
        } else if imported_files(files, dest).dom().contains(p) {
            let k = choose|k: int|
                0 <= k < files.drop_last().len() && p == joined(dest, files.drop_last()[k].0);
            assert(p == joined(dest, files[k].0));
        } else if exists|k: int| 0 <= k < files.len() && p == joined(dest, files[k].0) {
            let k = choose|k: int| 0 <= k < files.len() && p == joined(dest, files[k].0);
            assert(k < files.len() - 1);
            assert(p == joined(dest, files.drop_last()[k].0));
        }
    }
}

/// With unique relative paths, each file of the tree is imported with
/// exactly its own contents.
proof fn lemma_imported_files_entry(files: Seq<(Seq<char>, Seq<u8>)>, dest: Seq<char>, k: int)
    requires
        forall|i: int, j: int| 0 <= i < j < files.len() ==> files[i].0 != files[j].0,
        0 <= k < files.len(),
    ensures
        imported_files(files, dest).dom().contains(joined(dest, files[k].0)),
        imported_files(files, dest)[joined(dest, files[k].0)] == files[k].1,
    decreases files.len(),
{
    lemma_imported_files_dom(files, dest, joined(dest, files[k].0));
    if k < files.len() - 1 {
        assert(files[k].0 != files.last().0);
        if joined(dest, files[k].0) == joined(dest, files.last().0) {
            lemma_joined_injective(dest, files[k].0, files.last().0);
        }
        assert(files.drop_last()[k] == files[k]);
        lemma_imported_files_entry(files.drop_last(), dest, k);
    }
}

/// With unique relative paths, the import holds exactly one file per file
/// of the tree.
proof fn lemma_imported_files_len(files: Seq<(Seq<char>, Seq<u8>)>, dest: Seq<char>)
    requires
        forall|i: int, j: int| 0 <= i < j < files.len() ==> files[i].0 != files[j].0,
    ensures
        imported_files(files, dest).dom().finite(),
        imported_files(files, dest).dom().len() == files.len(),
    decreases files.len(),
{
    if files.len() > 0 {
        lemma_imported_files_len(files.drop_last(), dest);
        lemma_imported_files_dom(files.drop_last(), dest, joined(dest, files.last().0));
        assert forall|k: int|
            0 <= k < files.drop_last().len() implies joined(dest, files.drop_last()[k].0)
            != joined(dest, files.last().0) by {
            assert(files[k].0 != files[files.len() - 1].0);
            if joined(dest, files[k].0) == joined(dest, files.last().0) {
                lemma_joined_injective(dest, files[k].0, files.last().0);
            }
        }
        assert(!imported_files(files.drop_last(), dest).dom().contains(
            joined(dest, files.last().0),
        ));
    }
}

/// A directory is created exactly for the destination itself and for each
/// subdirectory of the tree.
proof fn lemma_imported_dirs_contains(dirs: Seq<Seq<char>>, dest: Seq<char>, p: Seq<char>)
    ensures
        imported_dirs(dirs, dest).contains(p) <==> (p == dest || exists|k: int|
            0 <= k < dirs.len() && p == joined(dest, dirs[k])),
    decreases dirs.len(),
{
    if dirs.len() > 0 {
        lemma_imported_dirs_contains(dirs.drop_last(), dest, p);
        if p == joined(dest, dirs.last()) {
            assert(p == joined(dest, dirs[dirs.len() - 1]));
        } else if imported_dirs(dirs, dest).contains(p) && p != dest {
            let k = choose|k: int|
                0 <= k < dirs.drop_last().len() && p == joined(dest, dirs.drop_last()[k]);
            assert(p == joined(dest, dirs[k]));
        } else if exists|k: int| 0 <= k < dirs.len() && p == joined(dest, dirs[k]) {
            let k = choose|k: int| 0 <= k < dirs.len() && p == joined(dest, dirs[k]);
            if k < dirs.len() - 1 {
                assert(p == joined(dest, dirs.drop_last()[k]));
            }
        }
    }
}

/// With unique and nonempty relative paths, the import creates exactly one
/// directory per subdirectory of the tree, plus the destination itself.
proof fn lemma_imported_dirs_len(dirs: Seq<Seq<char>>, dest: Seq<char>)
    requires
        forall|i: int, j: int| 0 <= i < j < dirs.len() ==> dirs[i] != dirs[j],
    ensures
        imported_dirs(dirs, dest).finite(),
        imported_dirs(dirs, dest).len() == dirs.len() + 1,
    decreases dirs.len(),
{
    if dirs.len() > 0 {
        lemma_imported_dirs_len(dirs.drop_last(), dest);
        lemma_imported_dirs_contains(dirs.drop_last(), dest, joined(dest, dirs.last()));
        assert(joined(dest, dirs.last()).len() > dest.len());
        assert forall|k: int|
            0 <= k < dirs.drop_last().len() implies joined(dest, dirs.drop_last()[k])
            != joined(dest, dirs.last()) by {
            assert(dirs[k] != dirs[dirs.len() - 1]);
            if joined(dest, dirs[k]) == joined(dest, dirs.last()) {
                lemma_joined_injective(dest, dirs[k], dirs.last());
            }
        }
        assert(!imported_dirs(dirs.drop_last(), dest).contains(joined(dest, dirs.last())));
    }
}

/// Mirror the source tree into the fixed resources subdirectory of
/// `target`.
///
/// The destination and every subdirectory of the tree are created if
/// absent, and every file of the tree is written under its relative path,
/// overwriting any file of the same name; nothing else changes.
pub fn import_step(fs: &mut FsModel, tree: &SourceTree, target: &String)
    requires
        old(fs).wf(),
    ensures
        final(fs).wf(),
        final(fs).files_map() == old(fs).files_map().union_prefer_right(
            imported_files(tree.file_views(), import_destination_spec(target@)),
        ),
        final(fs).dir_set() == old(fs).dir_set().union(
            imported_dirs(tree.dir_views(), import_destination_spec(target@)),
        ),
{
    broadcast use group_map_union;

    let ghost dstv = import_destination_spec(target@);
    let ghost all_dirs = tree.dir_views();
    let ghost all_files = tree.file_views();

    let dest = import_destination(target);
    fs.create_dir(&dest);
    proof {
        assert(all_dirs.take(0) =~= Seq::<Seq<char>>::empty());
        assert(fs.dir_set() =~= old(fs).dir_set().union(imported_dirs(all_dirs.take(0), dstv)));
    }

    let ndirs = tree.dirs.len();
    let mut i: usize = 0;
    while i < ndirs
        invariant
            old(fs).wf(),
            fs.wf(),
            i <= ndirs,
            ndirs == tree.dirs@.len(),
            dest@ == dstv,
            dstv == import_destination_spec(target@),
            all_dirs == tree.dir_views(),
            fs.files_map() == old(fs).files_map(),
            fs.dir_set() == old(fs).dir_set().union(imported_dirs(all_dirs.take(i as int), dstv)),
        decreases ndirs - i,
    {
        let sub = join_component(&dest, tree.dirs[i].as_str());
        fs.create_dir(&sub);
        proof {
            assert(all_dirs.take(i + 1).drop_last() =~= all_dirs.take(i as int));
            assert(all_dirs.take(i + 1).last() == all_dirs[i as int]);
            assert(sub@ == joined(dstv, all_dirs[i as int]));
            assert(imported_dirs(all_dirs.take(i + 1), dstv) == imported_dirs(
                all_dirs.take(i as int),
                dstv,
            ).insert(sub@));
            assert(fs.dir_set() =~= old(fs).dir_set().union(
                imported_dirs(all_dirs.take(i + 1), dstv),
            ));
        }
        i += 1;
    }
    proof {
        assert(all_dirs.take(ndirs as int) =~= all_dirs);
    }

    let nfiles = tree.files.len();
    let mut j: usize = 0;
    proof {
        assert(all_files.take(0) =~= Seq::<(Seq<char>, Seq<u8>)>::empty());
        assert(old(fs).files_map().union_prefer_right(imported_files(all_files.take(0), dstv))
            =~= old(fs).files_map());
    }
    while j < nfiles
        invariant
            old(fs).wf(),
            fs.wf(),
            j <= nfiles,
            nfiles == tree.files@.len(),
            dest@ == dstv,
            dstv == import_destination_spec(target@),
            all_dirs == tree.dir_views(),
            all_files == tree.file_views(),
            fs.dir_set() == old(fs).dir_set().union(imported_dirs(all_dirs, dstv)),
            fs.files_map() == old(fs).files_map().union_prefer_right(
                imported_files(all_files.take(j as int), dstv),
            ),
        decreases nfiles - j,
    {
        broadcast use group_map_union;

        let fpath = join_component(&dest, tree.files[j].0.as_str());
        let contents = &tree.files[j].1;
        fs.write_file(&fpath, contents);
        proof {
            assert(all_files.take(j + 1).drop_last() =~= all_files.take(j as int));
            assert(all_files.take(j + 1).last() == all_files[j as int]);
            assert(fpath@ == joined(dstv, all_files[j as int].0));
            assert(imported_files(all_files.take(j + 1), dstv) == imported_files(
                all_files.take(j as int),
                dstv,
            ).insert(fpath@, contents@));
        }
        j += 1;
    }
    proof {
        assert(all_files.take(nfiles as int) =~= all_files);
    }
}

/// Law: a successful import into a destination with nothing under it
/// mirrors the source tree exactly.
///
/// Starting from files `files0` and directories `dirs0`, none of which lie
/// under the destination `dest` (nor are `dest` itself), importing a tree
/// with unique, nonempty
/// relative paths leaves, under `dest`: exactly one file per file of the
/// tree, byte-identical under its relative path, and exactly one directory
/// per subdirectory of the tree besides `dest` itself. Everything outside
/// `dest` is untouched.
pub proof fn lemma_import_mirrors(
    files0: Map<Seq<char>, Seq<u8>>,
    dirs0: Set<Seq<char>>,
    files: Seq<(Seq<char>, Seq<u8>)>,
    dirs: Seq<Seq<char>>,
    dest: Seq<char>,
)
    requires
        forall|i: int, j: int| 0 <= i < j < files.len() ==> files[i].0 != files[j].0,
        forall|i: int| 0 <= i < files.len() ==> files[i].0.len() > 0,
        forall|i: int, j: int| 0 <= i < j < dirs.len() ==> dirs[i] != dirs[j],
        forall|i: int| 0 <= i < dirs.len() ==> dirs[i].len() > 0,
        files0.dom().finite(),
        dirs0.finite(),
        forall|p: Seq<char>| files0.dom().contains(p) ==> !is_under(dest, p),
        forall|p: Seq<char>| dirs0.contains(p) ==> !is_under(dest, p),
        !dirs0.contains(dest),
    ensures
// each file of the tree is present, byte-identical, under its relative path:

        forall|k: int|
            0 <= k < files.len() ==> files0.union_prefer_right(imported_files(files, dest)).dom()
                .contains(joined(dest, files[k].0)) && files0.union_prefer_right(
                imported_files(files, dest),
            )[joined(dest, files[k].0)] == files[k].1,
        // and no file under the destination comes from anywhere else:
        forall|p: Seq<char>|
            files0.union_prefer_right(imported_files(files, dest)).dom().contains(p) && is_under(
                dest,
                p,
            ) ==> exists|k: int| 0 <= k < files.len() && p == joined(dest, files[k].0),
        // files outside the destination are exactly as before:
        forall|p: Seq<char>|
            !is_under(dest, p) ==> files0.union_prefer_right(imported_files(files, dest)).dom()
                .contains(p) == files0.dom().contains(p),
        forall|p: Seq<char>|
            !is_under(dest, p) && files0.dom().contains(p) ==> files0.union_prefer_right(
                imported_files(files, dest),
            )[p] == files0[p],
        // exactly as many files and directories as the tree holds:
        imported_files(files, dest).dom().finite(),
        imported_files(files, dest).dom().len() == files.len(),
        imported_dirs(dirs, dest).finite(),
        imported_dirs(dirs, dest).len() == dirs.len() + 1,
        files0.union_prefer_right(imported_files(files, dest)).dom().len() == files0.dom().len()
            + files.len(),
        dirs0.union(imported_dirs(dirs, dest)).len() == dirs0.len() + dirs.len() + 1,
        // each subdirectory of the tree is present, and the destination:
        dirs0.union(imported_dirs(dirs, dest)).contains(dest),
        forall|k: int|
            0 <= k < dirs.len() ==> dirs0.union(imported_dirs(dirs, dest)).contains(
                joined(dest, dirs[k]),
            ),
        // and no directory under the destination comes from anywhere else:
        forall|p: Seq<char>|
            dirs0.union(imported_dirs(dirs, dest)).contains(p) && is_under(dest, p)
                ==> exists|k: int| 0 <= k < dirs.len() && p == joined(dest, dirs[k]),
{
    broadcast use group_map_union;

    let imp = imported_files(files, dest);
    let merged = files0.union_prefer_right(imp);
    assert forall|k: int| 0 <= k < files.len() implies merged.dom().contains(
        joined(dest, files[k].0),
    ) && merged[joined(dest, files[k].0)] == files[k].1 by {
        lemma_imported_files_entry(files, dest, k);
    }
    assert forall|p: Seq<char>| merged.dom().contains(p) && is_under(dest, p) implies exists|
        k: int,
    | 0 <= k < files.len() && p == joined(dest, files[k].0) by {
        lemma_imported_files_dom(files, dest, p);
    }
    assert forall|p: Seq<char>| !is_under(dest, p) implies merged.dom().contains(p) == files0.dom()
        .contains(p) && (files0.dom().contains(p) ==> merged[p] == files0[p]) by {
        lemma_imported_files_dom(files, dest, p);
        if imp.dom().contains(p) {
            let k = choose|k: int| 0 <= k < files.len() && p == joined(dest, files[k].0);
            lemma_joined_is_under(dest, files[k].0);
        }
    }
    lemma_imported_files_len(files, dest);
    lemma_imported_dirs_len(dirs, dest);
    lemma_imported_dirs_contains(dirs, dest, dest);
    assert forall|p: Seq<char>| files0.dom().contains(p) implies !imp.dom().contains(p) by {
        lemma_imported_files_dom(files, dest, p);
        if imp.dom().contains(p) {
            let k = choose|k: int| 0 <= k < files.len() && p == joined(dest, files[k].0);
            lemma_joined_is_under(dest, files[k].0);
        }
    }
    vstd::map_lib::lemma_disjoint_union_size(files0, imp);
    let impd = imported_dirs(dirs, dest);
    assert forall|p: Seq<char>| dirs0.contains(p) implies !impd.contains(p) by {
        lemma_imported_dirs_contains(dirs, dest, p);
        if impd.contains(p) && p != dest {
            let k = choose|k: int| 0 <= k < dirs.len() && p == joined(dest, dirs[k]);
            lemma_joined_is_under(dest, dirs[k]);
        }
    }
    vstd::set_lib::lemma_set_disjoint_lens(dirs0, impd);
    assert(dirs0 + impd =~= dirs0.union(impd));
    assert forall|k: int| 0 <= k < dirs.len() implies dirs0.union(imported_dirs(dirs, dest))
        .contains(joined(dest, dirs[k])) by {
        lemma_imported_dirs_contains(dirs, dest, joined(dest, dirs[k]));
    }
    assert forall|p: Seq<char>| dirs0.union(imported_dirs(dirs, dest)).contains(p) && is_under(
        dest,
        p,
    ) implies exists|k: int| 0 <= k < dirs.len() && p == joined(dest, dirs[k]) by {
        lemma_imported_dirs_contains(dirs, dest, p);
        assert(p != dest);
    }
}

} // verus!
