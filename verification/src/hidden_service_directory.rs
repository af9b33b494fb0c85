//! Reading and writing per-service secret files under the working directory.
//!
//! The caller that owns the real file system lists a service directory as
//! `DirectoryEntry` records and hands them to `get_secret_files`; it executes
//! the `FsAction` plan that `save_secret_files` returns, in order. That keeps
//! the selection and layout rules here, verified, and only the raw reads and
//! writes outside.

use crate::secret_file::SecretFile;
use crate::secret_file::SecretFileModel;
use crate::secret_file::is_valid_relative_path;
use crate::text::join_path;
use crate::text::join_path_spec;
use vstd::prelude::*;
use vstd::slice::slice_to_vec;

verus! {

pub struct DirectoryEntryModel {
    pub name: Seq<char>,
    pub is_file: bool,
    pub contents: Seq<u8>,
}

/// One entry of a listed service directory: its file name, whether it is a
/// regular file, and its bytes (empty for non-files).
pub struct DirectoryEntry {
    pub name: String,
    pub is_file: bool,
    pub contents: Vec<u8>,
}

impl View for DirectoryEntry {
    type V = DirectoryEntryModel;

    open spec fn view(&self) -> DirectoryEntryModel {
        DirectoryEntryModel { name: self.name@, is_file: self.is_file, contents: self.contents@ }
    }
}

impl DeepView for DirectoryEntry {
    type V = DirectoryEntryModel;

    open spec fn deep_view(&self) -> DirectoryEntryModel {
        self.view()
    }
}

pub enum FsActionModel {
    CreateDirectory { path: Seq<char>, mode: u16 },
    WriteFile { path: Seq<char>, contents: Seq<u8>, mode: u16 },
}

/// One step of a write plan, executed in order by the owner of the real file
/// system. `mode` is the POSIX permission set for the path; on platforms
/// without POSIX modes the executor ignores it.
pub enum FsAction {
    CreateDirectory { path: String, mode: u16 },
    WriteFile { path: String, contents: Vec<u8>, mode: u16 },
}

impl View for FsAction {
    type V = FsActionModel;

    open spec fn view(&self) -> FsActionModel {
        match self {
            FsAction::CreateDirectory { path, mode } => FsActionModel::CreateDirectory {
                path: path@,
                mode: *mode,
            },
            FsAction::WriteFile { path, contents, mode } => FsActionModel::WriteFile {
                path: path@,
                contents: contents@,
                mode: *mode,
            },
        }
    }
}

impl DeepView for FsAction {
    type V = FsActionModel;

    open spec fn deep_view(&self) -> FsActionModel {
        self.view()
    }
}

pub open spec fn is_regular_file(e: DirectoryEntryModel) -> bool {
    e.is_file
}

pub open spec fn secret_of(e: DirectoryEntryModel) -> SecretFileModel {
    SecretFileModel { path: e.name, contents: e.contents }
}

/// The secret files a directory listing yields: exactly its regular-file
/// entries, in order, as (name, contents) pairs.
pub open spec fn collect_secret_files(entries: Seq<DirectoryEntryModel>) -> Seq<SecretFileModel> {
    entries.filter(|e: DirectoryEntryModel| is_regular_file(e)).map_values(
        |e: DirectoryEntryModel| secret_of(e),
    )
}

/// The write plan for saving `files` for service `service_name` under
/// `base`: first ensure the `authorized_clients` directory with mode 0700,
/// then write each file with mode 0600, in input order.
pub open spec fn save_plan(
    base: Seq<char>,
    service_name: Seq<char>,
    files: Seq<SecretFileModel>,
) -> Seq<FsActionModel> {
    let service_path = join_path_spec(base, service_name);
    seq![
        FsActionModel::CreateDirectory {
            path: join_path_spec(service_path, "authorized_clients"@),
            mode: 0o700,
        },
    ] + files.map_values(
        |f: SecretFileModel| FsActionModel::WriteFile {
            path: join_path_spec(service_path, f.path),
            contents: f.contents,
            mode: 0o600,
        },
    )
}

pub struct HiddenServiceDirectory {
    base_path: String,
}

impl HiddenServiceDirectory {
    pub closed spec fn base_path_spec(&self) -> Seq<char> {
        self.base_path@
    }

    pub fn new(path: String) -> (r: HiddenServiceDirectory)
        ensures
            r.base_path_spec() == path@,
    {
        HiddenServiceDirectory { base_path: path }
    }

    /// The directory that holds service `service_name`'s secret files.
    pub fn service_path(&self, service_name: &str) -> (r: String)
        ensures
            r@ == join_path_spec(self.base_path_spec(), service_name@),
    {
        join_path(self.base_path.as_str(), service_name)
    }

    /// Turns a listing of a service directory into secret files: exactly the
    /// regular-file entries, in order; other entries are ignored.
    ///
    /// The caller lists the directory, so every regular file has a non-empty
    /// plain file name.
    pub fn get_secret_files(&self, entries: &Vec<DirectoryEntry>) -> (r: Vec<SecretFile>)
        requires
            forall|i: int|
                0 <= i < entries.deep_view().len() && entries.deep_view()[i].is_file
                    ==> is_valid_relative_path(#[trigger] entries.deep_view()[i].name),
        ensures
            r.deep_view() == collect_secret_files(entries.deep_view()),
    {
        let ghost all = entries.deep_view();
        let mut r: Vec<SecretFile> = Vec::new();
        let n = entries.len();
        let mut i: usize = 0;
        while i < n
            invariant
                i <= n,
                n == all.len(),
                all == entries.deep_view(),
                forall|j: int|
                    0 <= j < all.len() && all[j].is_file ==> is_valid_relative_path(
                        #[trigger] all[j].name,
                    ),
                r.deep_view() == collect_secret_files(all.take(i as int)),
            decreases n - i,
        {
            let ghost prev = r.deep_view();
            proof {
                reveal(Seq::filter);
                assert(all.take(i as int + 1).drop_last() =~= all.take(i as int));
                assert(all.take(i as int + 1).last() == all[i as int]);
            }
            let entry = &entries[i];
            proof {
                assert(entry@ == all[i as int]);
            }
            if entry.is_file {
                let name = entry.name.clone();
                let contents = slice_to_vec(entry.contents.as_slice());
                proof {
                    assert(is_valid_relative_path(all[i as int].name));
                    assert(name@ == all[i as int].name);
                }
                let file = match SecretFile::from(name, contents) {
                    Ok(file) => file,
                    Err(()) => {
                        proof {
                            assert(false);
                        }
                        unreached()
                    },
                };
                r.push(file);
                proof {
                    assert(r.deep_view() =~= prev.push(file@));
                    assert(r.deep_view() =~= collect_secret_files(all.take(i as int + 1)));
                }
            } else {
                proof {
                    assert(r.deep_view() =~= collect_secret_files(all.take(i as int + 1)));
                }
            }
            i = i + 1;
        }
        proof {
            assert(all.take(n as int) =~= all);
        }
        r
    }

    /// Plans the writes that persist `secret_files` for `service_name`:
    /// the defensive `authorized_clients` directory first (Tor creates it at
    /// runtime; it is pre-created with mode 0700), then each file with mode
    /// 0600.
    pub fn save_secret_files(&self, service_name: &str, secret_files: &Vec<SecretFile>) -> (r: Vec<
        FsAction,
    >)
        ensures
            r.deep_view() == save_plan(
                self.base_path_spec(),
                service_name@,
                secret_files.deep_view(),
            ),
    {
        let ghost files = secret_files.deep_view();
        let ghost plan = save_plan(self.base_path_spec(), service_name@, files);
        let service_path = self.service_path(service_name);
        let mut r: Vec<FsAction> = Vec::new();
        let authorized_clients = join_path(service_path.as_str(), "authorized_clients");
        r.push(FsAction::CreateDirectory { path: authorized_clients, mode: 0o700 });
        proof {
            assert(r.deep_view() =~= plan.take(1));
        }
        let n = secret_files.len();
        let mut i: usize = 0;
        while i < n
            invariant
                i <= n,
                n == files.len(),
                files == secret_files.deep_view(),
                plan == save_plan(self.base_path_spec(), service_name@, files),
                service_path@ == join_path_spec(self.base_path_spec(), service_name@),
                plan.len() == n + 1,
                r.deep_view() == plan.take(i as int + 1),
            decreases n - i,
        {
            let ghost prev = r.deep_view();
            let file = &secret_files[i];
            proof {
                assert(file@ == files[i as int]);
            }
            let path = join_path(service_path.as_str(), file.relative_path().as_str());
            let contents = slice_to_vec(file.contents().as_slice());
            r.push(FsAction::WriteFile { path, contents, mode: 0o600 });
            proof {
                assert(plan[i as int + 1] == FsActionModel::WriteFile {
                    path: join_path_spec(service_path@, files[i as int].path),
                    contents: files[i as int].contents,
                    mode: 0o600,
                });
                assert(r.deep_view() =~= prev.push(plan[i as int + 1]));
                assert(r.deep_view() =~= plan.take(i as int + 2));
            }
            i = i + 1;
        }
        proof {
            assert(plan.take(n as int + 1) =~= plan);
        }
        r
    }
}

/// After saving, every given file is written with its own contents and mode
/// 0600, and the `authorized_clients` directory is created with mode 0700.
pub proof fn lemma_save_plan_writes_every_file(
    base: Seq<char>,
    service_name: Seq<char>,
    files: Seq<SecretFileModel>,
)
    ensures
        save_plan(base, service_name, files).len() == files.len() + 1,
        save_plan(base, service_name, files)[0] == (FsActionModel::CreateDirectory {
            path: join_path_spec(join_path_spec(base, service_name), "authorized_clients"@),
            mode: 0o700,
        }),
        forall|i: int|
            0 <= i < files.len() ==> save_plan(base, service_name, files)[i + 1]
                == (FsActionModel::WriteFile {
                path: join_path_spec(join_path_spec(base, service_name), files[i].path),
                contents: files[i].contents,
                mode: 0o600,
            }),
{
}

/// A directory listing yields exactly its regular-file entries: every
/// regular-file entry appears among the collected secret files (with its
/// name and contents), and non-file entries contribute nothing. Together
/// with `lemma_collected_file_has_source` this pins the collection down in
/// both directions.
pub proof fn lemma_collects_every_regular_file(entries: Seq<DirectoryEntryModel>)
    ensures
        forall|i: int|
            0 <= i < entries.len() && entries[i].is_file ==> collect_secret_files(
                entries,
            ).contains(secret_of(#[trigger] entries[i])),
        collect_secret_files(entries).len() == entries.filter(
            |e: DirectoryEntryModel| is_regular_file(e),
        ).len(),
{
    broadcast use vstd::seq_lib::group_filter_ensures;

    let pred = |e: DirectoryEntryModel| is_regular_file(e);
    let filtered = entries.filter(pred);
    assert forall|i: int|
        0 <= i < entries.len() && entries[i].is_file implies collect_secret_files(
        entries,
    ).contains(secret_of(entries[i])) by {
        assert(filtered.contains(entries[i]));
        let j = choose|j: int| 0 <= j < filtered.len() && filtered[j] == entries[i];
        assert(collect_secret_files(entries)[j] == secret_of(entries[i]));
    }
}

/// Every collected secret file comes from a regular-file entry of the
/// listing: this returns the index of one such entry.
pub proof fn lemma_collected_file_has_source(entries: Seq<DirectoryEntryModel>, j: int) -> (i: int)
    requires
        0 <= j < collect_secret_files(entries).len(),
    ensures
        0 <= i < entries.len(),
        entries[i].is_file,
        collect_secret_files(entries)[j] == secret_of(entries[i]),
{
    broadcast use vstd::seq_lib::group_filter_ensures;

    let pred = |e: DirectoryEntryModel| is_regular_file(e);
    let filtered = entries.filter(pred);
    assert(pred(filtered[j]));
    lemma_filter_members(entries, j);
    let w = choose|w: int| 0 <= w < entries.len() && entries[w] == filtered[j];
    assert(collect_secret_files(entries)[j] == secret_of(entries[w]));
    w
}

/// Every member of a filtered sequence occurs in the sequence it was
/// filtered from.
proof fn lemma_filter_members(entries: Seq<DirectoryEntryModel>, j: int)
    requires
        0 <= j < entries.filter(|e: DirectoryEntryModel| is_regular_file(e)).len(),
    ensures
        exists|i: int|
            0 <= i < entries.len() && entries[i] == entries.filter(
                |e: DirectoryEntryModel| is_regular_file(e),
            )[j],
    decreases entries.len(),
{
    reveal(Seq::filter);
    let pred = |e: DirectoryEntryModel| is_regular_file(e);
    let filtered = entries.filter(pred);
    if entries.len() > 0 {
        let prefix = entries.drop_last().filter(pred);
        if j < prefix.len() {
            lemma_filter_members(entries.drop_last(), j);
            let i = choose|i: int|
                0 <= i < entries.drop_last().len() && entries.drop_last()[i] == prefix[j];
            assert(entries[i] == filtered[j]);
        } else {
            assert(entries[entries.len() - 1] == filtered[j]);
        }
    }
}

} // verus!
