//! The upload handle: creation, metadata, and the cleanup protocol.

use vstd::prelude::*;
use vstd::string::StringExecFns;

use crate::is_urlsafe_char;

verus! {

/// Number of characters in the random token that names the temp file
/// inside its container directory.
pub const TOKEN_LEN: usize = 32;

/// Mathematical model of an upload handle.
pub struct HandleView {
    /// Absolute location of the temp file holding the upload's bytes.
    pub path: Seq<char>,
    /// Client-declared file name, metadata only.
    pub filename: Option<Seq<char>>,
    /// Client-declared content type, an opaque validated MIME string.
    pub content_type: Seq<char>,
    /// Byte count written so far.
    pub size: nat,
    /// The private temporary directory that exclusively holds `path`.
    pub temp_container: Seq<char>,
    /// Whether the cleanup plan has already been handed out.
    pub released: bool,
}

/// `path` names an entry directly inside the directory `dir`: it is `dir`,
/// then a path separator, then a single `TOKEN_LEN`-character URL-safe
/// component (which therefore contains no separator).
pub open spec fn path_in_container(path: Seq<char>, dir: Seq<char>) -> bool {
    &&& path.len() == dir.len() + 1 + TOKEN_LEN
    &&& path.subrange(0, dir.len() as int) == dir
    &&& path[dir.len() as int] == '/'
    &&& forall|i: int| dir.len() + 1 <= i < path.len() ==> is_urlsafe_char(#[trigger] path[i])
}

/// Well-formedness of a handle: the container is named, and the file lies
/// directly inside the container.
pub open spec fn wf_view(v: HandleView) -> bool {
    &&& v.temp_container.len() > 0
    &&& path_in_container(v.path, v.temp_container)
}

/// What `new` guarantees of a freshly created handle with the given
/// declared content type: well formed, empty, unnamed, and not released.
pub open spec fn fresh_handle(v: HandleView, content_type: Seq<char>) -> bool {
    &&& wf_view(v)
    &&& v.content_type == content_type
    &&& v.filename is None
    &&& v.size == 0
    &&& !v.released
}

/// The two descriptive records agree in all five fields (including the
/// path); the bytes on disk are not compared.
pub open spec fn same_fields(a: HandleView, b: HandleView) -> bool {
    &&& a.path == b.path
    &&& a.filename == b.filename
    &&& a.content_type == b.content_type
    &&& a.size == b.size
    &&& a.temp_container == b.temp_container
}

/// Creating the temporary directory or drawing the random token failed;
/// nothing has been left on disk.
#[derive(Debug)]
pub enum StorageError {
    /// The container directory could not be created.
    TempDirCreation(String),
    /// The random file-name token could not be generated.
    TokenGeneration(String),
}

/// One step of a cleanup plan, to be executed by an unverified caller.
#[derive(Debug)]
pub enum CleanupAction {
    /// Remove the named file; tolerate its absence.
    RemoveFile(String),
    /// Remove the named (by then empty) directory; tolerate its absence.
    RemoveDir(String),
}

/// Model of a cleanup step.
pub enum ActionView {
    RemoveFile(Seq<char>),
    RemoveDir(Seq<char>),
}

impl View for CleanupAction {
    type V = ActionView;

    open spec fn view(&self) -> ActionView {
        match self {
            CleanupAction::RemoveFile(p) => ActionView::RemoveFile(p@),
            CleanupAction::RemoveDir(p) => ActionView::RemoveDir(p@),
        }
    }
}

/// The deletion steps still owed for a handle: none once it has been
/// released, otherwise the file first and its container directory second.
pub open spec fn cleanup_plan(v: HandleView) -> Seq<ActionView> {
    if v.released {
        Seq::empty()
    } else {
        seq![ActionView::RemoveFile(v.path), ActionView::RemoveDir(v.temp_container)]
    }
}

/// The handle after its cleanup plan has been handed out.
pub open spec fn after_release(v: HandleView) -> HandleView {
    HandleView { released: true, ..v }
}

/// An uploaded file that was received as part of `multipart/form-data`
/// parsing. Files are streamed to disk because they may not fit in memory.
///
/// Each handle exclusively owns one freshly created temporary directory
/// (the container) and names exactly one file inside it; the file's name is
/// a random token, never derived from the client-declared `filename`.
#[derive(Debug)]
pub struct UploadedFile {
    /// The temporary file where the data is saved.
    pub path: String,
    /// The filename that was specified in the data, unfiltered. It may or
    /// may not be legal on the local filesystem, and is never used to
    /// build `path`.
    pub filename: Option<String>,
    /// The unvalidated content type that was specified in the data.
    pub content_type: String,
    /// The size of the file in bytes.
    pub size: usize,
    /// The temporary directory the upload was put into.
    pub temp_container: String,
    /// Set once the cleanup plan has been handed out. A handle built by
    /// this library starts with `false`; `release` sets it exactly once.
    pub released: bool,
}

impl View for UploadedFile {
    type V = HandleView;

    open spec fn view(&self) -> HandleView {
        HandleView {
            path: self.path@,
            filename: match self.filename {
                Some(s) => Some(s@),
                None => None,
            },
            content_type: self.content_type@,
            size: self.size as nat,
            temp_container: self.temp_container@,
            released: self.released,
        }
    }
}

impl UploadedFile {
    /// Builds the handle value for a freshly created container directory
    /// and a freshly drawn file-name token: the file path is the container,
    /// a path separator, then the token, so the handle is well formed by
    /// construction.
    pub fn from_parts(temp_container: String, token: String, content_type: String) -> (h:
        UploadedFile)
        requires
            temp_container@.len() > 0,
            token@.len() == TOKEN_LEN as int,
            forall|i: int| 0 <= i < token@.len() ==> is_urlsafe_char(#[trigger] token@[i]),
        ensures
            h@ == (HandleView {
                path: temp_container@ + "/"@ + token@,
                filename: None,
                content_type: content_type@,
                size: 0,
                temp_container: temp_container@,
                released: false,
            }),
            wf_view(h@),
    {
        let mut path = temp_container.clone();
        path.append("/");
        path.append(token.as_str());
        proof {
            reveal_strlit("/");
            let d = temp_container@;
            let p = d + "/"@ + token@;
            assert(path@ == p);
            assert(p.subrange(0, d.len() as int) =~= d);
            assert(p[d.len() as int] == '/');
            assert forall|i: int| d.len() + 1 <= i < p.len() implies is_urlsafe_char(p[i]) by {
                assert(p[i] == token@[i - d.len() - 1]);
            }
        }
        UploadedFile {
            path,
            filename: None,
            content_type,
            size: 0,
            temp_container,
            released: false,
        }
    }

    /// Creates a handle for one incoming file part: allocates a fresh
    /// private container directory under the system temp root, and derives
    /// the file name inside it from a cryptographically strong random
    /// token — never from the client-declared filename, so the on-disk name
    /// carries no attacker-controlled content.
    ///
    /// The token is drawn before the directory is created, so on any `Err`
    /// nothing has been left on disk.
    pub fn new(content_type: String) -> (r: Result<UploadedFile, StorageError>)
        ensures
            r matches Ok(h) ==> fresh_handle(h@, content_type@),
    {
        let token = match crate::sys::fresh_token() {
            Ok(t) => t,
            Err(detail) => {
                return Err(StorageError::TokenGeneration(detail));
            },
        };
        let dir = match crate::sys::make_temp_dir("formdata") {
            Ok(d) => d,
            Err(detail) => {
                return Err(StorageError::TempDirCreation(detail));
            },
        };
        Ok(Self::from_parts(dir, token, content_type))
    }

    /// Like `new`, but the container directory is allocated inside `root`
    /// instead of the system temp root; `root` must already exist, so a
    /// denied or missing root makes this fail with `StorageError` while
    /// leaving nothing on disk.
    pub fn new_in(root: &str, content_type: String) -> (r: Result<UploadedFile, StorageError>)
        ensures
            r matches Ok(h) ==> fresh_handle(h@, content_type@),
    {
        let token = match crate::sys::fresh_token() {
            Ok(t) => t,
            Err(detail) => {
                return Err(StorageError::TokenGeneration(detail));
            },
        };
        let dir = match crate::sys::make_temp_dir_in(root, "formdata") {
            Ok(d) => d,
            Err(detail) => {
                return Err(StorageError::TempDirCreation(detail));
            },
        };
        Ok(Self::from_parts(dir, token, content_type))
    }

    /// Stores the client-declared filename verbatim, including characters
    /// that would be illegal on the local filesystem; it is descriptive
    /// metadata only and never changes where the bytes live.
    pub fn set_filename(&mut self, name: String)
        ensures
            final(self)@ == (HandleView { filename: Some(name@), ..old(self)@ }),
    {
        self.filename = Some(name);
    }

    /// Records the byte count after the parser has streamed more data into
    /// `path`; the size never decreases during the write phase.
    pub fn record_size(&mut self, n: usize)
        requires
            old(self)@.size <= n as nat,
        ensures
            final(self)@ == (HandleView { size: n as nat, ..old(self)@ }),
    {
        self.size = n;
    }

    /// Whether the cleanup plan has already been handed out.
    pub fn is_released(&self) -> (r: bool)
        ensures
            r == self@.released,
    {
        self.released
    }

    /// Structural equality over the five descriptive fields.
    pub fn equal_fields(&self, other: &UploadedFile) -> (r: bool)
        ensures
            r == same_fields(self@, other@),
    {
        let filename_eq = match (&self.filename, &other.filename) {
            (Some(a), Some(b)) => *a == *b,
            (None, None) => true,
            _ => false,
        };
        self.path == other.path && filename_eq && self.content_type == other.content_type
            && self.size == other.size && self.temp_container == other.temp_container
    }

    /// Hands out the cleanup plan for this handle, exactly once: the first
    /// call returns the two deletion steps in their mandatory order — the
    /// file first, then its (by then empty) container directory — and every
    /// later call returns an empty plan. An executor must treat a step
    /// whose path is already absent as success (best-effort cleanup) and
    /// never surface a deletion failure.
    pub fn release(&mut self) -> (r: Vec<CleanupAction>)
        ensures
            final(self)@ == after_release(old(self)@),
            r@.len() == cleanup_plan(old(self)@).len(),
            forall|i: int| 0 <= i < r@.len() ==> #[trigger] r@[i]@ == cleanup_plan(old(self)@)[i],
    {
        let mut r: Vec<CleanupAction> = Vec::new();
        if !self.released {
            r.push(CleanupAction::RemoveFile(self.path.clone()));
            r.push(CleanupAction::RemoveDir(self.temp_container.clone()));
            self.released = true;
        }
        r
    }
}

/// Uniqueness: because the file component has the fixed length
/// `TOKEN_LEN`, a well-formed path determines its container, so two
/// well-formed handles with distinct containers never reference the same
/// file.
pub proof fn lemma_distinct_container_distinct_path(a: HandleView, b: HandleView)
    requires
        wf_view(a),
        wf_view(b),
        a.temp_container != b.temp_container,
    ensures
        a.path != b.path,
{
    if a.path == b.path {
        assert(a.temp_container.len() == b.temp_container.len());
        assert(a.temp_container =~= b.temp_container);
    }
}

/// The handle's structural invariant survives every mutation the library
/// offers: naming the upload, growing the recorded size, and handing out
/// the cleanup plan all leave the file exactly where it was, inside its
/// container.
pub proof fn lemma_wf_preserved(v: HandleView, name: Seq<char>, n: nat)
    requires
        wf_view(v),
    ensures
        wf_view(HandleView { filename: Some(name), ..v }),
        wf_view(HandleView { size: n, ..v }),
        wf_view(after_release(v)),
{
}

/// Cleanup idempotence: a released handle owes no further deletion steps,
/// and releasing it again does not change it.
pub proof fn lemma_release_idempotent(v: HandleView)
    ensures
        cleanup_plan(after_release(v)) =~= Seq::<ActionView>::empty(),
        after_release(after_release(v)) == after_release(v),
{
}

/// Cleanup order: the plan of a live handle has exactly two steps, and the
/// file removal strictly precedes the removal of its container directory,
/// so an executor following the plan never removes the directory while the
/// file still exists.
pub proof fn lemma_release_order(v: HandleView)
    requires
        !v.released,
    ensures
        cleanup_plan(v).len() == 2,
        cleanup_plan(v)[0] == ActionView::RemoveFile(v.path),
        cleanup_plan(v)[1] == ActionView::RemoveDir(v.temp_container),
{
}

} // verus!
