//! Token persistence.
//!
//! The login depends only on the [`TokenStore`] capability: save, load, clear.
//! [`MemoryTokenStore`] keeps the tokens in memory. [`FileTokenStore`] names a
//! file and holds the rules for reading and writing it; the file access itself
//! is done by the caller.

use vstd::prelude::*;

use crate::auth::error::{StoreError, StoreErrorView};
use crate::auth::{Tokens, TokensView};
use std::path::PathBuf;

verus! {

/// What a store holds: a token set, or nothing.
pub type StoreModel = Option<TokensView>;

/// The store after `tokens` were saved: it holds `tokens` and nothing of what
/// it held before.
pub open spec fn saved(store: StoreModel, tokens: TokensView) -> StoreModel {
    Some(tokens)
}

/// What loading from the store yields.
pub open spec fn loaded(store: StoreModel) -> Option<TokensView> {
    store
}

/// The store after it was cleared.
pub open spec fn cleared(store: StoreModel) -> StoreModel {
    None
}

/// Mathematical value of what a load returned.
pub open spec fn found_view(found: Option<Tokens>) -> Option<TokensView> {
    match found {
        Some(tokens) => Some(tokens@),
        None => None,
    }
}

/// The capability the login needs for its tokens: save, load, clear.
///
/// The login depends on nothing else of a store. An implementation is
/// expected to replace what it holds on every save, to report a store that
/// holds nothing as `Ok(None)` on load, and to treat the clearing of such a
/// store as done. Nothing is assumed of an implementation here: the login
/// handles whatever a store returns.
pub trait TokenStore {
    /// Replaces whatever is stored by `tokens`.
    fn save_tokens(&mut self, tokens: &Tokens) -> Result<(), StoreError>;

    /// Reads what is stored, if anything is.
    fn load_tokens(&self) -> Result<Option<Tokens>, StoreError>;

    /// Erases what is stored.
    fn clear_tokens(&mut self) -> Result<(), StoreError>;
}

/// Save then load gives back what was saved; a second save replaces the
/// first; after a clear nothing is loaded; clearing twice is clearing once.
pub proof fn lemma_store_round_trip(store: StoreModel, first: TokensView, second: TokensView)
    ensures
        loaded(saved(store, first)) == Some(first),
        saved(saved(store, first), second) == saved(store, second),
        loaded(cleared(store)) is None,
        loaded(cleared(saved(store, first))) is None,
        cleared(cleared(store)) == cleared(store),
{
}

/// A store that keeps the tokens in memory and never fails.
pub struct MemoryTokenStore {
    tokens: Option<Tokens>,
}

impl View for MemoryTokenStore {
    type V = StoreModel;

    closed spec fn view(&self) -> StoreModel {
        found_view(self.tokens)
    }
}

impl MemoryTokenStore {
    /// A store that holds nothing.
    pub fn new() -> (store: MemoryTokenStore)
        ensures
            store@ is None,
    {
        MemoryTokenStore { tokens: None }
    }
}

impl TokenStore for MemoryTokenStore {
    fn save_tokens(&mut self, tokens: &Tokens) -> (done: Result<(), StoreError>)
        ensures
            done is Ok,
            final(self)@ == saved(old(self)@, tokens@),
    {
        self.tokens = Some(tokens.clone());
        Ok(())
    }

    fn load_tokens(&self) -> (found: Result<Option<Tokens>, StoreError>)
        ensures
            found is Ok,
            found_view(found->Ok_0) == loaded(self@),
    {
        match &self.tokens {
            Some(tokens) => Ok(Some(tokens.clone())),
            None => Ok(None),
        }
    }

    fn clear_tokens(&mut self) -> (done: Result<(), StoreError>)
        ensures
            done is Ok,
            final(self)@ == cleared(old(self)@),
    {
        self.tokens = None;
        Ok(())
    }
}

/// Permission bits of the token file: read and write for the owner, nothing
/// for group and others.
pub const TOKEN_FILE_MODE: u32 = 0o600;

/// What is known of the directory that is to hold the token file.
#[derive(Debug, PartialEq, Eq)]
pub enum ParentDirectory {
    /// The file's path names no parent.
    Unnamed,
    /// The parent is named but does not exist yet.
    Missing,
    /// The parent exists.
    Present,
}

/// How the token file is to be written.
#[derive(Debug, PartialEq, Eq)]
pub struct WritePlan {
    /// Create the parent directory and its ancestors first.
    pub create_parent: bool,
    /// Create the file if it is missing.
    pub create: bool,
    /// Discard what the file held before.
    pub truncate: bool,
    /// Permission bits given to a newly created file.
    pub mode: u32,
}

/// Mathematical value of a [`SaveReport`].
pub enum SaveReportView {
    Written,
    NotEncoded { cause: Seq<char> },
    ParentNotCreated { cause: Seq<char> },
    NotOpened { cause: Seq<char> },
    NotWritten { cause: Seq<char> },
}

/// What writing the token file came to: success, or the first step that
/// failed.
#[derive(Debug, PartialEq, Eq)]
pub enum SaveReport {
    /// The file holds the new tokens.
    Written,
    /// The tokens could not be turned into their persisted form.
    NotEncoded { cause: String },
    /// The parent directory was missing and could not be created.
    ParentNotCreated { cause: String },
    /// The file could not be opened for writing.
    NotOpened { cause: String },
    /// The file was opened but the data could not be written.
    NotWritten { cause: String },
}

impl View for SaveReport {
    type V = SaveReportView;

    open spec fn view(&self) -> SaveReportView {
        match self {
            SaveReport::Written => SaveReportView::Written,
            SaveReport::NotEncoded { cause } => SaveReportView::NotEncoded { cause: cause@ },
            SaveReport::ParentNotCreated { cause } => SaveReportView::ParentNotCreated {
                cause: cause@,
            },
            SaveReport::NotOpened { cause } => SaveReportView::NotOpened { cause: cause@ },
            SaveReport::NotWritten { cause } => SaveReportView::NotWritten { cause: cause@ },
        }
    }
}

/// Mathematical value of a [`TokenFile`].
pub enum TokenFileView {
    Missing,
    Unreadable { cause: Seq<char> },
    Malformed { cause: Seq<char> },
    Valid { tokens: TokensView },
}

/// What reading the token file came to.
#[derive(Debug, PartialEq, Eq)]
pub enum TokenFile {
    /// There is no file.
    Missing,
    /// The file exists but could not be read.
    Unreadable { cause: String },
    /// The file was read but holds no token set.
    Malformed { cause: String },
    /// The file holds `tokens`.
    Valid { tokens: Tokens },
}

impl View for TokenFile {
    type V = TokenFileView;

    open spec fn view(&self) -> TokenFileView {
        match self {
            TokenFile::Missing => TokenFileView::Missing,
            TokenFile::Unreadable { cause } => TokenFileView::Unreadable { cause: cause@ },
            TokenFile::Malformed { cause } => TokenFileView::Malformed { cause: cause@ },
            TokenFile::Valid { tokens } => TokenFileView::Valid { tokens: tokens@ },
        }
    }
}

/// Mathematical value of a [`Removal`].
pub enum RemovalView {
    Absent,
    Removed,
    Failed { cause: Seq<char> },
}

/// What removing the token file came to.
#[derive(Debug, PartialEq, Eq)]
pub enum Removal {
    /// There was no file to remove.
    Absent,
    /// The file was removed.
    Removed,
    /// The file exists and could not be removed.
    Failed { cause: String },
}

impl View for Removal {
    type V = RemovalView;

    open spec fn view(&self) -> RemovalView {
        match self {
            Removal::Absent => RemovalView::Absent,
            Removal::Removed => RemovalView::Removed,
            Removal::Failed { cause } => RemovalView::Failed { cause: cause@ },
        }
    }
}

/// Mathematical value of the result of a load.
pub open spec fn load_result_view(result: Result<Option<Tokens>, StoreError>) -> Result<
    Option<TokensView>,
    StoreErrorView,
> {
    match result {
        Ok(found) => Ok(found_view(found)),
        Err(error) => Err(error@),
    }
}

/// Mathematical value of the result of a save or a clear.
pub open spec fn unit_result_view(result: Result<(), StoreError>) -> Result<(), StoreErrorView> {
    match result {
        Ok(_) => Ok(()),
        Err(error) => Err(error@),
    }
}

/// The result of a load, by what reading the file came to: a missing file is
/// an absent token set and no error.
pub open spec fn load_rule(file: TokenFileView) -> Result<Option<TokensView>, StoreErrorView> {
    match file {
        TokenFileView::Missing => Ok(None),
        TokenFileView::Unreadable { cause } => Err(StoreErrorView::Read { cause }),
        TokenFileView::Malformed { cause } => Err(StoreErrorView::Malformed { cause }),
        TokenFileView::Valid { tokens } => Ok(Some(tokens)),
    }
}

/// The result of a save, by what writing the file came to: each failed step
/// has an error of its own.
pub open spec fn save_rule(report: SaveReportView) -> Result<(), StoreErrorView> {
    match report {
        SaveReportView::Written => Ok(()),
        SaveReportView::NotEncoded { cause } => Err(StoreErrorView::Encode { cause }),
        SaveReportView::ParentNotCreated { cause } => Err(
            StoreErrorView::CreateDirectory { cause },
        ),
        SaveReportView::NotOpened { cause } => Err(StoreErrorView::Open { cause }),
        SaveReportView::NotWritten { cause } => Err(StoreErrorView::Write { cause }),
    }
}

/// The result of a clear, by what removing the file came to: an absent file
/// is no error.
pub open spec fn clear_rule(removal: RemovalView) -> Result<(), StoreErrorView> {
    match removal {
        RemovalView::Absent => Ok(()),
        RemovalView::Removed => Ok(()),
        RemovalView::Failed { cause } => Err(StoreErrorView::Remove { cause }),
    }
}

/// A token store backed by one file.
pub struct FileTokenStore {
    path: PathBuf,
}

impl FileTokenStore {
    /// The path of the token file.
    pub closed spec fn location(&self) -> PathBuf {
        self.path
    }

    /// A store that keeps its tokens in the file at `path`.
    pub fn new(path: PathBuf) -> (store: FileTokenStore)
        ensures
            store.location() == path,
    {
        Self { path: path }
    }

    /// The path of the token file.
    pub fn path(&self) -> (path: &PathBuf)
        ensures
            *path == self.location(),
    {
        &self.path
    }

    /// How to write the token file. Without a parent directory there is no
    /// plan. Otherwise the parent is created if it is missing, and the file is
    /// created if needed, emptied before writing, and readable and writable
    /// by its owner alone.
    pub fn write_plan(&self, parent: ParentDirectory) -> (plan: Result<WritePlan, StoreError>)
        ensures
            parent is Unnamed ==> plan is Err && plan->Err_0@ is NoParentDirectory,
            !(parent is Unnamed) ==> plan == Ok::<WritePlan, StoreError>(
                WritePlan {
                    create_parent: parent is Missing,
                    create: true,
                    truncate: true,
                    mode: TOKEN_FILE_MODE,
                },
            ),
    {
        match parent {
            ParentDirectory::Unnamed => Err(StoreError::NoParentDirectory),
            ParentDirectory::Missing => Ok(
                WritePlan { create_parent: true, create: true, truncate: true, mode: TOKEN_FILE_MODE },
            ),
            ParentDirectory::Present => Ok(
                WritePlan {
                    create_parent: false,
                    create: true,
                    truncate: true,
                    mode: TOKEN_FILE_MODE,
                },
            ),
        }
    }

    /// The result of a save, given what writing the file came to.
    pub fn save_outcome(&self, report: SaveReport) -> (result: Result<(), StoreError>)
        ensures
            unit_result_view(result) == save_rule(report@),
    {
        match report {
            SaveReport::Written => Ok(()),
            SaveReport::NotEncoded { cause } => Err(StoreError::Encode { cause }),
            SaveReport::ParentNotCreated { cause } => Err(StoreError::CreateDirectory { cause }),
            SaveReport::NotOpened { cause } => Err(StoreError::Open { cause }),
            SaveReport::NotWritten { cause } => Err(StoreError::Write { cause }),
        }
    }

    /// The result of a load, given what reading the file came to.
    pub fn load_outcome(&self, file: TokenFile) -> (result: Result<Option<Tokens>, StoreError>)
        ensures
            load_result_view(result) == load_rule(file@),
    {
        match file {
            TokenFile::Missing => Ok(None),
            TokenFile::Unreadable { cause } => Err(StoreError::Read { cause }),
            TokenFile::Malformed { cause } => Err(StoreError::Malformed { cause }),
            TokenFile::Valid { tokens } => Ok(Some(tokens)),
        }
    }

    /// The result of a clear, given what removing the file came to.
    pub fn clear_outcome(&self, removal: Removal) -> (result: Result<(), StoreError>)
        ensures
            unit_result_view(result) == clear_rule(removal@),
    {
        match removal {
            Removal::Absent => Ok(()),
            Removal::Removed => Ok(()),
            Removal::Failed { cause } => Err(StoreError::Remove { cause }),
        }
    }
}

} // verus!
