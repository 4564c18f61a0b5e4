use crate::text::concat2;
use vstd::prelude::*;

verus! {

/// Why a storage operation failed.
#[derive(Debug)]
pub enum StorageError {
    /// Nothing exists at the path.
    NotFound(String),
    /// The path exists but is not a directory.
    NotADirectory(String),
    /// The path exists but is not a file.
    NotAFile(String),
    /// The path is already taken.
    AlreadyExists(String),
    /// The backend refused access to the path.
    PermissionDenied(String),
    /// The medium reported a failure; the text is the medium's own.
    Io(String),
    /// The configuration cannot be used.
    Config(String),
    /// The backend does not offer the operation.
    NotSupported,
}

/// A [`StorageError`] as a mathematical value.
pub enum StorageErrorView {
    NotFound(Seq<char>),
    NotADirectory(Seq<char>),
    NotAFile(Seq<char>),
    AlreadyExists(Seq<char>),
    PermissionDenied(Seq<char>),
    Io(Seq<char>),
    Config(Seq<char>),
    NotSupported,
}

impl StorageErrorView {
    /// The text shown to a caller for this error.
    pub open spec fn message(self) -> Seq<char> {
        match self {
            StorageErrorView::NotFound(p) => "Путь не существует: "@ + p,
            StorageErrorView::NotADirectory(p) => "Путь не является директорией: "@ + p,
            StorageErrorView::NotAFile(p) => "Путь не является файлом: "@ + p,
            StorageErrorView::AlreadyExists(p) => "Файл уже существует: "@ + p,
            StorageErrorView::PermissionDenied(p) => "Недостаточно прав: "@ + p,
            StorageErrorView::Io(m) => "Ошибка ввода-вывода: "@ + m,
            StorageErrorView::Config(m) => "Ошибка конфигурации: "@ + m,
            StorageErrorView::NotSupported => "Провайдер не поддерживает эту операцию"@,
        }
    }
}

impl View for StorageError {
    type V = StorageErrorView;

    open spec fn view(&self) -> StorageErrorView {
        match self {
            StorageError::NotFound(p) => StorageErrorView::NotFound(p@),
            StorageError::NotADirectory(p) => StorageErrorView::NotADirectory(p@),
            StorageError::NotAFile(p) => StorageErrorView::NotAFile(p@),
            StorageError::AlreadyExists(p) => StorageErrorView::AlreadyExists(p@),
            StorageError::PermissionDenied(p) => StorageErrorView::PermissionDenied(p@),
            StorageError::Io(m) => StorageErrorView::Io(m@),
            StorageError::Config(m) => StorageErrorView::Config(m@),
            StorageError::NotSupported => StorageErrorView::NotSupported,
        }
    }
}

impl StorageError {
    /// The text shown to a caller for this error.
    pub fn message(&self) -> (r: String)
        ensures
            r@ == self@.message(),
    {
        match self {
            StorageError::NotFound(p) => concat2("Путь не существует: ", p.as_str()),
            StorageError::NotADirectory(p) => concat2("Путь не является директорией: ", p.as_str()),
            StorageError::NotAFile(p) => concat2("Путь не является файлом: ", p.as_str()),
            StorageError::AlreadyExists(p) => concat2("Файл уже существует: ", p.as_str()),
            StorageError::PermissionDenied(p) => concat2("Недостаточно прав: ", p.as_str()),
            StorageError::Io(m) => concat2("Ошибка ввода-вывода: ", m.as_str()),
            StorageError::Config(m) => concat2("Ошибка конфигурации: ", m.as_str()),
            StorageError::NotSupported => crate::text::owned("Провайдер не поддерживает эту операцию"),
        }
    }

    /// The failure that the medium reported with the text `text`.
    pub fn io(text: String) -> (r: StorageError)
        ensures
            r@ == StorageErrorView::Io(text@),
    {
        StorageError::Io(text)
    }
}

/// The view of a result whose error is a [`StorageError`] and whose value
/// has a view of its own.
pub open spec fn outcome_view<T: View>(r: Result<T, StorageError>) -> Result<T::V, StorageErrorView> {
    match r {
        Ok(v) => Ok(v@),
        Err(e) => Err(e@),
    }
}

} // verus!
