//! The store's errors and the messages shown for them.

use vstd::prelude::*;

verus! {

/// One of the store's three collections.
#[derive(Debug, Clone, Copy, PartialEq, Eq, Structural)]
pub enum Collection {
    Todos,
    Trash,
    Categories,
}

/// The step at which the data directory could not be had.
#[derive(Debug, Clone, Copy, PartialEq, Eq, Structural)]
pub enum DirectoryStep {
    Resolve,
    Create,
}

/// What was being done to a collection's file when it failed.
#[derive(Debug, Clone, Copy, PartialEq, Eq, Structural)]
pub enum FileAction {
    Open,
    Read,
    Create,
    Write,
}

/// Why a command of the store failed.
#[derive(Debug, Clone, PartialEq, Eq)]
pub enum StoreError {
    /// The data directory cannot be determined or created.
    DirectoryUnavailable { step: DirectoryStep, detail: String },
    /// A collection's file cannot be opened, read, created or written.
    IoFailure { action: FileAction, file: String, detail: String },
    /// A collection's file does not hold a JSON array of records.
    MalformedDocument { file: String, diagnostic: String },
    /// No record of the collection has the id.
    NotFound { id: u64, collection: Collection },
}

/// The mathematical value of a [`StoreError`].
pub ghost enum StoreErrorView {
    DirectoryUnavailable { step: DirectoryStep, detail: Seq<char> },
    IoFailure { action: FileAction, file: Seq<char>, detail: Seq<char> },
    MalformedDocument { file: Seq<char>, diagnostic: Seq<char> },
    NotFound { id: u64, collection: Collection },
}

impl View for StoreError {
    type V = StoreErrorView;

    open spec fn view(&self) -> StoreErrorView {
        match self {
            StoreError::DirectoryUnavailable { step, detail } => StoreErrorView::DirectoryUnavailable {
                step: *step,
                detail: detail@,
            },
            StoreError::IoFailure { action, file, detail } => StoreErrorView::IoFailure {
                action: *action,
                file: file@,
                detail: detail@,
            },
            StoreError::MalformedDocument { file, diagnostic } => StoreErrorView::MalformedDocument {
                file: file@,
                diagnostic: diagnostic@,
            },
            StoreError::NotFound { id, collection } => StoreErrorView::NotFound {
                id: *id,
                collection: *collection,
            },
        }
    }
}

/// The decimal digit `d`, for `d < 10`.
pub open spec fn digit(d: nat) -> char {
    if d == 0 {
        '0'
    } else if d == 1 {
        '1'
    } else if d == 2 {
        '2'
    } else if d == 3 {
        '3'
    } else if d == 4 {
        '4'
    } else if d == 5 {
        '5'
    } else if d == 6 {
        '6'
    } else if d == 7 {
        '7'
    } else if d == 8 {
        '8'
    } else {
        '9'
    }
}

/// The decimal numeral of `n`, without leading zeros.
pub open spec fn decimal(n: nat) -> Seq<char>
    decreases n,
{
    if n < 10 {
        seq![digit(n)]
    } else {
        decimal(n / 10).push(digit(n % 10))
    }
}

fn digit_text(d: u64) -> (text: &'static str)
    requires
        d < 10,
    ensures
        text@ == seq![digit(d as nat)],
{
    proof {
        reveal_strlit("0");
        reveal_strlit("1");
        reveal_strlit("2");
        reveal_strlit("3");
        reveal_strlit("4");
        reveal_strlit("5");
        reveal_strlit("6");
        reveal_strlit("7");
        reveal_strlit("8");
        reveal_strlit("9");
    }
    if d == 0 {
        "0"
    } else if d == 1 {
        "1"
    } else if d == 2 {
        "2"
    } else if d == 3 {
        "3"
    } else if d == 4 {
        "4"
    } else if d == 5 {
        "5"
    } else if d == 6 {
        "6"
    } else if d == 7 {
        "7"
    } else if d == 8 {
        "8"
    } else {
        "9"
    }
}

/// Writes `n` as a decimal numeral.
pub fn decimal_text(n: u64) -> (text: String)
    ensures
        text@ == decimal(n as nat),
    decreases n,
{
    if n < 10 {
        String::from_str(digit_text(n))
    } else {
        decimal_text(n / 10).concat(digit_text(n % 10))
    }
}

impl Collection {
    /// The collection's name in messages.
    pub open spec fn label(self) -> Seq<char> {
        match self {
            Collection::Todos => "todos"@,
            Collection::Trash => "trash"@,
            Collection::Categories => "categories"@,
        }
    }

    /// The name of the file that holds the collection.
    pub open spec fn file(self) -> Seq<char> {
        match self {
            Collection::Todos => "todos.json"@,
            Collection::Trash => "trash.json"@,
            Collection::Categories => "categories.json"@,
        }
    }

    /// The collection's name in messages.
    pub fn label_text(self) -> (text: &'static str)
        ensures
            text@ == self.label(),
    {
        match self {
            Collection::Todos => "todos",
            Collection::Trash => "trash",
            Collection::Categories => "categories",
        }
    }

    /// The name of the file that holds the collection.
    pub fn file_name(self) -> (name: &'static str)
        ensures
            name@ == self.file(),
    {
        match self {
            Collection::Todos => "todos.json",
            Collection::Trash => "trash.json",
            Collection::Categories => "categories.json",
        }
    }
}

impl DirectoryStep {
    /// How a message about this step begins.
    pub open spec fn lead(self) -> Seq<char> {
        match self {
            DirectoryStep::Resolve => "Failed to get app data directory: "@,
            DirectoryStep::Create => "Failed to create data directory: "@,
        }
    }
}

impl FileAction {
    /// How a message about this action begins; the file's name follows.
    pub open spec fn lead(self) -> Seq<char> {
        match self {
            FileAction::Open => "Failed to open "@,
            FileAction::Read => "Failed to read "@,
            FileAction::Create => "Failed to create/open "@,
            FileAction::Write => "Failed to write data to "@,
        }
    }
}

/// The message shown for an error.
pub open spec fn message_text(error: StoreErrorView) -> Seq<char> {
    match error {
        StoreErrorView::DirectoryUnavailable { step, detail } => step.lead() + detail,
        StoreErrorView::IoFailure { action, file, detail } => action.lead() + file + ": "@ + detail,
        StoreErrorView::MalformedDocument { file, diagnostic } => "Failed to parse "@ + file + ": "@
            + diagnostic,
        StoreErrorView::NotFound { id, collection } => "Item with id "@ + decimal(id as nat)
            + " not found in "@ + collection.label(),
    }
}

impl StoreError {
    /// The message shown for this error.
    pub fn message(&self) -> (text: String)
        ensures
            text@ == message_text(self@),
    {
        match self {
            StoreError::DirectoryUnavailable { step, detail } => {
                let lead = match step {
                    DirectoryStep::Resolve => "Failed to get app data directory: ",
                    DirectoryStep::Create => "Failed to create data directory: ",
                };
                String::from_str(lead).concat(detail.as_str())
            },
            StoreError::IoFailure { action, file, detail } => {
                let lead = match action {
                    FileAction::Open => "Failed to open ",
                    FileAction::Read => "Failed to read ",
                    FileAction::Create => "Failed to create/open ",
                    FileAction::Write => "Failed to write data to ",
                };
                String::from_str(lead).concat(file.as_str()).concat(": ").concat(detail.as_str())
            },
            StoreError::MalformedDocument { file, diagnostic } => {
                String::from_str("Failed to parse ").concat(file.as_str()).concat(": ").concat(
                    diagnostic.as_str(),
                )
            },
            StoreError::NotFound { id, collection } => {
                String::from_str("Item with id ").concat(decimal_text(*id).as_str()).concat(
                    " not found in ",
                ).concat(collection.label_text())
            },
        }
    }
}

} // verus!
