//! Marks constants of the `libc` crate as deprecated: finds them in its
//! sources, filters them by identifier, and writes the changes back.
//!
//! What touches the disk, the network or the terminal is left to the caller.
//! [`scan()`] and [`ConstContainer::effect_changes()`] say what is to be done
//! next, and are told how it turned out; [`State`] is told what the user asks for,
//! and says what is to be shown.

pub mod constant;
pub mod constant_container;
pub mod edit;
pub mod effects;
pub mod errors;
pub mod file_scanner;
pub mod law;
pub mod parser;
pub mod pattern;
pub mod repo;
pub mod scanner;
pub mod syntax;
pub mod text;
pub mod tui;

pub use crate::constant::{Const, ConstV, LineColumn};
pub use crate::constant_container::borrowed::{BorrowedContainer, BorrowedSubset};
pub use crate::constant_container::indexer::{Indexer, Offset};
pub use crate::constant_container::visit::Visit;
pub use crate::constant_container::{ConstContainer, EntryV};
pub use crate::edit::{
    edit_file, edit_source, find_verdict, DEPRECATED_SINCE, DEPRECATION_NOTICE,
};
pub use crate::effects::{EffectAction, EffectEvent, Effects, EffectsV, FileChanges, Stage};
pub use crate::errors::{
    ChangesKind, ChangesKindRepr, ChangesSrc, CloneErrorKind, CloneRepoError, DiscoverErrorKind,
    DiscoverRepoError, FetchParseError, FilterError, FilterErrorRepr, IoBoundChanges,
    MakeChangesError, MakeChangesErrorRepr, RepoErrorRepr, ScanError, ScanFilesError, Visited,
};
pub use crate::file_scanner::{
    find_json, find_libc, scan_files, CommandOutput, FileAction, FileEvent, FileScan, FileStage,
    Package,
};
pub use crate::parser::{
    find_chain, parse_all_constants, parse_constants, ConstContainerBuilder, SourceFile, Token,
};
pub use crate::pattern::{build_re, CompileError, ReCache, MAX_RE_POWER};
pub use crate::repo::{
    clone_repo, discover_repo, CloneOutcome, CreateFailure, DiscoverFailure, DiscoverOutcome,
    FetchFailure, InitFailure, OpenFailure, PrepareFailure, UpwardsFailure, LIBC_REPO,
};
pub use crate::scanner::{
    check_package, ensure_libc, fetch_details, scan, Scan, ScanAction, ScanEvent, ScanStage,
    WalkEntry,
};
pub use crate::syntax::ConstItem;
pub use crate::tui::event::{
    handle_input, Input, KeyCode, KeyModifiers, Mode, ModeAction, RawUserEvent, TerminalEvent,
    UserEvent,
};
pub use crate::tui::position::{Position, PositionRepr, LIST_ROWS, MAX_ORIGIN};
pub use crate::tui::screen::{CursorStyle, Draw, DrawError, Style, StylizedSymbol};
pub use crate::tui::selection::{Dir, Selection, SelectionRange};
pub use crate::tui::spinner::{Msg, Received, Report, Spinner, Termination};
pub use crate::tui::state::{all_deprecated, Request, State};
