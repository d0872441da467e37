//! What values stand for, as far as the promises speak of them.

use crate::constant::Const;
use crate::edit::views;
use crate::effects::{group_views, FileChanges};
use crate::errors::{
    CloneErrorKind, CloneRepoError, DiscoverErrorKind, DiscoverRepoError, RepoErrorRepr, ScanError,
    ScanFilesError,
};
use crate::file_scanner::{discover_failure, packages, uncloned_repo, Package};
use crate::parser::{tokens, Token, TokenV};
use crate::repo::{
    discover_kind, fetch_kind, prepare_kind, uncloned, undiscovered, CloneOutcome, DiscoverOutcome,
};
use crate::scanner::{borne_out, clone_failure, package_names, texts};
use crate::syntax::ConstItem;
use crate::tui::event::{Mode, ModeAction, UserEvent};
use crate::tui::screen::seen;
use crate::tui::state::{known_size, visible, StateV};
use vstd::prelude::*;
use vstd::utf8::{decode_utf8, encode_utf8, valid_utf8};

verus! {

/// Lists are read element by element, from the first to the last.
pub proof fn law_lists(
    constants: Seq<Const>,
    groups: Seq<FileChanges>,
    paths: Seq<String>,
    list: Seq<Package>,
    shown: Seq<&Const>,
)
    ensures
        views(constants).len() == constants.len(),
        forall|i: int| 0 <= i < constants.len() ==> #[trigger] views(constants)[i] == constants[i]@,
        group_views(groups).len() == groups.len(),
        forall|i: int| 0 <= i < groups.len() ==> #[trigger] group_views(groups)[i] == groups[i]@,
        texts(paths).len() == paths.len(),
        forall|i: int| 0 <= i < paths.len() ==> #[trigger] texts(paths)[i] == paths[i]@,
        packages(list).len() == list.len(),
        forall|i: int|
            0 <= i < list.len() ==> (#[trigger] packages(list)[i]).name == list[i].name@
                && packages(list)[i].manifest == list[i].manifest@,
        seen(shown).len() == shown.len(),
        forall|i: int| 0 <= i < shown.len() ==> #[trigger] seen(shown)[i] == shown[i]@,
{
}

/// The tokens of a macro's body are read one by one, as what they are.
pub proof fn law_tokens(body: Seq<Token>)
    ensures
        tokens(body).len() == body.len(),
        forall|i: int|
            0 <= i < body.len() ==> match #[trigger] body[i] {
                Token::Word(word) => tokens(body)[i] == TokenV::Word(word@),
                Token::Mark(mark) => tokens(body)[i] == TokenV::Mark(mark),
                Token::Bracket(parses) => tokens(body)[i] == TokenV::Bracket(parses),
                Token::Brace(parses) => tokens(body)[i] == TokenV::Brace(parses),
                Token::Other => tokens(body)[i] == TokenV::Other,
            },
{
}

/// The item of a constant is read with all of its attributes.
pub proof fn law_item(item: ConstItem)
    ensures
        item@.ident == item.ident@,
        item@.span == item.span,
        item@.paths.len() == item.paths@.len(),
        forall|a: int|
            0 <= a < item.paths@.len() ==> match #[trigger] item.paths@[a] {
                Some(path) => item@.paths[a] == Some(path@),
                None => item@.paths[a] is None,
            },
{
}

/// What is made of the output of `cargo metadata` follows from it: that it was not
/// printed, that it lists the `libc` crate, that it lists another one, or that
/// something else is amiss, such as bytes that are no text.
pub proof fn law_metadata(output: Result<Vec<u8>, String>, found: Result<(), ScanError>)
    requires
        borne_out(output, found),
    ensures
        output is Err <==> found is Err && found->Err_0.repr() is IoBound,
        output is Err ==> found->Err_0.repr() == ScanFilesError::IoBound(output->Err_0),
        found is Ok ==> valid_utf8(output->Ok_0@) && package_names(
            decode_utf8(output->Ok_0@),
        ).contains("libc"@),
        found is Err && found->Err_0.repr() is NotLibcRepo ==> valid_utf8(output->Ok_0@) && exists|
            name: Seq<char>,
        | #[trigger]
            package_names(decode_utf8(output->Ok_0@)).contains(name) && name != "libc"@,
        output is Ok && !valid_utf8(output->Ok_0@) ==> found is Err
            && found->Err_0.repr() is Other,
        found is Err ==> found->Err_0.repr() is IoBound || found->Err_0.repr() is NotLibcRepo
            || found->Err_0.repr() is Other,
{
}

/// An error of the repository names the path that was looked into or cloned to, and
/// says what went wrong.
pub proof fn law_repo_errors(
    discover: DiscoverRepoError,
    clone: CloneRepoError,
    path: Seq<char>,
    discover_why: DiscoverErrorKind,
    clone_why: CloneErrorKind,
)
    ensures
        undiscovered(discover, path, discover_why) <==> {
            &&& discover is Error
            &&& discover->Error_0 is Discover
            &&& discover->Error_0->Discover_path@ == path
            &&& discover->Error_0->Discover_kind == discover_why
        },
        uncloned(clone, path, clone_why) <==> {
            &&& clone is Error
            &&& clone->Error_0 is Clone
            &&& clone->Error_0->Clone_path@ == path
            &&& clone->Error_0->Clone_kind == clone_why
        },
{
}

/// What ends a scan whose repository cannot be had: an error of the repository that
/// names the path and the kind of failure, or the message of a broken task.
pub proof fn law_no_repository(
    looked: DiscoverOutcome,
    cloned: CloneOutcome,
    path: Seq<char>,
    err: ScanFilesError,
    repo: RepoErrorRepr,
)
    ensures
        clone_failure(cloned, path, err) ==> match cloned {
            CloneOutcome::Cloned => false,
            CloneOutcome::TaskFailed(message) => err == ScanFilesError::Other(message),
            CloneOutcome::PrepareFailed(why) => err is RepoError && err->RepoError_0 is Clone
                && err->RepoError_0->Clone_path@ == path && err->RepoError_0->Clone_kind
                == prepare_kind(why),
            CloneOutcome::FetchFailed(why) => err is RepoError && err->RepoError_0 is Clone
                && err->RepoError_0->Clone_path@ == path && err->RepoError_0->Clone_kind
                == fetch_kind(why),
            CloneOutcome::CheckoutFailed(message) => err is RepoError && err->RepoError_0 is Clone
                && err->RepoError_0->Clone_path@ == path && err->RepoError_0->Clone_kind
                == CloneErrorKind::Other(message),
        },
        uncloned_repo(cloned, path, repo) ==> match cloned {
            CloneOutcome::Cloned => false,
            CloneOutcome::TaskFailed(message) => repo == RepoErrorRepr::Other(message),
            CloneOutcome::PrepareFailed(why) => repo is Clone && repo->Clone_path@ == path
                && repo->Clone_kind == prepare_kind(why),
            CloneOutcome::FetchFailed(why) => repo is Clone && repo->Clone_path@ == path
                && repo->Clone_kind == fetch_kind(why),
            CloneOutcome::CheckoutFailed(message) => repo is Clone && repo->Clone_path@ == path
                && repo->Clone_kind == CloneErrorKind::Other(message),
        },
        discover_failure(looked, path, repo) ==> match looked {
            DiscoverOutcome::Found => false,
            DiscoverOutcome::TaskFailed(message) => repo == RepoErrorRepr::Other(message),
            DiscoverOutcome::Failed(why) => repo is Discover && repo->Discover_path@ == path
                && repo->Discover_kind == discover_kind(why),
        },
{
}

/// The size of the terminal is taken as it is, and is asked for where a step on may
/// lead to its edge: after a character was typed, and on the way right or down.
pub proof fn law_size_wanted(s: StateV, event: UserEvent, size: (u16, u16))
    requires
        s.wf(),
        encode_utf8(s.prompt).len() <= usize::MAX,
    ensures
        known_size(Some(size)) == size,
        visible(Some(size)) <==> size.0 > 0 && size.1 > 0,
        !visible(None),
        s.wants_size(event) <==> match event {
            UserEvent::TextualInput(_) => true,
            UserEvent::ModeAction(ModeAction::GoRight) => s.mode == Mode::Normal
                && s.pos.repr is Prompt && s.pos.repr->Prompt_0 != encode_utf8(s.prompt).len(),
            UserEvent::ModeAction(ModeAction::GoDown) => s.pos.repr is List,
            _ => false,
        },
{
}

/// The view is filtered by the text of the prompt in a search, and by `.*` where a
/// prompt that holds any text is cleared.
pub proof fn law_filtered_by(s: StateV, event: UserEvent)
    ensures
        s.filters(event) <==> event == UserEvent::Search || event == UserEvent::Clear
            && s.prompt.len() > 0,
        s.filter_re(UserEvent::Search) == s.prompt,
        s.filter_re(UserEvent::Clear) == ".*"@,
{
}

} // verus!
