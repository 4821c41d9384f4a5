//! Serving the files of a directory: the decisions of the request handler,
//! apart from the file system and the network that carry them out.
use crate::utils::join_text;
use vstd::prelude::*;
use vstd::string::StrSliceExecFns;

verus! {

/// What the handlers of one server share.
#[derive(Debug)]
pub struct HttpServerState {
    /// The directory that is served.
    pub dir: String,
}

/// What the handler of one request waits for.
#[derive(Debug, Clone, Copy, PartialEq, Eq, Structural)]
pub enum HandlerState {
    /// To learn what stands at the requested path.
    AwaitTarget,
    /// To learn whether the directory has a page for missing files.
    AwaitNotFoundPage,
    /// The contents of the file being read.
    AwaitContent,
    /// Nothing: the response is out.
    Done,
}

/// What the file system answered.
#[derive(Debug)]
pub enum HandlerEvent {
    /// Whether something stands at the path asked about, and whether that
    /// is a regular file.
    Probed { exists: bool, is_file: bool },
    /// The contents of the file that was to be read, or why it could not
    /// be read.
    Content(Result<String, String>),
}

/// What is to be done next for the request.
#[derive(Debug)]
pub enum HandlerAction {
    /// Ask whether the directory has a `404.html`.
    ProbeNotFoundPage,
    /// Read the requested file.
    ReadTarget,
    /// Read the directory's `404.html`.
    ReadNotFoundPage,
    /// Answer with the page, or fail with the message.
    Respond(Result<String, String>),
}

/// The name of the page that stands in for missing files.
pub open spec fn not_found_page() -> Seq<char> {
    "404.html"@
}

/// The state that follows, with the text of each page and message as a
/// sequence of characters.
pub enum Step {
    /// Go on to `state` and do what `action` says.
    Next { state: HandlerState, action: ActionModel },
    /// The event is none that the state waits for.
    Unexpected,
}

/// An action with its texts as sequences of characters.
pub enum ActionModel {
    /// Ask whether the directory has a `404.html`.
    ProbeNotFoundPage,
    /// Read the requested file.
    ReadTarget,
    /// Read the directory's `404.html`.
    ReadNotFoundPage,
    /// Answer with the page, or fail with the message.
    Respond(Result<Seq<char>, Seq<char>>),
}

/// The model of an action.
pub open spec fn action_model(action: HandlerAction) -> ActionModel {
    match action {
        HandlerAction::ProbeNotFoundPage => ActionModel::ProbeNotFoundPage,
        HandlerAction::ReadTarget => ActionModel::ReadTarget,
        HandlerAction::ReadNotFoundPage => ActionModel::ReadNotFoundPage,
        HandlerAction::Respond(Ok(page)) => ActionModel::Respond(Ok(page@)),
        HandlerAction::Respond(Err(message)) => ActionModel::Respond(Err(message@)),
    }
}

/// How the handler goes on. An existing regular file is read and sent; an
/// existing path that is no file is named in a page; for a missing path
/// the directory's `404.html` is read and sent where there is one, and the
/// path named in a page where there is none. A file that cannot be read
/// fails the request with the reason.
pub open spec fn step(state: HandlerState, shown: Seq<char>, event: HandlerEvent) -> Step {
    match (state, event) {
        (HandlerState::AwaitTarget, HandlerEvent::Probed { exists, is_file }) => if exists {
            if is_file {
                Step::Next { state: HandlerState::AwaitContent, action: ActionModel::ReadTarget }
            } else {
                Step::Next {
                    state: HandlerState::Done,
                    action: ActionModel::Respond(Ok("Not a file: "@ + shown)),
                }
            }
        } else {
            Step::Next {
                state: HandlerState::AwaitNotFoundPage,
                action: ActionModel::ProbeNotFoundPage,
            }
        },
        (HandlerState::AwaitNotFoundPage, HandlerEvent::Probed { exists, is_file }) => if exists {
            Step::Next { state: HandlerState::AwaitContent, action: ActionModel::ReadNotFoundPage }
        } else {
            Step::Next {
                state: HandlerState::Done,
                action: ActionModel::Respond(Ok("File not found: "@ + shown)),
            }
        },
        (HandlerState::AwaitContent, HandlerEvent::Content(Ok(page))) => Step::Next {
            state: HandlerState::Done,
            action: ActionModel::Respond(Ok(page@)),
        },
        (HandlerState::AwaitContent, HandlerEvent::Content(Err(message))) => Step::Next {
            state: HandlerState::Done,
            action: ActionModel::Respond(Err(message@)),
        },
        _ => Step::Unexpected,
    }
}

/// The state in which the handler of a request starts, once it has asked
/// what stands at the requested path.
pub fn file_handler_start() -> (state: HandlerState)
    ensures
        state == HandlerState::AwaitTarget,
{
    HandlerState::AwaitTarget
}

/// Takes the handler of a request one step further: from what it waited
/// for and what the file system answered to what it waits for next and
/// what is to be done. `shown` is the requested path as pages name it.
/// An event that the state does not wait for gives `None`.
pub fn file_handler(state: HandlerState, shown: &str, event: HandlerEvent) -> (next: Option<
    (HandlerState, HandlerAction),
>)
    ensures
        match next {
            Some((after, action)) => step(state, shown@, event) == (Step::Next {
                state: after,
                action: action_model(action),
            }),
            None => step(state, shown@, event) == Step::Unexpected,
        },
{
    match state {
        HandlerState::AwaitTarget => match event {
            HandlerEvent::Probed { exists, is_file } => {
                if exists {
                    if is_file {
                        Some((HandlerState::AwaitContent, HandlerAction::ReadTarget))
                    } else {
                        let page = join_text("Not a file: ", shown);
                        Some((HandlerState::Done, HandlerAction::Respond(Ok(page))))
                    }
                } else {
                    Some((HandlerState::AwaitNotFoundPage, HandlerAction::ProbeNotFoundPage))
                }
            },
            HandlerEvent::Content(_) => None,
        },
        HandlerState::AwaitNotFoundPage => match event {
            HandlerEvent::Probed { exists, is_file } => {
                if exists {
                    Some((HandlerState::AwaitContent, HandlerAction::ReadNotFoundPage))
                } else {
                    let page = join_text("File not found: ", shown);
                    Some((HandlerState::Done, HandlerAction::Respond(Ok(page))))
                }
            },
            HandlerEvent::Content(_) => None,
        },
        HandlerState::AwaitContent => match event {
            HandlerEvent::Content(content) => Some(
                (HandlerState::Done, HandlerAction::Respond(content)),
            ),
            HandlerEvent::Probed { .. } => None,
        },
        HandlerState::Done => None,
    }
}

/// `path` without the slashes it starts with.
pub open spec fn without_leading_slashes(path: Seq<char>) -> Seq<char>
    decreases path.len(),
{
    if path.len() > 0 && path.first() == '/' {
        without_leading_slashes(path.drop_first())
    } else {
        path
    }
}

/// Dropping `i` leading slashes one by one leaves the same path as
/// dropping them at once.
proof fn lemma_skip_slashes(path: Seq<char>, i: int)
    requires
        0 <= i <= path.len(),
        forall|j: int| 0 <= j < i ==> path[j] == '/',
    ensures
        without_leading_slashes(path) == without_leading_slashes(path.skip(i)),
    decreases i,
{
    if i > 0 {
        assert(path.drop_first().skip(i - 1) =~= path.skip(i));
        lemma_skip_slashes(path.drop_first(), i - 1);
    } else {
        assert(path.skip(0) =~= path);
    }
}

/// The path of a request relative to the served directory: the requested
/// path without its leading slashes.
pub fn relative_path(path: &str) -> (relative: &str)
    ensures
        relative@ == without_leading_slashes(path@),
{
    let n = path.unicode_len();
    let mut i: usize = 0;
    while i < n && path.get_char(i) == '/'
        invariant
            i <= n,
            n == path@.len(),
            forall|j: int| 0 <= j < i ==> path@[j] == '/',
        decreases n - i,
    {
        i += 1;
    }
    proof {
        lemma_skip_slashes(path@, i as int);
        assert(path@.skip(i as int) =~= path@.subrange(i as int, n as int));
    }
    path.substring_char(i, n)
}

} // verus!
