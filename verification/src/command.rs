//! The opening command: the path or URI that the operating system handed
//! to the process, and its way through the command parser.
//!
//! The command grammar and the event bus belong to other components, and
//! both are reached by asynchronous calls. So nothing here calls them. Each
//! function decides the next step and says what to ask of them; the caller
//! asks, and hands the answer to the function that decides what follows.

use vstd::prelude::*;
use crate::error::ApiError;
use crate::platform::OS;

verus! {

/// How the process learns of its opening command. Chosen once, at start.
#[derive(Debug, Clone, Copy, PartialEq, Eq, Structural)]
pub enum CaptureStrategy {
    /// The operating system calls back with the command, at a time of its
    /// own choosing.
    NativeCapture,
    /// There is no callback: the command is the first launch argument.
    ArgvFallback,
}

impl CaptureStrategy {
    /// The strategy of a system: macOS delivers by callback, the others
    /// pass an argument.
    pub open spec fn of_os(os: OS) -> CaptureStrategy {
        if os == OS::MacOS {
            CaptureStrategy::NativeCapture
        } else {
            CaptureStrategy::ArgvFallback
        }
    }

    /// Selects the strategy for the system the process runs on.
    pub fn for_os(os: OS) -> (strategy: CaptureStrategy)
        ensures
            strategy == Self::of_os(os),
    {
        match os {
            OS::MacOS => CaptureStrategy::NativeCapture,
            _ => CaptureStrategy::ArgvFallback,
        }
    }
}

/// What a bootstrap holds: its strategy and the raw command, if one was
/// captured.
pub struct BootstrapView {
    pub strategy: CaptureStrategy,
    pub captured: Option<Seq<char>>,
}

/// The first positional launch argument: the one after the program's name.
pub open spec fn first_positional(args: Seq<String>) -> Option<Seq<char>> {
    if args.len() > 1 {
        Some(args[1]@)
    } else {
        None
    }
}

/// The bootstrap at process start. Under the fallback the command is
/// already there, read off the launch arguments; under native capture the
/// slot is empty until the system calls.
pub open spec fn initial_bootstrap(strategy: CaptureStrategy, args: Seq<String>) -> BootstrapView {
    BootstrapView {
        strategy,
        captured: match strategy {
            CaptureStrategy::NativeCapture => None,
            CaptureStrategy::ArgvFallback => first_positional(args),
        },
    }
}

/// Whether a delivery would be stored: only under native capture, and only
/// while the slot is empty.
pub open spec fn accepts_delivery(state: BootstrapView) -> bool {
    state.strategy == CaptureStrategy::NativeCapture && state.captured is None
}

/// The bootstrap after the system delivered `raw`.
pub open spec fn after_delivery(state: BootstrapView, raw: Seq<char>) -> BootstrapView {
    if accepts_delivery(state) {
        BootstrapView { strategy: state.strategy, captured: Some(raw) }
    } else {
        state
    }
}

/// The process-wide holder of the opening command.
///
/// It is made once at start, written at most once, and read as often as the
/// UI asks. Where several tasks share it, the embedding program keeps it
/// behind a lock and holds the lock only for the call.
#[derive(Debug, PartialEq, Eq)]
pub struct CommandBootstrap {
    strategy: CaptureStrategy,
    captured: Option<String>,
}

impl View for CommandBootstrap {
    type V = BootstrapView;

    closed spec fn view(&self) -> BootstrapView {
        BootstrapView {
            strategy: self.strategy,
            captured: match self.captured {
                Some(raw) => Some(raw@),
                None => None,
            },
        }
    }
}

impl CommandBootstrap {
    /// Makes the bootstrap for a process that was started with `args`, the
    /// program's name first.
    pub fn new(strategy: CaptureStrategy, args: &Vec<String>) -> (bootstrap: Self)
        ensures
            bootstrap@ == initial_bootstrap(strategy, args@),
    {
        let captured = match strategy {
            CaptureStrategy::NativeCapture => None,
            CaptureStrategy::ArgvFallback => if args.len() > 1 {
                Some(args[1].clone())
            } else {
                None
            },
        };
        CommandBootstrap { strategy, captured }
    }

    /// Takes a command that the operating system delivered. The first
    /// delivery under native capture is stored; any other leaves the
    /// bootstrap as it is. Returns whether the command was stored.
    pub fn deliver(&mut self, raw: String) -> (stored: bool)
        ensures
            stored == accepts_delivery(old(self)@),
            final(self)@ == after_delivery(old(self)@, raw@),
    {
        match self.strategy {
            CaptureStrategy::NativeCapture => {
                if self.captured.is_none() {
                    self.captured = Some(raw);
                    true
                } else {
                    false
                }
            },
            CaptureStrategy::ArgvFallback => false,
        }
    }

    /// The strategy this bootstrap was made with.
    pub fn strategy(&self) -> (strategy: CaptureStrategy)
        ensures
            strategy == self@.strategy,
    {
        self.strategy
    }

    /// A copy of the captured command. Reading does not clear it.
    pub fn captured(&self) -> (raw: Option<String>)
        ensures
            match raw {
                Some(text) => self@.captured == Some(text@),
                None => self@.captured is None,
            },
    {
        match &self.captured {
            Some(text) => Some(text.clone()),
            None => None,
        }
    }
}

/// A raw command that waits for the parser's verdict.
#[derive(Debug, PartialEq, Eq)]
pub struct PendingCommand {
    raw: String,
}

impl View for PendingCommand {
    type V = Seq<char>;

    closed spec fn view(&self) -> Seq<char> {
        self.raw@
    }
}

/// The next step of a query for the opening command.
#[derive(Debug, PartialEq, Eq)]
pub enum QueryStep<P> {
    /// The query is answered.
    Reply(Result<Option<P>, ApiError>),
    /// Hand the command to the parser, and its verdict to
    /// `PendingCommand::opening_reply`.
    Parse(PendingCommand),
}

/// Whether a parse result is the parser's verdict on `raw`, passed on: the
/// payload if there is one, else `InvalidCommand` with the rejected text
/// and the parser's reason.
pub open spec fn is_parse_of<P>(
    parsed: Result<P, ApiError>,
    raw: Seq<char>,
    verdict: Result<P, String>,
) -> bool {
    match verdict {
        Ok(payload) => parsed == Ok::<P, ApiError>(payload),
        Err(why) => parsed matches Err(ApiError::InvalidCommand { command, reason })
            && command@ == raw && reason@ == why@,
    }
}

/// Whether a reply answers a query whose command was `raw`, given the
/// parser's verdict on it.
pub open spec fn is_reply_to<P>(
    reply: Result<Option<P>, ApiError>,
    raw: Seq<char>,
    verdict: Result<P, String>,
) -> bool {
    match verdict {
        Ok(payload) => reply == Ok::<Option<P>, ApiError>(Some(payload)),
        Err(why) => reply matches Err(ApiError::InvalidCommand { command, reason })
            && command@ == raw && reason@ == why@,
    }
}

/// Whether `step` is the step that a query takes on a bootstrap in `state`:
/// the empty reply where nothing was captured, else the captured command
/// on its way to the parser.
pub open spec fn is_step_of<P>(step: QueryStep<P>, state: BootstrapView) -> bool {
    match state.captured {
        None => step matches QueryStep::Reply(Ok(None)),
        Some(raw) => step matches QueryStep::Parse(pending) && pending@ == raw,
    }
}

/// Whether two steps ask or answer the same.
pub open spec fn same_step<P>(a: QueryStep<P>, b: QueryStep<P>) -> bool {
    match (a, b) {
        (QueryStep::Reply(x), QueryStep::Reply(y)) => x == y,
        (QueryStep::Parse(p), QueryStep::Parse(q)) => p@ == q@,
        _ => false,
    }
}

/// Whether two replies are the same answer: the same payload, or the same
/// error about the same text.
pub open spec fn same_reply<P>(a: Result<Option<P>, ApiError>, b: Result<Option<P>, ApiError>) -> bool {
    match (a, b) {
        (Ok(x), Ok(y)) => x == y,
        (
            Err(ApiError::InvalidCommand { command: c1, reason: r1 }),
            Err(ApiError::InvalidCommand { command: c2, reason: r2 }),
        ) => c1@ == c2@ && r1@ == r2@,
        (Err(e1), Err(e2)) => e1 == e2,
        _ => false,
    }
}

impl PendingCommand {
    /// The text to hand to the parser.
    pub fn raw(&self) -> (raw: &str)
        ensures
            raw@ == self@,
    {
        self.raw.as_str()
    }

    /// Passes the parser's verdict on. A payload is returned as it is; a
    /// rejection becomes `InvalidCommand`, which names the command and the
    /// parser's reason. No verdict is dropped.
    pub fn parse_command<P>(self, verdict: Result<P, String>) -> (parsed: Result<P, ApiError>)
        ensures
            is_parse_of(parsed, self@, verdict),
    {
        match verdict {
            Ok(payload) => Ok(payload),
            Err(why) => Err(ApiError::InvalidCommand { command: self.raw, reason: why }),
        }
    }

    /// Turns the parser's verdict into the reply to `get_opening_command`:
    /// the payload, or `InvalidCommand`. A command that does not parse is an
    /// error, never an empty reply.
    pub fn opening_reply<P>(self, verdict: Result<P, String>) -> (reply: Result<
        Option<P>,
        ApiError,
    >)
        ensures
            is_reply_to(reply, self@, verdict),
    {
        match self.parse_command(verdict) {
            Ok(payload) => Ok(Some(payload)),
            Err(error) => Err(error),
        }
    }
}

/// Gets the opening command: for example the `.mrpack` file that the user
/// double-clicked to open the launcher.
///
/// Where nothing was captured the answer is `Ok(None)` at once: that the
/// system gave no command is a normal outcome. Otherwise the answer comes
/// from the parser, to which the caller hands the captured text. The
/// bootstrap is only read, so asking again gives the same step until a
/// delivery is stored.
pub fn get_opening_command<P>(bootstrap: &CommandBootstrap) -> (step: QueryStep<P>)
    ensures
        is_step_of(step, bootstrap@),
{
    match bootstrap.captured() {
        None => QueryStep::Reply(Ok(None)),
        Some(raw) => QueryStep::Parse(PendingCommand { raw }),
    }
}

/// Takes up a command that reached the process while it was already
/// running. The command goes to the parser; what the parser makes of it,
/// passed through `PendingCommand::parse_command`, goes onto the event bus;
/// and `command_emitted` closes the dispatch.
pub fn handle_command(command: String) -> (pending: PendingCommand)
    ensures
        pending@ == command@,
{
    PendingCommand { raw: command }
}

/// Closes a dispatch with what the event bus said of the payload: done, or
/// `Upstream` if the bus could not take it. Nothing is tried again.
pub fn command_emitted(emitted: Result<(), String>) -> (outcome: Result<(), ApiError>)
    ensures
        emitted is Ok ==> outcome is Ok,
        emitted is Err ==> outcome matches Err(ApiError::Upstream),
{
    match emitted {
        Ok(()) => Ok(()),
        Err(_) => Err(ApiError::Upstream),
    }
}

/// The slot is written at most once: after any delivery, a further one
/// changes nothing. In particular a query gives the same step before and
/// after it.
pub proof fn lemma_first_delivery_wins(state: BootstrapView, first: Seq<char>, second: Seq<char>)
    ensures
        !accepts_delivery(after_delivery(state, first)),
        after_delivery(after_delivery(state, first), second) == after_delivery(state, first),
{
}

/// Under the fallback no delivery ever changes the bootstrap: what the
/// launch arguments gave is what every query sees.
pub proof fn lemma_fallback_is_fixed(args: Seq<String>, raw: Seq<char>)
    ensures
        after_delivery(initial_bootstrap(CaptureStrategy::ArgvFallback, args), raw)
            == initial_bootstrap(CaptureStrategy::ArgvFallback, args),
        initial_bootstrap(CaptureStrategy::ArgvFallback, args).captured == first_positional(args),
{
}

/// Asking again gives the same step: as long as the bootstrap holds the
/// same, any two queries ask the parser about the same text, or both reply
/// at once that there is no command.
pub proof fn lemma_query_is_repeatable<P>(
    state: BootstrapView,
    first: QueryStep<P>,
    second: QueryStep<P>,
)
    requires
        is_step_of(first, state),
        is_step_of(second, state),
    ensures
        same_step(first, second),
{
}

/// The same verdict on the same command gives the same reply, and a
/// rejection never gives an empty one.
pub proof fn lemma_reply_is_repeatable<P>(
    raw: Seq<char>,
    verdict: Result<P, String>,
    first: Result<Option<P>, ApiError>,
    second: Result<Option<P>, ApiError>,
)
    requires
        is_reply_to(first, raw, verdict),
        is_reply_to(second, raw, verdict),
    ensures
        same_reply(first, second),
        verdict is Err ==> first matches Err(ApiError::InvalidCommand { .. }),
        verdict is Ok ==> first matches Ok(Some(_)),
{
}

} // verus!
