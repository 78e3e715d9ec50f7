//! The desktop shell's decisions: which window to bring forward, what the
//! tray menu and window events do, what happens after the server is up, and
//! the address the main window opens.
use vstd::prelude::*;

use crate::credentials::SetupCredentials;
use crate::path::{opt_path_view, FsPath};
use crate::status::{credentials_view, failure_view, info_view, statuses_view, StatusPayload, StatusView};
use crate::text::{chars_of, range_equals};

verus! {

/// Whether `a` and `b` are the same text.
pub fn text_equals(a: &str, b: &str) -> (r: bool)
    ensures
        r == (a@ == b@),
{
    let x = chars_of(a);
    let y = chars_of(b);
    proof {
        assert(x@.subrange(0, x@.len() as int) =~= x@);
    }
    range_equals(&x, 0, x.len(), &y)
}

/// The shell's two windows.
#[derive(Clone, Copy, PartialEq, Eq, Structural, Debug)]
pub enum WindowLabel {
    /// The Odysseus web UI.
    Main,
    /// The splash screen that shows startup progress.
    Splash,
}

/// Which window to show and focus when the user asks for the app: the main
/// window when it exists, else the splash screen when it exists.
pub fn focus_target(main_exists: bool, splash_exists: bool) -> (r: Option<WindowLabel>)
    ensures
        r == if main_exists {
            Some(WindowLabel::Main)
        } else if splash_exists {
            Some(WindowLabel::Splash)
        } else {
            None
        },
{
    if main_exists {
        Some(WindowLabel::Main)
    } else if splash_exists {
        Some(WindowLabel::Splash)
    } else {
        None
    }
}

/// What a tray menu entry does.
#[derive(Clone, Copy, PartialEq, Eq, Structural, Debug)]
pub enum TrayAction {
    /// Bring the app's window forward.
    Show,
    /// Stop the server and exit.
    Quit,
    /// Nothing.
    Ignore,
}

/// The tray menu entry with id `show` brings the window forward; `quit` stops
/// the server and exits; any other does nothing.
pub fn tray_menu_action(id: &str) -> (r: TrayAction)
    ensures
        r == if id@ == "show"@ {
            TrayAction::Show
        } else if id@ == "quit"@ {
            TrayAction::Quit
        } else {
            TrayAction::Ignore
        },
{
    if text_equals(id, "show") {
        TrayAction::Show
    } else if text_equals(id, "quit") {
        TrayAction::Quit
    } else {
        TrayAction::Ignore
    }
}

/// A click on the tray icon brings the window forward when it is the left
/// button being released.
pub fn tray_click_focuses(left_button: bool, released: bool) -> (r: bool)
    ensures
        r == (left_button && released),
{
    left_button && released
}

/// Closing the main window or the splash screen hides it to the tray
/// instead; other windows close.
pub fn close_hides_window(label: &str) -> (r: bool)
    ensures
        r == (label@ == "main"@ || label@ == "splash"@),
{
    text_equals(label, "main") || text_equals(label, "splash")
}

pub open spec fn runtime_hint_text() -> Seq<char> {
    "\n\nInstall Python 3.11+ or use the native Omschrift Odysseus installer that bundles Python."@
}

/// The error the splash screen shows at once, before any server start: when
/// the Python runtime root could not be resolved (it is resolved only when no
/// native bundle is expected; `None` means it was not), its error followed by
/// a hint.
pub fn startup_error(runtime_root: &Option<Result<FsPath, String>>) -> (r: Option<String>)
    ensures
        match runtime_root {
            Some(Err(e)) => r is Some && r->0@ == e@ + runtime_hint_text(),
            _ => r is None,
        },
{
    match runtime_root {
        Some(Err(e)) => Some(
            e.clone().concat(
                "\n\nInstall Python 3.11+ or use the native Omschrift Odysseus installer that bundles Python.",
            ),
        ),
        _ => None,
    }
}

/// The root of the Python runtime the server manager is given: none with a
/// native bundle; else the resolved runtime root, or failing that the
/// repository root.
pub fn choose_venv_root(
    native_expected: bool,
    runtime_root: &Option<Result<FsPath, String>>,
    repo_root: &Option<FsPath>,
) -> (r: Option<FsPath>)
    ensures
        opt_path_view(r) == if native_expected {
            None
        } else {
            match runtime_root {
                Some(Ok(p)) => Some(p@),
                _ => opt_path_view(*repo_root),
            }
        },
{
    if native_expected {
        return None;
    }
    match runtime_root {
        Some(Ok(p)) => Some(p.copy()),
        _ => match repo_root {
            Some(p) => Some(p.copy()),
            None => None,
        },
    }
}

/// What the shell does once it knows whether the server came up.
pub enum LaunchRequest {
    /// Bring the server up; answer with its result.
    EnsureRunning,
    /// Pause this many seconds; answer `Done`.
    Pause(u64),
    /// Close the splash screen and open (or show) the main window at this
    /// address; answer with the outcome.
    OpenMainUi(String),
    /// Bring the splash screen forward; the launch is over.
    FocusSplash,
    /// The launch is over.
    Stop,
}

pub enum LaunchRequestView {
    EnsureRunning,
    Pause(u64),
    OpenMainUi(Seq<char>),
    FocusSplash,
    Stop,
}

impl View for LaunchRequest {
    type V = LaunchRequestView;

    open spec fn view(&self) -> LaunchRequestView {
        match self {
            LaunchRequest::EnsureRunning => LaunchRequestView::EnsureRunning,
            LaunchRequest::Pause(s) => LaunchRequestView::Pause(*s),
            LaunchRequest::OpenMainUi(u) => LaunchRequestView::OpenMainUi(u@),
            LaunchRequest::FocusSplash => LaunchRequestView::FocusSplash,
            LaunchRequest::Stop => LaunchRequestView::Stop,
        }
    }
}

/// What the shell observed.
pub enum LaunchEvent {
    /// The launch begins; the startup error, if there is one.
    Begin(Option<String>),
    /// What bringing the server up gave.
    ServerResult(Result<Option<SetupCredentials>, String>),
    /// A pause is over.
    Done,
    /// How opening the main window went.
    Opened(Result<(), String>),
}

#[derive(Clone, Copy, PartialEq, Eq, Structural, Debug)]
pub enum LaunchPhase {
    Idle,
    Running,
    Pausing,
    Opening,
    Over,
}

pub open spec fn opening_text() -> Seq<char> {
    "Opening Omschrift Odysseus…"@
}

/// How long the first-time credentials stay on screen before the main window
/// opens.
pub const CREDENTIALS_PAUSE_SECS: u64 = 12;

/// The launch after the splash screen is up: a startup error is shown and the
/// splash brought forward; otherwise the server is brought up. When it fails,
/// its error is shown and the splash brought forward. When it is up, the
/// first-time credentials (if any) are shown for a while, then "Opening…",
/// then the main window opens; if that fails, its error is shown.
pub open spec fn spec_launch_step(phase: LaunchPhase, app_url: Seq<char>, e: LaunchEvent) -> (
    LaunchPhase,
    Seq<StatusView>,
    LaunchRequestView,
) {
    match (phase, e) {
        (LaunchPhase::Idle, LaunchEvent::Begin(Some(err))) => (
            LaunchPhase::Over,
            seq![failure_view(err@)],
            LaunchRequestView::FocusSplash,
        ),
        (LaunchPhase::Idle, LaunchEvent::Begin(None)) => (
            LaunchPhase::Running,
            seq![],
            LaunchRequestView::EnsureRunning,
        ),
        (LaunchPhase::Running, LaunchEvent::ServerResult(Err(err))) => (
            LaunchPhase::Over,
            seq![failure_view(err@)],
            LaunchRequestView::FocusSplash,
        ),
        (LaunchPhase::Running, LaunchEvent::ServerResult(Ok(Some(c)))) => (
            LaunchPhase::Pausing,
            seq![credentials_view(c.username@, c.password@)],
            LaunchRequestView::Pause(CREDENTIALS_PAUSE_SECS),
        ),
        (LaunchPhase::Running, LaunchEvent::ServerResult(Ok(None))) => (
            LaunchPhase::Opening,
            seq![info_view(opening_text())],
            LaunchRequestView::OpenMainUi(app_url),
        ),
        (LaunchPhase::Pausing, LaunchEvent::Done) => (
            LaunchPhase::Opening,
            seq![info_view(opening_text())],
            LaunchRequestView::OpenMainUi(app_url),
        ),
        (LaunchPhase::Opening, LaunchEvent::Opened(Err(err))) => (
            LaunchPhase::Over,
            seq![failure_view(err@)],
            LaunchRequestView::Stop,
        ),
        (LaunchPhase::Opening, LaunchEvent::Opened(Ok(()))) => (
            LaunchPhase::Over,
            seq![],
            LaunchRequestView::Stop,
        ),
        _ => (LaunchPhase::Over, seq![], LaunchRequestView::Stop),
    }
}

/// One move of the launch, as [`spec_launch_step`] lays down.
pub fn launch_step(phase: LaunchPhase, app_url: &str, e: LaunchEvent) -> (r: (
    LaunchPhase,
    Vec<StatusPayload>,
    LaunchRequest,
))
    ensures
        (r.0, statuses_view(r.1@), r.2@) == spec_launch_step(phase, app_url@, e),
{
    let mut statuses: Vec<StatusPayload> = Vec::new();
    let ghost none = statuses_view(statuses@);
    proof {
        assert(none =~= Seq::<StatusView>::empty());
    }
    match (phase, e) {
        (LaunchPhase::Idle, LaunchEvent::Begin(Some(err))) => {
            let ghost ev = err@;
            statuses.push(StatusPayload::failure(err));
            proof {
                assert(statuses_view(statuses@) =~= seq![failure_view(ev)]);
            }
            (LaunchPhase::Over, statuses, LaunchRequest::FocusSplash)
        },
        (LaunchPhase::Idle, LaunchEvent::Begin(None)) => (
            LaunchPhase::Running,
            statuses,
            LaunchRequest::EnsureRunning,
        ),
        (LaunchPhase::Running, LaunchEvent::ServerResult(Err(err))) => {
            let ghost ev = err@;
            statuses.push(StatusPayload::failure(err));
            proof {
                assert(statuses_view(statuses@) =~= seq![failure_view(ev)]);
            }
            (LaunchPhase::Over, statuses, LaunchRequest::FocusSplash)
        },
        (LaunchPhase::Running, LaunchEvent::ServerResult(Ok(Some(c)))) => {
            let ghost cv = credentials_view(c.username@, c.password@);
            statuses.push(StatusPayload::credentials(c.username, c.password));
            proof {
                assert(statuses_view(statuses@) =~= seq![cv]);
            }
            (LaunchPhase::Pausing, statuses, LaunchRequest::Pause(CREDENTIALS_PAUSE_SECS))
        },
        (LaunchPhase::Running, LaunchEvent::ServerResult(Ok(None))) => {
            statuses.push(StatusPayload::info("Opening Omschrift Odysseus…".to_owned()));
            proof {
                assert(statuses_view(statuses@) =~= seq![info_view(opening_text())]);
            }
            (LaunchPhase::Opening, statuses, LaunchRequest::OpenMainUi(app_url.to_owned()))
        },
        (LaunchPhase::Pausing, LaunchEvent::Done) => {
            statuses.push(StatusPayload::info("Opening Omschrift Odysseus…".to_owned()));
            proof {
                assert(statuses_view(statuses@) =~= seq![info_view(opening_text())]);
            }
            (LaunchPhase::Opening, statuses, LaunchRequest::OpenMainUi(app_url.to_owned()))
        },
        (LaunchPhase::Opening, LaunchEvent::Opened(Err(err))) => {
            let ghost ev = err@;
            statuses.push(StatusPayload::failure(err));
            proof {
                assert(statuses_view(statuses@) =~= seq![failure_view(ev)]);
            }
            (LaunchPhase::Over, statuses, LaunchRequest::Stop)
        },
        (LaunchPhase::Opening, LaunchEvent::Opened(Ok(()))) => (
            LaunchPhase::Over,
            statuses,
            LaunchRequest::Stop,
        ),
        _ => (LaunchPhase::Over, statuses, LaunchRequest::Stop),
    }
}

/// The URL type of the web UI's address (`tauri::Url` is this type).
#[verifier::external_type_specification]
#[verifier::external_body]
pub struct ExUrl(url::Url);

/// What `url::Url::parse` gives for `input`: the parsed URL, or the display
/// text of its parse error. It depends on the input alone.
pub uninterp spec fn url_parse(input: Seq<char>) -> Result<url::Url, Seq<char>>;

/// A parse result with the error taken by its text.
pub open spec fn parse_result_view(r: Result<url::Url, String>) -> Result<url::Url, Seq<char>> {
    match r {
        Ok(u) => Ok(u),
        Err(e) => Err(e@),
    }
}

/// Calls `url::Url::parse`; its contract says that the result is
/// [`url_parse`] of the input: the same URL when it parses, and otherwise an
/// error whose text is that of the `ParseError`.
#[verifier::external_body]
fn parse_url(input: &str) -> (r: Result<url::Url, String>)
    ensures
        parse_result_view(r) == url_parse(input@),
{
    url::Url::parse(input).map_err(|e| e.to_string())
}

pub open spec fn invalid_url_text(err: Seq<char>) -> Seq<char> {
    "Invalid app URL: "@ + err
}

/// What opening the main window makes of a parsed address: the URL itself,
/// or the parse error prefixed with `Invalid app URL: `.
pub fn app_url_outcome(parsed: Result<url::Url, String>) -> (r: Result<url::Url, String>)
    ensures
        (r is Ok) == (parsed is Ok),
        parsed matches Ok(u) ==> r == Ok::<url::Url, String>(u),
        parsed matches Err(e) ==> r matches Err(m) && m@ == invalid_url_text(e@),
{
    match parsed {
        Ok(u) => Ok(u),
        Err(e) => Err("Invalid app URL: ".to_owned().concat(e.as_str())),
    }
}

/// The address the main window opens, parsed; fails with `Invalid app URL: `
/// and the parse error when `app_url` is not a URL.
pub fn main_window_url(app_url: &str) -> (r: Result<url::Url, String>)
    ensures
        (r is Ok) == (url_parse(app_url@) is Ok),
        r matches Ok(u) ==> url_parse(app_url@) == Ok::<url::Url, Seq<char>>(u),
        r matches Err(m) ==> m@ == invalid_url_text(url_parse(app_url@)->Err_0),
{
    app_url_outcome(parse_url(app_url))
}

} // verus!
