//! The status updates shown on the splash screen while the server starts.
use vstd::prelude::*;

verus! {

/// One status update: a message, whether it reports a failure, and the
/// initial admin login when first-time setup created one.
pub struct StatusPayload {
    pub message: String,
    pub error: bool,
    pub admin_user: Option<String>,
    pub admin_password: Option<String>,
}

/// What a status update is, mathematically.
pub struct StatusView {
    pub message: Seq<char>,
    pub error: bool,
    pub admin_user: Option<Seq<char>>,
    pub admin_password: Option<Seq<char>>,
}

pub open spec fn opt_text(s: Option<String>) -> Option<Seq<char>> {
    match s {
        Some(x) => Some(x@),
        None => None,
    }
}

impl View for StatusPayload {
    type V = StatusView;

    open spec fn view(&self) -> StatusView {
        StatusView {
            message: self.message@,
            error: self.error,
            admin_user: opt_text(self.admin_user),
            admin_password: opt_text(self.admin_password),
        }
    }
}

pub open spec fn statuses_view(v: Seq<StatusPayload>) -> Seq<StatusView> {
    v.map_values(|s: StatusPayload| s@)
}

/// A progress update with `message`.
pub open spec fn info_view(message: Seq<char>) -> StatusView {
    StatusView { message, error: false, admin_user: None, admin_password: None }
}

/// A failure report with `message`.
pub open spec fn failure_view(message: Seq<char>) -> StatusView {
    StatusView { message, error: true, admin_user: None, admin_password: None }
}

pub open spec fn credentials_notice_text() -> Seq<char> {
    "First-time setup complete. Save these login details:"@
}

/// The update that shows the initial admin login.
pub open spec fn credentials_view(user: Seq<char>, password: Seq<char>) -> StatusView {
    StatusView {
        message: credentials_notice_text(),
        error: false,
        admin_user: Some(user),
        admin_password: Some(password),
    }
}

impl Default for StatusPayload {
    /// An empty progress update.
    fn default() -> (r: StatusPayload)
        ensures
            r@ == info_view(Seq::empty()),
    {
        StatusPayload { message: String::new(), error: false, admin_user: None, admin_password: None }
    }
}

impl StatusPayload {
    /// A progress update with `message`.
    pub fn info(message: String) -> (r: StatusPayload)
        ensures
            r@ == info_view(message@),
    {
        StatusPayload { message, error: false, admin_user: None, admin_password: None }
    }

    /// A failure report with `message`.
    pub fn failure(message: String) -> (r: StatusPayload)
        ensures
            r@ == failure_view(message@),
    {
        StatusPayload { message, error: true, admin_user: None, admin_password: None }
    }

    /// The update that shows the initial admin login.
    pub fn credentials(user: String, password: String) -> (r: StatusPayload)
        ensures
            r@ == credentials_view(user@, password@),
    {
        StatusPayload {
            message: "First-time setup complete. Save these login details:".to_owned(),
            error: false,
            admin_user: Some(user),
            admin_password: Some(password),
        }
    }
}

/// Whether `value` is `false`; a status leaves out its `error` field when so.
pub fn is_false(value: &bool) -> (r: bool)
    ensures
        r == !*value,
{
    !*value
}

} // verus!
