//! The state behind the window, and what each command from the user does
//! to it.
//!
//! The window itself is the host's. [`MitmproxyDesktop::update`] turns a
//! [`Message`] into a change of state and a [`Task`] for the host; the
//! methods named in each task take what the host found out; and
//! [`MitmproxyDesktop::view`] says what the window shows.

use crate::cert_manager::{install_instructions, CertManager, CertManagerView};
use crate::config::DEFAULT_PORT;
use crate::error::{AuthorityError, AuthorityErrorView, ProxyError, ProxyErrorView};
use crate::install::Installed;
use crate::proxy::ProxyState;
use vstd::prelude::*;

verus! {

/// The title of the window.
pub const TITLE: &'static str = "Mitmproxy Desktop";

/// The button that generates the first authority.
pub const GENERATE_LABEL: &'static str = "Generate CA Certificate";

/// What is shown once the authority is there.
pub const INSTALLED_TEXT: &'static str = "CA Certificate installed \u{2713}";

/// The button that replaces the authority.
pub const REGENERATE_LABEL: &'static str = "Regenerate";

/// The button that starts the listener.
pub const START_LABEL: &'static str = "Start Proxy on port 8080";

/// The button that stops the listener.
pub const STOP_LABEL: &'static str = "Stop Proxy";

/// What is shown while the session is in error.
pub const PROXY_ERROR_TEXT: &'static str = "Proxy Error";

/// The hint given when a start is asked for without an authority.
pub const NO_AUTHORITY_TEXT: &'static str = "Please generate CA certificate first";

/// What begins the report of a failed generation.
pub const GENERATE_FAILED_PREFIX: &'static str = "Failed to generate CA: ";

/// What begins the report of a failed start.
pub const START_FAILED_PREFIX: &'static str = "Failed to start proxy: ";

/// What begins the report of a failed stop.
pub const STOP_FAILED_PREFIX: &'static str = "Failed to stop proxy: ";

/// A command from the user, or the report of how one went.
#[derive(Debug)]
pub enum Message {
    GenerateCA,
    StartProxy(u16),
    StopProxy,
    ProxyStateChanged(ProxyState),
    Error(String),
}

/// The mathematical value of a [`Message`].
pub enum MessageView {
    GenerateCA,
    StartProxy(u16),
    StopProxy,
    ProxyStateChanged(ProxyState),
    Error(Seq<char>),
}

impl View for Message {
    type V = MessageView;

    open spec fn view(&self) -> MessageView {
        match self {
            Message::GenerateCA => MessageView::GenerateCA,
            Message::StartProxy(port) => MessageView::StartProxy(*port),
            Message::StopProxy => MessageView::StopProxy,
            Message::ProxyStateChanged(state) => MessageView::ProxyStateChanged(*state),
            Message::Error(text) => MessageView::Error(text@),
        }
    }
}

impl Clone for Message {
    fn clone(&self) -> (copy: Message)
        ensures
            copy@ == self@,
    {
        match self {
            Message::GenerateCA => Message::GenerateCA,
            Message::StartProxy(port) => Message::StartProxy(*port),
            Message::StopProxy => Message::StopProxy,
            Message::ProxyStateChanged(state) => Message::ProxyStateChanged(*state),
            Message::Error(text) => Message::Error(text.clone()),
        }
    }
}

/// What the host is to do after an update.
#[derive(Debug)]
pub enum Task {
    /// Nothing.
    Idle,
    /// Run a generation on the certificate manager and hand its result to
    /// [`MitmproxyDesktop::generation_finished`].
    GenerateAuthority,
    /// Find out whether the authority is there and hand the answer to
    /// [`MitmproxyDesktop::authority_checked`] with `port`.
    CheckAuthority { port: u16 },
    /// Start the listener and turn the result into a message with
    /// [`start_finished`].
    StartProxy { port: u16, cert_path: String },
    /// Stop the listener and turn the result into a message with
    /// [`stop_finished`].
    StopProxy,
}

/// The mathematical value of a [`Task`].
pub enum TaskView {
    Idle,
    GenerateAuthority,
    CheckAuthority { port: u16 },
    StartProxy { port: u16, cert_path: Seq<char> },
    StopProxy,
}

impl View for Task {
    type V = TaskView;

    open spec fn view(&self) -> TaskView {
        match self {
            Task::Idle => TaskView::Idle,
            Task::GenerateAuthority => TaskView::GenerateAuthority,
            Task::CheckAuthority { port } => TaskView::CheckAuthority { port: *port },
            Task::StartProxy { port, cert_path } => TaskView::StartProxy {
                port: *port,
                cert_path: cert_path@,
            },
            Task::StopProxy => TaskView::StopProxy,
        }
    }
}

/// One thing the window shows.
#[derive(Debug)]
pub enum Widget {
    /// The heading.
    Title(String),
    /// A line of text.
    Text(String),
    /// A button that sends `on_press`.
    Button { label: String, on_press: Message },
    /// A line of text with a button beside it.
    Status { text: String, label: String, on_press: Message },
    /// A boxed notice.
    Notice(String),
    /// An error, shown in red.
    Alert(String),
}

/// The mathematical value of a [`Widget`].
pub enum WidgetView {
    Title(Seq<char>),
    Text(Seq<char>),
    Button { label: Seq<char>, on_press: MessageView },
    Status { text: Seq<char>, label: Seq<char>, on_press: MessageView },
    Notice(Seq<char>),
    Alert(Seq<char>),
}

impl DeepView for Widget {
    type V = WidgetView;

    open spec fn deep_view(&self) -> WidgetView {
        match self {
            Widget::Title(text) => WidgetView::Title(text@),
            Widget::Text(text) => WidgetView::Text(text@),
            Widget::Button { label, on_press } => WidgetView::Button {
                label: label@,
                on_press: on_press@,
            },
            Widget::Status { text, label, on_press } => WidgetView::Status {
                text: text@,
                label: label@,
                on_press: on_press@,
            },
            Widget::Notice(text) => WidgetView::Notice(text@),
            Widget::Alert(text) => WidgetView::Alert(text@),
        }
    }
}

/// The state behind the window.
#[derive(Debug)]
pub struct MitmproxyDesktop {
    pub cert_manager: CertManager,
    pub proxy_state: ProxyState,
    pub error_message: Option<String>,
    pub install_instructions: Option<String>,
}

/// The mathematical value of a [`MitmproxyDesktop`].
pub struct DesktopView {
    pub cert_manager: CertManagerView,
    pub proxy_state: ProxyState,
    pub error_message: Option<Seq<char>>,
    pub install_instructions: Option<Seq<char>>,
}

impl MitmproxyDesktop {
    /// The mathematical value of the state.
    pub open spec fn state(&self) -> DesktopView {
        DesktopView {
            cert_manager: self.cert_manager@,
            proxy_state: self.proxy_state,
            error_message: match self.error_message {
                Some(text) => Some(text@),
                None => None,
            },
            install_instructions: match self.install_instructions {
                Some(text) => Some(text@),
                None => None,
            },
        }
    }
}

/// What a message does: the state afterwards and the host's task.
///
/// A command changes nothing by itself; it only sets the host to work. The
/// report of a new state clears the error. The report of a failed start or
/// stop shows the error and moves the session to `Error`.
pub open spec fn update_model(desktop: DesktopView, message: MessageView) -> (
    DesktopView,
    TaskView,
) {
    match message {
        MessageView::GenerateCA => (desktop, TaskView::GenerateAuthority),
        MessageView::StartProxy(port) => (desktop, TaskView::CheckAuthority { port }),
        MessageView::StopProxy => (desktop, TaskView::StopProxy),
        MessageView::ProxyStateChanged(state) => (
            DesktopView { proxy_state: state, error_message: None, ..desktop },
            TaskView::Idle,
        ),
        MessageView::Error(text) => (
            DesktopView {
                proxy_state: ProxyState::Error,
                error_message: Some(text),
                ..desktop
            },
            TaskView::Idle,
        ),
    }
}

/// What the end of a generation does: success shows the platform's
/// guidance and clears the error; failure shows the error and leaves the
/// guidance as it was.
pub open spec fn generation_model(
    desktop: DesktopView,
    result: Result<Installed, AuthorityErrorView>,
) -> DesktopView {
    match result {
        Ok(_) => DesktopView {
            install_instructions: Some(install_instructions(desktop.cert_manager.platform)),
            error_message: None,
            ..desktop
        },
        Err(error) => DesktopView {
            error_message: Some(GENERATE_FAILED_PREFIX@ + error.message()),
            ..desktop
        },
    }
}

/// What the answer to "is the authority there" does to a start for `port`:
/// without the authority the start is refused with a hint; with it the host
/// is set to start the listener with the certificate's path.
pub open spec fn check_model(desktop: DesktopView, port: u16, has_ca: bool) -> (
    DesktopView,
    TaskView,
) {
    if has_ca {
        (desktop, TaskView::StartProxy { port, cert_path: desktop.cert_manager.cert_path })
    } else {
        (DesktopView { error_message: Some(NO_AUTHORITY_TEXT@), ..desktop }, TaskView::Idle)
    }
}

/// The message that reports how a start went.
pub open spec fn start_report(result: Result<(), ProxyErrorView>) -> MessageView {
    match result {
        Ok(_) => MessageView::ProxyStateChanged(ProxyState::Running),
        Err(error) => MessageView::Error(START_FAILED_PREFIX@ + error.message()),
    }
}

/// The message that reports how a stop went.
pub open spec fn stop_report(result: Result<(), ProxyErrorView>) -> MessageView {
    match result {
        Ok(_) => MessageView::ProxyStateChanged(ProxyState::Stopped),
        Err(error) => MessageView::Error(STOP_FAILED_PREFIX@ + error.message()),
    }
}

/// The button that starts the listener on the default port.
pub open spec fn start_button() -> WidgetView {
    WidgetView::Button { label: START_LABEL@, on_press: MessageView::StartProxy(DEFAULT_PORT) }
}

/// What the window shows, top to bottom: the title; the authority's
/// status; the guidance and the error where there are any; and the control
/// that fits the session's state.
pub open spec fn view_model(desktop: DesktopView, has_ca: bool) -> Seq<WidgetView> {
    let status = if has_ca {
        WidgetView::Status {
            text: INSTALLED_TEXT@,
            label: REGENERATE_LABEL@,
            on_press: MessageView::GenerateCA,
        }
    } else {
        WidgetView::Button { label: GENERATE_LABEL@, on_press: MessageView::GenerateCA }
    };
    let notice = match desktop.install_instructions {
        Some(text) => seq![WidgetView::Notice(text)],
        None => Seq::empty(),
    };
    let alert = match desktop.error_message {
        Some(text) => seq![WidgetView::Alert(text)],
        None => Seq::empty(),
    };
    let control = match desktop.proxy_state {
        ProxyState::Stopped => seq![start_button()],
        ProxyState::Running => seq![
            WidgetView::Button { label: STOP_LABEL@, on_press: MessageView::StopProxy },
        ],
        ProxyState::Error => seq![WidgetView::Text(PROXY_ERROR_TEXT@), start_button()],
    };
    seq![WidgetView::Title(TITLE@), status] + notice + alert + control
}

/// Turns the result of a start into the message that reports it.
pub fn start_finished(result: &Result<(), ProxyError>) -> (message: Message)
    ensures
        message@ == start_report(
            match result {
                Ok(_) => Ok(()),
                Err(error) => Err(error@),
            },
        ),
{
    match result {
        Ok(_) => Message::ProxyStateChanged(ProxyState::Running),
        Err(error) => {
            let mut text = START_FAILED_PREFIX.to_owned();
            text.append(error.message().as_str());
            Message::Error(text)
        },
    }
}

/// Turns the result of a stop into the message that reports it.
pub fn stop_finished(result: &Result<(), ProxyError>) -> (message: Message)
    ensures
        message@ == stop_report(
            match result {
                Ok(_) => Ok(()),
                Err(error) => Err(error@),
            },
        ),
{
    match result {
        Ok(_) => Message::ProxyStateChanged(ProxyState::Stopped),
        Err(error) => {
            let mut text = STOP_FAILED_PREFIX.to_owned();
            text.append(error.message().as_str());
            Message::Error(text)
        },
    }
}

impl MitmproxyDesktop {
    /// The state at launch: the session stopped, nothing to show.
    pub fn new(cert_manager: CertManager) -> (desktop: MitmproxyDesktop)
        ensures
            desktop.state() == (DesktopView {
                cert_manager: cert_manager@,
                proxy_state: ProxyState::Stopped,
                error_message: None,
                install_instructions: None,
            }),
    {
        MitmproxyDesktop {
            cert_manager,
            proxy_state: ProxyState::Stopped,
            error_message: None,
            install_instructions: None,
        }
    }

    /// The title of the window.
    pub fn title(&self) -> (title: String)
        ensures
            title@ == TITLE@,
    {
        TITLE.to_owned()
    }

    /// Takes a message: changes the state and names the host's task.
    pub fn update(&mut self, message: Message) -> (task: Task)
        ensures
            (final(self).state(), task@) == update_model(old(self).state(), message@),
    {
        match message {
            Message::GenerateCA => Task::GenerateAuthority,
            Message::StartProxy(port) => Task::CheckAuthority { port },
            Message::StopProxy => Task::StopProxy,
            Message::ProxyStateChanged(state) => {
                self.proxy_state = state;
                self.error_message = None;
                Task::Idle
            },
            Message::Error(text) => {
                self.proxy_state = ProxyState::Error;
                self.error_message = Some(text);
                Task::Idle
            },
        }
    }

    /// Takes the result of the generation that
    /// [`Task::GenerateAuthority`] asked for.
    pub fn generation_finished(&mut self, result: &Result<Installed, AuthorityError>)
        ensures
            final(self).state() == generation_model(
                old(self).state(),
                match result {
                    Ok(installed) => Ok(*installed),
                    Err(error) => Err(error@),
                },
            ),
    {
        match result {
            Ok(_) => {
                self.install_instructions = Some(self.cert_manager.get_install_instructions());
                self.error_message = None;
            },
            Err(error) => {
                let mut text = GENERATE_FAILED_PREFIX.to_owned();
                text.append(error.message().as_str());
                self.error_message = Some(text);
            },
        }
    }

    /// Takes the answer that [`Task::CheckAuthority`] asked for.
    pub fn authority_checked(&mut self, port: u16, has_ca: bool) -> (task: Task)
        ensures
            (final(self).state(), task@) == check_model(old(self).state(), port, has_ca),
    {
        if has_ca {
            Task::StartProxy { port, cert_path: self.cert_manager.get_cert_path().clone() }
        } else {
            self.error_message = Some(NO_AUTHORITY_TEXT.to_owned());
            Task::Idle
        }
    }

    /// Says what the window shows, given whether the authority is there.
    pub fn view(&self, has_ca: bool) -> (widgets: Vec<Widget>)
        ensures
            widgets.deep_view() == view_model(self.state(), has_ca),
    {
        let mut widgets: Vec<Widget> = Vec::new();
        widgets.push(Widget::Title(TITLE.to_owned()));
        if has_ca {
            widgets.push(
                Widget::Status {
                    text: INSTALLED_TEXT.to_owned(),
                    label: REGENERATE_LABEL.to_owned(),
                    on_press: Message::GenerateCA,
                },
            );
        } else {
            widgets.push(
                Widget::Button { label: GENERATE_LABEL.to_owned(), on_press: Message::GenerateCA },
            );
        }
        match &self.install_instructions {
            Some(text) => widgets.push(Widget::Notice(text.clone())),
            None => {},
        }
        match &self.error_message {
            Some(text) => widgets.push(Widget::Alert(text.clone())),
            None => {},
        }
        match self.proxy_state {
            ProxyState::Stopped => widgets.push(make_start_button()),
            ProxyState::Running => widgets.push(
                Widget::Button { label: STOP_LABEL.to_owned(), on_press: Message::StopProxy },
            ),
            ProxyState::Error => {
                widgets.push(Widget::Text(PROXY_ERROR_TEXT.to_owned()));
                widgets.push(make_start_button());
            },
        }
        assert(widgets.deep_view() =~= view_model(self.state(), has_ca));
        widgets
    }
}

fn make_start_button() -> (button: Widget)
    ensures
        button.deep_view() == start_button(),
{
    Widget::Button { label: START_LABEL.to_owned(), on_press: Message::StartProxy(DEFAULT_PORT) }
}

} // verus!
