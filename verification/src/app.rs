//! The application as a whole: its state, its messages, and what it shows.

use vstd::prelude::*;
use vstd::string::*;

use crate::config::{AppExperience, Config};
use crate::pages::details::{self, Details};
use crate::pages::home::bottle::Bottle;
use crate::pages::home::program::Program;
use crate::pages::home::{self, Grid, Home, Selected};
use crate::pages::welcome::{self, Welcome};

verus! {

/// Width of the home page while the details pane is open beside it.
pub const SELECTED_WIDTH: u16 = 350;

/// What stands between the application's name and the page's in a window title.
pub const TITLE_SEPARATOR: &'static str = " â€” ";

/// The state that the interface is drawn from and that messages change.
pub struct AppModel {
    /// Settings that persist between runs.
    pub config: Config,
    pub welcome: Welcome,
    pub home: Home,
    pub details: Details,
}

/// Messages emitted by the application and its widgets.
#[derive(Debug, PartialEq, Eq)]
pub enum Message {
    /// The stored settings have changed to these.
    UpdateConfig(Config),
    /// This experience is to be used from now on.
    ApplyExperience(AppExperience),
    Welcome(welcome::Message),
    Home(home::Message),
    Details(details::Message),
}

impl Clone for Message {
    fn clone(&self) -> (copy: Self)
        ensures
            copy == *self,
    {
        match self {
            Message::UpdateConfig(config) => Message::UpdateConfig(*config),
            Message::ApplyExperience(choice) => Message::ApplyExperience(*choice),
            Message::Welcome(message) => Message::Welcome(*message),
            Message::Home(message) => Message::Home(message.clone()),
            Message::Details(message) => Message::Details(message.clone()),
        }
    }
}

/// What is packed at the start of the header bar.
#[derive(Clone, Copy, Debug, PartialEq, Eq, Structural)]
pub enum HeaderStart {
    Nothing,
    /// The button that opens the options.
    Options,
    /// The button that adds a bottle.
    New,
    /// The way back to the library and the search, over [`SELECTED_WIDTH`].
    BackAndSearch,
    /// The button that adds a bottle and the classic tabs, over [`SELECTED_WIDTH`].
    NewAndTabs,
}

/// What is packed in the middle of the header bar.
#[derive(Clone, Copy, Debug, PartialEq, Eq, Structural)]
pub enum HeaderCenter {
    Nothing,
    Search,
    ClassicTabs,
}

/// What is packed at the end of the header bar.
#[derive(Clone, Copy, Debug, PartialEq, Eq, Structural)]
pub enum HeaderEnd {
    Nothing,
    /// Options, power and tabs of the selected program.
    Program,
    /// Options, power and tabs of the selected bottle.
    Bottle,
}

/// What fills the window.
#[derive(Clone, Copy, Debug, PartialEq, Eq, Structural)]
pub enum Screen {
    /// The welcome page, centred.
    Welcome,
    /// The home page.
    Home {
        grid: Grid,
        /// Whether the page keeps to [`SELECTED_WIDTH`] rather than fill the window.
        narrow: bool,
        /// Whether the details pane is open beside it.
        details: bool,
    },
}

impl AppModel {
    /// The details pane shows what the home page has selected.
    pub open spec fn in_step(&self) -> bool {
        self.details.selected == self.home.selected
    }

    /// The application once each of `messages` is handled, first to last.
    pub open spec fn after_all(self, messages: Seq<Message>) -> AppModel
        decreases messages.len(),
    {
        if messages.len() == 0 {
            self
        } else {
            self.after(messages[0]).after_all(messages.drop_first())
        }
    }

    /// The application at start-up: the settings that were found, every page
    /// as it is when new, and a home page that lists `library` and `bottles`.
    pub fn init(config: Config, library: Vec<Program>, bottles: Vec<Bottle>) -> (model: Self)
        ensures
            model.config == config,
            model.welcome.is_new(),
            model.home.is_new(library, bottles),
            model.details.selected is None,
            model.home.wf(),
            model.in_step(),
    {
        AppModel {
            config,
            welcome: Welcome::new(),
            home: Home::new(library, bottles),
            details: Details::new(),
        }
    }

    /// Elements to pack at the start of the header bar.
    pub fn header_start(&self) -> (start: HeaderStart)
        ensures
            start == match (self.config.app_experience, self.home.selected) {
                (Some(AppExperience::Next), Some(Selected::Program(_))) => HeaderStart::BackAndSearch,
                (Some(AppExperience::Next), None) => HeaderStart::Options,
                (Some(AppExperience::Classic), Some(_)) => HeaderStart::NewAndTabs,
                (Some(AppExperience::Classic), None) => HeaderStart::New,
                _ => HeaderStart::Nothing,
            },
    {
        match (self.config.app_experience, &self.home.selected) {
            (Some(AppExperience::Next), Some(Selected::Program(_))) => HeaderStart::BackAndSearch,
            (Some(AppExperience::Next), None) => HeaderStart::Options,
            (Some(AppExperience::Classic), Some(Selected::Bottle(_))) => HeaderStart::NewAndTabs,
            (Some(AppExperience::Classic), Some(Selected::Program(_))) => HeaderStart::NewAndTabs,
            (Some(AppExperience::Classic), None) => HeaderStart::New,
            (_, _) => HeaderStart::Nothing,
        }
    }

    /// Elements to pack in the middle of the header bar.
    pub fn header_center(&self) -> (center: HeaderCenter)
        ensures
            center == match (self.config.app_experience, self.home.selected) {
                (Some(AppExperience::Next), None) => HeaderCenter::Search,
                (Some(AppExperience::Classic), None) => HeaderCenter::ClassicTabs,
                _ => HeaderCenter::Nothing,
            },
    {
        match (self.config.app_experience, &self.home.selected) {
            (Some(AppExperience::Next), None) => HeaderCenter::Search,
            (Some(AppExperience::Classic), None) => HeaderCenter::ClassicTabs,
            (_, _) => HeaderCenter::Nothing,
        }
    }

    /// Elements to pack at the end of the header bar. On a well-formed home
    /// page the tab bar that they include is open.
    pub fn header_end(&self) -> (end: HeaderEnd)
        ensures
            end == match (self.config.app_experience, self.home.selected) {
                (Some(_), Some(Selected::Program(_))) => HeaderEnd::Program,
                (Some(AppExperience::Classic), Some(Selected::Bottle(_))) => HeaderEnd::Bottle,
                _ => HeaderEnd::Nothing,
            },
            self.home.wf() && end == HeaderEnd::Program ==> self.home.program_tabs is Some,
            self.home.wf() && end == HeaderEnd::Bottle ==> self.home.bottle_tabs is Some,
    {
        match (self.config.app_experience, &self.home.selected) {
            (Some(AppExperience::Next), Some(Selected::Program(_))) => HeaderEnd::Program,
            (Some(AppExperience::Classic), Some(Selected::Bottle(_))) => HeaderEnd::Bottle,
            (Some(AppExperience::Classic), Some(Selected::Program(_))) => HeaderEnd::Program,
            (_, _) => HeaderEnd::Nothing,
        }
    }

    /// What the window shows: the welcome page until an experience is chosen,
    /// then the home page of that experience.
    pub fn view(&self) -> (screen: Screen)
        ensures
            screen == match self.config.app_experience {
                Some(experience) => (Screen::Home {
                    grid: match (experience, self.home.classic_tab) {
                        (AppExperience::Classic, home::ClassicTab::Bottles) => Grid::Bottles,
                        _ => Grid::Library,
                    },
                    narrow: self.home.selected is Some,
                    details: self.details.selected is Some,
                }),
                None => Screen::Welcome,
            },
    {
        match self.config.app_experience {
            Some(experience) => {
                let grid = match experience {
                    AppExperience::Next => Grid::Library,
                    AppExperience::Classic => self.home.classic(),
                };
                Screen::Home {
                    grid,
                    narrow: self.home.selected.is_some(),
                    details: self.details.selected.is_some(),
                }
            },
            None => Screen::Welcome,
        }
    }

    /// The application once `message` is handled.
    pub open spec fn after(self, message: Message) -> AppModel {
        match message {
            Message::Details(message) => AppModel { details: self.details.after(message), ..self },
            Message::Home(message) => AppModel { home: self.home.after(message), ..self },
            Message::Welcome(message) => AppModel {
                welcome: self.welcome.after(message),
                ..self
            },
            Message::ApplyExperience(choice) => AppModel {
                config: Config { app_experience: Some(choice) },
                ..self
            },
            Message::UpdateConfig(config) => AppModel { config, ..self },
        }
    }

    /// The messages that handling `message` gives rise to.
    pub open spec fn follow_ups(self, message: Message) -> Seq<Message> {
        match message {
            Message::Details(_) => seq![],
            Message::Home(message) => Home::follow_ups(message),
            Message::Welcome(message) => self.welcome.follow_ups(message),
            Message::ApplyExperience(_) => seq![],
            Message::UpdateConfig(_) => seq![],
        }
    }

    /// Handles a message emitted by the application or one of its widgets,
    /// and returns the messages to handle next.
    pub fn update(&mut self, message: Message) -> (tasks: Vec<Message>)
        ensures
            *final(self) == old(self).after(message),
            tasks@ == old(self).follow_ups(message),
            old(self).home.wf() ==> final(self).home.wf(),
    {
        match message {
            Message::Details(message) => self.details.update(message),
            Message::Home(message) => self.home.update(message),
            Message::Welcome(message) => self.welcome.update(message),
            Message::ApplyExperience(choice) => {
                self.config.app_experience = Some(choice);
                Vec::new()
            },
            Message::UpdateConfig(config) => {
                self.config = config;
                Vec::new()
            },
        }
    }

    /// The window title: the application's name, followed by the name of
    /// the page where one is open.
    pub fn update_title(app_title: &str, page: Option<&str>) -> (window_title: String)
        ensures
            window_title@ == match page {
                Some(page) => app_title@ + TITLE_SEPARATOR@ + page@,
                None => app_title@,
            },
    {
        let mut window_title = String::from_str(app_title);
        if let Some(page) = page {
            window_title.append(TITLE_SEPARATOR);
            window_title.append(page);
        }
        window_title
    }
}

/// Whatever the home page is told, once that message and what follows from
/// it are handled the details pane shows what the home page has selected,
/// provided it did so before.
pub proof fn lemma_details_keep_in_step(model: AppModel, message: home::Message)
    requires
        model.in_step(),
    ensures
        model.after(Message::Home(message)).after_all(
            model.follow_ups(Message::Home(message)),
        ).in_step(),
{
    let handled = model.after(Message::Home(message));
    let tasks = model.follow_ups(Message::Home(message));
    if tasks.len() == 1 {
        assert(tasks.drop_first().len() == 0);
        assert(handled.after_all(tasks) == handled.after(tasks[0]).after_all(tasks.drop_first()));
        assert(handled.after(tasks[0]).after_all(tasks.drop_first()) == handled.after(tasks[0]));
    }
}

/// Applying on the welcome page makes the experience picked there the one
/// in use, once the message and what follows from it are handled.
pub proof fn lemma_apply_takes_effect(model: AppModel)
    ensures
        model.after(Message::Welcome(welcome::Message::ApplyExperience)).after_all(
            model.follow_ups(Message::Welcome(welcome::Message::ApplyExperience)),
        ).config.app_experience == Some(model.welcome.selected),
{
    let message = Message::Welcome(welcome::Message::ApplyExperience);
    let handled = model.after(message);
    let tasks = model.follow_ups(message);
    assert(tasks.drop_first().len() == 0);
    assert(handled.after_all(tasks) == handled.after(tasks[0]).after_all(tasks.drop_first()));
    assert(handled.after(tasks[0]).after_all(tasks.drop_first()) == handled.after(tasks[0]));
}

} // verus!
