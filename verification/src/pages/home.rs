//! The home page: the library of programs, the bottles, and what is selected.

use vstd::prelude::*;

use crate::app;
use crate::pages::details;
use crate::pages::home::bottle::Bottle;
use crate::pages::home::program::Program;

pub mod bottle;
pub mod program;

verus! {

/// The item whose details are open.
#[derive(Debug, PartialEq, Eq)]
pub enum Selected {
    Bottle(Bottle),
    Program(Program),
}

impl Clone for Selected {
    fn clone(&self) -> (copy: Self)
        ensures
            copy == *self,
    {
        match self {
            Selected::Bottle(bottle) => Selected::Bottle(bottle.clone()),
            Selected::Program(program) => Selected::Program(program.clone()),
        }
    }
}

/// Tabs of the classic experience.
#[derive(Clone, Copy, Debug, PartialEq, Eq, Structural)]
pub enum ClassicTab {
    Bottles,
    Library,
}

/// Tabs of a selected bottle.
#[derive(Clone, Copy, Debug, PartialEq, Eq, Structural)]
pub enum BottleTab {
    Programs,
    Settings,
    Snapshots,
}

/// Tabs of a selected program.
#[derive(Clone, Copy, Debug, PartialEq, Eq, Structural)]
pub enum ProgramTab {
    Program,
    Advanced,
}

/// The tab bar of a selected program. Its first tab carries the program's title.
#[derive(Debug, PartialEq, Eq)]
pub struct ProgramTabs {
    pub title: String,
    pub active: ProgramTab,
}

/// What the page can be told.
#[derive(Debug, PartialEq, Eq)]
pub enum Message {
    /// The search field now holds this text.
    QueryInput(String),
    /// A tab of the selected program was activated.
    ProgramTabActivated(ProgramTab),
    /// A tab of the selected bottle was activated.
    BottleTabActivated(BottleTab),
    /// A tab of the classic experience was activated.
    ClassicTabActivated(ClassicTab),
    /// An item was selected, or the selection was dropped.
    Select(Option<Selected>),
}

impl Clone for Message {
    fn clone(&self) -> (copy: Self)
        ensures
            copy == *self,
    {
        match self {
            Message::QueryInput(query) => Message::QueryInput(query.clone()),
            Message::ProgramTabActivated(tab) => Message::ProgramTabActivated(*tab),
            Message::BottleTabActivated(tab) => Message::BottleTabActivated(*tab),
            Message::ClassicTabActivated(tab) => Message::ClassicTabActivated(*tab),
            Message::Select(selected) => Message::Select(selected.clone()),
        }
    }
}

/// Which of the two grids the home page shows.
#[derive(Clone, Copy, Debug, PartialEq, Eq, Structural)]
pub enum Grid {
    Bottles,
    Library,
}

/// How the search presents itself in the header bar.
#[derive(Clone, Copy, Debug, PartialEq, Eq, Structural)]
pub enum SearchBar {
    /// The field to type a query in.
    Field,
    /// The search icon alone.
    Icon,
}

/// State of the home page.
pub struct Home {
    /// The active tab of the classic experience.
    pub classic_tab: ClassicTab,
    /// The tab bar of the program that was selected last, until the selection is cleared.
    pub program_tabs: Option<ProgramTabs>,
    /// The active tab of the bottle that was selected last, until the selection is cleared.
    pub bottle_tabs: Option<BottleTab>,
    /// What the search field holds.
    pub query: String,
    /// The item whose details are open, if any.
    pub selected: Option<Selected>,
    /// The programs of the library, in the order of their tiles.
    pub library: Vec<Program>,
    /// The bottles, in the order of their tiles.
    pub bottles: Vec<Bottle>,
}

impl Home {
    /// The tab bar of whatever is selected is there to be shown, and without
    /// a selection there is none.
    pub open spec fn wf(&self) -> bool {
        match self.selected {
            Some(Selected::Bottle(_)) => self.bottle_tabs is Some,
            Some(Selected::Program(program)) => self.program_tabs matches Some(tabs) && tabs.title
                == program.title,
            None => self.bottle_tabs is None && self.program_tabs is None,
        }
    }

    /// Whether this is the page as it is when new: it lists `library` and
    /// `bottles`, nothing is selected, the search field is empty and the
    /// bottles are in front.
    pub open spec fn is_new(&self, library: Vec<Program>, bottles: Vec<Bottle>) -> bool {
        &&& self.classic_tab == ClassicTab::Bottles
        &&& self.program_tabs is None
        &&& self.bottle_tabs is None
        &&& self.query@ == Seq::<char>::empty()
        &&& self.selected is None
        &&& self.library == library
        &&& self.bottles == bottles
    }

    /// The page as it is when new, listing `library` and `bottles`.
    pub fn new(library: Vec<Program>, bottles: Vec<Bottle>) -> (home: Self)
        ensures
            home.is_new(library, bottles),
            home.wf(),
    {
        Self {
            classic_tab: ClassicTab::Bottles,
            program_tabs: None,
            bottle_tabs: None,
            query: String::new(),
            selected: None,
            library,
            bottles,
        }
    }

    /// The page once `message` is handled.
    pub open spec fn after(self, message: Message) -> Home {
        match message {
            Message::QueryInput(query) => Home { query, ..self },
            Message::ClassicTabActivated(tab) => Home {
                classic_tab: tab,
                program_tabs: None,
                bottle_tabs: None,
                selected: None,
                ..self
            },
            Message::ProgramTabActivated(tab) => match self.program_tabs {
                Some(tabs) => Home {
                    program_tabs: Some(ProgramTabs { active: tab, ..tabs }),
                    ..self
                },
                None => self,
            },
            Message::BottleTabActivated(tab) => match self.bottle_tabs {
                Some(_) => Home { bottle_tabs: Some(tab), ..self },
                None => self,
            },
            Message::Select(Some(Selected::Bottle(bottle))) => Home {
                selected: Some(Selected::Bottle(bottle)),
                bottle_tabs: Some(BottleTab::Programs),
                ..self
            },
            Message::Select(Some(Selected::Program(program))) => Home {
                selected: Some(Selected::Program(program)),
                program_tabs: Some(
                    ProgramTabs { title: program.title, active: ProgramTab::Program },
                ),
                ..self
            },
            Message::Select(None) => Home {
                selected: None,
                program_tabs: None,
                bottle_tabs: None,
                ..self
            },
        }
    }

    /// What the application is told in answer to `message`: whenever the
    /// selection is set, the details pane is to show it.
    pub open spec fn follow_ups(message: Message) -> Seq<app::Message> {
        match message {
            Message::ClassicTabActivated(_) => seq![
                app::Message::Details(details::Message::SetSelected(None)),
            ],
            Message::Select(selected) => seq![
                app::Message::Details(details::Message::SetSelected(selected)),
            ],
            _ => seq![],
        }
    }

    /// Handles `message`.
    ///
    /// Typing replaces the query. Switching the classic tab clears the
    /// selection. Activating a tab of a bottle or a program does nothing
    /// while no such tab bar is open. Selecting an item opens its tab bar on
    /// its first tab; selecting nothing closes both tab bars.
    pub fn update(&mut self, message: Message) -> (tasks: Vec<app::Message>)
        ensures
            *final(self) == old(self).after(message),
            tasks@ == Self::follow_ups(message),
            old(self).wf() ==> final(self).wf(),
    {
        let mut tasks = Vec::new();
        match message {
            Message::QueryInput(query) => {
                self.query = query;
            },
            Message::ClassicTabActivated(tab) => {
                self.bottle_tabs = None;
                self.program_tabs = None;
                self.selected = None;
                tasks.push(app::Message::Details(details::Message::SetSelected(None)));
                self.classic_tab = tab;
            },
            Message::ProgramTabActivated(tab) => {
                if let Some(tabs) = &mut self.program_tabs {
                    tabs.active = tab;
                }
            },
            Message::BottleTabActivated(tab) => {
                if self.bottle_tabs.is_some() {
                    self.bottle_tabs = Some(tab);
                }
            },
            Message::Select(selected) => {
                self.selected = selected.clone();
                tasks.push(app::Message::Details(details::Message::SetSelected(selected)));
                match &self.selected {
                    Some(Selected::Bottle(_)) => {
                        self.bottle_tabs = Some(BottleTab::Programs);
                    },
                    Some(Selected::Program(program)) => {
                        self.program_tabs = Some(
                            ProgramTabs {
                                title: program.title.clone(),
                                active: ProgramTab::Program,
                            },
                        );
                    },
                    None => {
                        self.bottle_tabs = None;
                        self.program_tabs = None;
                    },
                }
            },
        }
        tasks
    }

    /// The search: a field to type in while nothing is selected, and no more
    /// than its icon while the page makes room for the details pane.
    pub fn search_bar(&self) -> (bar: SearchBar)
        ensures
            bar == if self.selected is None {
                SearchBar::Field
            } else {
                SearchBar::Icon
            },
    {
        if self.selected.is_none() {
            SearchBar::Field
        } else {
            SearchBar::Icon
        }
    }

    /// The grid that the classic experience shows: the one of its active tab.
    pub fn classic(&self) -> (grid: Grid)
        ensures
            grid == match self.classic_tab {
                ClassicTab::Bottles => Grid::Bottles,
                ClassicTab::Library => Grid::Library,
            },
    {
        match self.classic_tab {
            ClassicTab::Bottles => Grid::Bottles,
            ClassicTab::Library => Grid::Library,
        }
    }
}

} // verus!
