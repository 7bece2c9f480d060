//! The page on which the user picks an experience for the first time.

use vstd::prelude::*;

use crate::app;
use crate::config::AppExperience;

verus! {

/// State of the welcome page.
pub struct Welcome {
    /// The experiences on offer, in the order of their buttons.
    pub experiences: [AppExperience; 2],
    /// The experience whose description is shown and that "apply" would take.
    pub selected: AppExperience,
}

/// What the page can be told.
#[derive(Clone, Copy, Debug, PartialEq, Eq, Structural)]
pub enum Message {
    /// The button of an experience was pressed.
    PickExperience(AppExperience),
    /// The picked experience is to be used.
    ApplyExperience,
}

impl Welcome {
    /// Whether this is the page as it is when new: both experiences are on
    /// offer, and the first of them is picked.
    pub open spec fn is_new(&self) -> bool {
        &&& self.experiences@ == seq![AppExperience::Next, AppExperience::Classic]
        &&& self.selected == AppExperience::Next
    }

    /// The page as it is when new.
    pub fn new() -> (welcome: Self)
        ensures
            welcome.is_new(),
    {
        Self {
            experiences: [AppExperience::Next, AppExperience::Classic],
            selected: AppExperience::default(),
        }
    }

    /// The page once `message` is handled.
    pub open spec fn after(self, message: Message) -> Welcome {
        match message {
            Message::ApplyExperience => self,
            Message::PickExperience(selected) => Welcome { selected, ..self },
        }
    }

    /// What the application is told in answer to `message`.
    pub open spec fn follow_ups(self, message: Message) -> Seq<app::Message> {
        match message {
            Message::ApplyExperience => seq![app::Message::ApplyExperience(self.selected)],
            Message::PickExperience(_) => seq![],
        }
    }

    /// Handles `message`: picking an experience only changes the page,
    /// applying hands the picked experience to the application.
    pub fn update(&mut self, message: Message) -> (tasks: Vec<app::Message>)
        ensures
            *final(self) == old(self).after(message),
            tasks@ == old(self).follow_ups(message),
    {
        let mut tasks = Vec::new();
        match message {
            Message::ApplyExperience => {
                tasks.push(app::Message::ApplyExperience(self.selected));
            },
            Message::PickExperience(selected) => {
                self.selected = selected;
            },
        }
        tasks
    }
}

} // verus!
