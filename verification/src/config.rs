//! What the user has chosen and what is kept between runs.

use vstd::prelude::*;

verus! {

/// The two ways the application can present itself.
#[derive(Clone, Copy, Debug, PartialEq, Eq, Structural)]
pub enum AppExperience {
    Next,
    Classic,
}

impl Default for AppExperience {
    fn default() -> (experience: Self)
        ensures
            experience == AppExperience::Next,
    {
        AppExperience::Next
    }
}

impl AppExperience {
    /// Text of [`AppExperience::title`].
    pub open spec fn title_text(self) -> Seq<char> {
        match self {
            AppExperience::Next => "Next Mode"@,
            AppExperience::Classic => "Classic Mode"@,
        }
    }

    /// Text of [`AppExperience::caption`].
    pub open spec fn caption_text(self) -> Seq<char> {
        match self {
            AppExperience::Next => "The easiest way to use Bottles."@,
            AppExperience::Classic => "The experience for advanced users."@,
        }
    }

    /// The two paragraphs of [`AppExperience::description`].
    pub open spec fn description_text(self) -> (Seq<char>, Seq<char>) {
        match self {
            AppExperience::Next => (
                "The software and games you install will be managed by Bottles using a simple environment."@,
                "This is the most convenient way if you're a beginner."@,
            ),
            AppExperience::Classic => (
                "The software and games you install will be managed by Bottles in multiple environments."@,
                "This gives advanced users the ability to fine-tune their experience."@,
            ),
        }
    }

    /// Name of the experience, as shown on its button.
    pub fn title(&self) -> (text: &'static str)
        ensures
            text@ == self.title_text(),
    {
        match self {
            Self::Next => "Next Mode",
            Self::Classic => "Classic Mode",
        }
    }

    /// One line that tells the experience from the other.
    pub fn caption(&self) -> (text: &'static str)
        ensures
            text@ == self.caption_text(),
    {
        match self {
            Self::Next => "The easiest way to use Bottles.",
            Self::Classic => "The experience for advanced users.",
        }
    }

    /// What the experience does, then whom it suits.
    pub fn description(&self) -> (text: (&'static str, &'static str))
        ensures
            text.0@ == self.description_text().0,
            text.1@ == self.description_text().1,
    {
        match self {
            Self::Next => (
                "The software and games you install will be managed by Bottles using a simple environment.",
                "This is the most convenient way if you're a beginner.",
            ),
            Self::Classic => (
                "The software and games you install will be managed by Bottles in multiple environments.",
                "This gives advanced users the ability to fine-tune their experience.",
            ),
        }
    }
}

/// Settings that persist between runs.
#[derive(Clone, Copy, Debug, PartialEq, Eq, Structural)]
pub struct Config {
    /// The experience in use; `None` until the user has picked one.
    pub app_experience: Option<AppExperience>,
}

impl Default for Config {
    fn default() -> (config: Self)
        ensures
            config.app_experience is None,
    {
        Config { app_experience: None }
    }
}

impl Config {
    /// Settles on the settings to start with, given what the settings store
    /// handed out: `None` where there is no store, `Err` with what could be
    /// read where some entries could not.
    ///
    /// A store that is missing leaves the defaults; entries that failed to
    /// load do not discard the ones that did.
    pub fn from_entry(entry: Option<Result<Config, Config>>) -> (config: Self)
        ensures
            config == match entry {
                Some(Ok(stored)) => stored,
                Some(Err(partial)) => partial,
                None => (Config { app_experience: None }),
            },
    {
        match entry {
            Some(Ok(stored)) => stored,
            Some(Err(partial)) => partial,
            None => Config::default(),
        }
    }
}

} // verus!
