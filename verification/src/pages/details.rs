//! The pane beside the home page that shows what is selected there.

use vstd::prelude::*;

use crate::app;
use crate::grid::{min_tile_width, GridMetrics};
use crate::pages::home::Selected;

verus! {

/// Width that the pane lays its tiles out in.
pub const PANE_WIDTH: usize = 800;

/// Number of tiles that the pane shows.
pub const PANE_TILES: usize = 10;

/// State of the details pane.
pub struct Details {
    /// What the pane is about; it is closed while there is nothing.
    pub selected: Option<Selected>,
}

/// What the pane can be told.
#[derive(Debug, PartialEq, Eq)]
pub enum Message {
    /// The pane is to show this item, or to close.
    SetSelected(Option<Selected>),
}

impl Clone for Message {
    fn clone(&self) -> (copy: Self)
        ensures
            copy == *self,
    {
        match self {
            Message::SetSelected(selected) => Message::SetSelected(selected.clone()),
        }
    }
}

impl Details {
    /// The pane as it is when new: closed.
    pub fn new() -> (details: Self)
        ensures
            details.selected is None,
    {
        Self { selected: None }
    }

    /// What the pane shows under a theme whose small spacing is `space_s`:
    /// a grid of [`PANE_TILES`] tiles, or nothing while the pane is closed.
    pub fn view(&self, space_s: u16) -> (grid: Option<GridMetrics>)
        ensures
            grid is Some <==> self.selected is Some,
            grid matches Some(metrics) ==> metrics.wf() && metrics.is_layout_of(
                PANE_WIDTH as nat,
                min_tile_width(space_s as nat),
                space_s as nat,
            ),
    {
        match &self.selected {
            Some(_) => Some(GridMetrics::for_tiles(PANE_WIDTH, space_s)),
            None => None,
        }
    }

    /// The pane once `message` is handled.
    pub open spec fn after(self, message: Message) -> Details {
        match message {
            Message::SetSelected(selected) => Details { selected },
        }
    }

    /// Handles `message`. Nothing follows from it.
    pub fn update(&mut self, message: Message) -> (tasks: Vec<app::Message>)
        ensures
            *final(self) == old(self).after(message),
            tasks@ == Seq::<app::Message>::empty(),
    {
        match message {
            Message::SetSelected(selected) => {
                self.selected = selected;
            },
        }
        Vec::new()
    }
}

} // verus!
