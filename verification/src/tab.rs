//! The two-tab switch between the records grid and the columns grid.

use vstd::prelude::*;

verus! {

/// Which of the two parallel grids currently receives navigation intents.
#[derive(Debug, Clone, Copy, PartialEq, Eq, Structural)]
pub enum TableMode {
    Records,
    Columns,
}

/// The tab bar state: the two tab titles and the active mode.
pub struct TabWdg<'a> {
    pub titles: Vec<&'a str>,
    pub mode: TableMode,
}

impl<'a> TabWdg<'a> {
    /// Starts on the records tab.
    pub fn new() -> (r: Self)
        ensures
            r.mode == TableMode::Records,
            r.titles@.len() == 2,
            r.titles@[0]@ == "Records [0]"@,
            r.titles@[1]@ == "Columns [1]"@,
    {
        Self { titles: vec!["Records [0]", "Columns [1]"], mode: TableMode::Records }
    }

    /// The index of the active tab, as the tab bar renderer selects it.
    pub fn mode(&self) -> (r: usize)
        ensures
            r == (match self.mode {
                TableMode::Records => 0usize,
                TableMode::Columns => 1usize,
            }),
    {
        match self.mode {
            TableMode::Records => 0,
            TableMode::Columns => 1,
        }
    }
}

/// An older form of the tab bar state that tracks the active tab by index.
pub struct TabStruct<'a> {
    pub titles: Vec<&'a str>,
    pub index: usize,
}

impl<'a> TabStruct<'a> {
    /// Starts on the first (records) tab.
    pub fn new() -> (r: TabStruct<'a>)
        ensures
            r.index == 0,
            r.titles@.len() == 2,
            r.titles@[0]@ == "Records [0]"@,
            r.titles@[1]@ == "Columns [1]"@,
    {
        TabStruct { titles: vec!["Records [0]", "Columns [1]"], index: 0 }
    }
}

} // verus!
