use vstd::prelude::*;

verus! {

/// Title and focus of a bordered panel.
pub struct PanelConfig<'a> {
    pub title: &'a str,
    pub focused_title: &'a str,
    pub is_focused: bool,
}

impl<'a> PanelConfig<'a> {
    /// An unfocused panel whose title does not change with focus.
    pub fn new(title: &'a str) -> (c: Self)
        ensures
            c.title == title,
            c.focused_title == title,
            !c.is_focused,
    {
        PanelConfig { title, focused_title: title, is_focused: false }
    }

    /// The title shown while the panel has focus.
    pub fn with_focus_indicator(self, focused_title: &'a str) -> (c: Self)
        ensures
            c.title == self.title,
            c.focused_title == focused_title,
            c.is_focused == self.is_focused,
    {
        PanelConfig { focused_title, ..self }
    }

    pub fn focused(self, focused: bool) -> (c: Self)
        ensures
            c.title == self.title,
            c.focused_title == self.focused_title,
            c.is_focused == focused,
    {
        PanelConfig { is_focused: focused, ..self }
    }

    /// The title for the panel's focus.
    pub fn title_text(&self) -> (r: &str)
        ensures
            r == (if self.is_focused {
                self.focused_title
            } else {
                self.title
            }),
    {
        if self.is_focused {
            self.focused_title
        } else {
            self.title
        }
    }
}

/// Title and focus of a field section of a detail view.
pub struct FieldSectionConfig<'a> {
    pub title: &'a str,
    pub focused_title: &'a str,
    pub is_focused: bool,
}

impl<'a> FieldSectionConfig<'a> {
    /// An unfocused section whose title does not change with focus.
    pub fn new(title: &'a str) -> (c: Self)
        ensures
            c.title == title,
            c.focused_title == title,
            !c.is_focused,
    {
        FieldSectionConfig { title, focused_title: title, is_focused: false }
    }

    /// The title shown while the section has focus.
    pub fn with_focus_indicator(self, focused_title: &'a str) -> (c: Self)
        ensures
            c.title == self.title,
            c.focused_title == focused_title,
            c.is_focused == self.is_focused,
    {
        FieldSectionConfig { focused_title, ..self }
    }

    pub fn focused(self, focused: bool) -> (c: Self)
        ensures
            c.title == self.title,
            c.focused_title == self.focused_title,
            c.is_focused == focused,
    {
        FieldSectionConfig { is_focused: focused, ..self }
    }

    /// The title for the section's focus.
    pub fn title_text(&self) -> (r: &str)
        ensures
            r == (if self.is_focused {
                self.focused_title
            } else {
                self.title
            }),
    {
        if self.is_focused {
            self.focused_title
        } else {
            self.title
        }
    }
}

} // verus!
