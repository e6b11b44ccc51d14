use vstd::prelude::*;
use crate::index::{RepositoryIndex, SectionKind};
use crate::view::{entry_focus, next_kind, prev_kind, set_flag, FileToggle, ViewModel};

verus! {

/// A key as the terminal reports it, reduced to what the viewer reads.
#[derive(Clone, Copy, Debug, PartialEq, Eq, Structural)]
pub enum KeyPress {
    Char(char),
    Esc,
    Tab,
    BackTab,
    Up,
    Down,
    Enter,
    Other,
}

/// The discrete user actions.
#[derive(Clone, Copy, Debug, PartialEq, Eq, Structural)]
pub enum Action {
    Quit,
    NextSection,
    PreviousSection,
    MoveUp,
    MoveDown,
    ToggleSection,
    ToggleFile,
}

/// What the event loop does after an action.
#[derive(Clone, Copy, Debug, PartialEq, Eq, Structural)]
pub enum Reaction {
    Quit,
    Redraw,
    /// Fetch the changes of file `file` of section `kind`, then redraw.
    Load { kind: SectionKind, file: usize },
}

/// The key bindings: `q` or Esc quits, Tab and BackTab cycle the sections,
/// the arrows (or `k` and `j`) move the file focus, `e` toggles the focused
/// section and Enter or space the focused file. Releases and repeats do
/// nothing.
pub open spec fn key_action(k: KeyPress, pressed: bool) -> Option<Action> {
    if !pressed {
        None
    } else {
        match k {
            KeyPress::Char('q') | KeyPress::Esc => Some(Action::Quit),
            KeyPress::Tab => Some(Action::NextSection),
            KeyPress::BackTab => Some(Action::PreviousSection),
            KeyPress::Up | KeyPress::Char('k') => Some(Action::MoveUp),
            KeyPress::Down | KeyPress::Char('j') => Some(Action::MoveDown),
            KeyPress::Char('e') => Some(Action::ToggleSection),
            KeyPress::Enter | KeyPress::Char(' ') => Some(Action::ToggleFile),
            _ => None,
        }
    }
}

pub fn action_for_key(k: KeyPress, pressed: bool) -> (r: Option<Action>)
    ensures
        r == key_action(k, pressed),
{
    if !pressed {
        return None;
    }
    match k {
        KeyPress::Char('q') | KeyPress::Esc => Some(Action::Quit),
        KeyPress::Tab => Some(Action::NextSection),
        KeyPress::BackTab => Some(Action::PreviousSection),
        KeyPress::Up | KeyPress::Char('k') => Some(Action::MoveUp),
        KeyPress::Down | KeyPress::Char('j') => Some(Action::MoveDown),
        KeyPress::Char('e') => Some(Action::ToggleSection),
        KeyPress::Enter | KeyPress::Char(' ') => Some(Action::ToggleFile),
        _ => None,
    }
}

impl ViewModel {
    /// Applies one action to the view and says what the event loop does
    /// next. Only expanding a file whose changes are not loaded asks for a
    /// load.
    pub fn handle(&mut self, idx: &RepositoryIndex, action: Action) -> (r: Reaction)
        requires
            old(self).wf(*idx),
        ensures
            final(self).wf(*idx),
            action == Action::Quit ==> r == Reaction::Quit && *final(self) == *old(self),
            action != Action::Quit && action != Action::ToggleFile ==> r == Reaction::Redraw,
            action == Action::NextSection ==> final(self).same_flags(*old(self))
                && final(self).focused_section == next_kind(old(self).focused_section)
                && final(self).focused_file_index == entry_focus(
                old(self).section_open(final(self).focused_section),
                idx.len_of(final(self).focused_section),
            ),
            action == Action::PreviousSection ==> final(self).same_flags(*old(self))
                && final(self).focused_section == prev_kind(old(self).focused_section)
                && final(self).focused_file_index == entry_focus(
                old(self).section_open(final(self).focused_section),
                idx.len_of(final(self).focused_section),
            ),
            action == Action::MoveDown ==> final(self).same_flags(*old(self))
                && final(self).focused_section == old(self).focused_section
                && final(self).focused_file_index == match old(self).focused_file_index {
                Some(i) => if i + 1 < idx.len_of(old(self).focused_section) {
                    Some((i + 1) as usize)
                } else {
                    Some(i)
                },
                None => None,
            },
            action == Action::MoveUp ==> final(self).same_flags(*old(self))
                && final(self).focused_section == old(self).focused_section
                && final(self).focused_file_index == match old(self).focused_file_index {
                Some(i) => if i > 0 {
                    Some((i - 1) as usize)
                } else {
                    Some(i)
                },
                None => None,
            },
            action == Action::ToggleSection ==> final(self).focused_section == old(
                self,
            ).focused_section && final(self).section_open(old(self).focused_section) == !old(
                self,
            ).section_open(old(self).focused_section) && (forall|k: SectionKind|
                k != old(self).focused_section ==> final(self).section_open(k) == old(
                    self,
                ).section_open(k)) && final(self).expanded_files@ == old(self).expanded_files@
                && final(self).focused_file_index == entry_focus(
                !old(self).section_open(old(self).focused_section),
                idx.len_of(old(self).focused_section),
            ),
            action == Action::ToggleFile ==> final(self).focused_section == old(
                self,
            ).focused_section && final(self).focused_file_index == old(self).focused_file_index
                && (forall|k: SectionKind| final(self).section_open(k) == old(self).section_open(k))
                && match old(self).focused_file_index {
                None => r == Reaction::Redraw && final(self).expanded_set() == old(
                    self,
                ).expanded_set(),
                Some(i) => {
                    let f = idx.sec(old(self).focused_section).files@[i as int];
                    let key = (old(self).focused_section, f.path@);
                    let was = old(self).expanded_set().contains(key);
                    &&& final(self).expanded_set() == set_flag(old(self).expanded_set(), key, !was)
                    &&& r == if !was && f.changes@.len() == 0 {
                        Reaction::Load { kind: old(self).focused_section, file: i }
                    } else {
                        Reaction::Redraw
                    }
                },
            },
    {
        match action {
            Action::Quit => Reaction::Quit,
            Action::NextSection => {
                self.focus_next_section(idx);
                Reaction::Redraw
            },
            Action::PreviousSection => {
                self.focus_previous_section(idx);
                Reaction::Redraw
            },
            Action::MoveUp => {
                self.move_focus_up(idx);
                Reaction::Redraw
            },
            Action::MoveDown => {
                self.move_focus_down(idx);
                Reaction::Redraw
            },
            Action::ToggleSection => {
                self.toggle_focused_section(idx);
                Reaction::Redraw
            },
            Action::ToggleFile => {
                let kind = self.focused_section;
                let at = self.focused_file_index;
                match self.toggle_focused_file(idx) {
                    FileToggle::Expanded { load: true } => match at {
                        Some(i) => Reaction::Load { kind, file: i },
                        None => Reaction::Redraw,
                    },
                    _ => Reaction::Redraw,
                }
            },
        }
    }
}

} // verus!
