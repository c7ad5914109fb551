use vstd::prelude::*;
use crate::app::{App, FocusedPanel, ProcessInfoTab, ScrollState};
use crate::geometry::Rect;

verus! {

impl ScrollState {
    /// Back to the top, with no drag in progress.
    pub fn reset(&mut self)
        ensures
            final(self).offset == 0,
            final(self).dragging == false,
            final(self).page_size == old(self).page_size,
    {
        self.offset = 0;
        self.dragging = false;
    }

    /// Ends a drag of the scroll bar.
    pub fn stop_drag(&mut self)
        ensures
            *final(self) == (ScrollState { dragging: false, ..*old(self) }),
    {
        self.dragging = false;
    }

    /// Sets the page size for content `total` rows long, keeping the offset
    /// where a full page still fits.
    pub fn set_page_size(&mut self, page_size: usize, total: usize)
        ensures
            final(self).page_size == page_size,
            final(self).dragging == old(self).dragging,
            final(self).offset == if old(self).offset < total - page_size {
                old(self).offset as int
            } else if total > page_size {
                total - page_size
            } else {
                0
            },
    {
        self.page_size = page_size;
        let last = total.saturating_sub(page_size);
        if self.offset > last {
            self.offset = last;
        }
    }
}

pub open spec fn help_title_spec(app: &App) -> Seq<char> {
    if app.show_process_info_dialog {
        match app.process_info_tab {
            ProcessInfoTab::Network => "Network endpoints"@,
            ProcessInfoTab::Scheduling => "Scheduling"@,
            _ => "Process Info"@,
        }
    } else if app.show_column_picker || app.show_process_kill_confirmation {
        "Processes"@
    } else if app.investigation_profiles_open || app.show_tracked_remove_confirmation
        || app.show_recording_tracking_fixed {
        "Tracking"@
    } else if app.graph_reorder_open {
        "Graph Workspace"@
    } else if app.show_cpu_core_dialog {
        "CPU"@
    } else if app.main_menu_open || app.workspace_overlay {
        "Global"@
    } else if app.network_browser_visible {
        "Network endpoints"@
    } else if app.file_users_visible {
        "Find file users"@
    } else {
        match app.focused_panel {
            FocusedPanel::System => "MEM/GPU"@,
            FocusedPanel::SystemActivity => "NW/DISK"@,
            FocusedPanel::Cpu => "CPU"@,
            FocusedPanel::Processes => "Processes"@,
            FocusedPanel::DetailsGraph => "Graph Workspace"@,
            FocusedPanel::DetailsSamples => "Samples"@,
        }
    }
}

/// Something the help page asks of the rest of the application after a key
/// or a click: closing the page, or scrolling it.
#[derive(Clone, Copy, Debug, PartialEq, Eq, Structural)]
pub enum HelpCommand {
    Nothing,
    CloseHelp,
    ScrollUp(usize),
    ScrollDown(usize),
    ScrollHome,
    ScrollEnd,
}

/// The keys the help page reacts to.
#[derive(Clone, Copy, Debug, PartialEq, Eq, Structural)]
pub enum HelpKey {
    Esc,
    Enter,
    F(u8),
    Char(char),
    Up,
    Down,
    Left,
    Right,
    PageUp,
    PageDown,
    Home,
    End,
    Other,
}

/// The mouse events the section picker reacts to.
#[derive(Clone, Copy, Debug, PartialEq, Eq, Structural)]
pub enum HelpMouse {
    LeftDown,
    ScrollUp,
    ScrollDown,
    Other,
}

/// The last section index.
pub open spec fn last_section(count: nat) -> usize {
    if count > 0 {
        (count - 1) as usize
    } else {
        0
    }
}

/// An offset kept where a full page of `total` rows still fits.
pub open spec fn clamp_offset(offset: int, page_size: usize, total: usize) -> usize {
    if offset < total - page_size {
        offset as usize
    } else if total > page_size {
        (total - page_size) as usize
    } else {
        0
    }
}

/// The help state after jumping to section `index` (the last one when it is
/// past the end): the picker is closed, the hover cleared, and the page
/// scrolled to the section's first row `section_offsets[section]` (0 when no
/// offset is listed), kept where a full page of `total` rows fits.
pub open spec fn jumped(app: App, index: usize, section_offsets: Seq<usize>, page_size: usize, total: usize) -> App {
    let last = last_section(section_offsets.len());
    let section = if index < last {
        index
    } else {
        last
    };
    let offset = if section < section_offsets.len() {
        section_offsets[section as int]
    } else {
        0
    };
    App {
        help_section: section,
        help_section_picker: None,
        shortcut_hovered: None,
        help_scroll: ScrollState { offset: clamp_offset(offset as int, page_size, total), page_size, dragging: false },
        ..app
    }
}

/// Whether a key opens the section picker.
pub open spec fn opens_picker(key: HelpKey) -> bool {
    key == HelpKey::Char('s') || key == HelpKey::Char('S')
}

/// The help state and command after a key: while the section picker is
/// open at `selected`, Esc closes it, F1 and `?` close help, Enter jumps to
/// the selected section, and the arrows, Home and End move it within the
/// sections; while it is closed, Esc, Enter, F1 and `?` close help, `s`
/// opens the picker at the current section, Left and Right jump to the
/// previous and next section, and the other movement keys scroll the page.
pub open spec fn help_key_spec(app: App, key: HelpKey, section_offsets: Seq<usize>, page_size: usize, total: usize) -> (App, HelpCommand) {
    match app.help_section_picker {
        Some(selected) => {
            let last = last_section(section_offsets.len());
            match key {
                HelpKey::Esc => (App { help_section_picker: None, ..app }, HelpCommand::Nothing),
                HelpKey::F(1) | HelpKey::Char('?') => (app, HelpCommand::CloseHelp),
                HelpKey::Enter => (jumped(app, selected, section_offsets, page_size, total), HelpCommand::Nothing),
                HelpKey::Up => (App {
                    help_section_picker: Some(if selected > 0 {
                        (selected - 1) as usize
                    } else {
                        0
                    }),
                    ..app
                }, HelpCommand::Nothing),
                HelpKey::Down => (App {
                    help_section_picker: Some(if selected + 1 < last {
                        (selected + 1) as usize
                    } else {
                        last
                    }),
                    ..app
                }, HelpCommand::Nothing),
                HelpKey::Home => (App { help_section_picker: Some(0), ..app }, HelpCommand::Nothing),
                HelpKey::End => (App { help_section_picker: Some(last), ..app }, HelpCommand::Nothing),
                _ => (app, HelpCommand::Nothing),
            }
        },
        None => {
            let section = app.help_section;
            if opens_picker(key) {
                (App {
                    help_section_picker: Some(section),
                    help_scroll: ScrollState { dragging: false, ..app.help_scroll },
                    ..app
                }, HelpCommand::Nothing)
            } else {
                match key {
                    HelpKey::Esc | HelpKey::Enter | HelpKey::F(1) | HelpKey::Char('?') => (app, HelpCommand::CloseHelp),
                    HelpKey::Left => (jumped(app, if section > 0 {
                        (section - 1) as usize
                    } else {
                        0
                    }, section_offsets, page_size, total), HelpCommand::Nothing),
                    HelpKey::Right => (jumped(app, if section < usize::MAX {
                        (section + 1) as usize
                    } else {
                        usize::MAX
                    }, section_offsets, page_size, total), HelpCommand::Nothing),
                    HelpKey::Up => (app, HelpCommand::ScrollUp(1)),
                    HelpKey::Down => (app, HelpCommand::ScrollDown(1)),
                    HelpKey::PageUp => (app, HelpCommand::ScrollUp(app.help_scroll.page_size)),
                    HelpKey::PageDown => (app, HelpCommand::ScrollDown(app.help_scroll.page_size)),
                    HelpKey::Home => (app, HelpCommand::ScrollHome),
                    HelpKey::End => (app, HelpCommand::ScrollEnd),
                    _ => (app, HelpCommand::Nothing),
                }
            }
        },
    }
}

/// The help state and command after a mouse event over the section picker:
/// the row under the pointer (`hit`: its index and cells) is hovered; a
/// click on a row jumps to that section, and a click outside the picker
/// (`in_picker_area` false) closes it; the wheel acts as the Up and Down
/// keys.
pub open spec fn help_mouse_spec(
    app: App,
    mouse: HelpMouse,
    hit: Option<(usize, Rect)>,
    in_picker_area: bool,
    section_offsets: Seq<usize>,
    page_size: usize,
    total: usize,
) -> (App, HelpCommand) {
    let hovered = App {
        shortcut_hovered: match hit {
            Some((_, area)) => Some(area),
            None => None,
        },
        ..app
    };
    match mouse {
        HelpMouse::LeftDown => match hit {
            Some((index, _)) => (jumped(hovered, index, section_offsets, page_size, total), HelpCommand::Nothing),
            None => if in_picker_area {
                (hovered, HelpCommand::Nothing)
            } else {
                (App { help_section_picker: None, ..hovered }, HelpCommand::Nothing)
            },
        },
        HelpMouse::ScrollUp => help_key_spec(hovered, HelpKey::Up, section_offsets, page_size, total),
        HelpMouse::ScrollDown => help_key_spec(hovered, HelpKey::Down, section_offsets, page_size, total),
        HelpMouse::Other => (hovered, HelpCommand::Nothing),
    }
}

impl App {
    /// The help section that matches what the user is looking at: the open
    /// dialog's, else the open menu or overlay's, else the focused panel's.
    pub fn contextual_help_title(&self) -> (r: &'static str)
        ensures
            r@ == help_title_spec(self),
    {
        if self.show_process_info_dialog {
            return match self.process_info_tab {
                ProcessInfoTab::Network => "Network endpoints",
                ProcessInfoTab::Scheduling => "Scheduling",
                _ => "Process Info",
            };
        }
        if self.show_column_picker || self.show_process_kill_confirmation {
            return "Processes";
        }
        if self.investigation_profiles_open || self.show_tracked_remove_confirmation || self.show_recording_tracking_fixed {
            return "Tracking";
        }
        if self.graph_reorder_open {
            return "Graph Workspace";
        }
        if self.show_cpu_core_dialog {
            return "CPU";
        }
        if self.main_menu_open || self.workspace_overlay {
            return "Global";
        }
        if self.network_browser_visible {
            return "Network endpoints";
        }
        if self.file_users_visible {
            return "Find file users";
        }
        match self.focused_panel {
            FocusedPanel::System => "MEM/GPU",
            FocusedPanel::SystemActivity => "NW/DISK",
            FocusedPanel::Cpu => "CPU",
            FocusedPanel::Processes => "Processes",
            FocusedPanel::DetailsGraph => "Graph Workspace",
            FocusedPanel::DetailsSamples => "Samples",
        }
    }

    /// Opens help section `index` (the last one when it is past the end):
    /// closes the picker, clears the hover, and scrolls to the section's
    /// first row, kept where a full page of the `total` rows fits. The
    /// sections are those with an entry in `section_offsets`, each its first
    /// row; `page_size` is the page size for the screen.
    pub fn jump_help_section(&mut self, index: usize, section_offsets: &Vec<usize>, page_size: usize, total: usize)
        ensures
            *final(self) == jumped(*old(self), index, section_offsets@, page_size, total),
    {
        let last = section_offsets.len().saturating_sub(1);
        let section = if index < last {
            index
        } else {
            last
        };
        self.help_section = section;
        self.help_section_picker = None;
        self.shortcut_hovered = None;
        let mut scroll = self.help_scroll;
        scroll.reset();
        scroll.set_page_size(page_size, total);
        scroll.offset = if section < section_offsets.len() {
            section_offsets[section]
        } else {
            0
        };
        let page = scroll.page_size;
        scroll.set_page_size(page, total);
        self.help_scroll = scroll;
    }

    /// Handles a key on the help page (see `help_key_spec`); returns what the
    /// page asks of the rest of the application.
    #[verifier::rlimit(60)]
    pub fn help_key(&mut self, key: HelpKey, section_offsets: &Vec<usize>, page_size: usize, total: usize) -> (r: HelpCommand)
        ensures
            (*final(self), r) == help_key_spec(*old(self), key, section_offsets@, page_size, total),
    {
        if let Some(selected) = self.help_section_picker {
            let last = section_offsets.len().saturating_sub(1);
            return match key {
                HelpKey::Esc => {
                    self.help_section_picker = None;
                    HelpCommand::Nothing
                },
                HelpKey::F(1) | HelpKey::Char('?') => HelpCommand::CloseHelp,
                HelpKey::Enter => {
                    self.jump_help_section(selected, section_offsets, page_size, total);
                    HelpCommand::Nothing
                },
                HelpKey::Up => {
                    self.help_section_picker = Some(selected.saturating_sub(1));
                    HelpCommand::Nothing
                },
                HelpKey::Down => {
                    let next = selected.saturating_add(1);
                    self.help_section_picker = Some(if next < last {
                        next
                    } else {
                        last
                    });
                    HelpCommand::Nothing
                },
                HelpKey::Home => {
                    self.help_section_picker = Some(0);
                    HelpCommand::Nothing
                },
                HelpKey::End => {
                    self.help_section_picker = Some(last);
                    HelpCommand::Nothing
                },
                _ => HelpCommand::Nothing,
            };
        }
        match key {
            HelpKey::Esc | HelpKey::Enter | HelpKey::F(1) | HelpKey::Char('?') => HelpCommand::CloseHelp,
            HelpKey::Char('s') | HelpKey::Char('S') => {
                self.help_scroll.stop_drag();
                self.help_section_picker = Some(self.help_section);
                HelpCommand::Nothing
            },
            HelpKey::Left => {
                let target = self.help_section.saturating_sub(1);
                self.jump_help_section(target, section_offsets, page_size, total);
                HelpCommand::Nothing
            },
            HelpKey::Right => {
                let target = self.help_section.saturating_add(1);
                self.jump_help_section(target, section_offsets, page_size, total);
                HelpCommand::Nothing
            },
            HelpKey::Up => HelpCommand::ScrollUp(1),
            HelpKey::Down => HelpCommand::ScrollDown(1),
            HelpKey::PageUp => HelpCommand::ScrollUp(self.help_scroll.page_size),
            HelpKey::PageDown => HelpCommand::ScrollDown(self.help_scroll.page_size),
            HelpKey::Home => HelpCommand::ScrollHome,
            HelpKey::End => HelpCommand::ScrollEnd,
            _ => HelpCommand::Nothing,
        }
    }

    /// Handles the mouse over the section picker (see `help_mouse_spec`).
    pub fn help_section_mouse(
        &mut self,
        mouse: HelpMouse,
        hit: Option<(usize, Rect)>,
        in_picker_area: bool,
        section_offsets: &Vec<usize>,
        page_size: usize,
        total: usize,
    ) -> (r: HelpCommand)
        ensures
            (*final(self), r) == help_mouse_spec(*old(self), mouse, hit, in_picker_area, section_offsets@, page_size, total),
    {
        self.shortcut_hovered = match hit {
            Some((_, area)) => Some(area),
            None => None,
        };
        match mouse {
            HelpMouse::LeftDown => {
                match hit {
                    Some((index, _)) => {
                        self.jump_help_section(index, section_offsets, page_size, total);
                        HelpCommand::Nothing
                    },
                    None => {
                        if !in_picker_area {
                            self.help_section_picker = None;
                        }
                        HelpCommand::Nothing
                    },
                }
            },
            HelpMouse::ScrollUp => self.help_key(HelpKey::Up, section_offsets, page_size, total),
            HelpMouse::ScrollDown => self.help_key(HelpKey::Down, section_offsets, page_size, total),
            HelpMouse::Other => HelpCommand::Nothing,
        }
    }
}

/// Law: the section picker never leaves the sections: from a position in
/// range, every key leaves it closed or in range, and a jump always lands on
/// a section.
pub proof fn law_picker_and_jumps_stay_in_range(app: App, key: HelpKey, section_offsets: Seq<usize>, page_size: usize, total: usize)
    requires
        0 < section_offsets.len() <= usize::MAX,
        app.help_section < section_offsets.len(),
        app.help_section_picker matches Some(s) ==> s < section_offsets.len(),
    ensures
        ({
            let next = help_key_spec(app, key, section_offsets, page_size, total).0;
            &&& next.help_section < section_offsets.len()
            &&& next.help_section_picker matches Some(s) ==> s < section_offsets.len()
        }),
{
}

/// Law: a jump closes the picker, clears the hover, and leaves the page
/// showing the section's first row whenever a full page from there fits.
pub proof fn law_jump_shows_section_start(app: App, index: usize, section_offsets: Seq<usize>, page_size: usize, total: usize)
    requires
        section_offsets.len() <= usize::MAX,
        index < section_offsets.len(),
        section_offsets[index as int] + page_size <= total,
    ensures
        ({
            let next = jumped(app, index, section_offsets, page_size, total);
            &&& next.help_section == index
            &&& next.help_section_picker is None
            &&& next.shortcut_hovered is None
            &&& next.help_scroll.offset == section_offsets[index as int]
        }),
{
}

} // verus!
