//! The user's settings, and how a change of them is put into force: what was already changed
//! is taken back where a later part fails.

use vstd::prelude::*;

verus! {

/// The user's settings.
pub struct Settings {
    pub global_hotkey: String,
    pub include_cursor: bool,
    pub launch_at_login: bool,
    pub copy_image_after_save: bool,
}

/// The user's settings, with the hotkey as a sequence of characters.
pub struct SettingsView {
    pub global_hotkey: Seq<char>,
    pub include_cursor: bool,
    pub launch_at_login: bool,
    pub copy_image_after_save: bool,
}

impl View for Settings {
    type V = SettingsView;

    open spec fn view(&self) -> SettingsView {
        SettingsView {
            global_hotkey: self.global_hotkey@,
            include_cursor: self.include_cursor,
            launch_at_login: self.launch_at_login,
            copy_image_after_save: self.copy_image_after_save,
        }
    }
}

impl Settings {
    /// The same settings.
    pub fn copy(&self) -> (settings: Settings)
        ensures
            settings@ == self@,
    {
        Settings {
            global_hotkey: self.global_hotkey.clone(),
            include_cursor: self.include_cursor,
            launch_at_login: self.launch_at_login,
            copy_image_after_save: self.copy_image_after_save,
        }
    }
}

/// Something that puts settings into force, or takes them back.
pub enum SettingsAction {
    /// Use a hotkey.
    UseHotkey(String),
    /// Start the program at login, or not.
    LaunchAtLogin(bool),
    /// Write the settings to their file.
    Write(Settings),
}

/// The same, with texts as sequences of characters.
pub enum SettingsActionView {
    UseHotkey(Seq<char>),
    LaunchAtLogin(bool),
    Write(SettingsView),
}

impl View for SettingsAction {
    type V = SettingsActionView;

    open spec fn view(&self) -> SettingsActionView {
        match self {
            SettingsAction::UseHotkey(hotkey) => SettingsActionView::UseHotkey(hotkey@),
            SettingsAction::LaunchAtLogin(launch) => SettingsActionView::LaunchAtLogin(*launch),
            SettingsAction::Write(settings) => SettingsActionView::Write(settings@),
        }
    }
}

/// A list of actions, with texts as sequences of characters.
pub open spec fn actions_of(actions: Seq<SettingsAction>) -> Seq<SettingsActionView> {
    actions.map_values(|action: SettingsAction| action@)
}

/// A part of the change.
#[derive(Clone, Copy, PartialEq, Eq, Structural)]
pub enum Part {
    Hotkey,
    Launch,
    File,
}

/// A change from old settings to new ones that is being put into force.
pub struct SettingsChange {
    pub old_settings: Settings,
    pub next_settings: Settings,
    /// The part that is under way.
    pub part: Part,
}

/// The first part of a change that has something to do, from a part on.
pub open spec fn part_from(old_settings: SettingsView, next: SettingsView, part: Part) -> Part {
    match part {
        Part::Hotkey => if next.global_hotkey != old_settings.global_hotkey {
            Part::Hotkey
        } else {
            part_from_launch(old_settings, next)
        },
        Part::Launch => part_from_launch(old_settings, next),
        Part::File => Part::File,
    }
}

/// The first part of a change that has something to do, after the hotkey.
pub open spec fn part_from_launch(old_settings: SettingsView, next: SettingsView) -> Part {
    if next.launch_at_login != old_settings.launch_at_login {
        Part::Launch
    } else {
        Part::File
    }
}

/// What a part of a change does.
pub open spec fn part_action(next: SettingsView, part: Part) -> SettingsActionView {
    match part {
        Part::Hotkey => SettingsActionView::UseHotkey(next.global_hotkey),
        Part::Launch => SettingsActionView::LaunchAtLogin(next.launch_at_login),
        Part::File => SettingsActionView::Write(next),
    }
}

/// What takes back the parts of a change before the one that failed.
pub open spec fn undo_before(old_settings: SettingsView, next: SettingsView, failed: Part) -> Seq<
    SettingsActionView,
> {
    let launch = if failed == Part::File && next.launch_at_login != old_settings.launch_at_login {
        seq![SettingsActionView::LaunchAtLogin(old_settings.launch_at_login)]
    } else {
        Seq::empty()
    };
    let hotkey = if failed != Part::Hotkey && next.global_hotkey != old_settings.global_hotkey {
        seq![SettingsActionView::UseHotkey(old_settings.global_hotkey)]
    } else {
        Seq::empty()
    };
    launch + hotkey
}

/// What follows once a part of a change was tried.
pub enum SettingsOutcome {
    /// The next part is to be tried.
    Continue(SettingsChange, SettingsAction),
    /// A part failed: what was changed is to be taken back, whether or not that succeeds.
    Failed { undo: Vec<SettingsAction>, error: String },
    /// The new settings are in force.
    Adopted(Settings),
}

impl SettingsChange {
    /// Begins a change.
    pub fn begin(old_settings: Settings, next_settings: Settings) -> (begun: (
        SettingsChange,
        SettingsAction,
    ))
        ensures
            begun.0.old_settings@ == old_settings@,
            begun.0.next_settings@ == next_settings@,
            begun.0.part == part_from(old_settings@, next_settings@, Part::Hotkey),
            begun.1@ == part_action(next_settings@, begun.0.part),
    {
        let part = if next_settings.global_hotkey != old_settings.global_hotkey {
            Part::Hotkey
        } else if next_settings.launch_at_login != old_settings.launch_at_login {
            Part::Launch
        } else {
            Part::File
        };
        let change = SettingsChange { old_settings, next_settings, part };
        let action = change.action();
        (change, action)
    }

    fn action(&self) -> (action: SettingsAction)
        ensures
            action@ == part_action(self.next_settings@, self.part),
    {
        match self.part {
            Part::Hotkey => SettingsAction::UseHotkey(self.next_settings.global_hotkey.clone()),
            Part::Launch => SettingsAction::LaunchAtLogin(self.next_settings.launch_at_login),
            Part::File => SettingsAction::Write(self.next_settings.copy()),
        }
    }

    /// Goes on with a change once its part was tried.
    pub fn tried(self, result: Result<(), String>) -> (outcome: SettingsOutcome)
        ensures
            match result {
                Err(error) => {
                    &&& outcome matches SettingsOutcome::Failed { undo, error: told }
                    &&& told@ == error@
                    &&& actions_of(undo@) == undo_before(
                        self.old_settings@,
                        self.next_settings@,
                        self.part,
                    )
                },
                Ok(_) => if self.part == Part::File {
                    outcome matches SettingsOutcome::Adopted(settings) && settings@
                        == self.next_settings@
                } else {
                    &&& outcome matches SettingsOutcome::Continue(change, action)
                    &&& change.old_settings@ == self.old_settings@
                    &&& change.next_settings@ == self.next_settings@
                    &&& change.part == (if self.part == Part::Hotkey {
                        part_from_launch(self.old_settings@, self.next_settings@)
                    } else {
                        Part::File
                    })
                    &&& action@ == part_action(self.next_settings@, change.part)
                },
            },
    {
        match result {
            Err(error) => {
                let mut undo: Vec<SettingsAction> = Vec::new();
                if self.part == Part::File && self.next_settings.launch_at_login
                    != self.old_settings.launch_at_login {
                    undo.push(SettingsAction::LaunchAtLogin(self.old_settings.launch_at_login));
                }
                if self.part != Part::Hotkey && self.next_settings.global_hotkey
                    != self.old_settings.global_hotkey {
                    undo.push(SettingsAction::UseHotkey(self.old_settings.global_hotkey.clone()));
                }
                assert(actions_of(undo@) =~= undo_before(
                    self.old_settings@,
                    self.next_settings@,
                    self.part,
                ));
                SettingsOutcome::Failed { undo, error }
            },
            Ok(()) => {
                let part = match self.part {
                    Part::File => {
                        return SettingsOutcome::Adopted(self.next_settings);
                    },
                    Part::Hotkey => {
                        if self.next_settings.launch_at_login
                            != self.old_settings.launch_at_login {
                            Part::Launch
                        } else {
                            Part::File
                        }
                    },
                    Part::Launch => Part::File,
                };
                let change = SettingsChange {
                    old_settings: self.old_settings,
                    next_settings: self.next_settings,
                    part,
                };
                let action = change.action();
                SettingsOutcome::Continue(change, action)
            },
        }
    }
}

/// What is in force outside: the hotkey, the start at login, and the file.
pub struct InForce {
    pub hotkey: Seq<char>,
    pub launch: bool,
    pub file: SettingsView,
}

impl InForce {
    /// What is in force after an action that succeeded.
    pub open spec fn after(self, action: SettingsActionView) -> InForce {
        match action {
            SettingsActionView::UseHotkey(hotkey) => InForce { hotkey, ..self },
            SettingsActionView::LaunchAtLogin(launch) => InForce { launch, ..self },
            SettingsActionView::Write(file) => InForce { file, ..self },
        }
    }

    /// What is in force after actions that succeeded.
    pub open spec fn after_all(self, actions: Seq<SettingsActionView>) -> InForce
        decreases actions.len(),
    {
        if actions.len() == 0 {
            self
        } else {
            self.after_all(actions.drop_last()).after(actions.last())
        }
    }
}

/// The actions of a change up to a part, without that part itself.
pub open spec fn actions_before(old_settings: SettingsView, next: SettingsView, part: Part) -> Seq<
    SettingsActionView,
> {
    let hotkey = if part != Part::Hotkey && next.global_hotkey != old_settings.global_hotkey {
        seq![part_action(next, Part::Hotkey)]
    } else {
        Seq::empty()
    };
    let launch = if part == Part::File && next.launch_at_login != old_settings.launch_at_login {
        seq![part_action(next, Part::Launch)]
    } else {
        Seq::empty()
    };
    hotkey + launch
}

/// A change of which some part fails leaves what is in force as it was, once what was
/// already changed has been taken back.
pub proof fn law_failed_change_is_taken_back(
    world: InForce,
    old_settings: SettingsView,
    next: SettingsView,
    failed: Part,
)
    requires
        world.hotkey == old_settings.global_hotkey,
        world.launch == old_settings.launch_at_login,
    ensures
        world.after_all(actions_before(old_settings, next, failed)).after_all(
            undo_before(old_settings, next, failed),
        ) == world,
{
    let before = actions_before(old_settings, next, failed);
    let undo = undo_before(old_settings, next, failed);
    reveal_with_fuel(InForce::after_all, 3);
    assert(before.len() <= 2 && undo.len() == before.len());
    if before.len() == 2 {
        assert(before.drop_last().drop_last().len() == 0);
        assert(undo.drop_last().drop_last().len() == 0);
    }
}

/// A change whose parts all succeed puts the new settings into force.
pub proof fn law_change_comes_into_force(
    world: InForce,
    old_settings: SettingsView,
    next: SettingsView,
)
    requires
        world.hotkey == old_settings.global_hotkey,
        world.launch == old_settings.launch_at_login,
    ensures
        ({
            let done = world.after_all(actions_before(old_settings, next, Part::File)).after(
                part_action(next, Part::File),
            );
            &&& done.hotkey == next.global_hotkey
            &&& done.launch == next.launch_at_login
            &&& done.file == next
        }),
{
    let before = actions_before(old_settings, next, Part::File);
    reveal_with_fuel(InForce::after_all, 3);
    if before.len() == 2 {
        assert(before.drop_last().drop_last().len() == 0);
    }
}

/// The settings dialog: the settings in force, those that the user is writing, and whether
/// the dialog is shown.
pub struct SettingsDialog {
    pub settings: Settings,
    pub draft: Settings,
    pub shown: bool,
}

impl SettingsDialog {
    /// The dialog at the start.
    pub fn new(settings: Settings) -> (dialog: Self)
        ensures
            dialog.settings@ == settings@,
            dialog.draft@ == settings@,
            !dialog.shown,
    {
        let draft = settings.copy();
        SettingsDialog { settings, draft, shown: false }
    }

    /// Shows the dialog, with the settings in force.
    pub fn open(&mut self)
        ensures
            final(self).settings == old(self).settings,
            final(self).draft@ == old(self).settings@,
            final(self).shown,
    {
        self.draft = self.settings.copy();
        self.shown = true;
    }

    /// Puts the dialog away, and what was written in it.
    pub fn cancel(&mut self)
        ensures
            final(self).settings == old(self).settings,
            final(self).draft@ == old(self).settings@,
            !final(self).shown,
    {
        self.draft = self.settings.copy();
        self.shown = false;
    }

    /// Begins to put what was written in the dialog into force.
    pub fn apply_settings(&self) -> (begun: (SettingsChange, SettingsAction))
        ensures
            begun.0.old_settings@ == self.settings@,
            begun.0.next_settings@ == self.draft@,
            begun.0.part == part_from(self.settings@, self.draft@, Part::Hotkey),
            begun.1@ == part_action(self.draft@, begun.0.part),
    {
        SettingsChange::begin(self.settings.copy(), self.draft.copy())
    }

    /// Takes in settings that came into force.
    pub fn adopted(&mut self, settings: Settings)
        ensures
            final(self).settings@ == settings@,
            final(self).draft@ == settings@,
            !final(self).shown,
    {
        self.settings = settings.copy();
        self.draft = settings;
        self.shown = false;
    }
}

} // verus!
