//! The exit screen's action catalogue as plain data.
//!
//! Each action has a keyboard shortcut (by key name), an icon, a
//! description, and what running it does: a session-manager command or a
//! shell command line. Rendering the catalogue and actually executing an
//! action are the surrounding program's business; the catalogue itself — the
//! built-in actions, the optional quit action, and the custom actions from
//! the configuration — is built and looked up here.

use vstd::prelude::*;

verus! {

/// Configuration of the exit screen.
pub struct Config {
    /// Command to quit the window manager or desktop environment.
    pub quit_command: Option<String>,
    /// The order to display actions in, by name.
    pub order: Vec<String>,
    /// Additional custom actions, by name.
    pub actions: Vec<(String, CustomAction)>,
}

/// A user-defined action from the configuration file.
pub struct CustomAction {
    /// Name of the key that triggers this action.
    pub key: String,
    /// Name of the button icon to use.
    pub icon: String,
    /// Description of the action, used for accessibility labels.
    pub description: String,
    /// Command to run, via the user's shell.
    pub command: String,
}

/// A command the session manager executes on behalf of an action.
#[derive(Debug, Clone, Copy, PartialEq, Eq, Structural)]
pub enum SessionCommand {
    Lock,
    Suspend,
    Hibernate,
    Reboot,
    PowerOff,
}

/// What running an action does.
#[derive(Debug)]
pub enum ActionRun {
    /// A call into the session manager.
    Session(SessionCommand),
    /// A command line for the user's shell.
    Shell(String),
}

/// An action shown in the exit screen.
#[derive(Debug)]
pub struct Action {
    /// Name of the key that triggers this action.
    pub key: String,
    /// Icon displayed for this action.
    pub icon: String,
    /// A description of what this action does.
    pub description: String,
    /// What running this action does.
    pub run: ActionRun,
}

/// An action's contents, by view.
pub open spec fn action_is(
    a: Action,
    key: Seq<char>,
    icon: Seq<char>,
    description: Seq<char>,
    run: ActionRun,
) -> bool {
    &&& a.key@ == key
    &&& a.icon@ == icon
    &&& a.description@ == description
    &&& a.run == run
}

impl Action {
    /// Icon displayed for this action as a button in the exit screen.
    pub fn icon(&self) -> (r: &str)
        ensures
            r@ == self.icon@,
    {
        self.icon.as_str()
    }

    /// A description of what this action does.
    pub fn description(&self) -> (r: &str)
        ensures
            r@ == self.description@,
    {
        self.description.as_str()
    }

    /// What running this action does; the surrounding program executes it.
    pub fn run(&self) -> (r: &ActionRun)
        ensures
            *r == self.run,
    {
        &self.run
    }
}

/// The default display order of the built-in actions.
pub open spec fn spec_default_action_order() -> Seq<Seq<char>> {
    seq!["lock"@, "quit"@, "suspend"@, "hibernate"@, "reboot"@, "shutdown"@]
}

/// The default action order, used both when the configuration file is
/// missing and when it does not set an order.
pub fn default_action_order() -> (r: Vec<String>)
    ensures
        r.deep_view() == spec_default_action_order(),
{
    let mut v: Vec<String> = Vec::new();
    v.push("lock".to_owned());
    v.push("quit".to_owned());
    v.push("suspend".to_owned());
    v.push("hibernate".to_owned());
    v.push("reboot".to_owned());
    v.push("shutdown".to_owned());
    proof {
        assert(v.deep_view() =~= spec_default_action_order());
    }
    v
}

impl Default for Config {
    /// The default configuration: no quit command, the default order, no
    /// custom actions.
    fn default() -> (r: Config)
        ensures
            r.quit_command is None,
            r.order.deep_view() == spec_default_action_order(),
            r.actions@.len() == 0,
    {
        Config { quit_command: None, order: default_action_order(), actions: Vec::new() }
    }
}

/// The exit screen's actions: the named catalogue and the display order.
pub struct Actions {
    /// The catalogue: each action under its name.
    pub actions: Vec<(String, Action)>,
    /// The order to display actions in, by name; a name with no catalogue
    /// entry is skipped by the display.
    pub order: Vec<String>,
}

impl Actions {
    /// Finds the action with the given keyboard shortcut, if one is
    /// defined. Only entries a name lookup can still reach take part: an
    /// entry shadowed by a later entry of the same name is skipped, so this
    /// never returns an action the catalogue no longer shows.
    pub fn find_by_key<'a>(&'a self, key: &String) -> (r: Option<&'a Action>)
        ensures
            r matches Some(a) ==> a.key@ == key@ && exists|i: int|
                0 <= i < self.actions@.len() && #[trigger] visible_entry(self.actions@, i)
                    && self.actions@[i].1 == *a,
            r is None ==> forall|i: int|
                0 <= i < self.actions@.len() && #[trigger] visible_entry(self.actions@, i)
                    ==> self.actions@[i].1.key@ != key@,
    {
        let mut i: usize = 0;
        while i < self.actions.len()
            invariant
                i <= self.actions@.len(),
                forall|j: int|
                    0 <= j < i && #[trigger] visible_entry(self.actions@, j)
                        ==> self.actions@[j].1.key@ != key@,
            decreases self.actions@.len() - i,
        {
            let entry = &self.actions[i];
            if entry.1.key == *key {
                match self.find_index(&entry.0) {
                    Some(j) => {
                        if j == i {
                            proof {
                                assert(visible_entry(self.actions@, i as int));
                            }
                            return Some(&entry.1);
                        }
                    },
                    None => {},
                }
            }
            i = i + 1;
        }
        None
    }

    /// Looks the action with the given name up, if one is defined. A later
    /// catalogue entry overrides an earlier one of the same name, the way
    /// repeated insertion under one key would.
    pub fn get<'a>(&'a self, name: &String) -> (r: Option<&'a Action>)
        ensures
            r matches Some(a) ==> (last_match(self.actions@, name@) matches Some(i)
                && self.actions@[i].1 == *a && self.actions@[i].0@ == name@),
            r is None ==> forall|i: int|
                0 <= i < self.actions@.len() ==> #[trigger] self.actions@[i].0@ != name@,
    {
        match self.find_index(name) {
            Some(i) => {
                proof {
                    lemma_last_match_some(self.actions@, name@, self.actions@.len() as int);
                }
                Some(&self.actions[i].1)
            },
            None => {
                proof {
                    lemma_last_match_none(self.actions@, name@, self.actions@.len() as int);
                }
                None
            },
        }
    }
}

/// The index of the last catalogue entry below `i` whose name is `name`.
pub open spec fn last_match_below(
    entries: Seq<(String, Action)>,
    name: Seq<char>,
    i: int,
) -> Option<int>
    decreases i,
{
    if i <= 0 || i > entries.len() {
        None
    } else if entries[i - 1].0@ == name {
        Some(i - 1)
    } else {
        last_match_below(entries, name, i - 1)
    }
}

/// The index of the catalogue entry named `name` that a lookup finds: the
/// last one, since a later entry overrides an earlier one of the same name.
pub open spec fn last_match(entries: Seq<(String, Action)>, name: Seq<char>) -> Option<int> {
    last_match_below(entries, name, entries.len() as int)
}

/// Whether the entry at `i` is the one its own name's lookup yields — that
/// is, no later entry of the same name shadows it.
pub open spec fn visible_entry(entries: Seq<(String, Action)>, i: int) -> bool {
    last_match(entries, entries[i].0@) == Some(i)
}

/// A found match lies in range and carries the name looked for.
proof fn lemma_last_match_some(entries: Seq<(String, Action)>, name: Seq<char>, i: int)
    requires
        0 <= i <= entries.len(),
    ensures
        last_match_below(entries, name, i) matches Some(j) ==> 0 <= j < i && entries[j].0@
            == name,
    decreases i,
{
    if i > 0 {
        lemma_last_match_some(entries, name, i - 1);
    }
}

/// When no match is found, no entry below `i` carries the name.
proof fn lemma_last_match_none(entries: Seq<(String, Action)>, name: Seq<char>, i: int)
    requires
        0 <= i <= entries.len(),
        last_match_below(entries, name, i) is None,
    ensures
        forall|j: int| 0 <= j < i ==> #[trigger] entries[j].0@ != name,
    decreases i,
{
    if i > 0 {
        lemma_last_match_none(entries, name, i - 1);
    }
}

/// The actions `order` displays, in order: each name's catalogue entry,
/// with names that have no entry skipped.
pub open spec fn display_list(entries: Seq<(String, Action)>, order: Seq<Seq<char>>) -> Seq<Action>
    decreases order.len(),
{
    if order.len() == 0 {
        Seq::empty()
    } else {
        (match last_match(entries, order[0]) {
            Some(i) => seq![entries[i].1],
            None => Seq::<Action>::empty(),
        }) + display_list(entries, order.skip(1))
    }
}

/// Appending one name to the order appends that name's display entry.
proof fn lemma_display_list_snoc(
    entries: Seq<(String, Action)>,
    order: Seq<Seq<char>>,
    name: Seq<char>,
)
    ensures
        display_list(entries, order.push(name)) == display_list(entries, order) + (
        match last_match(entries, name) {
            Some(i) => seq![entries[i].1],
            None => Seq::<Action>::empty(),
        }),
    decreases order.len(),
{
    let snoc = order.push(name);
    if order.len() == 0 {
        assert(snoc[0] == name);
        assert(snoc.skip(1) =~= Seq::<Seq<char>>::empty());
        assert(display_list(entries, Seq::<Seq<char>>::empty()) =~= Seq::<Action>::empty());
        assert(display_list(entries, order) =~= Seq::<Action>::empty());
        assert(display_list(entries, snoc) == (match last_match(entries, name) {
            Some(i) => seq![entries[i].1],
            None => Seq::<Action>::empty(),
        }) + display_list(entries, snoc.skip(1)));
        assert(display_list(entries, snoc) =~= display_list(entries, order) + (
        match last_match(entries, name) {
            Some(i) => seq![entries[i].1],
            None => Seq::<Action>::empty(),
        }));
    } else {
        let x = match last_match(entries, name) {
            Some(i) => seq![entries[i].1],
            None => Seq::<Action>::empty(),
        };
        let h = match last_match(entries, order[0]) {
            Some(i) => seq![entries[i].1],
            None => Seq::<Action>::empty(),
        };
        assert(snoc[0] == order[0]);
        assert(snoc.skip(1) =~= order.skip(1).push(name));
        assert(display_list(entries, snoc) == h + display_list(entries, order.skip(1).push(name)));
        lemma_display_list_snoc(entries, order.skip(1), name);
        assert(display_list(entries, order) == h + display_list(entries, order.skip(1)));
        assert(h + (display_list(entries, order.skip(1)) + x) =~= (h + display_list(
            entries,
            order.skip(1),
        )) + x);
    }
}

/// The values behind a sequence of action references.
pub open spec fn deref_actions(s: Seq<&Action>) -> Seq<Action> {
    s.map_values(|a: &Action| *a)
}

impl Actions {
    /// Finds the catalogue entry a lookup of the given name yields: the
    /// last one of that name.
    fn find_index(&self, name: &String) -> (r: Option<usize>)
        ensures
            r matches Some(i) ==> last_match(self.actions@, name@) == Some(i as int) && i
                < self.actions@.len(),
            r is None ==> last_match(self.actions@, name@) is None,
    {
        let mut i: usize = self.actions.len();
        while i > 0
            invariant
                i <= self.actions@.len(),
                last_match(self.actions@, name@) == last_match_below(
                    self.actions@,
                    name@,
                    i as int,
                ),
            decreases i,
        {
            i = i - 1;
            let entry = &self.actions[i];
            if entry.0 == *name {
                return Some(i);
            }
        }
        None
    }

    /// All actions in the configured display order: each order entry's
    /// action, with names that have no catalogue entry skipped.
    pub fn iter<'a>(&'a self) -> (r: Vec<&'a Action>)
        ensures
            deref_actions(r@) == display_list(self.actions@, self.order.deep_view()),
    {
        let mut result: Vec<&'a Action> = Vec::new();
        let mut k: usize = 0;
        proof {
            assert(self.order.deep_view().take(0) =~= Seq::<Seq<char>>::empty());
            assert(deref_actions(result@) =~= display_list(
                self.actions@,
                self.order.deep_view().take(0),
            ));
        }
        while k < self.order.len()
            invariant
                k <= self.order@.len(),
                self.order.deep_view().len() == self.order@.len(),
                deref_actions(result@) == display_list(
                    self.actions@,
                    self.order.deep_view().take(k as int),
                ),
            decreases self.order@.len() - k,
        {
            let ghost prefix = self.order.deep_view().take(k as int);
            let ghost name = self.order.deep_view()[k as int];
            proof {
                assert(self.order.deep_view()[k as int] == self.order@[k as int]@);
                lemma_display_list_snoc(self.actions@, prefix, name);
                assert(self.order.deep_view().take(k as int + 1) =~= prefix.push(name));
            }
            match self.find_index(&self.order[k]) {
                Some(i) => {
                    result.push(&self.actions[i].1);
                    proof {
                        assert(deref_actions(result@) =~= display_list(
                            self.actions@,
                            self.order.deep_view().take(k as int + 1),
                        ));
                    }
                },
                None => {
                    proof {
                        assert(deref_actions(result@) =~= display_list(
                            self.actions@,
                            self.order.deep_view().take(k as int + 1),
                        ));
                    }
                },
            }
            k = k + 1;
        }
        proof {
            assert(self.order.deep_view().take(self.order@.len() as int) =~= self.order.deep_view());
        }
        result
    }
}

/// The custom actions of a configuration, as catalogue entries.
pub open spec fn custom_entries(customs: Seq<(String, CustomAction)>) -> Seq<(String, Action)> {
    customs.map_values(
        |c: (String, CustomAction)|
            (
                c.0,
                Action {
                    key: c.1.key,
                    icon: c.1.icon,
                    description: c.1.description,
                    run: ActionRun::Shell(c.1.command),
                },
            ),
    )
}

/// Builds the exit screen's action catalogue from a configuration: the five
/// built-in actions, then — when a quit command is configured — the quit
/// action, then the custom actions in configuration order; the display
/// order is taken from the configuration unchanged.
pub fn build_actions(config: Config) -> (r: Actions)
    ensures
        r.order.deep_view() == config.order.deep_view(),
        r.actions@.len() == 5 + (if config.quit_command is Some {
            1int
        } else {
            0int
        }) + config.actions@.len(),
        r.actions@[0].0@ == "lock"@ && action_is(
            r.actions@[0].1,
            "l"@,
            "system-lock-screen"@,
            "Lock your screen"@,
            ActionRun::Session(SessionCommand::Lock),
        ),
        r.actions@[1].0@ == "suspend"@ && action_is(
            r.actions@[1].1,
            "s"@,
            "system-suspend"@,
            "Put the computer to sleep"@,
            ActionRun::Session(SessionCommand::Suspend),
        ),
        r.actions@[2].0@ == "hibernate"@ && action_is(
            r.actions@[2].1,
            "h"@,
            "system-hibernate"@,
            "Hibernate the computer"@,
            ActionRun::Session(SessionCommand::Hibernate),
        ),
        r.actions@[3].0@ == "reboot"@ && action_is(
            r.actions@[3].1,
            "r"@,
            "system-restart"@,
            "Restart the computer"@,
            ActionRun::Session(SessionCommand::Reboot),
        ),
        r.actions@[4].0@ == "shutdown"@ && action_is(
            r.actions@[4].1,
            "p"@,
            "system-shutdown"@,
            "Shut the computer off"@,
            ActionRun::Session(SessionCommand::PowerOff),
        ),
        config.quit_command matches Some(q) ==> r.actions@[5].0@ == "quit"@ && action_is(
            r.actions@[5].1,
            "q"@,
            "system-log-out"@,
            "Log out"@,
            ActionRun::Shell(q),
        ),
        config.quit_command is Some ==> r.actions@.skip(6) == custom_entries(config.actions@),
        config.quit_command is None ==> r.actions@.skip(5) == custom_entries(config.actions@),
{
    let Config { quit_command, order, actions: customs } = config;
    let mut out: Vec<(String, Action)> = Vec::new();
    out.push(
        (
            "lock".to_owned(),
            Action {
                key: "l".to_owned(),
                icon: "system-lock-screen".to_owned(),
                description: "Lock your screen".to_owned(),
                run: ActionRun::Session(SessionCommand::Lock),
            },
        ),
    );
    out.push(
        (
            "suspend".to_owned(),
            Action {
                key: "s".to_owned(),
                icon: "system-suspend".to_owned(),
                description: "Put the computer to sleep".to_owned(),
                run: ActionRun::Session(SessionCommand::Suspend),
            },
        ),
    );
    out.push(
        (
            "hibernate".to_owned(),
            Action {
                key: "h".to_owned(),
                icon: "system-hibernate".to_owned(),
                description: "Hibernate the computer".to_owned(),
                run: ActionRun::Session(SessionCommand::Hibernate),
            },
        ),
    );
    out.push(
        (
            "reboot".to_owned(),
            Action {
                key: "r".to_owned(),
                icon: "system-restart".to_owned(),
                description: "Restart the computer".to_owned(),
                run: ActionRun::Session(SessionCommand::Reboot),
            },
        ),
    );
    out.push(
        (
            "shutdown".to_owned(),
            Action {
                key: "p".to_owned(),
                icon: "system-shutdown".to_owned(),
                description: "Shut the computer off".to_owned(),
                run: ActionRun::Session(SessionCommand::PowerOff),
            },
        ),
    );
    match quit_command {
        Some(q) => {
            out.push(
                (
                    "quit".to_owned(),
                    Action {
                        key: "q".to_owned(),
                        icon: "system-log-out".to_owned(),
                        description: "Log out".to_owned(),
                        run: ActionRun::Shell(q),
                    },
                ),
            );
        },
        None => {},
    }
    proof {
        assert(out@[0].0@ == "lock"@ && action_is(
            out@[0].1,
            "l"@,
            "system-lock-screen"@,
            "Lock your screen"@,
            ActionRun::Session(SessionCommand::Lock),
        ));
        assert(out@[1].0@ == "suspend"@ && action_is(
            out@[1].1,
            "s"@,
            "system-suspend"@,
            "Put the computer to sleep"@,
            ActionRun::Session(SessionCommand::Suspend),
        ));
        assert(out@[2].0@ == "hibernate"@ && action_is(
            out@[2].1,
            "h"@,
            "system-hibernate"@,
            "Hibernate the computer"@,
            ActionRun::Session(SessionCommand::Hibernate),
        ));
        assert(out@[3].0@ == "reboot"@ && action_is(
            out@[3].1,
            "r"@,
            "system-restart"@,
            "Restart the computer"@,
            ActionRun::Session(SessionCommand::Reboot),
        ));
        assert(out@[4].0@ == "shutdown"@ && action_is(
            out@[4].1,
            "p"@,
            "system-shutdown"@,
            "Shut the computer off"@,
            ActionRun::Session(SessionCommand::PowerOff),
        ));
    }
    let ghost base_seq = out@;
    let ghost base = out@.len() as int;
    let mut k: usize = 0;
    while k < customs.len()
        invariant
            k <= customs@.len(),
            out@.len() == base + k,
            base == base_seq.len(),
            out@.subrange(0, base) == base_seq,
            forall|j: int| 0 <= j < k ==> #[trigger] out@[base + j] == custom_entries(customs@)[j],
        decreases customs@.len() - k,
    {
        let pair = &customs[k];
        let name = pair.0.clone();
        let act = Action {
            key: pair.1.key.clone(),
            icon: pair.1.icon.clone(),
            description: pair.1.description.clone(),
            run: ActionRun::Shell(pair.1.command.clone()),
        };
        out.push((name, act));
        k = k + 1;
        proof {
            let ghost j = k - 1;
            assert(custom_entries(customs@)[j] == (
                customs@[j].0,
                Action {
                    key: customs@[j].1.key,
                    icon: customs@[j].1.icon,
                    description: customs@[j].1.description,
                    run: ActionRun::Shell(customs@[j].1.command),
                },
            ));
            assert(out@[base + j] == custom_entries(customs@)[j]);
            assert(out@.subrange(0, base) =~= base_seq);
        }
    }
    proof {
        assert forall|j: int| 0 <= j < customs@.len() implies out@.skip(base)[j]
            == custom_entries(customs@)[j] by {
            assert(out@.skip(base)[j] == out@[base + j]);
            assert(out@[base + j] == custom_entries(customs@)[j]);
        }
        assert(out@.skip(base) =~= custom_entries(customs@));
        assert(out@[0] == base_seq[0]);
        assert(out@[1] == base_seq[1]);
        assert(out@[2] == base_seq[2]);
        assert(out@[3] == base_seq[3]);
        assert(out@[4] == base_seq[4]);
        if base == 6 {
            assert(out@[5] == base_seq[5]);
        }
    }
    Actions { actions: out, order }
}

} // verus!
