//! Role dispatch: which role a process plays, decided from its command line,
//! and what each role does before its own work starts.

use vstd::prelude::*;

verus! {

/// A role that one process can start another process in.
#[derive(Clone, Copy, Debug, PartialEq, Eq, Structural)]
pub enum Role {
    Editor,
    Tray,
}

/// What a process does, decided from its command line.
#[derive(Clone, Copy, Debug, PartialEq, Eq, Structural)]
pub enum Launch {
    /// No argument: record the executable's path, then start the tray and the
    /// editor as processes of their own.
    Bootstrap,
    /// Run the editor, if no other editor runs.
    Editor,
    /// Run the tray agent, if no other tray agent runs.
    Tray,
    /// Run one silent scan, then the tray agent, if no other tray agent runs.
    TrayStartup,
    /// An unknown argument: do nothing.
    Ignore,
}

/// `s` without its leading `-` characters.
pub open spec fn strip_dashes(s: Seq<char>) -> Seq<char>
    decreases s.len(),
{
    if s.len() > 0 && s[0] == '-' {
        strip_dashes(s.drop_first())
    } else {
        s
    }
}

/// The launch for a command line whose arguments, program name first, are `args`.
pub open spec fn launch_for(args: Seq<Seq<char>>) -> Launch {
    if args.len() < 2 {
        Launch::Bootstrap
    } else {
        let a = strip_dashes(args[1]);
        if a == "gui"@ {
            Launch::Editor
        } else if a == "tray"@ {
            Launch::Tray
        } else if a == "tray-startup"@ {
            Launch::TrayStartup
        } else {
            Launch::Ignore
        }
    }
}

/// The argument that starts a process in `role`.
pub open spec fn role_argument_of(role: Role) -> Seq<char> {
    match role {
        Role::Editor => "gui"@,
        Role::Tray => "tray"@,
    }
}

/// The name of the lock file that guards each single-instance launch.
pub open spec fn lock_name_of(launch: Launch) -> Option<Seq<char>> {
    match launch {
        Launch::Editor => Some("gui.lock"@),
        Launch::Tray | Launch::TrayStartup => Some("tray.lock"@),
        _ => None,
    }
}

/// The roles a launch starts as processes of their own, in order.
pub open spec fn spawned_roles_of(launch: Launch) -> Seq<Role> {
    match launch {
        Launch::Bootstrap => seq![Role::Tray, Role::Editor],
        _ => Seq::empty(),
    }
}

proof fn lemma_strip_from(s: Seq<char>, k: int)
    requires
        0 <= k <= s.len(),
        forall|j: int| 0 <= j < k ==> s[j] == '-',
    ensures
        strip_dashes(s) == strip_dashes(s.subrange(k, s.len() as int)),
    decreases k,
{
    if k > 0 {
        assert(s.drop_first() =~= s.subrange(1, s.len() as int));
        let t = s.drop_first();
        lemma_strip_from(t, k - 1);
        assert(t.subrange(k - 1, t.len() as int) =~= s.subrange(k, s.len() as int));
    } else {
        assert(s.subrange(0, s.len() as int) =~= s);
    }
}

/// `s` without its leading `-` characters.
pub fn trim_dashes(s: &str) -> (r: &str)
    ensures
        r@ == strip_dashes(s@),
{
    let n = s.unicode_len();
    let mut k: usize = 0;
    while k < n && s.get_char(k) == '-'
        invariant
            k <= n,
            n == s@.len(),
            forall|j: int| 0 <= j < k ==> s@[j] == '-',
        decreases n - k,
    {
        k = k + 1;
    }
    proof {
        lemma_strip_from(s@, k as int);
    }
    let rest = s.substring_char(k, n);
    proof {
        let t = s@.subrange(k as int, n as int);
        assert(t == rest@);
        if t.len() > 0 {
            assert(t[0] == s@[k as int]);
        }
    }
    rest
}

/// Decides what a process does from its arguments, program name first. Only
/// the first argument after the program name counts, without its leading dashes.
pub fn parse_launch(args: &Vec<String>) -> (r: Launch)
    ensures
        r == launch_for(args@.map_values(|a: String| a@)),
{
    let ghost views = args@.map_values(|a: String| a@);
    if args.len() < 2 {
        return Launch::Bootstrap;
    }
    let a = String::from_str(trim_dashes(args[1].as_str()));
    assert(views[1] == args@[1]@);
    if a == String::from_str("gui") {
        Launch::Editor
    } else if a == String::from_str("tray") {
        Launch::Tray
    } else if a == String::from_str("tray-startup") {
        Launch::TrayStartup
    } else {
        Launch::Ignore
    }
}

/// The argument that starts a process in `role`.
pub fn role_argument(role: Role) -> (r: &'static str)
    ensures
        r@ == role_argument_of(role),
{
    match role {
        Role::Editor => "gui",
        Role::Tray => "tray",
    }
}

impl Launch {
    /// The lock file that must be held before the launch does its work; a
    /// launch that cannot take it ends at once, doing nothing.
    pub fn lock_name(&self) -> (r: Option<&'static str>)
        ensures
            r matches Some(s) ==> lock_name_of(*self) == Some(s@),
            r is None <==> lock_name_of(*self) is None,
    {
        match self {
            Launch::Editor => Some("gui.lock"),
            Launch::Tray | Launch::TrayStartup => Some("tray.lock"),
            _ => None,
        }
    }

    /// Whether the launch runs one silent scan before the tray agent.
    pub fn scans_first(&self) -> (r: bool)
        ensures
            r == (*self == Launch::TrayStartup),
    {
        match self {
            Launch::TrayStartup => true,
            _ => false,
        }
    }

    /// Whether the launch records the executable's path in the settings.
    pub fn records_exec_path(&self) -> (r: bool)
        ensures
            r == (*self == Launch::Bootstrap),
    {
        match self {
            Launch::Bootstrap => true,
            _ => false,
        }
    }

    /// The role whose work the launch does once it holds its lock.
    pub fn role(&self) -> (r: Option<Role>)
        ensures
            r == match *self {
                Launch::Editor => Some(Role::Editor),
                Launch::Tray | Launch::TrayStartup => Some(Role::Tray),
                _ => None::<Role>,
            },
    {
        match self {
            Launch::Editor => Some(Role::Editor),
            Launch::Tray | Launch::TrayStartup => Some(Role::Tray),
            _ => None,
        }
    }

    /// The roles the launch starts as processes of their own, in order.
    pub fn spawned_roles(&self) -> (r: Vec<Role>)
        ensures
            r@ == spawned_roles_of(*self),
    {
        let mut v: Vec<Role> = Vec::new();
        if let Launch::Bootstrap = self {
            v.push(Role::Tray);
            v.push(Role::Editor);
        }
        assert(v@ =~= spawned_roles_of(*self));
        v
    }
}

} // verus!
