//! The configuration tree: the immutable, process-wide mapping read at
//! startup, with an `events` section of command templates keyed by event
//! name (plus the reserved keys `common`, `all` and `else`) and a
//! `settings` section of execution options.

use vstd::prelude::*;

verus! {

/// The `settings` section. Every entry is optional; readers apply the
/// documented default where one is absent.
pub struct Settings {
    pub capture_output: Option<bool>,
    pub exit_on_error: Option<bool>,
    pub print_commands: Option<bool>,
    pub secret: Option<String>,
    pub host: Option<String>,
    pub kotomei: Option<bool>,
}

impl Default for Settings {
    /// A settings section with every entry absent.
    fn default() -> (r: Settings)
        ensures
            r.capture_output is None,
            r.exit_on_error is None,
            r.print_commands is None,
            r.secret is None,
            r.host is None,
            r.kotomei is None,
    {
        Settings {
            capture_output: None,
            exit_on_error: None,
            print_commands: None,
            secret: None,
            host: None,
            kotomei: None,
        }
    }
}

/// The whole configuration tree. `events` maps an event name (or one of the
/// reserved keys `common`, `all`, `else`) to a command template; where a
/// name occurs twice, the first entry wins.
pub struct Config {
    pub events: Vec<(String, String)>,
    pub settings: Settings,
}

/// The options bag handed to the execution backend with each command.
#[derive(Clone, Copy, PartialEq, Eq, Structural, Debug)]
pub struct ExecOptions {
    pub capture_output: bool,
    pub exit_on_error: bool,
    pub print_commands: bool,
}

/// The template stored under key `k` in `s`: the value of the first entry
/// whose name has the characters of `k`, if any.
pub open spec fn lookup_spec(s: Seq<(String, String)>, k: Seq<char>) -> Option<Seq<char>>
    decreases s.len(),
{
    if s.len() == 0 {
        None
    } else if s[0].0@ == k {
        Some(s[0].1@)
    } else {
        lookup_spec(s.drop_first(), k)
    }
}

/// An optional string's characters, where it is present.
pub open spec fn opt_view(o: Option<String>) -> Option<Seq<char>> {
    match o {
        Some(s) => Some(s@),
        None => None,
    }
}

/// An optional flag's value, or `d` where it is absent.
pub open spec fn flag_or(o: Option<bool>, d: bool) -> bool {
    match o {
        Some(b) => b,
        None => d,
    }
}

/// Are the two slices the same characters?
pub fn str_eq(a: &str, b: &str) -> (r: bool)
    ensures
        r == (a@ == b@),
{
    let sa: String = a.to_owned();
    let sb: String = b.to_owned();
    sa.eq(&sb)
}

/// Skipping in two steps is skipping the sum.
proof fn lemma_entries_skip_skip(s: Seq<(String, String)>, i: int, k: int)
    requires
        0 <= i,
        0 <= k,
        i + k <= s.len(),
    ensures
        s.skip(i).skip(k) == s.skip(i + k),
{
    assert(s.skip(i).skip(k) =~= s.skip(i + k));
}

impl Config {
    /// The template configured under `key` in the events section, if any:
    /// the value of the first entry named `key`.
    pub fn event_template(&self, key: &str) -> (r: Option<String>)
        ensures
            opt_view(r) == lookup_spec(self.events@, key@),
    {
        let n = self.events.len();
        let mut i: usize = 0;
        proof {
            assert(self.events@.skip(0) =~= self.events@);
        }
        while i < n
            invariant
                i <= n,
                n == self.events@.len(),
                lookup_spec(self.events@, key@) == lookup_spec(
                    self.events@.skip(i as int),
                    key@,
                ),
            decreases n - i,
        {
            let ghost rest = self.events@.skip(i as int);
            proof {
                assert(rest[0] == self.events@[i as int]);
            }
            let entry = &self.events[i];
            if str_eq(entry.0.as_str(), key) {
                return Some(entry.1.clone());
            }
            proof {
                lemma_entries_skip_skip(self.events@, i as int, 1);
                assert(rest.drop_first() =~= self.events@.skip(i + 1));
            }
            i = i + 1;
        }
        proof {
            assert(self.events@.skip(n as int) =~= Seq::<(String, String)>::empty());
        }
        None
    }

    /// The options bag for the execution backend, each flag defaulting to
    /// `false` where its setting is absent.
    pub fn script_options(&self) -> (r: ExecOptions)
        ensures
            r.capture_output == flag_or(self.settings.capture_output, false),
            r.exit_on_error == flag_or(self.settings.exit_on_error, false),
            r.print_commands == flag_or(self.settings.print_commands, false),
    {
        ExecOptions {
            capture_output: match self.settings.capture_output {
                Some(b) => b,
                None => false,
            },
            exit_on_error: match self.settings.exit_on_error {
                Some(b) => b,
                None => false,
            },
            print_commands: match self.settings.print_commands {
                Some(b) => b,
                None => false,
            },
        }
    }

    /// The configured signing secret, if any.
    pub fn secret(&self) -> (r: Option<String>)
        ensures
            opt_view(r) == opt_view(self.settings.secret),
    {
        match &self.settings.secret {
            Some(s) => Some(s.clone()),
            None => None,
        }
    }

    /// The configured listen address, if any.
    pub fn host(&self) -> (r: Option<String>)
        ensures
            opt_view(r) == opt_view(self.settings.host),
    {
        match &self.settings.host {
            Some(s) => Some(s.clone()),
            None => None,
        }
    }

    /// Is the easter-egg warning enabled? It defaults to on.
    pub fn kotomei_warning(&self) -> (r: bool)
        ensures
            r == flag_or(self.settings.kotomei, true),
    {
        match self.settings.kotomei {
            Some(b) => b,
            None => true,
        }
    }
}

} // verus!
