//! The command resolver and dispatcher plan: given a delivery and the
//! configuration tree, decide which templates apply (the matched event
//! section, the unconditional `all` section, the `else` fallback), prefix
//! each with the shared `common` template, and render the final commands.

use vstd::prelude::*;

use crate::config::{lookup_spec, opt_view, Config};
use crate::delivery::{event_key, opt_str, Delivery};
use crate::render::{render, render_spec};

verus! {

/// The characters of the reserved key `common`.
pub open spec fn common_key() -> Seq<char> {
    seq!['c', 'o', 'm', 'm', 'o', 'n']
}

/// The characters of the reserved key `all`.
pub open spec fn all_key() -> Seq<char> {
    seq!['a', 'l', 'l']
}

/// The characters of the reserved key `else`.
pub open spec fn else_key() -> Seq<char> {
    seq!['e', 'l', 's', 'e']
}

/// Template `t` with the `common` template prepended, joined by a single
/// newline. An absent common template and an empty one alike add nothing.
pub open spec fn common_prefixed(common: Option<Seq<char>>, t: Seq<char>) -> Seq<char> {
    match common {
        Some(c) => if c.len() == 0 {
            t
        } else {
            c + seq!['\n'] + t
        },
        None => t,
    }
}

/// One section of the resolved command set: the template configured under
/// `key`, common-prefixed; absent where no template is configured.
pub open spec fn section_spec(cfg: Config, key: Seq<char>) -> Option<Seq<char>> {
    match lookup_spec(cfg.events@, key) {
        Some(t) => Some(common_prefixed(lookup_spec(cfg.events@, common_key()), t)),
        None => None,
    }
}

/// The `all` section: it fires on every delivery unconditionally.
pub open spec fn resolved_all(cfg: Config) -> Option<Seq<char>> {
    section_spec(cfg, all_key())
}

/// The event-specific section: the template under the delivery's event name
/// (or under `unknown` where the event field is absent).
pub open spec fn resolved_matched(cfg: Config, d: Delivery) -> Option<Seq<char>> {
    section_spec(cfg, event_key(d))
}

/// The `else` section: the fallback, present only when no event-specific
/// template matched.
pub open spec fn resolved_fallback(cfg: Config, d: Delivery) -> Option<Seq<char>> {
    if resolved_matched(cfg, d) is Some {
        None
    } else {
        section_spec(cfg, else_key())
    }
}

/// What preparing the section under `key` yields: its common-prefixed
/// template, rendered against the delivery; absent where no template is
/// configured under `key`.
pub open spec fn process_commands_spec(cfg: Config, key: Seq<char>, d: Delivery) -> Option<
    Seq<char>,
> {
    match section_spec(cfg, key) {
        Some(t) => Some(render_spec(t, d)),
        None => None,
    }
}

/// The per-delivery resolved command set: each applicable section's
/// common-prefixed (not yet rendered) template, keyed by section. The
/// sections are `all`, the delivery's event name, and `else`.
pub struct ResolvedCommands {
    pub all: Option<String>,
    pub matched: Option<String>,
    pub fallback: Option<String>,
}

/// The dispatch list for one delivery: each resolved section's rendered
/// command paired with its section name, in the order `all`, the matched
/// event, `else`. No order of execution is promised to the backend; this
/// order is merely the one the list is built in.
pub open spec fn dispatch_spec(cfg: Config, d: Delivery) -> Seq<(Seq<char>, Seq<char>)> {
    (match resolved_all(cfg) {
        Some(t) => seq![(all_key(), render_spec(t, d))],
        None => Seq::<(Seq<char>, Seq<char>)>::empty(),
    }) + (match resolved_matched(cfg, d) {
        Some(t) => seq![(event_key(d), render_spec(t, d))],
        None => Seq::<(Seq<char>, Seq<char>)>::empty(),
    }) + (match resolved_fallback(cfg, d) {
        Some(t) => seq![(else_key(), render_spec(t, d))],
        None => Seq::<(Seq<char>, Seq<char>)>::empty(),
    })
}

/// Handler of the deliveries: the configuration tree plus the dispatch
/// decisions taken over it.
pub struct Handler {
    pub config: Config,
}

impl Handler {
    /// Create a new instance from given configuration.
    pub fn new(config: Config) -> (h: Handler)
        ensures
            h.config == config,
    {
        Handler { config }
    }

    /// The template under `key`, common-prefixed (`common` joined by a
    /// newline where it is configured and non-empty).
    fn prefixed_template(&self, template: &String) -> (r: String)
        ensures
            r@ == common_prefixed(lookup_spec(self.config.events@, common_key()), template@),
    {
        let ghost ck = common_key();
        let common = {
            let key = "common";
            proof {
                reveal_strlit("common");
                assert(key@ =~= ck);
            }
            self.config.event_template(key)
        };
        match common {
            Some(c) => {
                if c.unicode_len() == 0 {
                    template.clone()
                } else {
                    let mut out = c;
                    let nl = "\n";
                    proof {
                        reveal_strlit("\n");
                        assert(nl@ =~= seq!['\n']);
                    }
                    out.append(nl);
                    out.append(template.as_str());
                    out
                }
            },
            None => template.clone(),
        }
    }

    /// One section of the resolved command set: the template configured
    /// under `key`, common-prefixed; `None` where no template is configured.
    pub fn section(&self, key: &str) -> (r: Option<String>)
        ensures
            opt_view(r) == section_spec(self.config, key@),
    {
        match self.config.event_template(key) {
            Some(template) => Some(self.prefixed_template(&template)),
            None => None,
        }
    }

    /// Prepare the command of the section under `event`: its template,
    /// common-prefixed and with the placeholders substituted from the
    /// delivery; `None` where no template is configured under `event`.
    pub fn process_commands(&self, event: &str, delivery: &Delivery) -> (r: Option<String>)
        ensures
            opt_view(r) == process_commands_spec(self.config, event@, *delivery),
    {
        match self.section(event) {
            Some(prefixed) => Some(render(prefixed.as_str(), delivery)),
            None => None,
        }
    }

    /// Resolve the command set of one delivery: the `all` section always
    /// fires when configured; the event-specific section fires when its
    /// template is configured; `else` fires only in the absence of an
    /// event-specific match. An empty result is a valid, silent outcome.
    pub fn resolve_commands(&self, delivery: &Delivery) -> (r: ResolvedCommands)
        ensures
            opt_view(r.all) == resolved_all(self.config),
            opt_view(r.matched) == resolved_matched(self.config, *delivery),
            opt_view(r.fallback) == resolved_fallback(self.config, *delivery),
    {
        let all = {
            let key = "all";
            proof {
                reveal_strlit("all");
                assert(key@ =~= all_key());
            }
            self.section(key)
        };
        let ev: &str = opt_str(&delivery.event);
        let matched = self.section(ev);
        let fallback = if matched.is_some() {
            None
        } else {
            let key = "else";
            proof {
                reveal_strlit("else");
                assert(key@ =~= else_key());
            }
            self.section(key)
        };
        ResolvedCommands { all, matched, fallback }
    }

    /// The dispatch list of one delivery: each resolved section rendered
    /// against the delivery and paired with its section name. The caller
    /// submits each entry to the execution backend as its own independent
    /// unit of work.
    pub fn rendered_commands(&self, delivery: &Delivery) -> (r: Vec<(String, String)>)
        ensures
            r@.map_values(|p: (String, String)| (p.0@, p.1@)) == dispatch_spec(
                self.config,
                *delivery,
            ),
    {
        let ghost f = |p: (String, String)| (p.0@, p.1@);
        let rc = self.resolve_commands(delivery);
        let ResolvedCommands { all, matched, fallback } = rc;
        let mut out: Vec<(String, String)> = Vec::new();
        if let Some(t) = all {
            let name = "all";
            proof {
                reveal_strlit("all");
                assert(name@ =~= all_key());
            }
            out.push((name.to_owned(), render(t.as_str(), delivery)));
        }
        if let Some(t) = matched {
            let name = opt_str(&delivery.event).to_owned();
            out.push((name, render(t.as_str(), delivery)));
        }
        if let Some(t) = fallback {
            let name = "else";
            proof {
                reveal_strlit("else");
                assert(name@ =~= else_key());
            }
            out.push((name.to_owned(), render(t.as_str(), delivery)));
        }
        proof {
            assert(out@.map_values(f) =~= dispatch_spec(self.config, *delivery));
        }
        out
    }
}

/// Law: for a delivery with no matching event template, no `all` template,
/// and no `else` template configured, the resolved command set is empty.
pub proof fn lemma_unmatched_empty(cfg: Config, d: Delivery)
    requires
        lookup_spec(cfg.events@, event_key(d)) is None,
        lookup_spec(cfg.events@, all_key()) is None,
        lookup_spec(cfg.events@, else_key()) is None,
    ensures
        resolved_all(cfg) is None,
        resolved_matched(cfg, d) is None,
        resolved_fallback(cfg, d) is None,
        dispatch_spec(cfg, d) == Seq::<(Seq<char>, Seq<char>)>::empty(),
{
    assert(dispatch_spec(cfg, d) =~= Seq::<(Seq<char>, Seq<char>)>::empty());
}

/// Law: where both an event-specific template and `all` are configured,
/// both sections are present in the resolved command set, each one
/// independently common-prefixed.
pub proof fn lemma_all_and_match_both(cfg: Config, d: Delivery, te: Seq<char>, ta: Seq<char>)
    requires
        lookup_spec(cfg.events@, event_key(d)) == Some(te),
        lookup_spec(cfg.events@, all_key()) == Some(ta),
    ensures
        resolved_matched(cfg, d) == Some(
            common_prefixed(lookup_spec(cfg.events@, common_key()), te),
        ),
        resolved_all(cfg) == Some(common_prefixed(lookup_spec(cfg.events@, common_key()), ta)),
        resolved_fallback(cfg, d) is None,
{
}

/// Law: where the event does not match and `else` is configured, the
/// fallback is present, common-prefixed like every other section, and the
/// event-specific section is absent.
pub proof fn lemma_else_fallback(cfg: Config, d: Delivery, tx: Seq<char>)
    requires
        lookup_spec(cfg.events@, event_key(d)) is None,
        lookup_spec(cfg.events@, else_key()) == Some(tx),
    ensures
        resolved_matched(cfg, d) is None,
        resolved_fallback(cfg, d) == Some(
            common_prefixed(lookup_spec(cfg.events@, common_key()), tx),
        ),
{
}

/// Law: common-prefixing is applied per section, and joins with exactly one
/// newline and nothing else: a configured non-empty common template `c` and
/// a template `t` under `key` resolve that section to `c + '\n' + t`.
pub proof fn lemma_common_prefix_per_section(cfg: Config, key: Seq<char>, c: Seq<char>, t: Seq<char>)
    requires
        lookup_spec(cfg.events@, common_key()) == Some(c),
        c.len() > 0,
        lookup_spec(cfg.events@, key) == Some(t),
    ensures
        section_spec(cfg, key) == Some(c + seq!['\n'] + t),
{
}

/// Law: with a non-empty common template `c` and a template `t` under
/// `key`, and no placeholder occurring in the joined text, the prepared
/// command of that section is exactly `c`, one newline, `t` — nothing
/// more is added by rendering.
pub proof fn lemma_common_join_renders_exactly(
    cfg: Config,
    key: Seq<char>,
    c: Seq<char>,
    t: Seq<char>,
    d: Delivery,
)
    requires
        lookup_spec(cfg.events@, common_key()) == Some(c),
        c.len() > 0,
        lookup_spec(cfg.events@, key) == Some(t),
        crate::render::placeholder_free(c + seq!['\n'] + t),
    ensures
        process_commands_spec(cfg, key, d) == Some(c + seq!['\n'] + t),
{
    lemma_common_prefix_per_section(cfg, key, c, t);
    crate::render::lemma_placeholder_free_renders_unchanged(c + seq!['\n'] + t, d);
}

} // verus!
