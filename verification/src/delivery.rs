//! The delivery model: one normalized inbound webhook notification.

use vstd::prelude::*;

verus! {

/// Which upstream protocol produced a delivery.
#[derive(Clone, Copy, PartialEq, Eq, Structural, Debug)]
pub enum Source {
    GitHub,
    GitLab,
}

/// The name a source tag renders as when substituted for `{source}`.
pub open spec fn source_name_spec(s: Source) -> Seq<char> {
    match s {
        Source::GitHub => seq!['G', 'i', 't', 'H', 'u', 'b'],
        Source::GitLab => seq!['G', 'i', 't', 'L', 'a', 'b'],
    }
}

impl Source {
    /// The printable name of this source tag.
    pub fn name(&self) -> (r: String)
        ensures
            r@ == source_name_spec(*self),
    {
        match self {
            Source::GitHub => {
                let s = "GitHub";
                proof {
                    reveal_strlit("GitHub");
                    assert(s@ =~= source_name_spec(Source::GitHub));
                }
                s.to_owned()
            },
            Source::GitLab => {
                let s = "GitLab";
                proof {
                    reveal_strlit("GitLab");
                    assert(s@ =~= source_name_spec(Source::GitLab));
                }
                s.to_owned()
            },
        }
    }
}

/// One inbound webhook notification. Any string field may be absent; an
/// absent field renders as the literal value `unknown` wherever substituted.
pub struct Delivery {
    pub source: Source,
    pub id: Option<String>,
    pub event: Option<String>,
    pub signature: Option<String>,
    pub unparsed_payload: Option<String>,
    pub request_body: Option<String>,
}

/// The characters of the literal default value `unknown`.
pub open spec fn unknown_str() -> Seq<char> {
    seq!['u', 'n', 'k', 'n', 'o', 'w', 'n']
}

/// An optional field's characters, or `unknown` where it is absent.
pub open spec fn opt_or_unknown(o: Option<String>) -> Seq<char> {
    match o {
        Some(s) => s@,
        None => unknown_str(),
    }
}

/// The key a delivery is matched under: its event name, or `unknown` when
/// the event field is absent.
pub open spec fn event_key(d: Delivery) -> Seq<char> {
    opt_or_unknown(d.event)
}

/// An optional field's value as a string slice, or the literal `unknown`
/// where it is absent.
pub fn opt_str<'a>(o: &'a Option<String>) -> (r: &'a str)
    ensures
        r@ == opt_or_unknown(*o),
{
    match o {
        Some(s) => s.as_str(),
        None => {
            let u = "unknown";
            proof {
                reveal_strlit("unknown");
                assert(u@ =~= unknown_str());
            }
            u
        },
    }
}

impl Delivery {
    /// Build a delivery from its fields.
    pub fn new(
        source: Source,
        id: Option<String>,
        event: Option<String>,
        signature: Option<String>,
        unparsed_payload: Option<String>,
        request_body: Option<String>,
    ) -> (d: Delivery)
        ensures
            d.source == source,
            d.id == id,
            d.event == event,
            d.signature == signature,
            d.unparsed_payload == unparsed_payload,
            d.request_body == request_body,
    {
        Delivery { source, id, event, signature, unparsed_payload, request_body }
    }
}

} // verus!
