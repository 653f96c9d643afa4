//! The template renderer: literal, case-sensitive substitution of the
//! recognized placeholders by the delivery's fields.
//!
//! Substitution is a single left-to-right pass: replacement text is never
//! re-scanned, so a placeholder inside a substituted value stays literal.

use vstd::prelude::*;

use crate::delivery::{opt_or_unknown, opt_str, source_name_spec, Delivery};

verus! {

/// The characters of the placeholder `{id}`.
pub open spec fn ph_id() -> Seq<char> {
    seq!['{', 'i', 'd', '}']
}

/// The characters of the placeholder `{event}`.
pub open spec fn ph_event() -> Seq<char> {
    seq!['{', 'e', 'v', 'e', 'n', 't', '}']
}

/// The characters of the placeholder `{signature}`.
pub open spec fn ph_signature() -> Seq<char> {
    seq!['{', 's', 'i', 'g', 'n', 'a', 't', 'u', 'r', 'e', '}']
}

/// The characters of the placeholder `{payload}`.
pub open spec fn ph_payload() -> Seq<char> {
    seq!['{', 'p', 'a', 'y', 'l', 'o', 'a', 'd', '}']
}

/// The characters of the placeholder `{request_body}`.
pub open spec fn ph_request_body() -> Seq<char> {
    seq!['{', 'r', 'e', 'q', 'u', 'e', 's', 't', '_', 'b', 'o', 'd', 'y', '}']
}

/// The characters of the placeholder `{source}`.
pub open spec fn ph_source() -> Seq<char> {
    seq!['{', 's', 'o', 'u', 'r', 'c', 'e', '}']
}

/// Does `t` begin with `p`?
pub open spec fn begins_with(t: Seq<char>, p: Seq<char>) -> bool {
    p.len() <= t.len() && t.subrange(0, p.len() as int) == p
}

/// The rendering of template `t` against delivery `d`: one left-to-right
/// pass; at each position the first matching placeholder is replaced by the
/// corresponding field (absent fields by the literal `unknown`), and the
/// scan resumes after the replacement without re-reading it.
pub open spec fn render_spec(t: Seq<char>, d: Delivery) -> Seq<char>
    decreases t.len(),
{
    if t.len() == 0 {
        Seq::<char>::empty()
    } else if begins_with(t, ph_id()) {
        opt_or_unknown(d.id) + render_spec(t.skip(4), d)
    } else if begins_with(t, ph_event()) {
        opt_or_unknown(d.event) + render_spec(t.skip(7), d)
    } else if begins_with(t, ph_signature()) {
        opt_or_unknown(d.signature) + render_spec(t.skip(11), d)
    } else if begins_with(t, ph_payload()) {
        opt_or_unknown(d.unparsed_payload) + render_spec(t.skip(9), d)
    } else if begins_with(t, ph_request_body()) {
        opt_or_unknown(d.request_body) + render_spec(t.skip(14), d)
    } else if begins_with(t, ph_source()) {
        source_name_spec(d.source) + render_spec(t.skip(8), d)
    } else {
        seq![t[0]] + render_spec(t.skip(1), d)
    }
}

/// Does one of the recognized placeholders begin at position `i` of `t`?
pub open spec fn placeholder_at(t: Seq<char>, i: int) -> bool {
    begins_with(t.skip(i), ph_id()) || begins_with(t.skip(i), ph_event()) || begins_with(
        t.skip(i),
        ph_signature(),
    ) || begins_with(t.skip(i), ph_payload()) || begins_with(t.skip(i), ph_request_body())
        || begins_with(t.skip(i), ph_source())
}

/// No recognized placeholder occurs anywhere in `t`.
pub open spec fn placeholder_free(t: Seq<char>) -> bool {
    forall|i: int| 0 <= i <= t.len() ==> !(#[trigger] placeholder_at(t, i))
}

/// Law: a template in which no placeholder occurs renders unchanged, for
/// every delivery.
pub proof fn lemma_placeholder_free_renders_unchanged(t: Seq<char>, d: Delivery)
    requires
        placeholder_free(t),
    ensures
        render_spec(t, d) == t,
    decreases t.len(),
{
    if t.len() == 0 {
        assert(render_spec(t, d) =~= t);
    } else {
        assert(t.skip(0) =~= t);
        assert(!placeholder_at(t, 0));
        let rest = t.skip(1);
        assert forall|i: int| 0 <= i <= rest.len() implies !(#[trigger] placeholder_at(
            rest,
            i,
        )) by {
            assert(rest.skip(i) =~= t.skip(i + 1));
            assert(!placeholder_at(t, i + 1));
        }
        lemma_placeholder_free_renders_unchanged(rest, d);
        assert(render_spec(t, d) =~= seq![t[0]] + rest);
        assert(seq![t[0]] + rest =~= t);
    }
}

/// Skipping in two steps is skipping the sum.
proof fn lemma_skip_skip(s: Seq<char>, i: int, k: int)
    requires
        0 <= i,
        0 <= k,
        i + k <= s.len(),
    ensures
        s.skip(i).skip(k) == s.skip(i + k),
{
    assert(s.skip(i).skip(k) =~= s.skip(i + k));
}

/// Does `t@`, from character position `i` on, begin with `p@`?
fn begins_with_at(t: &str, i: usize, p: &str) -> (b: bool)
    requires
        i <= t@.len(),
    ensures
        b == begins_with(t@.skip(i as int), p@),
{
    let tlen = t.unicode_len();
    let plen = p.unicode_len();
    if plen > tlen - i {
        return false;
    }
    let mut j: usize = 0;
    while j < plen
        invariant
            j <= plen,
            i <= tlen,
            plen <= tlen - i,
            tlen == t@.len(),
            plen == p@.len(),
            forall|k: int| 0 <= k < j ==> t@[i + k] == p@[k],
        decreases plen - j,
    {
        if t.get_char(i + j) != p.get_char(j) {
            proof {
                assert(t@.skip(i as int)[j as int] == t@[i + j]);
                if t@.skip(i as int).subrange(0, plen as int) == p@ {
                    assert(t@.skip(i as int).subrange(0, plen as int)[j as int] == p@[j as int]);
                }
            }
            return false;
        }
        j = j + 1;
    }
    proof {
        assert(t@.skip(i as int).subrange(0, plen as int) =~= p@);
    }
    true
}

/// Render template `t` against delivery `d`: substitute every recognized
/// placeholder by the corresponding delivery field, absent fields by the
/// literal `unknown`, in one left-to-right pass.
pub fn render(t: &str, d: &Delivery) -> (r: String)
    ensures
        r@ == render_spec(t@, *d),
{
    proof {
        reveal_strlit("{id}");
        reveal_strlit("{event}");
        reveal_strlit("{signature}");
        reveal_strlit("{payload}");
        reveal_strlit("{request_body}");
        reveal_strlit("{source}");
        assert("{id}"@ =~= ph_id());
        assert("{event}"@ =~= ph_event());
        assert("{signature}"@ =~= ph_signature());
        assert("{payload}"@ =~= ph_payload());
        assert("{request_body}"@ =~= ph_request_body());
        assert("{source}"@ =~= ph_source());
    }
    let n = t.unicode_len();
    let mut out = String::new();
    let mut i: usize = 0;
    proof {
        assert(t@.skip(0) =~= t@);
        assert(out@ + render_spec(t@, *d) =~= render_spec(t@, *d));
    }
    while i < n
        invariant
            i <= n,
            n == t@.len(),
            "{id}"@ == ph_id(),
            "{event}"@ == ph_event(),
            "{signature}"@ == ph_signature(),
            "{payload}"@ == ph_payload(),
            "{request_body}"@ == ph_request_body(),
            "{source}"@ == ph_source(),
            render_spec(t@, *d) == out@ + render_spec(t@.skip(i as int), *d),
        decreases n - i,
    {
        let ghost rest = t@.skip(i as int);
        if begins_with_at(t, i, "{id}") {
            out.append(opt_str(&d.id));
            proof {
                lemma_skip_skip(t@, i as int, 4);
                assert(render_spec(t@, *d) =~= out@ + render_spec(t@.skip(i + 4), *d));
            }
            i = i + 4;
        } else if begins_with_at(t, i, "{event}") {
            out.append(opt_str(&d.event));
            proof {
                lemma_skip_skip(t@, i as int, 7);
                assert(render_spec(t@, *d) =~= out@ + render_spec(t@.skip(i + 7), *d));
            }
            i = i + 7;
        } else if begins_with_at(t, i, "{signature}") {
            out.append(opt_str(&d.signature));
            proof {
                lemma_skip_skip(t@, i as int, 11);
                assert(render_spec(t@, *d) =~= out@ + render_spec(t@.skip(i + 11), *d));
            }
            i = i + 11;
        } else if begins_with_at(t, i, "{payload}") {
            out.append(opt_str(&d.unparsed_payload));
            proof {
                lemma_skip_skip(t@, i as int, 9);
                assert(render_spec(t@, *d) =~= out@ + render_spec(t@.skip(i + 9), *d));
            }
            i = i + 9;
        } else if begins_with_at(t, i, "{request_body}") {
            out.append(opt_str(&d.request_body));
            proof {
                lemma_skip_skip(t@, i as int, 14);
                assert(render_spec(t@, *d) =~= out@ + render_spec(t@.skip(i + 14), *d));
            }
            i = i + 14;
        } else if begins_with_at(t, i, "{source}") {
            let name = d.source.name();
            out.append(name.as_str());
            proof {
                lemma_skip_skip(t@, i as int, 8);
                assert(render_spec(t@, *d) =~= out@ + render_spec(t@.skip(i + 8), *d));
            }
            i = i + 8;
        } else {
            let c = t.substring_char(i, i + 1);
            out.append(c);
            proof {
                lemma_skip_skip(t@, i as int, 1);
                assert(c@ =~= seq![rest[0]]);
                assert(render_spec(t@, *d) =~= out@ + render_spec(t@.skip(i + 1), *d));
            }
            i = i + 1;
        }
    }
    proof {
        assert(t@.skip(n as int) =~= Seq::<char>::empty());
        assert(render_spec(t@, *d) =~= out@);
    }
    out
}

} // verus!
