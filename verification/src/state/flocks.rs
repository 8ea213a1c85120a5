//! Flock sections of the system prompt. A context belongs to its site flock
//! and to any named flocks it joined; each flock may carry a prompt and
//! goals, which are attributed by flock name in the system prompt.

use vstd::prelude::*;

use crate::text::push_str;

verus! {

/// A single flock's prompt and goals.
#[derive(Debug)]
pub struct FlockContext {
    pub flock_name: String,
    pub prompt: Option<String>,
    pub goals: Option<String>,
}

/// A titled section: `"\n\n--- TITLE [name] ---\n"` followed by the body.
pub open spec fn section(title: Seq<char>, name: Seq<char>, body: Seq<char>) -> Seq<char> {
    "\n\n--- "@ + title + " ["@ + name + "] ---\n"@ + body
}

/// The prompt sections of the flocks in `fcs` that have a prompt, in order.
pub open spec fn prompt_sections(fcs: Seq<FlockContext>) -> Seq<char>
    decreases fcs.len(),
{
    if fcs.len() == 0 {
        Seq::empty()
    } else {
        prompt_sections(fcs.drop_last()) + match fcs.last().prompt {
            Some(p) => section("PROMPT"@, fcs.last().flock_name@, p@),
            None => Seq::empty(),
        }
    }
}

/// The goals sections of the flocks in `fcs` that have goals, in order.
pub open spec fn goals_sections(fcs: Seq<FlockContext>) -> Seq<char>
    decreases fcs.len(),
{
    if fcs.len() == 0 {
        Seq::empty()
    } else {
        goals_sections(fcs.drop_last()) + match fcs.last().goals {
            Some(g) => section("GOALS"@, fcs.last().flock_name@, g@),
            None => Seq::empty(),
        }
    }
}

/// Appends a titled section.
fn push_section(out: &mut String, title: &str, name: &str, body: &str)
    ensures
        final(out)@ == old(out)@ + section(title@, name@, body@),
{
    push_str(out, "\n\n--- ");
    push_str(out, title);
    push_str(out, " [");
    push_str(out, name);
    push_str(out, "] ---\n");
    push_str(out, body);
}

/// Format flock contexts for the system prompt: the prompts of all flocks
/// first, then the goals of all flocks, each attributed by flock name.
pub fn format_flock_sections(contexts: &[FlockContext]) -> (r: String)
    ensures
        r@ == prompt_sections(contexts@) + goals_sections(contexts@),
{
    let mut out = String::new();
    let n = contexts.len();
    let mut i: usize = 0;
    while i < n
        invariant
            n == contexts@.len(),
            i <= n,
            out@ == prompt_sections(contexts@.take(i as int)),
        decreases n - i,
    {
        let fc = &contexts[i];
        assert(contexts@.take(i + 1).drop_last() =~= contexts@.take(i as int));
        assert(contexts@.take(i + 1).last() == *fc);
        if let Some(prompt) = &fc.prompt {
            push_section(&mut out, "PROMPT", fc.flock_name.as_str(), prompt.as_str());
        } else {
            assert(out@ =~= out@ + Seq::<char>::empty());
        }
        i = i + 1;
    }
    assert(contexts@.take(n as int) =~= contexts@);
    let ghost prompts = out@;
    let mut i: usize = 0;
    while i < n
        invariant
            n == contexts@.len(),
            i <= n,
            out@ == prompts + goals_sections(contexts@.take(i as int)),
        decreases n - i,
    {
        let fc = &contexts[i];
        assert(contexts@.take(i + 1).drop_last() =~= contexts@.take(i as int));
        assert(contexts@.take(i + 1).last() == *fc);
        if let Some(goals) = &fc.goals {
            push_section(&mut out, "GOALS", fc.flock_name.as_str(), goals.as_str());
        } else {
            assert(out@ =~= out@ + Seq::<char>::empty());
        }
        i = i + 1;
    }
    assert(contexts@.take(n as int) =~= contexts@);
    out
}

} // verus!
