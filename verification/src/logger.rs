//! The lines of the log. Writing them out is left to the caller.
use vstd::prelude::*;

verus! {

/// The name of an event in brackets, or nothing for an empty name.
pub open spec fn event_label(event: Seq<char>) -> Seq<char> {
    if event.len() > 0 {
        "("@ + event + ")"@
    } else {
        Seq::empty()
    }
}

pub fn parse_event_name(event: String) -> (r: String)
    ensures
        r@ == event_label(event@),
{
    if event.as_str().unicode_len() > 0 {
        let mut r = String::from_str("(");
        r.append(event.as_str());
        r.append(")");
        r
    } else {
        String::new()
    }
}

/// A line of a level: the time, then the level in its colour with the
/// event in brackets behind it, then the message. The markers in `$[..]`
/// are filled in by the logger that writes the line.
pub fn level_line(colour: &str, level: &str, event: String, message: &str) -> (r: String)
    ensures
        r@ == "[$[now:time]] ["@ + colour@ + level@ + event_label(event@) + "$[reset]] "@
            + message@,
{
    let mut r = String::from_str("[$[now:time]] [");
    r.append(colour);
    r.append(level);
    r.append(parse_event_name(event).as_str());
    r.append("$[reset]] ");
    r.append(message);
    r
}

/// A line of a task: the time, then the name of the task in bold green,
/// then the message.
pub fn task_line(event: &str, message: &str) -> (r: String)
    ensures
        r@ == "[$[now:time]] [$[effect:bold]$[fg:green]"@ + event@ + "$[reset]] "@ + message@,
{
    let mut r = String::from_str("[$[now:time]] [$[effect:bold]$[fg:green]");
    r.append(event);
    r.append("$[reset]] ");
    r.append(message);
    r
}

} // verus!
