//! The admin command grammar. A chat message whose text starts with the
//! configured prefix is an admin command: the prefix is dropped, the rest
//! is split on single spaces (empty tokens from consecutive spaces are
//! kept positionally), token 0 names the command and the remaining tokens
//! are its arguments. Anything of an unrecognized name or shape parses to
//! [`AdminCommand::Unknown`], which the host silently ignores.

use vstd::prelude::*;

use crate::text::{
    spec_split, spec_starts_with, spec_join, views_of, split_spaces, starts_with_prefix, str_eq,
    join_from, lemma_split_nonempty,
};

verus! {

/// A parsed host control operation.
pub enum AdminCommand {
    /// Send `text` to `target`.
    Say { target: String, text: String },
    /// Join `channel`.
    Join { channel: String },
    /// Leave `channel`.
    Part { channel: String },
    /// Quit with `reason` exactly as written, possibly blank; the default
    /// reason is applied when the action is built, not here.
    Quit { reason: String },
    /// Send the emote `text` to `target`.
    Me { target: String, text: String },
    /// Load the dynamic module at `path` as a new extension.
    Load { path: String },
    /// Recognized prefix, unrecognized command name or argument shape.
    Unknown,
}

/// The mathematical shape of a parsed command: each field as a sequence
/// of characters.
pub enum CommandView {
    Say { target: Seq<char>, text: Seq<char> },
    Join { channel: Seq<char> },
    Part { channel: Seq<char> },
    Quit { reason: Seq<char> },
    Me { target: Seq<char>, text: Seq<char> },
    Load { path: Seq<char> },
    Unknown,
}

impl View for AdminCommand {
    type V = CommandView;

    open spec fn view(&self) -> CommandView {
        match self {
            AdminCommand::Say { target, text } => CommandView::Say {
                target: target@,
                text: text@,
            },
            AdminCommand::Join { channel } => CommandView::Join { channel: channel@ },
            AdminCommand::Part { channel } => CommandView::Part { channel: channel@ },
            AdminCommand::Quit { reason } => CommandView::Quit { reason: reason@ },
            AdminCommand::Me { target, text } => CommandView::Me { target: target@, text: text@ },
            AdminCommand::Load { path } => CommandView::Load { path: path@ },
            AdminCommand::Unknown => CommandView::Unknown,
        }
    }
}

/// The command named by the token sequence of an admin message, with the
/// prefix already dropped. `say`/`msg` and `me` take a target and any
/// remaining words; `join`, `part`/`leave` and `load` take exactly one
/// argument; `quit`/`exit` take the whole remainder (possibly empty) as
/// the reason.
pub open spec fn spec_command_of_tokens(ts: Seq<Seq<char>>) -> CommandView
    recommends
        ts.len() >= 1,
{
    let cmd = ts[0];
    if (cmd == "say"@ || cmd == "msg"@) && ts.len() >= 2 {
        CommandView::Say { target: ts[1], text: spec_join(ts.skip(2)) }
    } else if cmd == "join"@ && ts.len() == 2 {
        CommandView::Join { channel: ts[1] }
    } else if (cmd == "part"@ || cmd == "leave"@) && ts.len() == 2 {
        CommandView::Part { channel: ts[1] }
    } else if cmd == "quit"@ || cmd == "exit"@ {
        CommandView::Quit { reason: spec_join(ts.skip(1)) }
    } else if cmd == "me"@ && ts.len() >= 2 {
        CommandView::Me { target: ts[1], text: spec_join(ts.skip(2)) }
    } else if cmd == "load"@ && ts.len() == 2 {
        CommandView::Load { path: ts[1] }
    } else {
        CommandView::Unknown
    }
}

/// What an inbound message means to the admin surface: `None` when it
/// does not start with the prefix (it is ordinary conversation), else the
/// command parsed from the text after the prefix.
pub open spec fn spec_parse(prefix: Seq<char>, msg: Seq<char>) -> Option<CommandView> {
    if spec_starts_with(msg, prefix) {
        Some(spec_command_of_tokens(spec_split(msg.skip(prefix.len() as int))))
    } else {
        None
    }
}

/// Parses one inbound message against the configured prefix, exactly as
/// [`spec_parse`] describes.
pub fn parse_admin_command(prefix: &str, message: &str) -> (r: Option<AdminCommand>)
    ensures
        match r {
            None => spec_parse(prefix@, message@) is None,
            Some(c) => spec_parse(prefix@, message@) == Some(c@),
        },
{
    if !starts_with_prefix(message, prefix) {
        return None;
    }
    let np = prefix.unicode_len();
    let nm = message.unicode_len();
    let rest = message.substring_char(np, nm);
    let ts = split_spaces(rest);
    proof {
        lemma_split_nonempty(rest@);
        assert(ts@.len() == views_of(ts@).len());
    }
    let cmd = &ts[0];
    let ghost tsv = spec_split(message@.skip(prefix@.len() as int));
    proof {
        assert(rest@ == message@.skip(prefix@.len() as int));
        assert(views_of(ts@) == tsv);
        assert(cmd@ == tsv[0]);
    }
    let r: AdminCommand = if (str_eq(cmd.as_str(), "say") || str_eq(cmd.as_str(), "msg"))
        && ts.len() >= 2 {
        AdminCommand::Say { target: ts[1].clone(), text: join_from(&ts, 2) }
    } else if str_eq(cmd.as_str(), "join") && ts.len() == 2 {
        AdminCommand::Join { channel: ts[1].clone() }
    } else if (str_eq(cmd.as_str(), "part") || str_eq(cmd.as_str(), "leave")) && ts.len() == 2 {
        AdminCommand::Part { channel: ts[1].clone() }
    } else if str_eq(cmd.as_str(), "quit") || str_eq(cmd.as_str(), "exit") {
        AdminCommand::Quit { reason: join_from(&ts, 1) }
    } else if str_eq(cmd.as_str(), "me") && ts.len() >= 2 {
        AdminCommand::Me { target: ts[1].clone(), text: join_from(&ts, 2) }
    } else if str_eq(cmd.as_str(), "load") && ts.len() == 2 {
        AdminCommand::Load { path: ts[1].clone() }
    } else {
        AdminCommand::Unknown
    };
    proof {
        if ts@.len() >= 2 {
            assert(ts@[1]@ == tsv[1]);
        }
        assert(views_of(ts@).skip(2) =~= tsv.skip(2));
        assert(views_of(ts@).skip(1) =~= tsv.skip(1));
    }
    Some(r)
}

} // verus!
