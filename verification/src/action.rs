//! Outbound protocol actions. The verified core never touches the
//! connection: it returns these values and the caller performs them
//! through the protocol boundary.

use vstd::prelude::*;

use crate::command::{AdminCommand, CommandView};
use crate::text::{spec_is_blank, is_blank};

verus! {

/// One outbound primitive of the protocol boundary.
pub enum Action {
    /// Send `text` as a message to `target`.
    SendMessage { target: String, text: String },
    /// Join `channel`.
    SendJoin { channel: String },
    /// Leave `channel`.
    SendPart { channel: String },
    /// Quit the session with `reason`.
    SendQuit { reason: String },
    /// Send `text` as an emote action to `target`.
    SendAction { target: String, text: String },
}

/// The mathematical shape of an outbound action.
pub enum ActionView {
    SendMessage { target: Seq<char>, text: Seq<char> },
    SendJoin { channel: Seq<char> },
    SendPart { channel: Seq<char> },
    SendQuit { reason: Seq<char> },
    SendAction { target: Seq<char>, text: Seq<char> },
}

impl View for Action {
    type V = ActionView;

    open spec fn view(&self) -> ActionView {
        match self {
            Action::SendMessage { target, text } => ActionView::SendMessage {
                target: target@,
                text: text@,
            },
            Action::SendJoin { channel } => ActionView::SendJoin { channel: channel@ },
            Action::SendPart { channel } => ActionView::SendPart { channel: channel@ },
            Action::SendQuit { reason } => ActionView::SendQuit { reason: reason@ },
            Action::SendAction { target, text } => ActionView::SendAction {
                target: target@,
                text: text@,
            },
        }
    }
}

/// The views of a sequence of actions.
pub open spec fn action_views(s: Seq<Action>) -> Seq<ActionView> {
    s.map_values(|a: Action| a@)
}

/// The outbound action a parsed command calls for, directly by its
/// table: `say`/`msg` send to the command's own target, `quit`/`exit`
/// quit with the written reason unless it is blank, in which case the
/// fixed default reason is sent. `Load` is not an outbound action (the
/// loader handles it) and `Unknown` is silently ignored: both map to
/// `None`.
pub open spec fn spec_command_action(c: CommandView) -> Option<ActionView> {
    match c {
        CommandView::Say { target, text } => Some(ActionView::SendMessage { target, text }),
        CommandView::Join { channel } => Some(ActionView::SendJoin { channel }),
        CommandView::Part { channel } => Some(ActionView::SendPart { channel }),
        CommandView::Quit { reason } => Some(
            ActionView::SendQuit {
                reason: if spec_is_blank(reason) {
                    "reneko"@
                } else {
                    reason
                },
            },
        ),
        CommandView::Me { target, text } => Some(ActionView::SendAction { target, text }),
        CommandView::Load { .. } => None,
        CommandView::Unknown => None,
    }
}

/// Builds the outbound action for a parsed command, exactly as
/// [`spec_command_action`] states.
pub fn command_action(c: &AdminCommand) -> (r: Option<Action>)
    ensures
        match r {
            None => spec_command_action(c@) is None,
            Some(a) => spec_command_action(c@) == Some(a@),
        },
{
    match c {
        AdminCommand::Say { target, text } => Some(
            Action::SendMessage { target: target.clone(), text: text.clone() },
        ),
        AdminCommand::Join { channel } => Some(Action::SendJoin { channel: channel.clone() }),
        AdminCommand::Part { channel } => Some(Action::SendPart { channel: channel.clone() }),
        AdminCommand::Quit { reason } => {
            let reason = if is_blank(reason.as_str()) {
                String::from_str("reneko")
            } else {
                reason.clone()
            };
            Some(Action::SendQuit { reason })
        },
        AdminCommand::Me { target, text } => Some(
            Action::SendAction { target: target.clone(), text: text.clone() },
        ),
        AdminCommand::Load { .. } => None,
        AdminCommand::Unknown => None,
    }
}

/// The views of the replies a dispatch pass collected.
pub open spec fn reply_views(rs: Seq<Option<String>>) -> Seq<Option<Seq<char>>> {
    rs.map_values(
        |o: Option<String>|
            match o {
                Some(s) => Some(s@),
                None => None,
            },
    )
}

/// The outbound actions one dispatch pass calls for: for each reply, in
/// order, a returned string is relayed verbatim as a message to the
/// event's target; `None` means no relay.
pub open spec fn spec_reply_actions(target: Seq<char>, rs: Seq<Option<Seq<char>>>) -> Seq<
    ActionView,
>
    decreases rs.len(),
{
    if rs.len() == 0 {
        Seq::empty()
    } else {
        let rest = spec_reply_actions(target, rs.skip(1));
        match rs[0] {
            Some(text) => seq![ActionView::SendMessage { target, text }] + rest,
            None => rest,
        }
    }
}

proof fn lemma_reply_actions_push(target: Seq<char>, rs: Seq<Option<Seq<char>>>, x: Option<
    Seq<char>,
>)
    ensures
        spec_reply_actions(target, rs.push(x)) == spec_reply_actions(target, rs) + (match x {
            Some(text) => seq![ActionView::SendMessage { target, text }],
            None => Seq::empty()
        }),
    decreases rs.len(),
{
    let p = rs.push(x);
    let tail = (match x {
        Some(text) => seq![ActionView::SendMessage { target, text }],
        None => Seq::<ActionView>::empty(),
    });
    if rs.len() == 0 {
        assert(p.len() == 1);
        assert(p[0] == x);
        assert(p.skip(1) =~= Seq::<Option<Seq<char>>>::empty());
        assert(spec_reply_actions(target, Seq::<Option<Seq<char>>>::empty())
            == Seq::<ActionView>::empty());
        assert(spec_reply_actions(target, p) =~= tail);
        assert(spec_reply_actions(target, rs) + tail =~= tail);
    } else {
        assert(p.skip(1) =~= rs.skip(1).push(x));
        lemma_reply_actions_push(target, rs.skip(1), x);
        assert(p[0] == rs[0]);
        match rs[0] {
            Some(text) => {
                assert(spec_reply_actions(target, p) == seq![
                    ActionView::SendMessage { target, text },
                ] + (spec_reply_actions(target, rs.skip(1)) + tail));
                assert(seq![ActionView::SendMessage { target, text }] + (spec_reply_actions(
                    target,
                    rs.skip(1),
                ) + tail) =~= (seq![ActionView::SendMessage { target, text }]
                    + spec_reply_actions(target, rs.skip(1))) + tail);
            },
            None => {},
        }
    }
}

/// Turns the replies of one dispatch pass into outbound actions, exactly
/// as [`spec_reply_actions`] states: each returned string becomes, in
/// dispatch order, one message to `target`; absent replies send nothing.
pub fn reply_actions(target: &str, rs: &Vec<Option<String>>) -> (acts: Vec<Action>)
    ensures
        action_views(acts@) == spec_reply_actions(target@, reply_views(rs@)),
{
    let ghost all = reply_views(rs@);
    let mut acts: Vec<Action> = Vec::new();
    let mut i: usize = 0;
    while i < rs.len()
        invariant
            i <= rs@.len(),
            all == reply_views(rs@),
            action_views(acts@) == spec_reply_actions(target@, all.take(i as int)),
        decreases rs@.len() - i,
    {
        let ghost done = all.take(i as int);
        let ghost acts_before = acts@;
        match &rs[i] {
            Some(text) => {
                acts.push(
                    Action::SendMessage { target: String::from_str(target), text: text.clone() },
                );
            },
            None => {},
        }
        proof {
            lemma_reply_actions_push(target@, done, all[i as int]);
            assert(all.take(i + 1) =~= done.push(all[i as int]));
            match rs@[i as int] {
                Some(text) => {
                    assert(action_views(acts@) =~= action_views(acts_before) + seq![
                        ActionView::SendMessage { target: target@, text: text@ },
                    ]);
                },
                None => {},
            }
        }
        i = i + 1;
    }
    proof {
        assert(all.take(rs@.len() as int) =~= all);
    }
    acts
}

} // verus!
